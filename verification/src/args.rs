//! Arguments of the command-line tool.
//!
//! ```text
//! aegis init   -p <pass> -o <vault.aegis>
//! aegis add    -p <pass> -f <vault> -n <newpass>
//! aegis seal   -p <pass> -f <vault> -i <in> -o <out>
//! aegis open   -p <pass> -f <vault> -i <in> -o <out>
//! aegis verify -p <pass> -f <vault>
//! ```

use vstd::hash_map::StringHashMap;
use vstd::prelude::*;
use vstd::string::{StrSliceExecFns, StringExecFns};

verus! {

/// The text of each flag's value.
pub open spec fn flag_texts(flags: Map<Seq<char>, String>) -> Map<Seq<char>, Seq<char>> {
    flags.map_values(|value: String| value@)
}

/// The texts of arguments.
pub open spec fn texts(argv: Seq<String>) -> Seq<Seq<char>> {
    Seq::new(argv.len(), |i: int| argv[i]@)
}

/// The flags that the arguments from position `i` on add to `flags`: an
/// argument that begins with a dash is a flag, and the argument behind it its
/// value; other arguments are passed over.
pub open spec fn flags_from(
    args: Seq<Seq<char>>,
    i: int,
    flags: Map<Seq<char>, Seq<char>>,
) -> Map<Seq<char>, Seq<char>>
    decreases args.len() - i + 2,
{
    if i >= args.len() {
        flags
    } else if args[i].len() > 0 && args[i][0] == '-' {
        let name = args[i].subrange(1, args[i].len() as int);
        let value = if i + 1 < args.len() {
            args[i + 1]
        } else {
            Seq::empty()
        };
        flags_from(args, i + 2, flags.insert(name, value))
    } else {
        flags_from(args, i + 1, flags)
    }
}

/// Splits arguments, the program's name first, into the command and its flags.
/// Returns nothing where there is no command.
pub fn parse_args(argv: &[String]) -> (result: Option<
    (String, StringHashMap<String>),
>)
    ensures
        match result {
            Some((cmd, flags)) => {
                &&& argv@.len() >= 2
                &&& cmd@ == argv@[1]@
                &&& flag_texts(flags@) == flags_from(texts(argv@), 2, Map::empty())
            },
            None => argv@.len() < 2,
        },
{
    if argv.len() < 2 {
        return None;
    }
    let cmd: String = argv[1].clone();
    let mut flags: StringHashMap<String> = StringHashMap::new();
    assert(flag_texts(flags@) =~= Map::empty());
    let mut i: usize = 2;
    while i < argv.len()
        invariant
            argv@.len() >= 2,
            flags_from(texts(argv@), i as int, flag_texts(flags@)) == flags_from(
                texts(argv@),
                2,
                Map::empty(),
            ),
        decreases argv@.len() - i,
    {
        let arg: &str = argv[i].as_str();
        let len: usize = arg.unicode_len();
        if len > 0 && arg.get_char(0) == '-' {
            let name: String = String::from_str(arg.substring_char(1, len));
            let value: String = if argv.len() - i > 1 {
                argv[i + 1].clone()
            } else {
                String::new()
            };
            let ghost before = flags@;
            let ghost (n, v) = (name@, value);
            flags.insert(name, value);
            assert(flag_texts(flags@) =~= flag_texts(before).insert(n, v@));
            if argv.len() - i > 1 {
                i = i + 2;
            } else {
                assert(flags_from(texts(argv@), i + 2, flag_texts(flags@)) == flag_texts(flags@));
                i = argv.len();
            }
        } else {
            i = i + 1;
        }
    }
    Some((cmd, flags))
}

/// The value of a flag, if it is there and not empty.
pub open spec fn required(flags: Map<Seq<char>, Seq<char>>, name: Seq<char>) -> Option<Seq<char>> {
    if flags.contains_key(name) && flags[name].len() > 0 {
        Some(flags[name])
    } else {
        None
    }
}

/// Why arguments are refused.
#[derive(Debug)]
pub enum UsageError {
    /// There is no command.
    NoCommand,
    /// The command is unknown.
    Unknown(String),
    /// A flag is missing, or its value is empty.
    Missing(String),
}

/// The texts of a [`UsageError`].
pub enum UsageModel {
    NoCommand,
    Unknown(Seq<char>),
    Missing(Seq<char>),
}

impl View for UsageError {
    type V = UsageModel;

    open spec fn view(&self) -> UsageModel {
        match self {
            UsageError::NoCommand => UsageModel::NoCommand,
            UsageError::Unknown(cmd) => UsageModel::Unknown(cmd@),
            UsageError::Missing(name) => UsageModel::Missing(name@),
        }
    }
}

/// The value of a flag that must be there, and not be empty.
pub fn req(flags: &StringHashMap<String>, name: &str) -> (result: Result<String, UsageError>)
    ensures
        match result {
            Ok(value) => required(flag_texts(flags@), name@) == Some(value@),
            Err(e) => required(flag_texts(flags@), name@) is None && e@ == UsageModel::Missing(name@),
        },
{
    if let Some(value) = flags.get(name) {
        if !value.as_str().is_empty() {
            return Ok(value.clone());
        }
    }
    Err(UsageError::Missing(String::from_str(name)))
}

/// A command with its arguments.
#[derive(Debug)]
pub enum Command {
    /// Create a vault file with one key slot.
    Init { pass: String, out: String },
    /// Add a key slot for another user.
    Add { pass: String, new_pass: String, file: String },
    /// Encrypt a file.
    Seal { pass: String, file: String, input: String, output: String },
    /// Decrypt a file.
    Open { pass: String, file: String, input: String, output: String },
    /// Check the master key of a vault.
    Verify { pass: String, file: String },
}

/// The texts of a [`Command`].
pub enum CommandModel {
    Init { pass: Seq<char>, out: Seq<char> },
    Add { pass: Seq<char>, new_pass: Seq<char>, file: Seq<char> },
    Seal { pass: Seq<char>, file: Seq<char>, input: Seq<char>, output: Seq<char> },
    Open { pass: Seq<char>, file: Seq<char>, input: Seq<char>, output: Seq<char> },
    Verify { pass: Seq<char>, file: Seq<char> },
}

impl View for Command {
    type V = CommandModel;

    open spec fn view(&self) -> CommandModel {
        match self {
            Command::Init { pass, out } => CommandModel::Init { pass: pass@, out: out@ },
            Command::Add { pass, new_pass, file } => CommandModel::Add {
                pass: pass@,
                new_pass: new_pass@,
                file: file@,
            },
            Command::Seal { pass, file, input, output } => CommandModel::Seal {
                pass: pass@,
                file: file@,
                input: input@,
                output: output@,
            },
            Command::Open { pass, file, input, output } => CommandModel::Open {
                pass: pass@,
                file: file@,
                input: input@,
                output: output@,
            },
            Command::Verify { pass, file } => CommandModel::Verify { pass: pass@, file: file@ },
        }
    }
}

/// The value of a flag that must be there, and not be empty.
pub open spec fn needed(flags: Map<Seq<char>, Seq<char>>, name: Seq<char>) -> Result<
    Seq<char>,
    UsageModel,
> {
    match required(flags, name) {
        Some(value) => Ok(value),
        None => Err(UsageModel::Missing(name)),
    }
}

/// The command that a name and flags ask for. Of several missing flags the
/// first is reported, in the order that [`command`] lists.
pub open spec fn command_of(cmd: Seq<char>, flags: Map<Seq<char>, Seq<char>>) -> Result<
    CommandModel,
    UsageModel,
> {
    let p = needed(flags, "p"@);
    let f = needed(flags, "f"@);
    let i = needed(flags, "i"@);
    let n = needed(flags, "n"@);
    let o = needed(flags, "o"@);
    if cmd == "init"@ {
        match (p, o) {
            (Err(e), _) => Err(e),
            (_, Err(e)) => Err(e),
            (Ok(pass), Ok(out)) => Ok(CommandModel::Init { pass, out }),
        }
    } else if cmd == "add"@ {
        match (p, n, f) {
            (Err(e), _, _) => Err(e),
            (_, Err(e), _) => Err(e),
            (_, _, Err(e)) => Err(e),
            (Ok(pass), Ok(new_pass), Ok(file)) => Ok(CommandModel::Add { pass, new_pass, file }),
        }
    } else if cmd == "seal"@ || cmd == "open"@ {
        match (p, f, i, o) {
            (Err(e), _, _, _) => Err(e),
            (_, Err(e), _, _) => Err(e),
            (_, _, Err(e), _) => Err(e),
            (_, _, _, Err(e)) => Err(e),
            (Ok(pass), Ok(file), Ok(input), Ok(output)) => if cmd == "seal"@ {
                Ok(CommandModel::Seal { pass, file, input, output })
            } else {
                Ok(CommandModel::Open { pass, file, input, output })
            },
        }
    } else if cmd == "verify"@ {
        match (p, f) {
            (Err(e), _) => Err(e),
            (_, Err(e)) => Err(e),
            (Ok(pass), Ok(file)) => Ok(CommandModel::Verify { pass, file }),
        }
    } else {
        Err(UsageModel::Unknown(cmd))
    }
}

/// The command that a name and flags ask for.
///
/// - `init` needs `-p` and `-o`;
/// - `add` needs `-p`, `-n` and `-f`;
/// - `seal` and `open` need `-p`, `-f`, `-i` and `-o`;
/// - `verify` needs `-p` and `-f`.
pub fn command(cmd: String, flags: &StringHashMap<String>) -> (result: Result<Command, UsageError>)
    ensures
        match result {
            Ok(command) => command_of(cmd@, flag_texts(flags@)) == Ok::<CommandModel, UsageModel>(command@),
            Err(e) => command_of(cmd@, flag_texts(flags@)) == Err::<CommandModel, UsageModel>(e@),
        },
{
    if cmd == String::from_str("init") {
        let pass: String = req(flags, "p")?;
        let out: String = req(flags, "o")?;
        Ok(Command::Init { pass, out })
    } else if cmd == String::from_str("add") {
        let pass: String = req(flags, "p")?;
        let new_pass: String = req(flags, "n")?;
        let file: String = req(flags, "f")?;
        Ok(Command::Add { pass, new_pass, file })
    } else if cmd == String::from_str("seal") {
        let pass: String = req(flags, "p")?;
        let file: String = req(flags, "f")?;
        let input: String = req(flags, "i")?;
        let output: String = req(flags, "o")?;
        Ok(Command::Seal { pass, file, input, output })
    } else if cmd == String::from_str("open") {
        let pass: String = req(flags, "p")?;
        let file: String = req(flags, "f")?;
        let input: String = req(flags, "i")?;
        let output: String = req(flags, "o")?;
        Ok(Command::Open { pass, file, input, output })
    } else if cmd == String::from_str("verify") {
        let pass: String = req(flags, "p")?;
        let file: String = req(flags, "f")?;
        Ok(Command::Verify { pass, file })
    } else {
        Err(UsageError::Unknown(cmd))
    }
}

/// The command that arguments, the program's name first, ask for.
pub open spec fn command_line(args: Seq<Seq<char>>) -> Result<CommandModel, UsageModel> {
    if args.len() < 2 {
        Err(UsageModel::NoCommand)
    } else {
        command_of(args[1], flags_from(args, 2, Map::empty()))
    }
}

/// Reads the arguments, the program's name first.
pub fn parse_command(argv: &[String]) -> (result: Result<Command, UsageError>)
    ensures
        match result {
            Ok(command) => command_line(texts(argv@)) == Ok::<CommandModel, UsageModel>(command@),
            Err(e) => command_line(texts(argv@)) == Err::<CommandModel, UsageModel>(e@),
        },
{
    match parse_args(argv) {
        Some((cmd, flags)) => command(cmd, &flags),
        None => Err(UsageError::NoCommand),
    }
}

/// Law: arguments are the texts of the strings, in their order.
pub proof fn law_texts(argv: Seq<String>)
    ensures
        texts(argv).len() == argv.len(),
        forall|i: int| 0 <= i < argv.len() ==> #[trigger] texts(argv)[i] == argv[i]@,
{
}

/// Law: the text of a flag's value is that of the value.
pub proof fn law_flag_texts(flags: Map<Seq<char>, String>, name: Seq<char>)
    ensures
        flag_texts(flags).contains_key(name) <==> flags.contains_key(name),
        flags.contains_key(name) ==> flag_texts(flags)[name] == flags[name]@,
{
}

/// Law: a flag and its value at the end of the arguments set the flag to that
/// value, whatever was set before, and nothing else.
pub proof fn law_last_value_counts(
    args: Seq<Seq<char>>,
    i: int,
    flags: Map<Seq<char>, Seq<char>>,
    name: Seq<char>,
    value: Seq<char>,
)
    requires
        i == args.len(),
    ensures
        flags_from(args.push(seq!['-'] + name).push(value), i, flags) == flags.insert(name, value),
{
    let all = args.push(seq!['-'] + name).push(value);
    assert(all[i].subrange(1, all[i].len() as int) =~= name);
    assert(flags_from(all, i + 2, flags.insert(name, value)) == flags.insert(name, value));
}

/// Law: how the arguments from a position on are read: at the end nothing is
/// added; an argument that begins with a dash names a flag, and sets it to the
/// next argument, or to nothing at the end; any other is passed over.
pub proof fn law_flags_are_read_in_turn(
    args: Seq<Seq<char>>,
    i: int,
    flags: Map<Seq<char>, Seq<char>>,
)
    ensures
        i >= args.len() ==> flags_from(args, i, flags) == flags,
        i < args.len() && !(args[i].len() > 0 && args[i][0] == '-') ==> flags_from(args, i, flags)
            == flags_from(args, i + 1, flags),
        i + 1 < args.len() && args[i].len() > 0 && args[i][0] == '-' ==> flags_from(args, i, flags)
            == flags_from(
            args,
            i + 2,
            flags.insert(args[i].subrange(1, args[i].len() as int), args[i + 1]),
        ),
        i + 1 == args.len() && args[i].len() > 0 && args[i][0] == '-' ==> flags_from(args, i, flags)
            == flags.insert(args[i].subrange(1, args[i].len() as int), Seq::empty()),
{
    if i + 1 == args.len() {
        let name = args[i].subrange(1, args[i].len() as int);
        let set = flags.insert(name, Seq::empty());
        assert(flags_from(args, i + 2, set) == set);
    }
}

/// Law: the command of a command line is its second argument, and its flags are
/// read from the third on.
pub proof fn law_command_line(args: Seq<Seq<char>>)
    ensures
        args.len() < 2 ==> command_line(args) == Err::<CommandModel, UsageModel>(
            UsageModel::NoCommand,
        ),
        args.len() >= 2 ==> command_line(args) == command_of(
            args[1],
            flags_from(args, 2, Map::empty()),
        ),
{
}

/// Law: a needed flag is there if it is set to something; otherwise it is
/// reported by its name.
pub proof fn law_needed_flags(flags: Map<Seq<char>, Seq<char>>, name: Seq<char>)
    ensures
        flags.contains_key(name) && flags[name].len() > 0 ==> needed(flags, name) == Ok::<
            Seq<char>,
            UsageModel,
        >(flags[name]),
        !(flags.contains_key(name) && flags[name].len() > 0) ==> needed(flags, name) == Err::<
            Seq<char>,
            UsageModel,
        >(UsageModel::Missing(name)),
        required(flags, name) is Some <==> flags.contains_key(name) && flags[name].len() > 0,
        required(flags, name) matches Some(value) ==> value == flags[name],
{
}

/// Law: what `init` takes, and which missing flag it reports.
pub proof fn law_init_command(flags: Map<Seq<char>, Seq<char>>)
    ensures
        command_of("init"@, flags) == (if needed(flags, "p"@) is Err {
            Err::<CommandModel, UsageModel>(UsageModel::Missing("p"@))
        } else if needed(flags, "o"@) is Err {
            Err(UsageModel::Missing("o"@))
        } else {
            Ok(CommandModel::Init { pass: flags["p"@], out: flags["o"@] })
        }),
{
}

/// Law: what `add` takes, and which missing flag it reports.
pub proof fn law_add_command(flags: Map<Seq<char>, Seq<char>>)
    ensures
        command_of("add"@, flags) == (if needed(flags, "p"@) is Err {
            Err::<CommandModel, UsageModel>(UsageModel::Missing("p"@))
        } else if needed(flags, "n"@) is Err {
            Err(UsageModel::Missing("n"@))
        } else if needed(flags, "f"@) is Err {
            Err(UsageModel::Missing("f"@))
        } else {
            Ok(
                CommandModel::Add { pass: flags["p"@], new_pass: flags["n"@], file: flags["f"@] },
            )
        }),
{
    reveal_strlit("init");
    reveal_strlit("add");
    assert("add"@.len() != "init"@.len());
}

/// Law: what `seal` and `open` take, and which missing flag they report.
pub proof fn law_seal_and_open_commands(flags: Map<Seq<char>, Seq<char>>)
    ensures
        ({
            let missing = if needed(flags, "p"@) is Err {
                Some("p"@)
            } else if needed(flags, "f"@) is Err {
                Some("f"@)
            } else if needed(flags, "i"@) is Err {
                Some("i"@)
            } else if needed(flags, "o"@) is Err {
                Some("o"@)
            } else {
                None
            };
            match missing {
                Some(name) => {
                    &&& command_of("seal"@, flags) == Err::<CommandModel, UsageModel>(
                        UsageModel::Missing(name),
                    )
                    &&& command_of("open"@, flags) == Err::<CommandModel, UsageModel>(
                        UsageModel::Missing(name),
                    )
                },
                None => {
                    &&& command_of("seal"@, flags) == Ok::<CommandModel, UsageModel>(
                        CommandModel::Seal {
                            pass: flags["p"@],
                            file: flags["f"@],
                            input: flags["i"@],
                            output: flags["o"@],
                        },
                    )
                    &&& command_of("open"@, flags) == Ok::<CommandModel, UsageModel>(
                        CommandModel::Open {
                            pass: flags["p"@],
                            file: flags["f"@],
                            input: flags["i"@],
                            output: flags["o"@],
                        },
                    )
                },
            }
        }),
{
    reveal_strlit("init");
    reveal_strlit("add");
    reveal_strlit("seal");
    reveal_strlit("open");
    assert("seal"@[0] != "init"@[0] && "open"@[0] != "init"@[0] && "open"@[0] != "seal"@[0]);
    assert("add"@.len() != "seal"@.len() && "add"@.len() != "open"@.len());
}

/// Law: what `verify` takes, and which missing flag it reports.
pub proof fn law_verify_command(flags: Map<Seq<char>, Seq<char>>)
    ensures
        command_of("verify"@, flags) == (if needed(flags, "p"@) is Err {
            Err::<CommandModel, UsageModel>(UsageModel::Missing("p"@))
        } else if needed(flags, "f"@) is Err {
            Err(UsageModel::Missing("f"@))
        } else {
            Ok(CommandModel::Verify { pass: flags["p"@], file: flags["f"@] })
        }),
{
    reveal_strlit("init");
    reveal_strlit("add");
    reveal_strlit("seal");
    reveal_strlit("open");
    reveal_strlit("verify");
    assert("verify"@.len() == 6 && "init"@.len() == 4 && "add"@.len() == 3 && "seal"@.len() == 4
        && "open"@.len() == 4);
}

/// Law: any other command is reported as unknown.
pub proof fn law_unknown_command(cmd: Seq<char>, flags: Map<Seq<char>, Seq<char>>)
    requires
        cmd != "init"@,
        cmd != "add"@,
        cmd != "seal"@,
        cmd != "open"@,
        cmd != "verify"@,
    ensures
        command_of(cmd, flags) == Err::<CommandModel, UsageModel>(UsageModel::Unknown(cmd)),
{
}

} // verus!
