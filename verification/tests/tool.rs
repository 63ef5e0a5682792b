//! The command-line tool: arguments, files, operations.

use soteria_aegis::args::{parse_args, parse_command, req, Command, UsageError};
use soteria_aegis::container::{
    read_blob, read_vault, write_blob, write_vault, BlobError, VaultFileError, VAULT_MAGIC,
};
use soteria_aegis::tool::{
    add_user, init_vault, new_vault, open_data, open_vault, seal_data, vault_to_file, ToolError,
    TOOL_AAD, TOOL_ITERATIONS, TOOL_MEMORY_KIB, TOOL_SALT,
};
use soteria_aegis::{AegisAlgoTag, AegisError, AegisVault, Domain, MASTER_LEN};

fn argv(args: &[&str]) -> Vec<String> {
    args.iter().map(|a| a.to_string()).collect()
}

#[test]
fn tool_constants() {
    assert_eq!(VAULT_MAGIC, b"AEGIS");
    assert_eq!(TOOL_SALT, b"aegis-cli-salt-v1");
    assert_eq!(TOOL_AAD, b"aegis-cli");
    assert_eq!((TOOL_MEMORY_KIB, TOOL_ITERATIONS), (32768, 2));
}

#[test]
fn flags_are_taken_with_their_values() {
    let (cmd, flags) =
        parse_args(&argv(&["aegis", "seal", "-p", "pw", "stray", "-f", "-x", "-o"])).unwrap();
    assert_eq!(cmd, "seal");
    assert_eq!(req(&flags, "p").unwrap(), "pw");
    // The argument behind a flag is its value, whatever it looks like.
    assert_eq!(req(&flags, "f").unwrap(), "-x");
    assert!(matches!(req(&flags, "x"), Err(UsageError::Missing(name)) if name == "x"));
    // A flag at the end has an empty value, which counts as missing.
    assert!(matches!(req(&flags, "o"), Err(UsageError::Missing(name)) if name == "o"));
    assert!(flags.get("o").is_some());
    assert!(flags.get("stray").is_none());
}

#[test]
fn last_value_of_a_flag_counts() {
    let (_, flags) =
        parse_args(&argv(&["aegis", "init", "-p", "one", "-p", "two", "--long", "ü"])).unwrap();
    assert_eq!(req(&flags, "p").unwrap(), "two");
    assert_eq!(req(&flags, "-long").unwrap(), "ü");
    let (_, flags) = parse_args(&argv(&["aegis", "init", "-p", "one", "-p"])).unwrap();
    assert!(req(&flags, "p").is_err());
    assert!(parse_args(&argv(&["aegis"])).is_none());
    assert!(parse_args(&argv(&[])).is_none());
}

#[test]
fn commands_with_their_flags() {
    match parse_command(&argv(&["aegis", "init", "-o", "v", "-p", "pw"])).unwrap() {
        Command::Init { pass, out } => assert_eq!((&pass[..], &out[..]), ("pw", "v")),
        other => panic!("{other:?}"),
    }
    match parse_command(&argv(&["aegis", "add", "-p", "pw", "-f", "v", "-n", "new"])).unwrap() {
        Command::Add { pass, new_pass, file } => {
            assert_eq!((&pass[..], &new_pass[..], &file[..]), ("pw", "new", "v"));
        }
        other => panic!("{other:?}"),
    }
    let rest = ["-p", "pw", "-f", "v", "-i", "in", "-o", "out"];
    let mut args = vec!["aegis", "seal"];
    args.extend_from_slice(&rest);
    match parse_command(&argv(&args)).unwrap() {
        Command::Seal { pass, file, input, output } => {
            assert_eq!((&pass[..], &file[..], &input[..], &output[..]), ("pw", "v", "in", "out"));
        }
        other => panic!("{other:?}"),
    }
    args[1] = "open";
    match parse_command(&argv(&args)).unwrap() {
        Command::Open { pass, file, input, output } => {
            assert_eq!((&pass[..], &file[..], &input[..], &output[..]), ("pw", "v", "in", "out"));
        }
        other => panic!("{other:?}"),
    }
    args[1] = "verify";
    match parse_command(&argv(&args)).unwrap() {
        Command::Verify { pass, file } => assert_eq!((&pass[..], &file[..]), ("pw", "v")),
        other => panic!("{other:?}"),
    }
}

fn missing(args: &[&str]) -> String {
    match parse_command(&argv(args)) {
        Err(UsageError::Missing(name)) => name,
        other => panic!("{other:?}"),
    }
}

#[test]
fn refused_command_lines() {
    assert!(matches!(parse_command(&argv(&["aegis"])), Err(UsageError::NoCommand)));
    assert!(matches!(
        parse_command(&argv(&["aegis", "Init"])),
        Err(UsageError::Unknown(cmd)) if cmd == "Init"
    ));
    assert_eq!(missing(&["aegis", "init"]), "p");
    assert_eq!(missing(&["aegis", "init", "-p", "x"]), "o");
    assert_eq!(missing(&["aegis", "init", "-p", "", "-o", "v"]), "p");
    assert_eq!(missing(&["aegis", "add", "-f", "v"]), "p");
    assert_eq!(missing(&["aegis", "add", "-p", "x"]), "n");
    assert_eq!(missing(&["aegis", "add", "-p", "x", "-n", "y"]), "f");
    for cmd in ["seal", "open"] {
        assert_eq!(missing(&["aegis", cmd, "-o", "out"]), "p");
        assert_eq!(missing(&["aegis", cmd, "-p", "x", "-o", "out"]), "f");
        assert_eq!(missing(&["aegis", cmd, "-p", "x", "-f", "v", "-o", "out"]), "i");
        assert_eq!(missing(&["aegis", cmd, "-p", "x", "-f", "v", "-i", "in"]), "o");
    }
    assert_eq!(missing(&["aegis", "verify", "-f", "v"]), "p");
    assert_eq!(missing(&["aegis", "verify", "-p", "x"]), "f");
}

#[test]
fn vault_files_are_read_back() {
    let salt = [0x44u8; 32];
    let file = write_vault(b"table", &salt);
    let mut expected = b"AEGIS\x01".to_vec();
    expected.extend_from_slice(&salt);
    expected.extend_from_slice(b"table");
    assert_eq!(file, expected);
    let (table, read_salt) = read_vault(&file).unwrap();
    assert_eq!((&table[..], read_salt), (&b"table"[..], salt));
    assert_eq!(read_vault(&file[..38]).unwrap().0, b"");
}

#[test]
fn bad_vault_files_are_refused() {
    let file = write_vault(b"", &[0u8; 32]);
    for len in 0..38 {
        assert_eq!(read_vault(&file[..len]).unwrap_err(), VaultFileError::TooShort);
    }
    let mut wrong = file.clone();
    wrong[4] = b'T';
    assert_eq!(read_vault(&wrong).unwrap_err(), VaultFileError::NotAVault);
    let mut wrong = file.clone();
    wrong[5] = 2;
    assert_eq!(read_vault(&wrong).unwrap_err(), VaultFileError::UnsupportedVersion);
}

#[test]
fn sealed_files_are_read_back() {
    let blob = write_blob(&[7u8; 24], b"ct");
    assert_eq!(&blob[..2], &[0, 24]);
    let (nonce, ct) = read_blob(&blob).unwrap();
    assert_eq!((nonce, ct), (&[7u8; 24][..], &b"ct"[..]));
    assert_eq!(read_blob(&[]).unwrap_err(), BlobError::TooShort);
    assert_eq!(read_blob(&[0]).unwrap_err(), BlobError::TooShort);
    assert_eq!(read_blob(&[0, 2, 9]).unwrap_err(), BlobError::Corrupt);
    assert_eq!(read_blob(&[0, 0]).unwrap(), (&[][..], &[][..]));
    // The algorithm byte is not looked at.
    assert_eq!(read_blob(&[9, 1, 5, 6]).unwrap(), (&[5u8][..], &[6u8][..]));
}

#[test]
fn init_add_seal_and_open() {
    let mut new = new_vault(b"alice").unwrap();
    let file = init_vault(&mut new, b"alice").unwrap();
    let mut alice = open_vault(&file, b"alice").unwrap();
    let derived = AegisVault::unlock(b"alice", b"aegis-cli-salt-v1", 32 * 1024, 2).unwrap();
    assert!(alice.master().ct_eq(derived.master()));
    assert!(alice.verify_volume());

    let (idx, file) = add_user(&mut alice, b"bob").unwrap();
    assert_eq!(idx, 1);
    let bob = open_vault(&file, b"bob").unwrap();
    assert!(bob.master().ct_eq(alice.master()));
    assert_eq!(vault_to_file(&bob).unwrap(), file);

    let (blob, ct_len) = seal_data(&alice, b"contents").unwrap();
    assert_eq!(ct_len, 24);
    assert_eq!(blob.len(), 2 + 24 + 24);
    assert_eq!(open_data(&bob, &blob).unwrap(), b"contents");
    let (nonce, ct) = read_blob(&blob).unwrap();
    let pt = alice
        .decrypt(Domain::Enc, nonce, ct, b"aegis-cli", AegisAlgoTag::XChaCha20Poly1305)
        .unwrap();
    assert_eq!(pt, b"contents");
}

#[test]
fn vaults_that_do_not_open() {
    let mut vault = AegisVault::from_master_key([1u8; MASTER_LEN]);
    assert!(vault_to_file(&vault).is_none());
    vault.seal_slots(b"pw").unwrap();
    let file = vault_to_file(&vault).unwrap();
    assert!(matches!(
        open_vault(&file, b"px"),
        Err(ToolError::OpenVault(AegisError::NoSlotUnsealed))
    ));
    assert!(matches!(
        open_vault(&file[..37], b"pw"),
        Err(ToolError::VaultFile(VaultFileError::TooShort))
    ));
    assert!(matches!(
        open_vault(&file[..38], b"pw"),
        Err(ToolError::OpenVault(AegisError::Serialization))
    ));
    let mut changed = file.clone();
    changed[6] ^= 1;
    assert!(matches!(
        open_vault(&changed, b"pw"),
        Err(ToolError::OpenVault(AegisError::HeaderIntegrity))
    ));
    assert!(open_vault(&file, b"pw").is_ok());
}

#[test]
fn full_vault_takes_no_more_users() {
    let mut vault = AegisVault::from_master_key([1u8; MASTER_LEN]);
    for _ in 0..16 {
        vault.add_slot(b"pw").unwrap();
    }
    assert!(matches!(
        add_user(&mut vault, b"new"),
        Err(ToolError::AddSlot(AegisError::SlotTableFull(16)))
    ));
}

#[test]
fn sealed_files_that_do_not_open() {
    let vault = AegisVault::from_master_key([1u8; MASTER_LEN]);
    let other = AegisVault::from_master_key([2u8; MASTER_LEN]);
    let (blob, _) = seal_data(&vault, b"").unwrap();
    assert_eq!(open_data(&vault, &blob).unwrap(), b"");
    assert!(matches!(
        open_data(&other, &blob),
        Err(ToolError::Decrypt(AegisError::AeadOpen))
    ));
    assert!(matches!(open_data(&vault, &blob[..1]), Err(ToolError::Blob(BlobError::TooShort))));
    assert!(matches!(open_data(&vault, &blob[..20]), Err(ToolError::Blob(BlobError::Corrupt))));
    assert!(matches!(
        open_data(&vault, &blob[..30]),
        Err(ToolError::Decrypt(AegisError::AeadOpen))
    ));
    let mut changed = blob.clone();
    changed[1] = 23;
    assert!(matches!(
        open_data(&vault, &changed),
        Err(ToolError::Decrypt(AegisError::AeadOpen))
    ));
}
