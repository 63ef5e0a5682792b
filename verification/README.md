# soteria-aegis

Protected keys, a domain-separated key hierarchy, and revocable key slots,
verified with Verus.

```text
passphrase --Argon2id--> master key (256 bits)
master key --HKDF-SHA-256, one label per domain--> domain keys
master key --AES-256-GCM, under a key per passphrase--> key slots
```

Every key is an `AegisKey`: it is wiped when it is dropped, its `Debug` output
is redacted, and keys are compared without an early exit.

## Layout

- `src/` is the library, all of it verified:
  - `aegis_key.rs`: the key container;
  - `kdf.rs`, `hierarchy.rs`: key derivation and the domain keys;
  - `aead.rs`: XChaCha20-Poly1305 and AES-256-GCM;
  - `slots.rs`, `slots/encoding.rs`, `slots/laws.rs`: key slots, slot tables,
    their byte format, and what holds of them;
  - `vault.rs`, `vault/laws.rs`: the vault, and what holds of it;
  - `container.rs`, `args.rs`, `tool.rs`: the files, arguments and operations
    of the command-line tool;
  - `bytes.rs`, `debug.rs`: byte strings, and redacted `Debug` output;
  - `primitives.rs`: the functions of other crates that the library calls,
    with the contracts that are believed of them.
- `tests/` runs the library.
- `app/` is the command-line tool `aegis`: file access, memory locking
  (`mlock`) and messages.

## What is proved

The contracts say, among other things, that

- what is sealed opens again, only what sealing makes opens, and a slot gives
  back the master key it wraps;
- a slot table, a vault file and a sealed file are read back as they were
  written, and a table with another mac is refused;
- every user opens the vault, unless their passphrase also opens an earlier
  slot to another master key;
- a user whose only slot was revoked does not open it;
- the last enabled slot is never revoked;
- a vault with a slot table always matches the verifier of that table.

That a wrong passphrase or changed data fails to open rests on the ciphers and
hashes, which are not proved here. The same is true of what a contract cannot
speak of: timing, and what is left in memory.

## Usage

```rust
use soteria_aegis::{AegisAlgoTag, AegisVault, Domain};

let mut vault = AegisVault::unlock(b"correct horse", b"public-salt-1234", 64 * 1024, 3)?;
vault.seal_slots(b"correct horse")?;
vault.add_slot(b"bob-pw")?;

let algo = AegisAlgoTag::XChaCha20Poly1305;
let (nonce, ct) = vault.encrypt(Domain::Enc, b"secret", b"aad", algo)?;
assert_eq!(vault.decrypt(Domain::Enc, &nonce, &ct, b"aad", algo)?, b"secret");
```
