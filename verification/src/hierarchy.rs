//! The key hierarchy: one key per domain, all derived from a master key.
//!
//! ```text
//! master --HKDF-SHA-256(MASTER_SALT, label of the domain)--> domain key
//! domain key --HKDF-SHA-256(SUBKEY_SALT, context)--> sub-key
//! ```
//!
//! Each domain has a label of its own, so the domain keys are independent of
//! one another.

pub mod info;

use crate::aegis_key::AegisKey;
use crate::error::Result;
use crate::kdf::hkdf_sha256;
use crate::primitives::{hkdf_sha256_okm, zeroize_bytes};
use vstd::prelude::*;

verus! {

/// HKDF salt of the domain keys: `soteria-kh-v1/master-salt`.
pub const MASTER_SALT: &'static [u8; 25] = &[
    0x73, 0x6f, 0x74, 0x65, 0x72, 0x69, 0x61, 0x2d, 0x6b, 0x68, 0x2d, 0x76, 0x31, 0x2f, 0x6d,
    0x61, 0x73, 0x74, 0x65, 0x72, 0x2d, 0x73, 0x61, 0x6c, 0x74,
];

/// HKDF salt of the per-file and per-block sub-keys: `soteria-kh-v1/subkey-salt`.
pub const SUBKEY_SALT: &'static [u8; 25] = &[
    0x73, 0x6f, 0x74, 0x65, 0x72, 0x69, 0x61, 0x2d, 0x6b, 0x68, 0x2d, 0x76, 0x31, 0x2f, 0x73,
    0x75, 0x62, 0x6b, 0x65, 0x79, 0x2d, 0x73, 0x61, 0x6c, 0x74,
];

/// A domain of the key hierarchy.
#[derive(Debug, Clone, Copy, PartialEq, Eq, Hash, Structural)]
pub enum Domain {
    Enc,
    Auth,
    Meta,
    Shard,
    Xts,
    Handle,
}

impl Domain {
    /// The label of a domain.
    pub open spec fn label(self) -> Seq<u8> {
        match self {
            Domain::Enc => info::K_ENC@,
            Domain::Auth => info::K_AUTH@,
            Domain::Meta => info::K_META@,
            Domain::Shard => info::K_SHARD@,
            Domain::Xts => info::K_XTS@,
            Domain::Handle => info::K_HANDLE@,
        }
    }

    /// The HKDF `info` label of this domain.
    pub fn info_tag(self) -> (tag: &'static [u8])
        ensures
            tag@ == self.label(),
            self is Enc ==> tag@ == info::K_ENC@,
            self is Auth ==> tag@ == info::K_AUTH@,
            self is Meta ==> tag@ == info::K_META@,
            self is Shard ==> tag@ == info::K_SHARD@,
            self is Xts ==> tag@ == info::K_XTS@,
            self is Handle ==> tag@ == info::K_HANDLE@,
    {
        match self {
            Domain::Enc => info::K_ENC,
            Domain::Auth => info::K_AUTH,
            Domain::Meta => info::K_META,
            Domain::Shard => info::K_SHARD,
            Domain::Xts => info::K_XTS,
            Domain::Handle => info::K_HANDLE,
        }
    }
}

/// The key of a domain under a master key.
pub open spec fn domain_key(master: Seq<u8>, d: Domain) -> Seq<u8> {
    hkdf_sha256_okm(master, MASTER_SALT@, d.label())@
}

/// The sub-key of a domain key for a context.
pub open spec fn derived_subkey(domain: Seq<u8>, context: Seq<u8>) -> Seq<u8> {
    hkdf_sha256_okm(domain, SUBKEY_SALT@, context)@
}

/// The keys of all domains, each of 32 bytes.
pub struct KeyHierarchy {
    k_enc: AegisKey,
    k_auth: AegisKey,
    k_meta: AegisKey,
    k_shard: AegisKey,
    k_xts: AegisKey,
    k_handle: AegisKey,
}

/// Derives the key with label `tag` from a master key.
fn derive(master: &[u8], tag: &[u8]) -> (result: Result<AegisKey>)
    ensures
        result matches Ok(key) && key@ == hkdf_sha256_okm(master@, MASTER_SALT@, tag@)@,
{
    match hkdf_sha256(master, MASTER_SALT, tag) {
        Ok(mut raw) => {
            let key = AegisKey::new(&raw);
            zeroize_bytes(&mut raw);
            Ok(key)
        },
        Err(e) => Err(e),
    }
}

impl KeyHierarchy {
    #[verifier::type_invariant]
    spec fn keys_are_256_bits(self) -> bool {
        forall|d: Domain| (#[trigger] self.key(d)).len() == 32
    }

    /// The bytes of a domain key.
    pub closed spec fn key(&self, d: Domain) -> Seq<u8> {
        match d {
            Domain::Enc => self.k_enc@,
            Domain::Auth => self.k_auth@,
            Domain::Meta => self.k_meta@,
            Domain::Shard => self.k_shard@,
            Domain::Xts => self.k_xts@,
            Domain::Handle => self.k_handle@,
        }
    }

    /// Whether every domain key is the one derived from `master`.
    pub open spec fn derived_from(&self, master: Seq<u8>) -> bool {
        forall|d: Domain| #[trigger] self.key(d) == domain_key(master, d)
    }

    /// Derives the whole hierarchy from a master key.
    pub fn from_master(master: &[u8]) -> (result: Result<Self>)
        ensures
            result matches Ok(hierarchy) && hierarchy.derived_from(master@),
            result matches Ok(hierarchy) ==> {
                &&& hierarchy.key(Domain::Enc) == hkdf_sha256_okm(
                    master@,
                    MASTER_SALT@,
                    info::K_ENC@,
                )@
                &&& hierarchy.key(Domain::Auth) == hkdf_sha256_okm(
                    master@,
                    MASTER_SALT@,
                    info::K_AUTH@,
                )@
                &&& hierarchy.key(Domain::Meta) == hkdf_sha256_okm(
                    master@,
                    MASTER_SALT@,
                    info::K_META@,
                )@
                &&& hierarchy.key(Domain::Shard) == hkdf_sha256_okm(
                    master@,
                    MASTER_SALT@,
                    info::K_SHARD@,
                )@
                &&& hierarchy.key(Domain::Xts) == hkdf_sha256_okm(
                    master@,
                    MASTER_SALT@,
                    info::K_XTS@,
                )@
                &&& hierarchy.key(Domain::Handle) == hkdf_sha256_okm(
                    master@,
                    MASTER_SALT@,
                    info::K_HANDLE@,
                )@
            },
    {
        let k_enc = derive(master, info::K_ENC)?;
        let k_auth = derive(master, info::K_AUTH)?;
        let k_meta = derive(master, info::K_META)?;
        let k_shard = derive(master, info::K_SHARD)?;
        let k_xts = derive(master, info::K_XTS)?;
        let k_handle = derive(master, info::K_HANDLE)?;
        Ok(KeyHierarchy { k_enc, k_auth, k_meta, k_shard, k_xts, k_handle })
    }

    /// A hierarchy in which every domain key is the master key itself, for
    /// volumes that were made before the domains were separated.
    pub fn legacy_single_key(master: &[u8; 32]) -> (hierarchy: Self)
        ensures
            forall|d: Domain| #[trigger] hierarchy.key(d) == master@,
    {
        KeyHierarchy {
            k_enc: AegisKey::new32(master),
            k_auth: AegisKey::new32(master),
            k_meta: AegisKey::new32(master),
            k_shard: AegisKey::new32(master),
            k_xts: AegisKey::new32(master),
            k_handle: AegisKey::new32(master),
        }
    }

    /// Borrows a domain key.
    pub fn domain(&self, d: Domain) -> (key: &AegisKey)
        ensures
            key@ == self.key(d),
            key@.len() == 32,
    {
        proof {
            use_type_invariant(self);
            assert(self.key(d).len() == 32);
        }
        match d {
            Domain::Enc => &self.k_enc,
            Domain::Auth => &self.k_auth,
            Domain::Meta => &self.k_meta,
            Domain::Shard => &self.k_shard,
            Domain::Xts => &self.k_xts,
            Domain::Handle => &self.k_handle,
        }
    }

    /// Gives up the hierarchy for its keys, in the order of [`Domain`].
    pub fn into_keys(self) -> (keys: Vec<AegisKey>)
        ensures
            keys@.len() == 6,
            keys@[0]@ == self.key(Domain::Enc),
            keys@[1]@ == self.key(Domain::Auth),
            keys@[2]@ == self.key(Domain::Meta),
            keys@[3]@ == self.key(Domain::Shard),
            keys@[4]@ == self.key(Domain::Xts),
            keys@[5]@ == self.key(Domain::Handle),
    {
        let mut keys: Vec<AegisKey> = Vec::new();
        keys.push(self.k_enc);
        keys.push(self.k_auth);
        keys.push(self.k_meta);
        keys.push(self.k_shard);
        keys.push(self.k_xts);
        keys.push(self.k_handle);
        keys
    }

    /// Derives a per-file or per-block key from a domain key. `context` binds
    /// it to one object.
    pub fn subkey(domain: &AegisKey, context: &[u8]) -> (result: Result<AegisKey>)
        ensures
            result matches Ok(key) && key@ == derived_subkey(domain@, context@),
            result matches Ok(key) ==> key@ == hkdf_sha256_okm(
                domain@,
                SUBKEY_SALT@,
                context@,
            )@,
    {
        match hkdf_sha256(domain.expose(), SUBKEY_SALT, context) {
            Ok(mut raw) => {
                let key = AegisKey::new(&raw);
                zeroize_bytes(&mut raw);
                Ok(key)
            },
            Err(e) => Err(e),
        }
    }
}

/// Law: no two domains share a label.
pub proof fn law_labels_are_unique(a: Domain, b: Domain)
    requires
        a.label() == b.label(),
    ensures
        a == b,
{
    // All labels begin with `soteria-kh-v1/k-`; the next letter differs.
    assert(a.label()[16] == b.label()[16]);
}

/// Law: deriving is deterministic: two hierarchies derived from the same master key
/// hold the same key in every domain.
pub proof fn law_derivation_is_deterministic(
    first: &KeyHierarchy,
    second: &KeyHierarchy,
    master: Seq<u8>,
    d: Domain,
)
    requires
        first.derived_from(master),
        second.derived_from(master),
    ensures
        first.key(d) == second.key(d),
{
}

/// Law: each domain has the label that is documented for it.
pub proof fn law_labels_are_the_documented_ones()
    ensures
        Domain::Enc.label() == info::K_ENC@,
        Domain::Auth.label() == info::K_AUTH@,
        Domain::Meta.label() == info::K_META@,
        Domain::Shard.label() == info::K_SHARD@,
        Domain::Xts.label() == info::K_XTS@,
        Domain::Handle.label() == info::K_HANDLE@,
{
}

/// Law: each domain key is HKDF-SHA-256 of the whole master key under the
/// master salt and the label that is documented for the domain.
pub proof fn law_domain_keys_are_hkdf(master: Seq<u8>)
    ensures
        domain_key(master, Domain::Enc) == hkdf_sha256_okm(master, MASTER_SALT@, info::K_ENC@)@,
        domain_key(master, Domain::Auth) == hkdf_sha256_okm(master, MASTER_SALT@, info::K_AUTH@)@,
        domain_key(master, Domain::Meta) == hkdf_sha256_okm(master, MASTER_SALT@, info::K_META@)@,
        domain_key(master, Domain::Shard) == hkdf_sha256_okm(
            master,
            MASTER_SALT@,
            info::K_SHARD@,
        )@,
        domain_key(master, Domain::Xts) == hkdf_sha256_okm(master, MASTER_SALT@, info::K_XTS@)@,
        domain_key(master, Domain::Handle) == hkdf_sha256_okm(
            master,
            MASTER_SALT@,
            info::K_HANDLE@,
        )@,
{
}

/// Law: a derived hierarchy holds, in every domain, the key of that domain.
pub proof fn law_derived_hierarchy_holds_the_domain_keys(
    hierarchy: &KeyHierarchy,
    master: Seq<u8>,
    d: Domain,
)
    requires
        hierarchy.derived_from(master),
    ensures
        hierarchy.key(d) == hkdf_sha256_okm(master, MASTER_SALT@, d.label())@,
{
}

/// Law: a sub-key is HKDF-SHA-256 of the whole domain key under the sub-key
/// salt and the whole context.
pub proof fn law_subkey_is_hkdf(domain: Seq<u8>, context: Seq<u8>)
    ensures
        derived_subkey(domain, context) == hkdf_sha256_okm(domain, SUBKEY_SALT@, context)@,
{
}

/// Law: two contexts with the same sub-key are a collision of HKDF: no byte of
/// a context is left out on the way to it.
pub proof fn law_equal_subkeys_are_an_hkdf_collision(
    domain: Seq<u8>,
    first: Seq<u8>,
    second: Seq<u8>,
)
    requires
        derived_subkey(domain, first) == derived_subkey(domain, second),
    ensures
        hkdf_sha256_okm(domain, SUBKEY_SALT@, first)@ == hkdf_sha256_okm(
            domain,
            SUBKEY_SALT@,
            second,
        )@,
{
}

} // verus!
