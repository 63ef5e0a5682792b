//! Domain-separation labels. They are part of the on-disk format: changing one
//! changes every key of its domain.

use vstd::prelude::*;

verus! {

/// Bulk data encryption: `soteria-kh-v1/k-enc/aead-bulk`.
pub const K_ENC: &'static [u8; 29] = &[
    0x73, 0x6f, 0x74, 0x65, 0x72, 0x69, 0x61, 0x2d, 0x6b, 0x68, 0x2d, 0x76, 0x31, 0x2f, 0x6b,
    0x2d, 0x65, 0x6e, 0x63, 0x2f, 0x61, 0x65, 0x61, 0x64, 0x2d, 0x62, 0x75, 0x6c, 0x6b,
];

/// Per-block authentication: `soteria-kh-v1/k-auth/block-mac`.
pub const K_AUTH: &'static [u8; 30] = &[
    0x73, 0x6f, 0x74, 0x65, 0x72, 0x69, 0x61, 0x2d, 0x6b, 0x68, 0x2d, 0x76, 0x31, 0x2f, 0x6b,
    0x2d, 0x61, 0x75, 0x74, 0x68, 0x2f, 0x62, 0x6c, 0x6f, 0x63, 0x6b, 0x2d, 0x6d, 0x61, 0x63,
];

/// Metadata encryption (names, inodes, journal): `soteria-kh-v1/k-meta/metadata`.
pub const K_META: &'static [u8; 29] = &[
    0x73, 0x6f, 0x74, 0x65, 0x72, 0x69, 0x61, 0x2d, 0x6b, 0x68, 0x2d, 0x76, 0x31, 0x2f, 0x6b,
    0x2d, 0x6d, 0x65, 0x74, 0x61, 0x2f, 0x6d, 0x65, 0x74, 0x61, 0x64, 0x61, 0x74, 0x61,
];

/// Erasure-coding shards: `soteria-kh-v1/k-shard/erasure-coding`.
pub const K_SHARD: &'static [u8; 36] = &[
    0x73, 0x6f, 0x74, 0x65, 0x72, 0x69, 0x61, 0x2d, 0x6b, 0x68, 0x2d, 0x76, 0x31, 0x2f, 0x6b,
    0x2d, 0x73, 0x68, 0x61, 0x72, 0x64, 0x2f, 0x65, 0x72, 0x61, 0x73, 0x75, 0x72, 0x65, 0x2d,
    0x63, 0x6f, 0x64, 0x69, 0x6e, 0x67,
];

/// Full-disk-encryption sectors: `soteria-kh-v1/k-xts/fde-sector`.
pub const K_XTS: &'static [u8; 30] = &[
    0x73, 0x6f, 0x74, 0x65, 0x72, 0x69, 0x61, 0x2d, 0x6b, 0x68, 0x2d, 0x76, 0x31, 0x2f, 0x6b,
    0x2d, 0x78, 0x74, 0x73, 0x2f, 0x66, 0x64, 0x65, 0x2d, 0x73, 0x65, 0x63, 0x74, 0x6f, 0x72,
];

/// File-handle and inode identity: `soteria-kh-v1/k-handle/identity`.
pub const K_HANDLE: &'static [u8; 31] = &[
    0x73, 0x6f, 0x74, 0x65, 0x72, 0x69, 0x61, 0x2d, 0x6b, 0x68, 0x2d, 0x76, 0x31, 0x2f, 0x6b,
    0x2d, 0x68, 0x61, 0x6e, 0x64, 0x6c, 0x65, 0x2f, 0x69, 0x64, 0x65, 0x6e, 0x74, 0x69, 0x74,
    0x79,
];

} // verus!
