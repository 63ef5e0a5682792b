//! `AegisKey`: protected key material.
//!
//! Every key of this crate is wrapped in an [`AegisKey`]. Its bytes are wiped
//! before the memory is released, its `Debug` output is redacted, and two keys
//! are compared without an early exit. The only way to read the bytes is
//! [`AegisKey::expose`].

use crate::primitives::{ct_eq_byte, into_boxed_slice, zeroize_bytes};
use vstd::prelude::*;
use vstd::slice::slice_to_vec;

verus! {

/// A key whose bytes are wiped when it is dropped.
pub struct AegisKey {
    data: Box<[u8]>,
}

impl View for AegisKey {
    type V = Seq<u8>;

    /// The key bytes.
    closed spec fn view(&self) -> Seq<u8> {
        self.data@
    }
}

/// `len` zero bytes.
pub open spec fn zeros(len: nat) -> Seq<u8> {
    Seq::new(len, |i: int| 0u8)
}

impl AegisKey {
    /// Wraps raw key material. Only its contents are captured.
    pub fn new(material: &[u8]) -> (key: Self)
        ensures
            key@ == material@,
    {
        AegisKey { data: into_boxed_slice(slice_to_vec(material)) }
    }

    /// Wraps a 256-bit key.
    pub fn new32(material: &[u8; 32]) -> (key: Self)
        ensures
            key@ == material@,
            key@.len() == 32,
    {
        Self::new(material)
    }

    /// Borrows the raw key bytes. Treat the result as secret.
    pub fn expose(&self) -> (bytes: &[u8])
        ensures
            bytes@ == self@,
    {
        &self.data
    }

    /// The number of key bytes.
    pub fn len(&self) -> (len: usize)
        ensures
            len == self@.len(),
    {
        self.data.len()
    }

    /// Whether the key has no bytes.
    pub fn is_empty(&self) -> (empty: bool)
        ensures
            empty == (self@.len() == 0),
    {
        self.data.len() == 0
    }

    /// Whether two keys hold the same bytes. Keys of different lengths are
    /// told apart at once; otherwise all bytes are folded, without an early
    /// exit.
    pub fn ct_eq(&self, other: &AegisKey) -> (equal: bool)
        ensures
            equal == (self@ == other@),
    {
        if self.data.len() != other.data.len() {
            return false;
        }
        let mut acc: u8 = 0;
        let mut i: usize = 0;
        while i < self.data.len()
            invariant
                i <= self.data@.len(),
                self.data@.len() == other.data@.len(),
                acc == 0 <==> (forall|j: int| 0 <= j < i ==> self.data@[j] == other.data@[j]),
            decreases self.data@.len() - i,
        {
            let a: u8 = self.data[i];
            let b: u8 = other.data[i];
            assert((acc | (a ^ b)) == 0 <==> acc == 0 && a == b) by (bit_vector);
            acc = acc | (a ^ b);
            i = i + 1;
        }
        assert(acc == 0 <==> self.data@ =~= other.data@);
        ct_eq_byte(acc, 0)
    }

    /// Overwrites every key byte with zero. Dropping the key does the same; this
    /// is for an owner who still has to do something with the memory.
    pub fn wipe(&mut self)
        ensures
            final(self)@ == zeros(old(self)@.len()),
        opens_invariants none
        no_unwind
    {
        zeroize_bytes(&mut self.data);
    }

    /// Consumes the key, wiping its bytes at once. Dropping it does the same;
    /// this makes the intent visible where a one-shot key has been used.
    pub fn burn(self) {
        let mut key = self;
        key.wipe();
    }

    /// The `Debug` text of every key: it never shows a key byte.
    pub fn debug_text(&self) -> (text: &'static str)
        ensures
            text@ == "AegisKey(<redacted>)"@,
    {
        "AegisKey(<redacted>)"
    }
}

impl Drop for AegisKey {
    /// Wipes the key bytes before the memory is released.
    fn drop(&mut self)
        ensures
            final(self)@ == zeros(old(self)@.len()),
        opens_invariants none
        no_unwind
    {
        self.wipe();
    }
}

impl core::fmt::Debug for AegisKey {
    /// Writes [`AegisKey::debug_text`].
    fn fmt(&self, f: &mut core::fmt::Formatter<'_>) -> Result<(), core::fmt::Error> {
        f.write_str(self.debug_text())
    }
}

/// Law: a wiped key keeps its length, and every byte of it is zero.
pub proof fn law_wiped_bytes_are_zero(len: nat)
    ensures
        zeros(len).len() == len,
        forall|i: int| 0 <= i < len ==> #[trigger] zeros(len)[i] == 0,
{
}

} // verus!
