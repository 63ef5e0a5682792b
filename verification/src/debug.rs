//! `Debug` output that shows some fields of a value and redacts others.

use crate::primitives::debug_field;
use vstd::prelude::*;

verus! {

/// What is shown of a field.
#[derive(Debug, Clone, Copy, PartialEq, Eq)]
pub enum DebugValue {
    /// Only that the field is there.
    Redacted,
    /// A number.
    Number(u64),
    /// A truth value.
    Truth(bool),
}

/// A field, by its name.
#[derive(Debug, Clone, Copy, PartialEq, Eq)]
pub struct DebugField {
    pub name: &'static str,
    pub value: DebugValue,
}

/// Shows the fields of a value, in their order, and marks it as incomplete. The
/// flags of the formatter decide how the output looks.
pub(crate) fn show(
    f: &mut core::fmt::Formatter<'_>,
    name: &str,
    fields: &[DebugField],
) -> core::fmt::Result {
    let mut out = f.debug_struct(name);
    let mut i: usize = 0;
    while i < fields.len()
        invariant
            i <= fields@.len(),
        decreases fields@.len() - i,
    {
        match fields[i].value {
            DebugValue::Redacted => debug_field(&mut out, fields[i].name, &"<redacted>"),
            DebugValue::Number(n) => debug_field(&mut out, fields[i].name, &n),
            DebugValue::Truth(b) => debug_field(&mut out, fields[i].name, &b),
        }
        i = i + 1;
    }
    out.finish_non_exhaustive()
}

} // verus!
