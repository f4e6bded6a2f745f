//! Conversion of Rust text to the platform's wide-character form.
//!
//! Store names and search text cross the native boundary as UTF-16 units.
//! The conversion is delegated to the `widestring` crate; no validation is
//! performed beyond refusing nul-containing text, which the nul-terminated
//! native form cannot carry.

use vstd::prelude::*;

verus! {

/// Whether the text holds a nul character anywhere.
pub open spec fn contains_nul(s: Seq<char>) -> bool {
    exists|i: int| 0 <= i < s.len() && s[i] == '\0'
}

/// The UTF-16 encoding of the text, one or two units per character.
pub uninterp spec fn utf16_of(s: Seq<char>) -> Seq<u16>;

/// Relies on `widestring::U16CString::from_str`: it encodes a nul-free
/// string as UTF-16 (it fails only on interior nul values, which the
/// precondition rules out), and on `into_vec`: the encoded units with the
/// terminator dropped.
#[verifier::external_body]
pub(crate) fn utf16_units(s: &str) -> (r: Vec<u16>)
    requires
        !contains_nul(s@),
    ensures
        r@ == utf16_of(s@),
        s@.len() == 0 ==> r@.len() == 0,
{
    widestring::U16CString::from_str(s).unwrap().into_vec()
}

} // verus!
