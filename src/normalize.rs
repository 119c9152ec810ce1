use vstd::prelude::*;
use unicode_normalization::UnicodeNormalization;

verus! {

/// The Unicode canonical composition (NFC) of a text.
pub uninterp spec fn nfc_of(s: Seq<char>) -> Seq<char>;

/// Relies on unicode_normalization's `nfc`: the text in normalization form C,
/// which depends on the characters alone; an empty text stays empty.
#[verifier::external_body]
pub(crate) fn nfc(s: &str) -> (r: String)
    ensures
        r@ == nfc_of(s@),
        s@.len() == 0 ==> r@.len() == 0,
{
    s.nfc().collect::<String>()
}

} // verus!
