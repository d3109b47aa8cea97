use vstd::prelude::*;

verus! {

/// The standard, padded base64 text of `b`.
pub uninterp spec fn base64_of(b: Seq<u8>) -> Seq<char>;

/// What standard, padded base64 decoding makes of `s`, if anything.
pub uninterp spec fn base64_decoded(s: Seq<char>) -> Option<Seq<u8>>;

/// Relies on `base64::encode` (standard alphabet, padded): its text depends on the bytes alone.
#[verifier::external_body]
pub(crate) fn base64_encode(b: &[u8]) -> (r: String)
    ensures
        r@ == base64_of(b@),
{
    base64::encode(b)
}

/// Relies on `base64::decode` (standard alphabet, padded): its outcome depends on the text
/// alone, and the text that `base64::encode` gives for some bytes decodes to those bytes.
#[verifier::external_body]
pub(crate) fn base64_decode(s: &str) -> (r: Option<Vec<u8>>)
    ensures
        match r {
            Some(v) => base64_decoded(s@) == Some(v@),
            None => base64_decoded(s@) is None,
        },
        forall|b: Seq<u8>| #[trigger] base64_of(b) == s@ ==> (r is Some && r->0@ == b),
{
    base64::decode(s).ok()
}

} // verus!
