use vstd::prelude::*;

verus! {

/// Length of a token: a 32-byte BLAKE3 hash in hexadecimal.
pub const TOKEN_LEN: usize = 64;

/// The lowercase hexadecimal text of the BLAKE3 hash of `bytes`.
pub uninterp spec fn blake3_hex(bytes: Seq<u8>) -> Seq<char>;

pub open spec fn is_lower_hex_digit(c: char) -> bool {
    ('0' <= c && c <= '9') || ('a' <= c && c <= 'f')
}

/// Relies on `blake3::hash` and the `Display` of `blake3::Hash`, which writes
/// `Hash::to_hex`: 64 lowercase hexadecimal digits fixed by the bytes alone.
#[verifier::external_body]
pub(crate) fn blake3_hex_of(bytes: &[u8]) -> (r: String)
    ensures
        r@ == blake3_hex(bytes@),
        r@.len() == TOKEN_LEN,
        forall|i: int| 0 <= i < r@.len() ==> is_lower_hex_digit(#[trigger] r@[i]),
{
    blake3::hash(bytes).to_string()
}

/// A token is a function of the bytes: equal buffers give equal tokens, so
/// computing the token of the same bytes twice gives the same text.
pub proof fn lemma_digest_deterministic(b1: Seq<u8>, b2: Seq<u8>)
    requires
        b1 == b2,
    ensures
        blake3_hex(b1) == blake3_hex(b2),
{
}

} // verus!
