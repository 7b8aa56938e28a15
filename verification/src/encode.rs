//! Sanitizing log messages into null-terminated byte strings.
//!
//! A foreign logging callback receives its message as a null-terminated byte
//! string, so the rendered text must contain no interior null byte. Rather
//! than truncating or rejecting such a message, every null byte is replaced
//! one-for-one with the conventional substitute control code, and a single
//! terminator is appended. Logging therefore never fails because of payload
//! content.

use vstd::prelude::*;

verus! {

/// The byte substituted for every null byte found inside a message.
///
/// This is the conventional "substitute" control code.
pub const SUBSTITUTE_BYTE: u8 = 0x1a;

/// The message with every null byte replaced by [`SUBSTITUTE_BYTE`].
pub open spec fn sanitized(m: Seq<u8>) -> Seq<u8> {
    m.map(|_i: int, b: u8| if b == 0 { SUBSTITUTE_BYTE } else { b })
}

/// The transport form of a message: the sanitized bytes followed by a
/// single null terminator.
pub open spec fn c_encoded(m: Seq<u8>) -> Seq<u8> {
    sanitized(m).push(0)
}

/// The encoding keeps the message length and substitutes byte-for-byte:
/// position `i` of the encoding is the original byte, or the substitute
/// where the original byte was null, and the final position is the
/// terminator.
pub proof fn lemma_encoded_shape(m: Seq<u8>)
    ensures
        c_encoded(m).len() == m.len() + 1,
        c_encoded(m)[m.len() as int] == 0,
        forall|i: int|
            0 <= i < m.len() ==> c_encoded(m)[i] == (if m[i] == 0 {
                SUBSTITUTE_BYTE
            } else {
                m[i]
            }),
{
}

/// The encoding of any message is a well-formed C string: it ends with the
/// terminator and holds no null byte before it.
pub proof fn lemma_encoded_is_c_string(m: Seq<u8>)
    ensures
        c_encoded(m).len() >= 1,
        c_encoded(m).last() == 0,
        forall|i: int| 0 <= i < c_encoded(m).len() - 1 ==> c_encoded(m)[i] != 0,
{
    assert forall|i: int| 0 <= i < c_encoded(m).len() - 1 implies c_encoded(m)[i] != 0 by {
        assert(c_encoded(m)[i] == sanitized(m)[i]);
    }
}

/// Builds the transport form of `message`: interior null bytes replaced by
/// [`SUBSTITUTE_BYTE`], then a single null terminator appended.
pub fn encode_message(message: &[u8]) -> (r: Vec<u8>)
    ensures
        r@ == c_encoded(message@),
{
    let mut out: Vec<u8> = Vec::new();
    let mut i: usize = 0;
    while i < message.len()
        invariant
            i <= message.len(),
            out@ == sanitized(message@).take(i as int),
        decreases message.len() - i,
    {
        let b = message[i];
        if b == 0 {
            out.push(SUBSTITUTE_BYTE);
        } else {
            out.push(b);
        }
        i = i + 1;
        assert(out@ =~= sanitized(message@).take(i as int));
    }
    assert(out@ =~= sanitized(message@));
    out.push(0);
    out
}

} // verus!
