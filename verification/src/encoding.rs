//! Facts about UTF-8 encoding that the buffer's contracts rest on.

use vstd::prelude::*;
use vstd::utf8::*;

verus! {

/// Encoding a concatenation is concatenating the encodings.
pub proof fn lemma_encode_utf8_concat(front: Seq<char>, back: Seq<char>)
    ensures
        encode_utf8(front + back) == encode_utf8(front) + encode_utf8(back),
    decreases front.len(),
{
    if front.len() == 0 {
        assert(front + back =~= back);
        assert(encode_utf8(front) + encode_utf8(back) =~= encode_utf8(back));
    } else {
        lemma_encode_utf8_concat(front.drop_first(), back);
        assert((front + back).drop_first() =~= front.drop_first() + back);
        assert(encode_utf8(front + back) =~= encode_utf8(front) + encode_utf8(back));
    }
}

/// Two valid UTF-8 byte strings, one after the other, are valid UTF-8 and
/// decode to the two texts, one after the other.
pub proof fn lemma_decode_utf8_concat(front: Seq<u8>, back: Seq<u8>)
    requires
        valid_utf8(front),
        valid_utf8(back),
    ensures
        valid_utf8(front + back),
        decode_utf8(front + back) == decode_utf8(front) + decode_utf8(back),
{
    decode_utf8_encode_utf8(front);
    decode_utf8_encode_utf8(back);
    lemma_encode_utf8_concat(decode_utf8(front), decode_utf8(back));
    encode_utf8_valid_utf8(decode_utf8(front) + decode_utf8(back));
    encode_utf8_decode_utf8(decode_utf8(front) + decode_utf8(back));
}

} // verus!
