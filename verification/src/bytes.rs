use vstd::prelude::*;
use vstd::utf8::*;

verus! {

/// Appends the bytes of `src` to `dst`.
pub fn append_bytes(dst: &mut Vec<u8>, src: &[u8])
    ensures
        final(dst)@ == old(dst)@ + src@,
{
    let mut i: usize = 0;
    while i < src.len()
        invariant
            i <= src@.len(),
            dst@ == old(dst)@ + src@.take(i as int),
        decreases src@.len() - i,
    {
        dst.push(src[i]);
        i = i + 1;
        assert(src@.take(i as int) == src@.take(i - 1) + seq![src@[i - 1]]);
    }
    assert(src@.take(src@.len() as int) == src@);
}

/// An ASCII byte occurs in the UTF-8 encoding of `s` only as the encoding of
/// that very character: every byte of a multi-byte encoding is at least 0x80.
pub proof fn lemma_ascii_byte_in_encoding(s: Seq<char>, b: u8, i: int)
    requires
        b < 0x80,
        0 <= i < encode_utf8(s).len(),
        encode_utf8(s)[i] == b,
    ensures
        s.contains(b as char),
    decreases s.len(),
{
    let c = s[0];
    let v = c as u32;
    let head = encode_scalar(v);
    let rest = s.drop_first();
    assert(encode_utf8(s) == head + encode_utf8(rest));
    if i < head.len() {
        assert(head[i] == b);
        char_is_scalar(c);
        if has_width_1_encoding(v) {
            assert(head[0] == leading_byte_width_1(v));
            assert(v <= 0x7F ==> (v & 0x7F) as u8 == v) by (bit_vector);
            assert(v == b as u32);
            char_u32_cast(c, v);
            assert(s[0] == b as char);
        } else {
            assert(leading_byte_width_2(v) >= 0x80) by (bit_vector);
            assert(leading_byte_width_3(v) >= 0x80) by (bit_vector);
            assert(leading_byte_width_4(v) >= 0x80) by (bit_vector);
            assert(last_continuation_byte(v) >= 0x80) by (bit_vector);
            assert(second_last_continuation_byte(v) >= 0x80) by (bit_vector);
            assert(third_last_continuation_byte(v) >= 0x80) by (bit_vector);
            assert(false);
        }
    } else {
        lemma_ascii_byte_in_encoding(rest, b, i - head.len());
        let j = choose|j: int| 0 <= j < rest.len() && rest[j] == b as char;
        assert(s[j + 1] == b as char);
    }
}

} // verus!
