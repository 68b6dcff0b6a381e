//! Comparing string slices by their UTF-8 bytes, with the proofs that what
//! is decided on the bytes holds of the characters.

use vstd::prelude::*;
use vstd::string::*;
use vstd::utf8::*;

verus! {

/// The byte that encodes `'*'`.
pub const STAR: u8 = 0x2A;

/// Whether two string slices hold the same characters.
pub fn str_eq(a: &str, b: &str) -> (r: bool)
    ensures
        r == (a@ == b@),
{
    let x = a.as_bytes();
    let y = b.as_bytes();
    proof {
        lemma_encoding_injective(a@, b@);
    }
    if x.len() != y.len() {
        return false;
    }
    let r = bytes_agree(x, y, y.len());
    proof {
        assert(x@.subrange(0, x@.len() as int) =~= x@);
        assert(y@.subrange(0, y@.len() as int) =~= y@);
    }
    r
}

/// Whether the first `n` bytes of `hay` are the first `n` bytes of `needle`.
pub(crate) fn bytes_agree(hay: &[u8], needle: &[u8], n: usize) -> (r: bool)
    requires
        n <= needle@.len(),
    ensures
        r == (n <= hay@.len() && hay@.subrange(0, n as int) == needle@.subrange(0, n as int)),
{
    if hay.len() < n {
        return false;
    }
    let mut i: usize = 0;
    while i < n
        invariant
            i <= n,
            n <= hay@.len(),
            n <= needle@.len(),
            hay@.subrange(0, i as int) == needle@.subrange(0, i as int),
        decreases n - i,
    {
        if hay[i] != needle[i] {
            proof {
                let h = hay@.subrange(0, n as int);
                let p = needle@.subrange(0, n as int);
                assert(h[i as int] != p[i as int]);
            }
            return false;
        }
        proof {
            let j = i as int;
            assert(hay@.subrange(0, j + 1) =~= hay@.subrange(0, j).push(hay@[j]));
            assert(needle@.subrange(0, j + 1) =~= needle@.subrange(0, j).push(needle@[j]));
        }
        i += 1;
    }
    true
}

/// Two character sequences are equal exactly when their encodings are.
pub proof fn lemma_encoding_injective(a: Seq<char>, b: Seq<char>)
    ensures
        (encode_utf8(a) == encode_utf8(b)) <==> (a == b),
{
    encode_utf8_decode_utf8(a);
    encode_utf8_decode_utf8(b);
}

/// The encoding of a concatenation is the concatenation of the encodings.
pub proof fn lemma_encoding_of_concat(a: Seq<char>, b: Seq<char>)
    ensures
        encode_utf8(a + b) == encode_utf8(a) + encode_utf8(b),
    decreases a.len(),
{
    if a.len() == 0 {
        assert(a + b =~= b);
        assert(encode_utf8(a) + encode_utf8(b) =~= encode_utf8(b));
    } else {
        assert((a + b).drop_first() =~= a.drop_first() + b);
        lemma_encoding_of_concat(a.drop_first(), b);
        assert(encode_utf8(a + b) =~= encode_utf8(a) + encode_utf8(b));
    }
}

/// Where valid UTF-8 is followed by more bytes and the whole is valid, the
/// rest is valid too, and the whole decodes to the two decodings in a row.
pub proof fn lemma_decoding_of_concat(x: Seq<u8>, y: Seq<u8>)
    requires
        valid_utf8(x),
        valid_utf8(x + y),
    ensures
        valid_utf8(y),
        decode_utf8(x + y) == decode_utf8(x) + decode_utf8(y),
    decreases x.len(),
{
    if x.len() == 0 {
        assert(x + y =~= y);
        assert(decode_utf8(x) + decode_utf8(y) =~= decode_utf8(y));
    } else {
        let rest = pop_first_scalar(x);
        assert(pop_first_scalar(x + y) =~= rest + y);
        lemma_decoding_of_concat(rest, y);
        assert(decode_utf8(x + y) =~= decode_utf8(x) + decode_utf8(y));
    }
}

/// One character sequence begins another exactly when its encoding begins
/// the other's encoding.
pub proof fn lemma_prefix_by_bytes(a: Seq<char>, b: Seq<char>)
    ensures
        a.is_prefix_of(b) <==> encode_utf8(a).is_prefix_of(encode_utf8(b)),
{
    let ea = encode_utf8(a);
    let eb = encode_utf8(b);
    if a.is_prefix_of(b) {
        let rest = b.subrange(a.len() as int, b.len() as int);
        assert(b =~= a + rest);
        lemma_encoding_of_concat(a, rest);
        assert(ea.is_prefix_of(eb));
    }
    if ea.is_prefix_of(eb) {
        let tail = eb.subrange(ea.len() as int, eb.len() as int);
        assert(eb =~= ea + tail);
        encode_utf8_valid_utf8(a);
        encode_utf8_valid_utf8(b);
        lemma_decoding_of_concat(ea, tail);
        encode_utf8_decode_utf8(a);
        encode_utf8_decode_utf8(b);
        assert(b == a + decode_utf8(tail));
        assert(a =~= b.subrange(0, a.len() as int));
    }
}

/// The last byte of a character's encoding is `STAR` for `'*'` alone, whose
/// encoding is that one byte.
pub proof fn lemma_last_byte_of_char(c: char)
    ensures
        encode_scalar(c as u32).len() >= 1,
        encode_scalar(c as u32).last() == STAR <==> c == '*',
        c == '*' ==> encode_scalar(c as u32) == seq![STAR],
{
    let s = c as u32;
    char_is_scalar(c);
    if has_width_1_encoding(s) {
        assert(((s & 0x7F) as u8) as u32 == s) by (bit_vector)
            requires
                s <= 0x7F,
        ;
        assert(encode_scalar(s) =~= seq![leading_byte_width_1(s)]);
    } else {
        assert((0x80u8 | (s & 0x3F) as u8) >= 0x80u8) by (bit_vector);
    }
}

/// A sequence ends in `'*'` exactly when its encoding ends in `STAR`; what
/// stands before the `STAR` is then the encoding of what stands before the
/// `'*'`.
pub proof fn lemma_trailing_star(chars: Seq<char>)
    ensures
        (chars.len() > 0) <==> (encode_utf8(chars).len() > 0),
        (chars.len() > 0 && chars.last() == '*') <==> (encode_utf8(chars).len() > 0
            && encode_utf8(chars).last() == STAR),
        chars.len() > 0 && chars.last() == '*' ==> encode_utf8(chars).drop_last() == encode_utf8(
            chars.drop_last(),
        ),
{
    if chars.len() > 0 {
        let front = chars.drop_last();
        let c = chars.last();
        let one = seq![c];
        assert(chars =~= front + one);
        lemma_encoding_of_concat(front, one);
        assert(one.drop_first() =~= Seq::<char>::empty());
        assert(encode_utf8(Seq::<char>::empty()) =~= Seq::<u8>::empty());
        assert(one[0] == c);
        assert(encode_utf8(one) =~= encode_scalar(c as u32));
        lemma_last_byte_of_char(c);
        if c == '*' {
            assert(encode_utf8(chars).drop_last() =~= encode_utf8(front));
        }
    }
}

} // verus!
