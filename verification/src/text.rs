//! Text helpers over the standard library.

use vstd::prelude::*;
use vstd::string::StringSliceAdditionalSpecFns;
use vstd::utf8::{
    decode_utf8, decode_utf8_split, encode_scalar, encode_utf8, encode_utf8_decode_utf8,
    encode_utf8_first_scalar, encode_utf8_valid_utf8, is_char_boundary, pop_first_scalar,
    valid_utf8, valid_utf8_split,
};

verus! {

/// Whether two string slices hold the same characters.
pub fn same_text(a: &str, b: &str) -> (r: bool)
    ensures
        r == (a@ == b@),
{
    let x = a.as_bytes();
    let y = b.as_bytes();
    proof {
        // Equal encodings decode to equal texts.
        encode_utf8_decode_utf8(a@);
        encode_utf8_decode_utf8(b@);
    }
    if x.len() != y.len() {
        return false;
    }
    let mut i: usize = 0;
    while i < x.len()
        invariant
            x@ == a.spec_bytes(),
            y@ == b.spec_bytes(),
            x.len() == y.len(),
            i <= x.len(),
            forall|j: int| 0 <= j < i ==> x[j] == y[j],
        decreases x.len() - i,
    {
        if x[i] != y[i] {
            return false;
        }
        i += 1;
    }
    assert(x@ =~= y@);
    true
}

/// The encoding of two texts in a row is their encodings in a row.
proof fn lemma_encode_concat(s: Seq<char>, t: Seq<char>)
    ensures
        encode_utf8(s + t) == encode_utf8(s) + encode_utf8(t),
    decreases s.len(),
{
    if s.len() == 0 {
        assert(s + t =~= t);
        assert(encode_utf8(s) + encode_utf8(t) =~= encode_utf8(t));
    } else {
        lemma_encode_concat(s.drop_first(), t);
        assert((s + t).drop_first() =~= s.drop_first() + t);
        assert((s + t)[0] == s[0]);
        assert(encode_utf8(s + t) =~= encode_utf8(s) + encode_utf8(t));
    }
}

/// In the encoding of two texts in a row, the second begins on a character
/// boundary.
proof fn lemma_boundary_between(s: Seq<char>, t: Seq<char>)
    ensures
        is_char_boundary(encode_utf8(s + t), encode_utf8(s).len() as int),
    decreases s.len(),
{
    let bytes = encode_utf8(s + t);
    encode_utf8_valid_utf8(s + t);
    if s.len() > 0 {
        let rest = s.drop_first();
        lemma_boundary_between(rest, t);
        lemma_encode_concat(s, t);
        assert((s + t).drop_first() =~= rest + t);
        assert((s + t)[0] == s[0]);
        encode_utf8_first_scalar(s + t);
        let first = encode_scalar(s[0] as u32);
        assert(first.len() > 0);
        assert(pop_first_scalar(bytes) =~= encode_utf8(rest + t));
        assert(encode_utf8(s).len() == first.len() + encode_utf8(rest).len());
    }
}

/// Whether a string slice begins with another.
pub fn begins_with(text: &str, prefix: &str) -> (r: bool)
    ensures
        r == prefix@.is_prefix_of(text@),
{
    let n = prefix.as_bytes().len();
    proof {
        encode_utf8_decode_utf8(text@);
        encode_utf8_decode_utf8(prefix@);
        encode_utf8_valid_utf8(text@);
        if prefix@.is_prefix_of(text@) {
            let rest = text@.skip(prefix@.len() as int);
            assert(text@ =~= prefix@ + rest);
            lemma_encode_concat(prefix@, rest);
            lemma_boundary_between(prefix@, rest);
            assert(text.spec_bytes().subrange(0, n as int) =~= prefix.spec_bytes());
        }
    }
    if n > text.as_bytes().len() || !text.is_char_boundary(n) {
        return false;
    }
    let (head, _) = text.split_at(n);
    proof {
        encode_utf8_decode_utf8(head@);
        decode_utf8_split(text.spec_bytes(), n as int);
        valid_utf8_split(text.spec_bytes(), n as int);
        if head@ == prefix@ {
            let tail = decode_utf8(text.spec_bytes().subrange(n as int, text.spec_bytes().len() as int));
            assert(text@ =~= prefix@ + tail);
            assert(prefix@ =~= text@.subrange(0, prefix@.len() as int));
        }
    }
    same_text(head, prefix)
}

/// Reads bytes as UTF-8 text.
///
/// Calls `String::from_utf8`, which returns the text exactly when the bytes
/// are well-formed UTF-8 and changes nothing in them. Taken on trust.
#[verifier::external_body]
pub(crate) fn text_of_bytes(bytes: Vec<u8>) -> (r: Option<String>)
    ensures
        r is Some <==> valid_utf8(bytes@),
        r is Some ==> r.unwrap()@ == decode_utf8(bytes@),
{
    String::from_utf8(bytes).ok()
}

} // verus!
