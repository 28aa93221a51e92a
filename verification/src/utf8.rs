//! Character positions and byte positions of UTF-8 text.

use vstd::prelude::*;
use vstd::string::*;
use vstd::utf8::*;

verus! {

/// The byte position of character `i` in the UTF-8 encoding of `s`.
pub open spec fn byte_offset(s: Seq<char>, i: int) -> nat {
    encode_utf8(s.take(i)).len()
}

/// The number of bytes that UTF-8 spends on a character.
///
/// Trusted: `char::len_utf8` returns the length of the character's encoding.
pub assume_specification[ char::len_utf8 ](c: char) -> (n: usize)
    ensures
        n == encode_scalar(c as u32).len(),
;

pub proof fn lemma_encode_concat(a: Seq<char>, b: Seq<char>)
    ensures
        encode_utf8(a + b) == encode_utf8(a) + encode_utf8(b),
    decreases a.len(),
{
    if a.len() == 0 {
        assert(a + b =~= b);
        assert(encode_utf8(a) + encode_utf8(b) =~= encode_utf8(b));
    } else {
        assert((a + b).drop_first() =~= a.drop_first() + b);
        lemma_encode_concat(a.drop_first(), b);
        assert(encode_utf8(a + b) =~= encode_utf8(a) + encode_utf8(b));
    }
}

/// Encoding text and cutting it after the encoding of its first part is
/// cutting it between two characters.
pub proof fn lemma_boundary_between(a: Seq<char>, b: Seq<char>)
    ensures
        is_char_boundary(encode_utf8(a + b), encode_utf8(a).len() as int),
    decreases a.len(),
{
    encode_utf8_valid_utf8(a + b);
    if a.len() > 0 {
        let s = a + b;
        assert(s.drop_first() =~= a.drop_first() + b);
        encode_utf8_first_scalar(s);
        assert(pop_first_scalar(encode_utf8(s)) =~= encode_utf8(s.drop_first()));
        lemma_encode_concat(a, b);
        lemma_boundary_between(a.drop_first(), b);
    }
}

/// Convert a char index to a byte index for a given string. An index past the
/// last character gives the length of the string in bytes.
pub fn get_byte_index_from_char_index(s: &str, char_ind: usize) -> (byte_ind: usize)
    ensures
        char_ind <= s@.len() ==> byte_ind == byte_offset(s@, char_ind as int),
        char_ind > s@.len() ==> byte_ind == byte_offset(s@, s@.len() as int),
{
    // The whole string can be counted in bytes, so a part of it can be too.
    let total: usize = s.as_bytes().len();
    let mut byte_ind: usize = 0;
    let mut i: usize = 0;
    let mut rest = s.chars();
    assert(s@.take(0) =~= Seq::<char>::empty());
    while i < char_ind
        invariant
            i <= char_ind,
            i <= s@.len(),
            total == encode_utf8(s@).len(),
            vstd::std_specs::iter::IteratorSpec::remaining(&rest) == s@.skip(i as int),
            byte_ind == byte_offset(s@, i as int),
        ensures
            char_ind <= s@.len() ==> byte_ind == byte_offset(s@, char_ind as int),
            char_ind > s@.len() ==> byte_ind == byte_offset(s@, s@.len() as int),
        decreases char_ind - i,
    {
        match rest.next() {
            Some(c) => {
                proof {
                    let upto = s@.take(i + 1);
                    assert(upto =~= s@.take(i as int) + seq![c]);
                    lemma_encode_concat(s@.take(i as int), seq![c]);
                    assert(s@ =~= upto + s@.skip(i + 1));
                    lemma_encode_concat(upto, s@.skip(i + 1));
                    reveal_with_fuel(encode_utf8, 2);
                    assert(s@.skip(i as int).drop_first() =~= s@.skip(i + 1));
                }
                byte_ind = byte_ind + c.len_utf8();
                i = i + 1;
            },
            None => {
                break;
            },
        }
    }
    byte_ind
}

/// Cut a line in two before the character at index `pos`.
pub(crate) fn split_line(line: &str, pos: usize) -> (parts: (String, String))
    requires
        pos <= line@.len(),
    ensures
        parts.0@ == line@.take(pos as int),
        parts.1@ == line@.skip(pos as int),
{
    let byte_pos: usize = get_byte_index_from_char_index(line, pos);
    let ghost before = line@.take(pos as int);
    let ghost after = line@.skip(pos as int);
    proof {
        assert(line@ =~= before + after);
        lemma_boundary_between(before, after);
    }
    let (head, tail) = line.split_at(byte_pos);
    proof {
        lemma_encode_concat(before, after);
        assert(head.spec_bytes() =~= encode_utf8(before));
        assert(tail.spec_bytes() =~= encode_utf8(after));
        encode_utf8_decode_utf8(before);
        encode_utf8_decode_utf8(after);
        encode_utf8_decode_utf8(head@);
        encode_utf8_decode_utf8(tail@);
    }
    (head.to_owned(), tail.to_owned())
}

/// A line made of one character.
///
/// Trusted: `String::from` of a `char` holds that character and no other.
#[verifier::external_body]
pub(crate) fn single(c: char) -> (s: String)
    ensures
        s@ == seq![c],
{
    String::from(c)
}

/// A line with `c` put in before the character at index `pos`.
pub(crate) fn with_inserted(line: &str, pos: usize, c: char) -> (result: String)
    requires
        pos <= line@.len(),
    ensures
        result@ == line@.insert(pos as int, c),
{
    let (mut result, tail) = split_line(line, pos);
    result.append(single(c).as_str());
    result.append(tail.as_str());
    assert(result@ =~= line@.insert(pos as int, c));
    result
}

/// A line without the character at index `pos`.
pub(crate) fn with_removed(line: &str, pos: usize) -> (result: String)
    requires
        pos < line@.len(),
    ensures
        result@ == line@.remove(pos as int),
{
    let (mut result, rest) = split_line(line, pos);
    let (_, tail) = split_line(rest.as_str(), 1);
    result.append(tail.as_str());
    assert(result@ =~= line@.remove(pos as int));
    result
}

/// Byte positions start at zero, grow by the length of each character's encoding,
/// and end at the length of the whole encoding.
pub proof fn law_byte_offsets(s: Seq<char>, i: int)
    requires
        0 <= i < s.len(),
    ensures
        byte_offset(s, 0) == 0,
        byte_offset(s, i + 1) == byte_offset(s, i) + encode_scalar(s[i] as u32).len(),
        byte_offset(s, s.len() as int) == encode_utf8(s).len(),
{
    assert(s.take(0) =~= Seq::<char>::empty());
    assert(s.take(s.len() as int) =~= s);
    assert(s.take(i + 1) =~= s.take(i) + seq![s[i]]);
    lemma_encode_concat(s.take(i), seq![s[i]]);
    reveal_with_fuel(encode_utf8, 2);
    assert(seq![s[i]].drop_first() =~= Seq::<char>::empty());
}

} // verus!
