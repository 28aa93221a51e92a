//! Display columns: how many terminal cells a piece of text takes up.

use unicode_width::{UnicodeWidthChar, UnicodeWidthStr};
use vstd::prelude::*;
use vstd::string::*;

verus! {

/// The display width that the Unicode width tables give a character, or `None`
/// for a control character other than NUL.
pub uninterp spec fn char_columns(c: char) -> Option<usize>;

/// The columns that a character takes up on the screen. A control character
/// takes up none.
pub open spec fn cell_width(c: char) -> nat {
    match char_columns(c) {
        Some(w) => w as nat,
        None => 0,
    }
}

/// The columns that a run of characters takes up on the screen.
pub open spec fn text_width(s: Seq<char>) -> nat
    decreases s.len(),
{
    if s.len() == 0 {
        0
    } else {
        text_width(s.drop_last()) + cell_width(s.last())
    }
}

/// Calls `UnicodeWidthChar::width` of the crate `unicode-width`.
///
/// Trusted: the result is a function of the character alone, which
/// `char_columns` names. The control characters other than NUL, and no others,
/// have no width. NUL has width zero, and every printable ASCII character is one
/// column wide.
#[verifier::external_body]
pub(crate) fn char_width(c: char) -> (width: Option<usize>)
    ensures
        width == char_columns(c),
        c as u32 == 0 ==> width == Some(0usize),
        width is None <==> (0 < (c as u32) < 0x20 || 0x7f <= (c as u32) < 0xa0),
        0x20 <= (c as u32) < 0x7f ==> width == Some(1usize),
{
    UnicodeWidthChar::width(c)
}

/// Calls `UnicodeWidthStr::width` of the crate `unicode-width`.
///
/// Trusted: the width of a string is the sum of the widths of its characters,
/// a character without a width counting as zero.
#[verifier::external_body]
pub(crate) fn str_width(s: &str) -> (width: usize)
    ensures
        width == text_width(s@),
{
    UnicodeWidthStr::width(s)
}

pub proof fn lemma_width_concat(a: Seq<char>, b: Seq<char>)
    ensures
        text_width(a + b) == text_width(a) + text_width(b),
    decreases b.len(),
{
    if b.len() == 0 {
        assert(a + b =~= a);
    } else {
        assert((a + b).drop_last() =~= a + b.drop_last());
        lemma_width_concat(a, b.drop_last());
    }
}

/// One more character makes a prefix wider by that character's columns.
pub proof fn lemma_width_step(s: Seq<char>, i: int)
    requires
        0 <= i < s.len(),
    ensures
        text_width(s.take(i + 1)) == text_width(s.take(i)) + cell_width(s[i]),
{
    assert(s.take(i + 1).drop_last() =~= s.take(i));
}

/// A longer prefix is no narrower.
pub proof fn lemma_width_monotone(s: Seq<char>, i: int, j: int)
    requires
        0 <= i <= j <= s.len(),
    ensures
        text_width(s.take(i)) <= text_width(s.take(j)),
{
    assert(s.take(j) =~= s.take(i) + s.subrange(i, j));
    lemma_width_concat(s.take(i), s.subrange(i, j));
}

/// The character at index `i` occupies column `col`.
pub open spec fn occupies(s: Seq<char>, col: nat, i: int) -> bool {
    &&& 0 <= i < s.len()
    &&& text_width(s.take(i)) <= col < text_width(s.take(i + 1))
}

/// Every column of a line is occupied by exactly one of its characters.
pub proof fn lemma_one_occupant(s: Seq<char>, col: nat) -> (i: int)
    requires
        col < text_width(s),
    ensures
        occupies(s, col, i),
        forall|j: int| occupies(s, col, j) ==> j == i,
    decreases s.len(),
{
    let n = s.len() as int;
    assert(s.take(n) =~= s);
    assert(s.take(n - 1) =~= s.drop_last());
    let i = if text_width(s.drop_last()) <= col {
        n - 1
    } else {
        let k = lemma_one_occupant(s.drop_last(), col);
        assert(s.drop_last().take(k) =~= s.take(k));
        assert(s.drop_last().take(k + 1) =~= s.take(k + 1));
        k
    };
    assert forall|j: int| occupies(s, col, j) implies j == i by {
        if j < i {
            lemma_width_monotone(s, j + 1, i);
        } else if i < j {
            lemma_width_monotone(s, i + 1, j);
        }
    }
    i
}

/// The character index that a cursor in column `col` comes to stand at: that
/// of the character which occupies the column, or the end of the line where the
/// line is not long enough.
pub open spec fn index_at_column(s: Seq<char>, col: nat) -> int {
    if col < text_width(s) {
        choose|i: int| occupies(s, col, i)
    } else {
        s.len() as int
    }
}

/// Specify the position of a character in a line,
/// both in terms of index (count chars) and columns (unicode widths).
#[derive(Debug, Clone, Copy, PartialEq, Eq)]
pub struct LinePosition {
    /// The column this character occupies (based on unicode-widths)
    pub col: usize,
    /// The index of the character in the string
    pub char_index: usize,
}

/// Determine the character index of the string
/// such that the unicode width of the string up
/// to this point matches the desired width.
///
/// If the specified column is not the first column of
/// a character (in case of multi-column characters),
/// the beginning column of that character will be returned.
///
/// If the line is not long enough, `None` is returned.
pub fn get_line_pos_of_column(s: &str, col: usize) -> (position: Option<LinePosition>)
    ensures
        position is None <==> text_width(s@) <= col,
        position matches Some(p) ==> {
            &&& occupies(s@, col as nat, p.char_index as int)
            &&& p.char_index == index_at_column(s@, col as nat)
            &&& p.col == text_width(s@.take(p.char_index as int))
            &&& p.char_index < s@.len()
            &&& p.col <= col < p.col + cell_width(s@[p.char_index as int])
        },
{
    // A line whose columns have been counted has no prefix too wide to count.
    if str_width(s) <= col {
        return None;
    }
    let nchars: usize = s.unicode_len();
    let mut col_counter: usize = 0;
    let mut i: usize = 0;
    let mut rest = s.chars();
    let ghost occupant = lemma_one_occupant(s@, col as nat);
    assert(s@.take(s@.len() as int) =~= s@);
    loop
        invariant
            i <= nchars == s@.len(),
            text_width(s@) <= usize::MAX,
            col < text_width(s@),
            s@.take(s@.len() as int) == s@,
            vstd::std_specs::iter::IteratorSpec::remaining(&rest) == s@.skip(i as int),
            col_counter == text_width(s@.take(i as int)),
            col_counter <= col,
            occupies(s@, col as nat, occupant),
            forall|j: int| occupies(s@, col as nat, j) ==> j == occupant,
        decreases nchars - i,
    {
        match rest.next() {
            Some(c) => {
                let width: usize = match char_width(c) {
                    Some(w) => w,
                    None => 0,
                };
                proof {
                    lemma_width_step(s@, i as int);
                    lemma_width_monotone(s@, i + 1, s@.len() as int);
                    assert(s@.skip(i as int).drop_first() =~= s@.skip(i + 1));
                }
                if col_counter + width > col {
                    assert(occupies(s@, col as nat, i as int));
                    return Some(LinePosition { col: col_counter, char_index: i });
                }
                col_counter = col_counter + width;
                i = i + 1;
            },
            None => {
                return None;
            },
        }
    }
}

/// No characters take up no columns, one takes up its own width or, without a
/// width, none, and two runs side by side take up the sum of theirs.
pub proof fn law_widths_add_up(a: Seq<char>, b: Seq<char>, c: char)
    ensures
        text_width(Seq::empty()) == 0,
        char_columns(c) matches Some(w) ==> text_width(seq![c]) == w,
        char_columns(c) is None ==> text_width(seq![c]) == 0,
        text_width(a + b) == text_width(a) + text_width(b),
{
    lemma_width_concat(a, b);
    reveal_with_fuel(text_width, 2);
    assert(seq![c].drop_last() =~= Seq::<char>::empty());
}

/// A column inside a line belongs to the character whose columns it is among, and
/// a column behind the line to no character.
pub proof fn law_index_at_column(s: Seq<char>, col: nat)
    ensures
        col < text_width(s) ==> {
            &&& 0 <= index_at_column(s, col) < s.len()
            &&& text_width(s.take(index_at_column(s, col))) <= col
            &&& col < text_width(s.take(index_at_column(s, col))) + cell_width(
                s[index_at_column(s, col)],
            )
        },
        col >= text_width(s) ==> index_at_column(s, col) == s.len(),
{
    if col < text_width(s) {
        let i = lemma_one_occupant(s, col);
        lemma_width_step(s, i);
    }
}

} // verus!
