//! What a text area is, as a mathematical object: lines of characters with a
//! cursor between two characters of one of them.

use crate::columns;
use crate::text_area::Action;
use vstd::prelude::*;

verus! {

/// The lines of a text area and the place of its cursor.
#[verifier::ext_equal]
pub struct TextState {
    pub lines: Seq<Seq<char>>,
    /// The line that the cursor is in.
    pub row: int,
    /// The number of characters of that line before the cursor.
    pub pos: int,
}

/// Lines put together with a line feed between each two of them.
pub open spec fn join_lines(lines: Seq<Seq<char>>) -> Seq<char>
    decreases lines.len(),
{
    if lines.len() == 0 {
        Seq::empty()
    } else if lines.len() == 1 {
        lines[0]
    } else {
        join_lines(lines.drop_last()) + seq!['\n'] + lines.last()
    }
}

impl TextState {
    /// There is a line for the cursor to be in, and the cursor is inside it.
    pub open spec fn wf(self) -> bool {
        &&& 0 <= self.row < self.lines.len()
        &&& 0 <= self.pos <= self.lines[self.row].len()
    }

    /// One blank line.
    pub open spec fn blank() -> TextState {
        TextState { lines: seq![Seq::empty()], row: 0, pos: 0 }
    }

    /// The line that the cursor is in.
    pub open spec fn line(self) -> Seq<char> {
        self.lines[self.row]
    }

    /// The display column of the cursor.
    pub open spec fn col(self) -> nat {
        columns::text_width(self.line().take(self.pos))
    }

    /// The whole text.
    pub open spec fn content(self) -> Seq<char> {
        join_lines(self.lines)
    }

    /// The part of the text before the cursor.
    pub open spec fn before_cursor(self) -> Seq<char> {
        join_lines(self.lines.take(self.row).push(self.line().take(self.pos)))
    }

    /// The place of the cursor in the whole text.
    pub open spec fn offset(self) -> int {
        self.before_cursor().len() as int
    }

    /// `c` is put in before the cursor.
    pub open spec fn insert_char(self, c: char) -> TextState {
        TextState {
            lines: self.lines.update(self.row, self.line().insert(self.pos, c)),
            row: self.row,
            pos: self.pos + 1,
        }
    }

    /// The characters of `s` are put in before the cursor.
    pub open spec fn insert_string(self, s: Seq<char>) -> TextState {
        TextState {
            lines: self.lines.update(
                self.row,
                self.line().take(self.pos) + s + self.line().skip(self.pos),
            ),
            row: self.row,
            pos: self.pos + s.len(),
        }
    }

    /// The line is cut at the cursor, which goes to the start of the new line.
    pub open spec fn insert_new_line(self) -> TextState {
        TextState {
            lines: self.lines.update(self.row, self.line().take(self.pos)).insert(
                self.row + 1,
                self.line().skip(self.pos),
            ),
            row: self.row + 1,
            pos: 0,
        }
    }

    /// The character before the cursor goes; at the start of a line, the line
    /// is put behind the one above it; at the start of the text, nothing
    /// happens.
    pub open spec fn remove_char(self) -> TextState {
        if self.pos > 0 {
            TextState {
                lines: self.lines.update(self.row, self.line().remove(self.pos - 1)),
                row: self.row,
                pos: self.pos - 1,
            }
        } else if self.row > 0 {
            let above = self.lines[self.row - 1];
            TextState {
                lines: self.lines.remove(self.row).update(self.row - 1, above + self.line()),
                row: self.row - 1,
                pos: above.len() as int,
            }
        } else {
            self
        }
    }

    pub open spec fn move_left(self) -> TextState {
        if self.pos > 0 {
            TextState { pos: self.pos - 1, ..self }
        } else {
            self
        }
    }

    pub open spec fn move_right(self) -> TextState {
        if self.pos < self.line().len() {
            TextState { pos: self.pos + 1, ..self }
        } else {
            self
        }
    }

    /// The cursor goes to column `col` of the line `row`, or to that line's end
    /// where it is not long enough.
    pub open spec fn to_row(self, row: int, col: nat) -> TextState {
        TextState { row, pos: columns::index_at_column(self.lines[row], col), ..self }
    }

    pub open spec fn move_up(self) -> TextState {
        if self.row > 0 {
            self.to_row(self.row - 1, self.col())
        } else {
            self
        }
    }

    pub open spec fn move_down(self) -> TextState {
        if self.row < self.lines.len() - 1 {
            self.to_row(self.row + 1, self.col())
        } else {
            self
        }
    }

    pub open spec fn move_home(self) -> TextState {
        TextState { pos: 0, ..self }
    }

    pub open spec fn move_end(self) -> TextState {
        TextState { pos: self.line().len() as int, ..self }
    }

    /// What an action makes of a text area.
    pub open spec fn step(self, action: Action) -> TextState {
        match action {
            Action::NewChar(c) => self.insert_char(c),
            Action::Backspace => self.remove_char(),
            Action::NewLine => self.insert_new_line(),
            Action::Clear => TextState::blank(),
            Action::MoveLeft => self.move_left(),
            Action::MoveRight => self.move_right(),
            Action::MoveUp => self.move_up(),
            Action::MoveDown => self.move_down(),
            Action::MoveHome => self.move_home(),
            Action::MoveEnd => self.move_end(),
        }
    }
}

/// An action that only moves the cursor.
pub open spec fn is_movement(action: Action) -> bool {
    !(action is NewChar || action is Backspace || action is NewLine || action is Clear)
}

pub proof fn lemma_index_at_column(s: Seq<char>, col: nat)
    ensures
        0 <= columns::index_at_column(s, col) <= s.len(),
        columns::text_width(s.take(columns::index_at_column(s, col))) <= col,
        columns::index_at_column(s, col) < s.len() ==> columns::occupies(s, col, columns::index_at_column(s, col)),
{
    if col < columns::text_width(s) {
        let i = columns::lemma_one_occupant(s, col);
    } else {
        assert(s.take(s.len() as int) =~= s);
    }
}

/// Whatever is done, there is a line for the cursor to be in, and the cursor is
/// inside it. There is always at least one line.
pub proof fn law_step_keeps_wf(state: TextState, action: Action)
    requires
        state.wf(),
    ensures
        state.step(action).wf(),
        state.step(action).lines.len() >= 1,
{
    if state.row > 0 {
        lemma_index_at_column(state.lines[state.row - 1], state.col());
    }
    if state.row < state.lines.len() - 1 {
        lemma_index_at_column(state.lines[state.row + 1], state.col());
    }
}

/// Moving the cursor changes no text.
pub proof fn law_movement_keeps_text(state: TextState, action: Action)
    requires
        is_movement(action),
    ensures
        state.step(action).lines == state.lines,
        state.step(action).content() == state.content(),
{
}

/// Backspace undoes typing a character.
pub proof fn law_backspace_undoes_char(state: TextState, c: char)
    requires
        state.wf(),
    ensures
        state.step(Action::NewChar(c)).step(Action::Backspace) == state,
{
    let typed = state.insert_char(c);
    assert(typed.line().remove(typed.pos - 1) =~= state.line());
    assert(typed.remove_char() =~= state);
}

/// Backspace undoes starting a new line.
pub proof fn law_backspace_undoes_new_line(state: TextState)
    requires
        state.wf(),
    ensures
        state.step(Action::NewLine).step(Action::Backspace) == state,
{
    let split = state.insert_new_line();
    assert(split.lines[split.row - 1] + split.line() =~= state.line());
    assert(split.remove_char() =~= state);
}

/// A step to the left undoes a step to the right, and the other way round,
/// where the cursor is not at that end of its line.
pub proof fn law_left_and_right_undo_each_other(state: TextState)
    requires
        state.wf(),
    ensures
        state.pos < state.line().len() ==> state.step(Action::MoveRight).step(Action::MoveLeft)
            == state,
        state.pos > 0 ==> state.step(Action::MoveLeft).step(Action::MoveRight) == state,
{
}

/// A blank text area is one line without characters, with the cursor in it.
pub proof fn law_blank()
    ensures
        TextState::blank().lines.len() == 1,
        TextState::blank().lines[0].len() == 0,
        TextState::blank().row == 0,
        TextState::blank().pos == 0,
        TextState::blank().col() == 0,
        TextState::blank().content().len() == 0,
{
    assert(TextState::blank().line().take(0) =~= Seq::<char>::empty());
}

/// A typed character makes the cursor's line one character longer. It stands
/// where the cursor was; what stood before the cursor stays, what stood behind
/// it moves on by one, and so does the cursor. The row and every other line stay.
pub proof fn law_char_in_its_line(state: TextState, c: char)
    requires
        state.wf(),
    ensures
        ({
            let typed = state.step(Action::NewChar(c));
            &&& typed.lines.len() == state.lines.len()
            &&& typed.row == state.row
            &&& typed.pos == state.pos + 1
            &&& forall|i: int|
                0 <= i < state.lines.len() && i != state.row ==> #[trigger] typed.lines[i]
                    == state.lines[i]
            &&& typed.line().len() == state.line().len() + 1
            &&& typed.line()[state.pos] == c
            &&& forall|j: int|
                0 <= j < state.pos ==> #[trigger] typed.line()[j] == state.line()[j]
            &&& forall|j: int|
                state.pos < j <= state.line().len() ==> #[trigger] typed.line()[j]
                    == state.line()[j - 1]
        }),
{
}

/// A new line makes one line more. The cursor goes to the start of the next row.
/// What stood before it stays in its row, what stood behind it comes with it,
/// the lines above stay and the lines below move down by one.
pub proof fn law_new_line_splits_its_line(state: TextState)
    requires
        state.wf(),
    ensures
        ({
            let split = state.step(Action::NewLine);
            &&& split.lines.len() == state.lines.len() + 1
            &&& split.row == state.row + 1
            &&& split.pos == 0
            &&& split.col() == 0
            &&& split.lines[state.row].len() == state.pos
            &&& split.lines[state.row] + split.line() == state.line()
            &&& forall|i: int|
                0 <= i < state.row ==> #[trigger] split.lines[i] == state.lines[i]
            &&& forall|i: int|
                state.row + 1 < i < split.lines.len() ==> #[trigger] split.lines[i]
                    == state.lines[i - 1]
        }),
{
    let split = state.step(Action::NewLine);
    assert(split.lines[state.row] + split.line() =~= state.line());
    assert(split.line().take(0) =~= Seq::<char>::empty());
}

/// Backspace inside a line takes the character before the cursor out of it and
/// moves the cursor back by one. The row and every other line stay.
pub proof fn law_backspace_in_its_line(state: TextState)
    requires
        state.wf(),
        state.pos > 0,
    ensures
        ({
            let gone = state.step(Action::Backspace);
            &&& gone.lines.len() == state.lines.len()
            &&& gone.row == state.row
            &&& gone.pos == state.pos - 1
            &&& forall|i: int|
                0 <= i < state.lines.len() && i != state.row ==> #[trigger] gone.lines[i]
                    == state.lines[i]
            &&& gone.line().len() == state.line().len() - 1
            &&& forall|j: int|
                0 <= j < state.pos - 1 ==> #[trigger] gone.line()[j] == state.line()[j]
            &&& forall|j: int|
                state.pos - 1 <= j < gone.line().len() ==> #[trigger] gone.line()[j]
                    == state.line()[j + 1]
        }),
{
}

/// Backspace at the start of a line makes one line less: the line comes behind
/// the one above it, with the cursor between the two. The lines further up stay
/// and the lines below move up by one.
pub proof fn law_backspace_joins_lines(state: TextState)
    requires
        state.wf(),
        state.pos == 0,
        state.row > 0,
    ensures
        ({
            let joined = state.step(Action::Backspace);
            &&& joined.lines.len() == state.lines.len() - 1
            &&& joined.row == state.row - 1
            &&& joined.pos == state.lines[state.row - 1].len()
            &&& joined.line().len() == state.lines[state.row - 1].len() + state.line().len()
            &&& joined.line().take(joined.pos) == state.lines[state.row - 1]
            &&& joined.line().skip(joined.pos) == state.line()
            &&& forall|i: int|
                0 <= i < state.row - 1 ==> #[trigger] joined.lines[i] == state.lines[i]
            &&& forall|i: int|
                state.row <= i < joined.lines.len() ==> #[trigger] joined.lines[i] == state.lines[i
                    + 1]
        }),
{
    let joined = state.step(Action::Backspace);
    assert(joined.line().take(joined.pos) =~= state.lines[state.row - 1]);
    assert(joined.line().skip(joined.pos) =~= state.line());
}

/// Backspace before the first character of the text changes nothing.
pub proof fn law_backspace_at_start(state: TextState)
    requires
        state.wf(),
        state.row == 0,
        state.pos == 0,
    ensures
        state.step(Action::Backspace).lines == state.lines,
        state.step(Action::Backspace).row == 0,
        state.step(Action::Backspace).pos == 0,
{
}

/// A step to the left or to the right goes over one character of the line, and
/// over none at that end of the line. It never leaves the row.
pub proof fn law_horizontal_steps(state: TextState)
    requires
        state.wf(),
    ensures
        state.step(Action::MoveLeft).row == state.row,
        state.step(Action::MoveRight).row == state.row,
        state.step(Action::MoveLeft).lines == state.lines,
        state.step(Action::MoveRight).lines == state.lines,
        state.pos > 0 ==> state.step(Action::MoveLeft).pos == state.pos - 1,
        state.pos == 0 ==> state.step(Action::MoveLeft).pos == 0,
        state.pos < state.line().len() ==> state.step(Action::MoveRight).pos == state.pos + 1,
        state.pos == state.line().len() ==> state.step(Action::MoveRight).pos == state.pos,
{
}

/// There is nothing above the first line and nothing below the last.
pub proof fn law_vertical_ends(state: TextState)
    requires
        state.wf(),
    ensures
        state.row == 0 ==> state.step(Action::MoveUp) == state,
        state.row == state.lines.len() - 1 ==> state.step(Action::MoveDown) == state,
{
}

/// No line holds a line feed.
pub open spec fn free_of_line_feeds(lines: Seq<Seq<char>>) -> bool {
    forall|i: int, j: int|
        0 <= i < lines.len() && 0 <= j < lines[i].len() ==> #[trigger] lines[i][j] != '\n'
}

/// Nothing but typing a line feed as a character brings one into a line; a new
/// line does not.
pub proof fn law_lines_stay_free_of_line_feeds(state: TextState, action: Action)
    requires
        state.wf(),
        free_of_line_feeds(state.lines),
        action != Action::NewChar('\n'),
    ensures
        free_of_line_feeds(state.step(action).lines),
{
    let after = state.step(action);
    assert forall|i: int, j: int|
        0 <= i < after.lines.len() && 0 <= j < after.lines[i].len() implies #[trigger] after.lines[i][j]
        != '\n' by {
        match action {
            Action::NewChar(c) => {
                law_char_in_its_line(state, c);
                if i == state.row && j != state.pos {
                    let k = if j < state.pos {
                        j
                    } else {
                        j - 1
                    };
                    assert(after.lines[i][j] == state.lines[i][k]);
                } else if i != state.row {
                    assert(after.lines[i][j] == state.lines[i][j]);
                }
            },
            Action::NewLine => {
                law_new_line_splits_its_line(state);
                if i < state.row {
                    assert(after.lines[i][j] == state.lines[i][j]);
                } else if i == state.row {
                    assert(after.lines[i][j] == state.lines[i][j]);
                } else if i == state.row + 1 {
                    assert(after.lines[i][j] == state.lines[state.row][j + state.pos]);
                } else {
                    assert(after.lines[i][j] == state.lines[i - 1][j]);
                }
            },
            Action::Backspace => {
                if state.pos > 0 {
                    law_backspace_in_its_line(state);
                    if i == state.row && j >= state.pos - 1 {
                        assert(after.lines[i][j] == state.lines[i][j + 1]);
                    } else {
                        assert(after.lines[i][j] == state.lines[i][j]);
                    }
                } else if state.row > 0 {
                    law_backspace_joins_lines(state);
                    if i < state.row - 1 {
                        assert(after.lines[i][j] == state.lines[i][j]);
                    } else if i == state.row - 1 {
                        let above = state.lines[state.row - 1].len() as int;
                        if j < above {
                            assert(after.lines[i][j] == state.lines[i][j]);
                        } else {
                            assert(after.lines[i][j] == state.lines[state.row][j - above]);
                        }
                    } else {
                        assert(after.lines[i][j] == state.lines[i + 1][j]);
                    }
                } else {
                    assert(after.lines[i][j] == state.lines[i][j]);
                }
            },
            Action::Clear => {},
            _ => {
                assert(after.lines[i][j] == state.lines[i][j]);
            },
        }
    }
}

/// Where a line starts in the whole text: behind the lines above it and a line
/// feed for each.
pub open spec fn line_start(lines: Seq<Seq<char>>, i: int) -> int
    decreases i,
{
    if i <= 0 {
        0
    } else {
        line_start(lines, i - 1) + lines[i - 1].len() + 1
    }
}

proof fn lemma_line_start_same(a: Seq<Seq<char>>, b: Seq<Seq<char>>, i: int)
    requires
        0 <= i <= a.len(),
        i <= b.len(),
        forall|k: int| 0 <= k < i ==> #[trigger] a[k] == b[k],
    ensures
        line_start(a, i) == line_start(b, i),
    decreases i,
{
    if i > 0 {
        lemma_line_start_same(a, b, i - 1);
    }
}

/// Joined lines are as long as all of them and a line feed between each two.
/// Every line stands in them whole, at its start, with a line feed behind it
/// unless it is the last.
pub proof fn law_every_line_in_content(lines: Seq<Seq<char>>, i: int)
    requires
        0 <= i < lines.len(),
    ensures
        0 <= line_start(lines, i),
        line_start(lines, i) + lines[i].len() <= join_lines(lines).len(),
        join_lines(lines).len() == line_start(lines, lines.len() as int) - 1,
        join_lines(lines).subrange(
            line_start(lines, i),
            line_start(lines, i) + lines[i].len(),
        ) == lines[i],
        i + 1 < lines.len() ==> line_start(lines, i) + lines[i].len() < join_lines(lines).len()
            && join_lines(lines)[line_start(lines, i) + lines[i].len()] == '\n',
    decreases lines.len(),
{
    let n = lines.len() as int;
    let whole = join_lines(lines);
    if n == 1 {
        reveal_with_fuel(line_start, 2);
        assert(whole.subrange(0, lines[0].len() as int) =~= lines[0]);
    } else {
        let shorter = lines.drop_last();
        lemma_line_start_same(shorter, lines, n - 1);
        lemma_line_start_same(shorter, lines, i);
        if i < n - 1 {
            law_every_line_in_content(shorter, i);
            assert(whole.subrange(line_start(lines, i), line_start(lines, i) + lines[i].len())
                =~= join_lines(shorter).subrange(
                line_start(lines, i),
                line_start(lines, i) + lines[i].len(),
            ));
        } else {
            law_every_line_in_content(shorter, n - 2);
            assert(whole.subrange(line_start(lines, i), line_start(lines, i) + lines[i].len())
                =~= lines[i]);
        }
    }
}

/// The content of a text area holds each of its lines, and the cursor's place in
/// the content is its place in its line, counted from that line's start.
pub proof fn law_content_and_offset(state: TextState, i: int)
    requires
        state.wf(),
        0 <= i < state.lines.len(),
    ensures
        state.content().len() == line_start(state.lines, state.lines.len() as int) - 1,
        0 <= line_start(state.lines, i),
        line_start(state.lines, i) + state.lines[i].len() <= state.content().len(),
        state.content().subrange(
            line_start(state.lines, i),
            line_start(state.lines, i) + state.lines[i].len(),
        ) == state.lines[i],
        i + 1 < state.lines.len() ==> state.content()[line_start(state.lines, i)
            + state.lines[i].len()] == '\n',
        state.offset() == line_start(state.lines, state.row) + state.pos,
{
    law_every_line_in_content(state.lines, i);
    let upto = state.lines.take(state.row).push(state.line().take(state.pos));
    law_every_line_in_content(upto, state.row);
    lemma_line_start_same(upto, state.lines, state.row);
}

/// Clearing gives what a new text area holds, whatever was there. Clearing again
/// changes nothing.
pub proof fn law_clear_starts_anew(state: TextState)
    ensures
        state.step(Action::Clear) == TextState::blank(),
        state.step(Action::Clear).lines.len() == 1,
        state.step(Action::Clear).lines[0].len() == 0,
        state.step(Action::Clear).row == 0,
        state.step(Action::Clear).pos == 0,
        state.step(Action::Clear).content() == Seq::<char>::empty(),
        state.step(Action::Clear).step(Action::Clear) == state.step(Action::Clear),
{
}

/// Home goes before the line's first character, in column zero, and End behind
/// its last, in the column after it. Both stay in the row and leave the text
/// alone. Going there again changes nothing.
pub proof fn law_home_and_end(state: TextState)
    requires
        state.wf(),
    ensures
        state.step(Action::MoveHome).lines == state.lines,
        state.step(Action::MoveHome).row == state.row,
        state.step(Action::MoveHome).pos == 0,
        state.step(Action::MoveHome).col() == 0,
        state.step(Action::MoveEnd).lines == state.lines,
        state.step(Action::MoveEnd).row == state.row,
        state.step(Action::MoveEnd).pos == state.line().len(),
        state.step(Action::MoveEnd).col() == columns::text_width(state.line()),
        state.step(Action::MoveHome).step(Action::MoveHome) == state.step(Action::MoveHome),
        state.step(Action::MoveEnd).step(Action::MoveEnd) == state.step(Action::MoveEnd),
{
    assert(state.line().take(state.line().len() as int) =~= state.line());
    assert(state.line().take(0) =~= Seq::empty());
}

/// End goes behind the last character of the line, wherever the cursor was, and
/// leaves the lines and the row alone. From there neither another End nor a step
/// to the right changes anything.
pub proof fn law_end_of_line(state: TextState)
    requires
        0 <= state.row < state.lines.len(),
    ensures
        state.move_end().lines == state.lines,
        state.move_end().row == state.row,
        state.move_end().pos == state.line().len(),
        state.move_end().col() == columns::text_width(state.line()),
        state.move_end().move_end() == state.move_end(),
        state.move_end().move_right() == state.move_end(),
        state.step(Action::MoveEnd) == state.move_end(),
{
    assert(state.line().take(state.line().len() as int) =~= state.line());
}

/// Going up or down ends in a valid column of the row above or below: no
/// further right than before, on the character that occupies the old column, or
/// at the end of a line that is not that long.
pub proof fn law_vertical_movement(state: TextState, action: Action)
    requires
        state.wf(),
        action == Action::MoveUp && state.row > 0 || action == Action::MoveDown && state.row
            < state.lines.len() - 1,
    ensures
        state.step(action).row == if action == Action::MoveUp {
            state.row - 1
        } else {
            state.row + 1
        },
        state.step(action).lines == state.lines,
        state.step(action).col() <= state.col(),
        0 <= state.step(action).pos <= state.step(action).line().len(),
        state.step(action).pos < state.step(action).line().len() ==> state.col()
            < columns::text_width(state.step(action).line().take(state.step(action).pos + 1)),
        state.step(action).pos < state.step(action).line().len() ==> columns::occupies(
            state.step(action).line(),
            state.col(),
            state.step(action).pos,
        ),
        state.step(action).pos == state.step(action).line().len() ==> columns::text_width(
            state.step(action).line(),
        ) <= state.col(),
{
    let moved = state.step(action);
    lemma_index_at_column(moved.line(), state.col());
    assert(moved.line().take(moved.line().len() as int) =~= moved.line());
}

/// The column of the cursor moves by the width of the character that it goes
/// over, or that is typed before it.
pub proof fn law_column_follows_widths(state: TextState, c: char)
    requires
        state.wf(),
    ensures
        state.step(Action::NewChar(c)).col() == state.col() + columns::cell_width(c),
        state.pos < state.line().len() ==> state.step(Action::MoveRight).col() == state.col()
            + columns::cell_width(state.line()[state.pos]),
        state.pos > 0 ==> state.step(Action::MoveLeft).col() == state.col() - columns::cell_width(
            state.line()[state.pos - 1],
        ),
{
    let typed = state.insert_char(c);
    assert(typed.line().take(state.pos) =~= state.line().take(state.pos));
    columns::lemma_width_step(typed.line(), state.pos);
    if state.pos < state.line().len() {
        columns::lemma_width_step(state.line(), state.pos);
    }
    if state.pos > 0 {
        columns::lemma_width_step(state.line(), state.pos - 1);
    }
}

/// The column of the cursor and its character index are the same where every
/// character before it is one column wide.
pub proof fn law_column_is_index_in_narrow_text(state: TextState)
    requires
        state.wf(),
    ensures
        (forall|i: int| 0 <= i < state.pos ==> columns::cell_width(#[trigger] state.line()[i]) == 1)
            ==> state.col() == state.pos,
{
    if forall|i: int| 0 <= i < state.pos ==> columns::cell_width(#[trigger] state.line()[i]) == 1 {
        lemma_narrow_width(state.line().take(state.pos));
    }
}

proof fn lemma_narrow_width(s: Seq<char>)
    requires
        forall|i: int| 0 <= i < s.len() ==> columns::cell_width(#[trigger] s[i]) == 1,
    ensures
        columns::text_width(s) == s.len(),
    decreases s.len(),
{
    if s.len() > 0 {
        lemma_narrow_width(s.drop_last());
    }
}

/// What follows the line before `k`: each line from there on, after a line
/// feed.
spec fn tail_from(lines: Seq<Seq<char>>, k: int) -> Seq<char>
    decreases lines.len() - k,
{
    if k < 0 || k >= lines.len() {
        Seq::empty()
    } else {
        seq!['\n'] + lines[k] + tail_from(lines, k + 1)
    }
}

/// Pushing a character onto the last line pushes it onto the whole.
proof fn lemma_join_push_char(lines: Seq<Seq<char>>, line: Seq<char>, c: char)
    ensures
        join_lines(lines.push(line.push(c))) == join_lines(lines.push(line)).push(c),
{
    assert(lines.push(line.push(c)).drop_last() =~= lines);
    assert(lines.push(line).drop_last() =~= lines);
    assert(join_lines(lines.push(line.push(c))) =~= join_lines(lines.push(line)).push(c));
}

/// The text falls apart into what stands before a place in one of its lines, the
/// rest of that line, and the lines below it.
proof fn lemma_join_apart(lines: Seq<Seq<char>>, row: int, head: Seq<char>, rest: Seq<char>)
    requires
        0 <= row < lines.len(),
        lines[row] == head + rest,
    ensures
        join_lines(lines) == join_lines(lines.take(row).push(head)) + rest + tail_from(
            lines,
            row + 1,
        ),
    decreases lines.len(),
{
    let whole = join_lines(lines);
    let n = lines.len() as int;
    assert(lines.take(row).push(head).drop_last() =~= lines.take(row));
    if row == n - 1 {
        assert(lines.drop_last() =~= lines.take(row));
        assert(tail_from(lines, n) =~= Seq::<char>::empty());
        assert(whole =~= join_lines(lines.take(row).push(head)) + rest + tail_from(lines, row + 1));
    } else {
        let shorter = lines.drop_last();
        lemma_join_apart(shorter, row, head, rest);
        assert(shorter.take(row) =~= lines.take(row));
        lemma_tail_push(shorter, lines.last(), row + 1);
        assert(shorter.push(lines.last()) =~= lines);
        assert(whole =~= join_lines(lines.take(row).push(head)) + rest + tail_from(lines, row + 1));
    }
}

proof fn lemma_tail_push(lines: Seq<Seq<char>>, last: Seq<char>, k: int)
    requires
        0 <= k <= lines.len(),
    ensures
        tail_from(lines.push(last), k) == tail_from(lines, k) + seq!['\n'] + last,
    decreases lines.len() - k,
{
    let longer = lines.push(last);
    if k == lines.len() {
        reveal_with_fuel(tail_from, 2);
        assert(tail_from(longer, k) =~= tail_from(lines, k) + seq!['\n'] + last);
    } else {
        lemma_tail_push(lines, last, k + 1);
        assert(tail_from(longer, k) =~= tail_from(lines, k) + seq!['\n'] + last);
    }
}

/// The lines below a place are the same text wherever the same lines stand.
proof fn lemma_tail_same(a: Seq<Seq<char>>, i: int, b: Seq<Seq<char>>, j: int)
    requires
        0 <= i,
        0 <= j,
        a.len() - i == b.len() - j,
        forall|k: int| i <= k < a.len() ==> #[trigger] a[k] == b[k - i + j],
    ensures
        tail_from(a, i) == tail_from(b, j),
    decreases a.len() - i,
{
    if i < a.len() {
        assert(a[i] == b[j]);
        lemma_tail_same(a, i + 1, b, j + 1);
    }
}

/// Where the cursor is in the whole text, the text falls apart.
proof fn lemma_cursor_splits_content(state: TextState) -> (after: Seq<char>)
    requires
        state.wf(),
    ensures
        after == state.line().skip(state.pos) + tail_from(state.lines, state.row + 1),
        state.content() == state.before_cursor() + after,
{
    let head = state.line().take(state.pos);
    let rest = state.line().skip(state.pos);
    assert(state.line() =~= head + rest);
    lemma_join_apart(state.lines, state.row, head, rest);
    let after = rest + tail_from(state.lines, state.row + 1);
    assert(state.content() =~= state.before_cursor() + after);
    after
}

/// The cursor is inside the text.
pub proof fn law_offset_in_content(state: TextState)
    requires
        state.wf(),
    ensures
        0 <= state.offset() <= state.content().len(),
        state.before_cursor() == state.content().take(state.offset()),
{
    let after = lemma_cursor_splits_content(state);
    assert(state.before_cursor() =~= state.content().take(state.offset()));
}

/// A typed character comes into the text at the cursor, which ends up behind it.
pub proof fn law_char_goes_in_at_cursor(state: TextState, c: char)
    requires
        state.wf(),
    ensures
        state.step(Action::NewChar(c)).content() == state.content().insert(state.offset(), c),
        state.step(Action::NewChar(c)).offset() == state.offset() + 1,
{
    let typed = state.insert_char(c);
    let after = lemma_cursor_splits_content(state);
    let typed_after = lemma_cursor_splits_content(typed);
    let head = state.line().take(state.pos);
    assert(typed.line().take(typed.pos) =~= head.push(c));
    assert(typed.line().skip(typed.pos) =~= state.line().skip(state.pos));
    assert(typed.lines.take(typed.row) =~= state.lines.take(state.row));
    lemma_join_push_char(state.lines.take(state.row), head, c);
    lemma_tail_same(typed.lines, typed.row + 1, state.lines, state.row + 1);
    assert(typed.content() =~= state.content().insert(state.offset(), c));
}

/// A new line is a line feed that comes into the text at the cursor.
pub proof fn law_new_line_goes_in_at_cursor(state: TextState)
    requires
        state.wf(),
    ensures
        state.step(Action::NewLine).content() == state.content().insert(state.offset(), '\n'),
        state.step(Action::NewLine).offset() == state.offset() + 1,
{
    let split = state.insert_new_line();
    let after = lemma_cursor_splits_content(state);
    let split_after = lemma_cursor_splits_content(split);
    let head = state.line().take(state.pos);
    assert(split.line().take(0) =~= Seq::<char>::empty());
    assert(split.line().skip(0) =~= state.line().skip(state.pos));
    let above = state.lines.take(state.row).push(head);
    assert(split.lines.take(split.row) =~= above);
    assert(above.push(Seq::empty()).drop_last() =~= above);
    assert(split.before_cursor() =~= state.before_cursor().push('\n'));
    lemma_tail_same(split.lines, split.row + 1, state.lines, state.row + 1);
    assert(split.content() =~= state.content().insert(state.offset(), '\n'));
}

/// Backspace takes the character before the cursor out of the text, be it a
/// line feed or another. At the start of the text it does nothing.
pub proof fn law_backspace_takes_out_before_cursor(state: TextState)
    requires
        state.wf(),
    ensures
        state.offset() > 0 ==> {
            &&& state.step(Action::Backspace).content() == state.content().remove(
                state.offset() - 1,
            )
            &&& state.step(Action::Backspace).offset() == state.offset() - 1
        },
        state.offset() == 0 ==> state.step(Action::Backspace) == state,
        state.offset() == 0 <==> state.row == 0 && state.pos == 0,
{
    let gone = state.remove_char();
    let after = lemma_cursor_splits_content(state);
    let head = state.line().take(state.pos);
    let above = state.lines.take(state.row);
    assert(above.push(head).drop_last() =~= above);
    if state.pos > 0 {
        let gone_after = lemma_cursor_splits_content(gone);
        let shorter = state.line().take(state.pos - 1);
        assert(head =~= shorter.push(state.line()[state.pos - 1]));
        lemma_join_push_char(above, shorter, state.line()[state.pos - 1]);
        assert(gone.line().take(gone.pos) =~= shorter);
        assert(gone.line().skip(gone.pos) =~= state.line().skip(state.pos));
        assert(gone.lines.take(gone.row) =~= above);
        lemma_tail_same(gone.lines, gone.row + 1, state.lines, state.row + 1);
        assert(gone.content() =~= state.content().remove(state.offset() - 1));
    } else if state.row > 0 {
        let gone_after = lemma_cursor_splits_content(gone);
        assert(head =~= Seq::<char>::empty());
        assert(state.before_cursor() =~= join_lines(above).push('\n'));
        assert(gone.line().take(gone.pos) =~= state.lines[state.row - 1]);
        assert(gone.line().skip(gone.pos) =~= state.line().skip(0));
        assert(gone.lines.take(gone.row).push(state.lines[state.row - 1]) =~= above);
        lemma_tail_same(gone.lines, gone.row + 1, state.lines, state.row + 1);
        assert(gone.content() =~= state.content().remove(state.offset() - 1));
    } else {
        assert(above.push(head) =~= seq![head]);
    }
}

/// The key for a character: a new line for a line feed, the character itself for
/// any other.
pub open spec fn typing(c: char) -> Action {
    if c == '\n' {
        Action::NewLine
    } else {
        Action::NewChar(c)
    }
}

impl TextState {
    /// The actions are done one after the other.
    pub open spec fn run(self, actions: Seq<Action>) -> TextState
        decreases actions.len(),
    {
        if actions.len() == 0 {
            self
        } else {
            self.run(actions.drop_last()).step(actions.last())
        }
    }
}

/// No actions take the cursor out of the text.
pub proof fn law_run_keeps_wf(state: TextState, actions: Seq<Action>)
    requires
        state.wf(),
    ensures
        state.run(actions).wf(),
    decreases actions.len(),
{
    if actions.len() > 0 {
        law_run_keeps_wf(state, actions.drop_last());
        law_step_keeps_wf(state.run(actions.drop_last()), actions.last());
    }
}

/// Text that is typed into a blank text area is its content, and the cursor
/// ends up behind it.
pub proof fn law_typed_text_is_content(text: Seq<char>)
    ensures
        TextState::blank().run(text.map_values(|c: char| typing(c))).content() == text,
        TextState::blank().run(text.map_values(|c: char| typing(c))).offset() == text.len(),
    decreases text.len(),
{
    let actions = text.map_values(|c: char| typing(c));
    let blank = TextState::blank();
    if text.len() == 0 {
        assert(blank.line().take(0) =~= blank.line());
        assert(blank.lines.take(0).push(blank.line().take(0)) =~= blank.lines);
        assert(blank.content() =~= text);
    } else {
        law_typed_text_is_content(text.drop_last());
        assert(actions.drop_last() =~= text.drop_last().map_values(|c: char| typing(c)));
        let before = blank.run(actions.drop_last());
        law_run_keeps_wf(blank, actions.drop_last());
        law_char_goes_in_at_cursor(before, text.last());
        law_new_line_goes_in_at_cursor(before);
        assert(blank.run(actions).content() =~= text);
    }
}

/// The number of line feeds in a text.
pub open spec fn count_line_feeds(text: Seq<char>) -> int
    decreases text.len(),
{
    if text.len() == 0 {
        0
    } else {
        count_line_feeds(text.drop_last()) + if text.last() == '\n' {
            1int
        } else {
            0int
        }
    }
}

/// Text that is typed into a blank text area takes up a line more than it has
/// line feeds, with none of them inside a line and the cursor in the last line,
/// at its end.
pub proof fn law_typed_text_makes_lines(text: Seq<char>)
    ensures
        ({
            let typed = TextState::blank().run(text.map_values(|c: char| typing(c)));
            &&& typed.lines.len() == count_line_feeds(text) + 1
            &&& typed.row == count_line_feeds(text)
            &&& typed.pos == typed.lines.last().len()
            &&& free_of_line_feeds(typed.lines)
        }),
    decreases text.len(),
{
    let actions = text.map_values(|c: char| typing(c));
    let blank = TextState::blank();
    if text.len() > 0 {
        law_typed_text_makes_lines(text.drop_last());
        assert(actions.drop_last() =~= text.drop_last().map_values(|c: char| typing(c)));
        let before = blank.run(actions.drop_last());
        law_run_keeps_wf(blank, actions.drop_last());
        law_lines_stay_free_of_line_feeds(before, actions.last());
        law_char_in_its_line(before, text.last());
        law_new_line_splits_its_line(before);
        assert(blank.run(actions) == before.step(actions.last()));
    }
}

/// As many backspaces as characters were typed, wherever and whatever, restore
/// the text area.
pub proof fn law_backspaces_undo_typing(state: TextState, text: Seq<char>)
    requires
        state.wf(),
    ensures
        state.run(text.map_values(|c: char| typing(c))).run(
            Seq::new(text.len(), |i: int| Action::Backspace),
        ) == state,
    decreases text.len(),
{
    let actions = text.map_values(|c: char| typing(c));
    let erasing = Seq::new(text.len(), |i: int| Action::Backspace);
    if text.len() > 0 {
        let shorter = text.drop_last();
        let before = state.run(shorter.map_values(|c: char| typing(c)));
        assert(actions.drop_last() =~= shorter.map_values(|c: char| typing(c)));
        law_run_keeps_wf(state, actions.drop_last());
        law_backspace_undoes_char(before, text.last());
        law_backspace_undoes_new_line(before);
        lemma_run_first(state.run(actions), erasing);
        assert(erasing.drop_first() =~= Seq::new(shorter.len(), |i: int| Action::Backspace));
        law_backspaces_undo_typing(state, shorter);
    }
}

/// The first action can be done apart.
proof fn lemma_run_first(state: TextState, actions: Seq<Action>)
    requires
        actions.len() > 0,
    ensures
        state.run(actions) == state.step(actions[0]).run(actions.drop_first()),
    decreases actions.len(),
{
    if actions.len() == 1 {
        assert(actions.drop_last() =~= Seq::<Action>::empty());
        assert(actions.drop_first() =~= Seq::<Action>::empty());
        assert(state.run(Seq::empty()) == state);
        assert(state.step(actions[0]).run(Seq::empty()) == state.step(actions[0]));
    } else {
        lemma_run_first(state, actions.drop_last());
        assert(actions.drop_last().drop_first() =~= actions.drop_first().drop_last());
    }
}

} // verus!
