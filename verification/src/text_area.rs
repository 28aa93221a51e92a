//! The multi-line text input.

use crate::columns;
use crate::columns::{char_width, get_line_pos_of_column, str_width, LinePosition};
use crate::text_state::TextState;
use crate::ui::{Panel, Rect};
use crate::utf8::{split_line, with_inserted, with_removed};
use vstd::prelude::*;
use vstd::string::*;

verus! {

/// Where the cursor is on the screen, counted from the upper left corner of the
/// text area.
#[derive(Debug, Clone, Copy, PartialEq, Eq, Structural)]
pub struct CursorPosition {
    pub col: usize,
    pub row: usize,
}

impl Default for CursorPosition {
    fn default() -> (cursor: Self)
        ensures
            cursor == (CursorPosition { col: 0, row: 0 }),
    {
        CursorPosition { col: 0, row: 0 }
    }
}

/// What can be done to a text area.
#[derive(Debug, Clone, Copy, PartialEq, Eq, Structural)]
pub enum Action {
    NewChar(char),
    Backspace,
    NewLine,
    Clear,
    MoveLeft,
    MoveRight,
    MoveUp,
    MoveDown,
    MoveHome,
    MoveEnd,
}

/// Multi-line text input
#[derive(Debug)]
pub struct TextArea {
    pub cursor: CursorPosition,
    lines: Vec<String>,
    /// Current position of the cursor in the current string (character index)
    /// (may differ from `cursor.col` due to differences in unicode_width)
    line_pos: usize,
}

impl View for TextArea {
    type V = TextState;

    closed spec fn view(&self) -> TextState {
        TextState {
            lines: self.lines@.map_values(|line: String| line@),
            row: self.cursor.row as int,
            pos: self.line_pos as int,
        }
    }
}

impl TextArea {
    /// The cursor as the screen shows it.
    pub closed spec fn shown_cursor(&self) -> CursorPosition {
        self.cursor
    }

    /// The cursor is inside one of the lines, and its column is the width of
    /// the text before it in that line.
    pub open spec fn wf(&self) -> bool {
        &&& self@.wf()
        &&& self.shown_cursor().row == self@.row
        &&& self.shown_cursor().col == self@.col()
    }
}

impl Default for TextArea {
    fn default() -> (area: Self)
        ensures
            area.wf(),
            area@ == TextState::blank(),
            area.shown_cursor() == (CursorPosition { col: 0, row: 0 }),
    {
        // Start with one blank line
        let area = TextArea {
            cursor: CursorPosition::default(),
            lines: vec![String::new()],
            line_pos: 0,
        };
        proof {
            assert(area@.lines =~= TextState::blank().lines);
            assert(area@.line().take(0) =~= Seq::<char>::empty());
        }
        area
    }
}

// Accessors
impl TextArea {
    /// Get a reference to the current line
    fn current_line(&self) -> (line: &String)
        requires
            self@.wf(),
        ensures
            line@ == self@.line(),
    {
        &self.lines[self.cursor.row]
    }

    /// Get a mutable reference to the current line
    fn current_line_mut(&mut self) -> (line: &mut String)
        requires
            old(self)@.wf(),
        ensures
            line@ == old(self)@.line(),
            final(self)@.lines == old(self)@.lines.update(old(self)@.row, final(line)@),
            final(self).cursor == old(self).cursor,
            final(self).line_pos == old(self).line_pos,
    {
        let row: usize = self.cursor.row;
        let line = &mut self.lines[row];
        line
    }

    /// Get the position of the cursor on the screen.
    pub fn cursor_position(&self) -> (cursor: CursorPosition)
        ensures
            cursor == self.shown_cursor(),
    {
        self.cursor
    }

    /// Get the current number of lines.
    pub fn nlines(&self) -> (n: usize)
        ensures
            n == self@.lines.len(),
    {
        self.lines.len()
    }

    /// Get the content of the text area as a single multi-line string.
    pub fn content(&self) -> (text: String)
        ensures
            text@ == self@.content(),
    {
        let mut text = String::new();
        let mut i: usize = 0;
        let ghost lines = self@.lines;
        while i < self.lines.len()
            invariant
                i <= self.lines@.len(),
                lines == self@.lines,
                text@ == crate::text_state::join_lines(lines.take(i as int)),
            decreases self.lines@.len() - i,
        {
            if i > 0 {
                text.append("\n");
            }
            text.append(self.lines[i].as_str());
            proof {
                reveal_strlit("\n");
                assert("\n"@ =~= seq!['\n']);
                assert(lines.take(i + 1).drop_last() =~= lines.take(i as int));
            }
            i = i + 1;
        }
        assert(lines.take(i as int) =~= lines);
        text
    }
}

// Mutators
impl TextArea {
    pub fn new() -> (area: Self)
        ensures
            area.wf(),
            area@ == TextState::blank(),
            area.shown_cursor() == (CursorPosition { col: 0, row: 0 }),
    {
        TextArea::default()
    }

    fn insert_char(&mut self, c: char)
        requires
            old(self).wf(),
        ensures
            final(self).wf(),
            final(self)@ == old(self)@.insert_char(c),
    {
        let line_pos: usize = self.line_pos;
        let line = self.current_line_mut();
        *line = with_inserted(line.as_str(), line_pos, c);
        proof {
            let before = old(self)@.line();
            assert(before.insert(line_pos as int, c).take(line_pos as int) =~= before.take(
                line_pos as int,
            ));
        }
        self.move_right();
    }

    fn insert_string(&mut self, s: String)
        requires
            old(self).wf(),
        ensures
            final(self).wf(),
            final(self)@ == old(self)@.insert_string(s@),
    {
        let mut rest = s.chars();
        let ghost mut done: int = 0;
        proof {
            let state = old(self)@;
            assert(s@.take(0) =~= Seq::<char>::empty());
            assert(state.line().take(state.pos) + s@.take(0) + state.line().skip(state.pos)
                =~= state.line());
            assert(self@ =~= state.insert_string(s@.take(0)));
        }
        loop
            invariant
                old(self).wf(),
                self.wf(),
                0 <= done <= s@.len(),
                vstd::std_specs::iter::IteratorSpec::remaining(&rest) == s@.skip(done),
                self@ == old(self)@.insert_string(s@.take(done)),
            ensures
                done == s@.len(),
            decreases s@.len() - done,
        {
            match rest.next() {
                Some(c) => {
                    self.insert_char(c);
                    proof {
                        let state = old(self)@;
                        let before = state.insert_string(s@.take(done));
                        assert(s@.take(done + 1) =~= s@.take(done).push(c));
                        assert(before.line().insert(before.pos, c) =~= state.line().take(state.pos)
                            + s@.take(done + 1) + state.line().skip(state.pos));
                        assert(self@ =~= state.insert_string(s@.take(done + 1)));
                        assert(s@.skip(done).drop_first() =~= s@.skip(done + 1));
                        done = done + 1;
                    }
                },
                None => {
                    break;
                },
            }
        }
        assert(s@.take(done) =~= s@);
    }

    /// Remove the character before the cursor.
    ///
    /// This is accomplished by first moving the cursor left,
    /// then deleting the character under the cursor.
    fn remove_char(&mut self)
        requires
            old(self).wf(),
        ensures
            final(self).wf(),
            final(self)@ == old(self)@.remove_char(),
    {
        if self.line_pos > 0 {
            // First, move left.
            self.move_left();

            // Then, delete the character under the cursor.
            let current_char_pos: usize = self.line_pos;
            let line = self.current_line_mut();
            *line = with_removed(line.as_str(), current_char_pos);
            proof {
                let before = old(self)@.line();
                assert(before.remove(current_char_pos as int).take(current_char_pos as int)
                    =~= before.take(current_char_pos as int));
                assert(self@ =~= old(self)@.remove_char());
            }
        } else {
            // Delete the "newline character"
            if self.cursor.row > 0 {
                // Remove & store the line
                let line = self.lines.remove(self.cursor.row);
                assert(self@.lines =~= old(self)@.lines.remove(old(self)@.row));

                // Move the cursor to the end of the previous line
                self.move_up();
                self.move_to_end_of_line();

                // Save the cursor position before inserting
                let col: usize = self.cursor.col;
                let line_pos: usize = self.line_pos;

                // Insert the deleted line
                let ghost above = self@;
                self.insert_string(line);

                // Move the cursor back to the correct position
                // (before the inserted string)
                self.cursor.col = col;
                self.line_pos = line_pos;
                proof {
                    let whole = above.line();
                    assert(whole.take(above.pos) =~= whole);
                    assert(whole.take(above.pos) + line@ + whole.skip(above.pos) =~= whole + line@);
                    assert((whole + line@).take(above.pos) =~= whole);
                    assert(self@ =~= old(self)@.remove_char());
                }
            } else {
                assert(self@ =~= old(self)@.remove_char());
            }
        }
    }

    /// Go back to one blank line, whatever was there.
    pub fn clear(&mut self)
        ensures
            final(self).wf(),
            final(self)@ == TextState::blank(),
            final(self).shown_cursor() == (CursorPosition { col: 0, row: 0 }),
    {
        self.lines = vec![String::new()];
        self.cursor.row = 0;
        assert(self@.lines =~= TextState::blank().lines);
        self.move_to_start_of_line();
    }

    fn insert_new_line(&mut self)
        requires
            old(self).wf(),
        ensures
            final(self).wf(),
            final(self)@ == old(self)@.insert_new_line(),
    {
        let line_pos: usize = self.line_pos;
        let current_line = self.current_line_mut();

        let (start_of_line, rest_of_line) = split_line(current_line.as_str(), line_pos);
        *current_line = start_of_line;
        proof {
            let start = old(self)@.line().take(line_pos as int);
            assert(start.take(line_pos as int) =~= start);
            assert(self.lines.len() == self@.lines.len());
        }
        self.lines.insert(self.cursor.row + 1, rest_of_line);
        assert(self@.lines =~= old(self)@.insert_new_line().lines);

        self.move_down();
        self.move_to_start_of_line();
    }
}

/// Cursor movement functions
impl TextArea {
    /// Move the cursor right, accounting for unicode widths.
    /// Return `true` if the operation succeeded, otherwise `false`.
    pub fn move_right(&mut self) -> (moved: bool)
        requires
            old(self).wf(),
        ensures
            final(self).wf(),
            final(self)@ == old(self)@.move_right(),
            moved <==> old(self)@.pos < old(self)@.line().len(),
    {
        let line = self.current_line();
        let nchars: usize = line.as_str().unicode_len();
        // Can't move right from the end of the line.
        if self.line_pos < nchars {
            let width: usize = match char_width(line.as_str().get_char(self.line_pos)) {
                Some(w) => w,
                None => 0,
            };
            // The whole line can be counted in columns, so a part of it can be too.
            let _line_width: usize = str_width(line.as_str());
            proof {
                let text = line@;
                let pos = self.line_pos as int;
                columns::lemma_width_step(text, pos);
                columns::lemma_width_monotone(text, pos + 1, text.len() as int);
                assert(text.take(text.len() as int) =~= text);
            }
            self.line_pos = self.line_pos + 1;
            self.cursor.col = self.cursor.col + width;
            return true;
        }
        false
    }

    /// Move the cursor left, accounting for unicode widths.
    /// Return `true` if the operation succeeded, otherwise `false`.
    pub fn move_left(&mut self) -> (moved: bool)
        requires
            old(self).wf(),
        ensures
            final(self).wf(),
            final(self)@ == old(self)@.move_left(),
            moved <==> old(self)@.pos > 0,
    {
        let line = self.current_line();

        // Can't move left from the start of the line.
        if self.line_pos > 0 {
            let width: usize = match char_width(line.as_str().get_char(self.line_pos - 1)) {
                Some(w) => w,
                None => 0,
            };
            proof {
                columns::lemma_width_step(line@, self.line_pos - 1);
            }
            self.line_pos = self.line_pos - 1;
            self.cursor.col = self.cursor.col - width;
            return true;
        }
        false
    }

    /// Move the cursor up, to a valid column in the previous row.
    /// Return `true` if the operation succeeded, otherwise `false`.
    pub fn move_up(&mut self) -> (moved: bool)
        requires
            old(self)@.row <= old(self)@.lines.len(),
        ensures
            moved <==> old(self)@.row > 0,
            moved ==> final(self).wf() && final(self)@ == old(self)@.to_row(
                old(self)@.row - 1,
                old(self).shown_cursor().col as nat,
            ),
            !moved ==> *final(self) == *old(self),
    {
        if self.cursor.row > 0 {
            self.cursor.row = self.cursor.row - 1;
            self.keep_column();
            true
        } else {
            false
        }
    }

    /// Move the cursor down, to a valid column in the next row.
    /// Return `true` if the operation succeeded, otherwise `false`.
    pub fn move_down(&mut self) -> (moved: bool)
        requires
            old(self)@.lines.len() > 0,
        ensures
            moved <==> old(self)@.row < old(self)@.lines.len() - 1,
            moved ==> final(self).wf() && final(self)@ == old(self)@.to_row(
                old(self)@.row + 1,
                old(self).shown_cursor().col as nat,
            ),
            !moved ==> *final(self) == *old(self),
    {
        if self.cursor.row < self.lines.len() - 1 {
            self.cursor.row = self.cursor.row + 1;
            self.keep_column();
            true
        } else {
            false
        }
    }

    /// Put the cursor into a valid column of the line it has come to, no
    /// further right than the column it came from.
    fn keep_column(&mut self)
        requires
            0 <= old(self)@.row < old(self)@.lines.len(),
        ensures
            final(self).wf(),
            final(self)@ == old(self)@.to_row(old(self)@.row, old(self).cursor.col as nat),
    {
        let line = &self.lines[self.cursor.row];
        if let Some(LinePosition { col, char_index }) = get_line_pos_of_column(
            line.as_str(),
            self.cursor.col,
        ) {
            self.cursor.col = col;
            self.line_pos = char_index;
        } else {
            // If the line is not long enough, move the cursor to the last character
            self.move_to_end_of_line();
        }
    }

    /// Move the cursor to the end of the row.
    pub fn move_to_end_of_line(&mut self)
        requires
            0 <= old(self)@.row < old(self)@.lines.len(),
        ensures
            final(self).wf(),
            final(self)@ == old(self)@.move_end(),
            final(self).shown_cursor().row == old(self)@.row,
            final(self).shown_cursor().col == columns::text_width(old(self)@.line()),
    {
        let line = &self.lines[self.cursor.row];
        let nchars: usize = line.as_str().unicode_len();
        let width: usize = str_width(line.as_str());
        assert(line@.take(line@.len() as int) =~= line@);
        self.cursor.col = width;
        self.line_pos = nchars;
    }

    /// Move the cursor to the start of the row.
    pub fn move_to_start_of_line(&mut self)
        requires
            0 <= old(self)@.row < old(self)@.lines.len(),
        ensures
            final(self).wf(),
            final(self)@ == old(self)@.move_home(),
            final(self).shown_cursor().row == old(self)@.row,
            final(self).shown_cursor().col == 0,
    {
        self.line_pos = 0;
        self.cursor.col = 0;
        assert(self@.line().take(0) =~= Seq::<char>::empty());
    }
}

impl TextArea {
    /// Do what `action` says.
    pub fn update(&mut self, action: Action)
        requires
            old(self).wf(),
        ensures
            final(self).wf(),
            final(self)@ == old(self)@.step(action),
    {
        match action {
            Action::NewChar(c) => self.insert_char(c),
            Action::Backspace => self.remove_char(),
            Action::NewLine => self.insert_new_line(),
            Action::Clear => self.clear(),
            Action::MoveLeft => {
                self.move_left();
            },
            Action::MoveRight => {
                self.move_right();
            },
            Action::MoveUp => {
                self.move_up();
            },
            Action::MoveDown => {
                self.move_down();
            },
            Action::MoveHome => self.move_to_start_of_line(),
            Action::MoveEnd => self.move_to_end_of_line(),
        }
    }

    /// What the text area shows: its content, in a frame.
    pub fn render(&self, _area: &Rect) -> (panel: Panel)
        ensures
            panel.title@ == "Input"@,
            panel.text@ == self@.content(),
    {
        Panel { title: "Input".to_owned(), text: self.content() }
    }

    /// Whether the cursor is inside one of the lines, in the column that the
    /// text before it ends at. The cursor can be set from outside, so it need
    /// not be.
    pub fn is_consistent(&self) -> (consistent: bool)
        ensures
            consistent == self.wf(),
    {
        assert(self.lines.len() == self@.lines.len());
        if self.cursor.row >= self.lines.len() {
            return false;
        }
        let line = &self.lines[self.cursor.row];
        if self.line_pos > line.as_str().unicode_len() {
            return false;
        }
        let (before, _) = split_line(line.as_str(), self.line_pos);
        str_width(before.as_str()) == self.cursor.col
    }

    /// Do what `action` says where the cursor is consistent with the text, and
    /// nothing otherwise. Returns whether it was.
    pub fn try_update(&mut self, action: Action) -> (done: bool)
        ensures
            done == old(self).wf(),
            done ==> final(self).wf() && final(self)@ == old(self)@.step(action),
            !done ==> *final(self) == *old(self),
    {
        if self.is_consistent() {
            self.update(action);
            true
        } else {
            false
        }
    }
}

/// A consistent text area has its cursor in one of its lines, and shows it in
/// that row, behind as many columns as the text before it takes up.
pub proof fn law_consistent_cursor(area: TextArea)
    ensures
        area.wf() <==> {
            &&& 0 <= area@.row < area@.lines.len()
            &&& 0 <= area@.pos <= area@.lines[area@.row].len()
            &&& area.shown_cursor().row == area@.row
            &&& area.shown_cursor().col == columns::text_width(
                area@.lines[area@.row].take(area@.pos),
            )
        },
{
}

} // verus!
