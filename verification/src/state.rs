//! The editor's state as a mathematical value, and what each editing
//! operation makes of it.

use vstd::prelude::*;
use crate::highlight::SyntaxView;
use crate::model::{BOTTOM_BAR, PARAGRAPH, Cursor, Direction, MatchSet, Mode, Screen, Visual};
use crate::text::repeat;

verus! {

/// Everything the editor holds for the file being edited.
pub struct EditorState {
    /// The document, line by line; never empty.
    pub lines: Seq<Seq<char>>,
    /// What was copied last: whole lines, or one stretch of characters.
    pub clipboard: Seq<Seq<char>>,
    pub matches: MatchSet,
    pub filename: Seq<char>,
    /// The column the cursor goes back to on lines that are long enough.
    pub clamp: usize,
    pub cursor: Cursor,
    pub screen: Screen,
    pub syntax: SyntaxView,
    /// Whether the whole view has to be drawn again.
    pub refresh: bool,
    pub mode: Mode,
    pub log: Seq<char>,
    /// The command line typed so far.
    pub command: Seq<char>,
    pub visual: Visual,
}

/// The length of the run of spaces that `line` begins with, counted from
/// column `from`.
pub open spec fn leading_spaces(line: Seq<char>, from: int) -> int
    decreases line.len() - from,
{
    if 0 <= from < line.len() && line[from] == ' ' {
        leading_spaces(line, from + 1)
    } else {
        from
    }
}

/// The indentation of a line: the length of its leading run of spaces.
pub open spec fn indentation(line: Seq<char>) -> int {
    leading_spaces(line, 0)
}

/// Where the span between a selection's anchor and the cursor begins.
pub open spec fn range_start(visual: int, cursor: int) -> int {
    if visual < cursor {
        visual
    } else {
        cursor
    }
}

/// One past where the span between a selection's anchor and the cursor
/// ends. The span runs from the lower of the two up to the higher and
/// leaves the higher one out: with the anchor first it holds the anchor
/// and not the cursor's position, with the cursor first the cursor's
/// position and not the anchor. Where the two are the same, it holds that
/// one position.
pub open spec fn range_end(visual: int, cursor: int) -> int {
    if visual < cursor {
        cursor
    } else if visual == cursor {
        visual + 1
    } else {
        visual
    }
}

/// On which side of the cursor the anchor lies: `Down` when the anchor comes
/// first and the span runs forward to the cursor, `Up` otherwise.
pub open spec fn range_direction(visual: int, cursor: int) -> Direction {
    if visual < cursor {
        Direction::Down
    } else {
        Direction::Up
    }
}

/// `s` without its elements from `start` up to, not including, `end`.
pub open spec fn without<A>(s: Seq<A>, start: int, end: int) -> Seq<A> {
    s.subrange(0, start) + s.subrange(end, s.len() as int)
}

/// `s` with `t` put in before index `at`.
pub open spec fn with_inserted<A>(s: Seq<A>, at: int, t: Seq<A>) -> Seq<A> {
    s.subrange(0, at) + t + s.subrange(at, s.len() as int)
}

/// Whether `query` stands in `line` at column `x`.
pub open spec fn occurs_at(line: Seq<char>, query: Seq<char>, x: int) -> bool {
    0 <= x && x + query.len() <= line.len() && line.subrange(x, x + query.len()) == query
}

/// The first column at or after `from` where `query` stands in `line`.
pub open spec fn first_match_from(line: Seq<char>, query: Seq<char>, from: int) -> Option<int>
    decreases line.len() + 1 - from,
{
    if from < 0 || from + query.len() > line.len() {
        None
    } else if occurs_at(line, query, from) {
        Some(from)
    } else {
        first_match_from(line, query, from + 1)
    }
}

/// The first column where `query` stands in `line`, if it does anywhere.
pub open spec fn first_match(line: Seq<char>, query: Seq<char>) -> Option<int> {
    first_match_from(line, query, 0)
}

/// The first match of `query` in each of the first `n` lines that has one,
/// in line order.
pub open spec fn found(lines: Seq<Seq<char>>, query: Seq<char>, n: int) -> Seq<Cursor>
    decreases n,
{
    if n <= 0 {
        Seq::empty()
    } else {
        let before = found(lines, query, n - 1);
        match first_match(lines[n - 1], query) {
            Some(x) => before.push(Cursor { x: x as usize, y: (n - 1) as usize }),
            None => before,
        }
    }
}

/// The text that the first `n` of the lines make in a file: the lines in
/// order, each with a line feed after it.
pub open spec fn file_text(lines: Seq<Seq<char>>, n: int) -> Seq<char>
    decreases n,
{
    if n <= 0 {
        Seq::empty()
    } else {
        file_text(lines, n - 1) + lines[n - 1] + seq!['\n']
    }
}

/// The document that a file of the given lines is read as: a file without
/// lines gives one empty line.
pub open spec fn document(lines: Seq<Seq<char>>) -> Seq<Seq<char>> {
    if lines.len() == 0 {
        seq![Seq::empty()]
    } else {
        lines
    }
}

impl EditorState {
    /// The line the cursor is on.
    pub open spec fn line(self) -> Seq<char> {
        self.lines[self.cursor.y as int]
    }

    /// Whether every length in the state fits the machine's `usize`.
    pub open spec fn fits(self) -> bool {
        &&& self.lines.len() <= usize::MAX
        &&& forall|i: int| 0 <= i < self.lines.len() ==> (#[trigger] self.lines[i]).len() <= usize::MAX
        &&& self.clipboard.len() <= usize::MAX
        &&& forall|i: int| 0 <= i < self.clipboard.len() ==> (#[trigger] self.clipboard[i]).len() <= usize::MAX
        &&& self.matches.matches.len() <= usize::MAX
        &&& self.command.len() <= usize::MAX
    }

    /// What always holds of an editor at rest: the document has a line, all
    /// lengths fit the machine, the cursor is on a line of the document and
    /// not above the viewport, and the match index stands at a match where
    /// there are matches.
    pub open spec fn wf(self) -> bool {
        &&& self.fits()
        &&& 0 < self.lines.len()
        &&& self.cursor.y < self.lines.len()
        &&& self.screen.y <= self.cursor.y
        &&& self.matches.wf()
    }

    /// Whether the cursor's column is on its line or just past its end.
    pub open spec fn clamped(self) -> bool {
        self.cursor.x <= self.line().len()
    }

    /// One past the last line of the document that the viewport has room for.
    pub open spec fn band_end(self) -> int {
        self.screen.y + self.screen.height - BOTTOM_BAR
    }

    /// Whether the viewport shows the cursor's line: the line is one of
    /// those from the viewport's first line up to where its rows of text
    /// end.
    pub open spec fn in_view(self) -> bool {
        self.screen.y <= self.cursor.y < self.band_end()
    }

    /// The cursor one line up, with the viewport following by one line when
    /// the cursor would leave it.
    pub open spec fn up(self) -> EditorState {
        if self.cursor.y > 0 {
            let scroll = self.cursor.y <= self.screen.y;
            EditorState {
                cursor: Cursor { y: (self.cursor.y - 1) as usize, ..self.cursor },
                screen: if scroll {
                    Screen { y: (self.screen.y - 1) as usize, ..self.screen }
                } else {
                    self.screen
                },
                refresh: self.refresh || scroll,
                ..self
            }
        } else {
            self
        }
    }

    /// The cursor one line down, with the viewport following by one line when
    /// the cursor would leave it.
    pub open spec fn down(self) -> EditorState {
        if self.cursor.y + 1 < self.lines.len() {
            let scroll = self.cursor.y + 1 >= self.band_end();
            EditorState {
                cursor: Cursor { y: (self.cursor.y + 1) as usize, ..self.cursor },
                screen: if scroll {
                    Screen { y: (self.screen.y + 1) as usize, ..self.screen }
                } else {
                    self.screen
                },
                refresh: self.refresh || scroll,
                ..self
            }
        } else {
            self
        }
    }

    /// The cursor at column `x` of its line, chosen on purpose: the clamp
    /// column follows.
    pub open spec fn at_column(self, x: int) -> EditorState {
        EditorState { cursor: Cursor { x: x as usize, ..self.cursor }, clamp: x as usize, ..self }
    }

    /// The cursor moved one step: sideways within its line, with the clamp
    /// column following, or up or down within the document, with the
    /// viewport following.
    pub open spec fn move_cursor(self, direction: Direction) -> EditorState {
        match direction {
            Direction::Left => self.at_column(
                if self.cursor.x > 0 {
                    self.cursor.x - 1
                } else {
                    0
                },
            ),
            Direction::Right => self.at_column(
                if self.cursor.x < self.line().len() {
                    self.cursor.x + 1
                } else {
                    self.cursor.x as int
                },
            ),
            Direction::Up => self.up(),
            Direction::Down => self.down(),
        }
    }

    /// The cursor's column brought back onto its line: the end of the line
    /// when the column is past it, else the clamp column when the line is
    /// longer than that, else the column as it is.
    pub open spec fn clamp_cursor(self) -> EditorState {
        if self.cursor.x > self.line().len() {
            EditorState { cursor: Cursor { x: self.line().len() as usize, ..self.cursor }, ..self }
        } else if self.clamp < self.line().len() {
            EditorState { cursor: Cursor { x: self.clamp, ..self.cursor }, ..self }
        } else {
            self
        }
    }

    /// The document with the cursor's line replaced by `line`.
    pub open spec fn with_line(self, line: Seq<char>) -> EditorState {
        EditorState { lines: self.lines.update(self.cursor.y as int, line), ..self }
    }

    /// `character` put in at the cursor, and the cursor moved past it.
    pub open spec fn insert(self, character: char) -> EditorState {
        EditorState {
            refresh: true,
            ..self.with_line(self.line().insert(self.cursor.x as int, character)).at_column(
                self.cursor.x + 1,
            )
        }
    }

    /// `n` spaces typed one after the other.
    pub open spec fn insert_spaces(self, n: nat) -> EditorState
        decreases n,
    {
        if n == 0 {
            self
        } else {
            self.insert_spaces((n - 1) as nat).insert(' ')
        }
    }

    /// The character before the cursor taken out. At the start of a line
    /// the line is joined onto the one above and the cursor stands where
    /// the two meet; at the start of the document nothing is taken out.
    pub open spec fn remove(self) -> EditorState {
        if self.cursor.x != 0 {
            EditorState {
                refresh: true,
                ..self.with_line(self.line().remove(self.cursor.x - 1)).at_column(self.cursor.x - 1)
            }
        } else if self.cursor.y != 0 {
            let above = self.lines[self.cursor.y - 1];
            let joined = EditorState {
                lines: self.lines.update(self.cursor.y - 1, above + self.line()).remove(
                    self.cursor.y as int,
                ),
                ..self
            };
            EditorState { refresh: true, ..joined.up().at_column(above.len() as int) }
        } else {
            EditorState { refresh: true, ..self.at_column(0) }
        }
    }

    /// The line broken. With `cut`, what stands from the cursor on moves to
    /// a new line below and the cursor goes to its start. Without, the new
    /// line below holds the indentation of the cursor's line and the cursor
    /// goes to its end.
    pub open spec fn newline(self, cut: bool) -> EditorState {
        let y = self.cursor.y as int;
        let opened = EditorState { lines: self.lines.insert(y + 1, Seq::empty()), ..self }.down();
        if cut {
            let x = self.cursor.x as int;
            EditorState {
                lines: opened.lines.update(y, self.line().take(x)).update(y + 1, self.line().skip(x)),
                refresh: true,
                ..opened.at_column(0)
            }
        } else {
            let indent = indentation(self.line());
            EditorState {
                lines: opened.lines.update(y + 1, repeat(' ', indent)),
                refresh: true,
                ..opened.at_column(indent)
            }
        }
    }

    /// Whether the span between the anchor `visual` and the cursor lies in
    /// the document: for whole lines it ends within the document, for
    /// characters on the cursor's line.
    pub open spec fn span_fits(self, visual: Visual) -> bool {
        if visual.select_line {
            range_end(visual.y as int, self.cursor.y as int) <= self.lines.len()
        } else {
            range_end(visual.x as int, self.cursor.x as int) <= self.line().len()
        }
    }

    /// Whether the span between the anchor `visual` and the cursor can be
    /// taken out of the document: it lies in the document, and for whole
    /// lines the anchor is a line of it, so that a line is left.
    pub open spec fn selection_fits(self, visual: Visual) -> bool {
        self.span_fits(visual) && (visual.select_line ==> visual.y < self.lines.len())
    }

    /// The cursor on line `y`, which is not below its line, with the
    /// viewport following up to it.
    pub open spec fn up_to(self, y: int) -> EditorState {
        let scroll = y < self.screen.y;
        EditorState {
            cursor: Cursor { y: y as usize, ..self.cursor },
            screen: if scroll {
                Screen { y: y as usize, ..self.screen }
            } else {
                self.screen
            },
            refresh: self.refresh || scroll,
            ..self
        }
    }

    /// What the selection between `visual` and the cursor holds.
    pub open spec fn selected(self, visual: Visual) -> Seq<Seq<char>> {
        if visual.select_line {
            self.lines.subrange(
                range_start(visual.y as int, self.cursor.y as int),
                range_end(visual.y as int, self.cursor.y as int),
            )
        } else {
            seq![
                self.line().subrange(
                    range_start(visual.x as int, self.cursor.x as int),
                    range_end(visual.x as int, self.cursor.x as int),
                ),
            ]
        }
    }

    /// The selection put on the clipboard.
    pub open spec fn copy(self, visual: Visual) -> EditorState {
        EditorState { clipboard: self.selected(visual), ..self }
    }

    /// The selection taken out of the document. A document of one line keeps
    /// an empty line. Otherwise the span between the anchor and the cursor
    /// goes. The cursor lands at the start of what was taken out: with the
    /// anchor first it goes back to the anchor; else it stays, but for
    /// whole lines never below the last line that is left. The viewport
    /// follows the cursor up.
    pub open spec fn delete(self, visual: Visual) -> EditorState {
        if visual.select_line {
            if self.lines.len() == 1 {
                EditorState { lines: seq![Seq::empty()], ..self }
            } else {
                let v = visual.y as int;
                let c = self.cursor.y as int;
                let lines = without(self.lines, range_start(v, c), range_end(v, c));
                let y = if range_start(v, c) < lines.len() {
                    range_start(v, c)
                } else {
                    lines.len() - 1
                };
                EditorState { lines, ..self }.up_to(y)
            }
        } else {
            let v = visual.x as int;
            let c = self.cursor.x as int;
            let cut = self.with_line(without(self.line(), range_start(v, c), range_end(v, c)));
            if v < c {
                cut.at_column(v)
            } else {
                cut
            }
        }
    }

    /// Whether there is something to paste the way `visual` asks for, and
    /// room to paste it.
    pub open spec fn paste_fits(self, visual: Visual) -> bool {
        visual.select_line || (self.clipboard.len() > 0 && self.clamped())
    }

    /// The clipboard put into the document: as whole lines right after the
    /// cursor's line, with the cursor moving one line down; as characters
    /// its first entry at the cursor, with the cursor moving past it.
    pub open spec fn paste(self, visual: Visual) -> EditorState {
        if visual.select_line {
            EditorState {
                lines: with_inserted(self.lines, self.cursor.y + 1, self.clipboard),
                ..self
            }.down()
        } else {
            let content = self.clipboard[0];
            let pasted = self.with_line(with_inserted(self.line(), self.cursor.x as int, content));
            if content.len() > 0 {
                pasted.at_column(self.cursor.x + content.len())
            } else {
                pasted
            }
        }
    }

    /// The cursor on the match that the index stands at, with the viewport's
    /// corner on it; nothing changes when the index stands at no match, as
    /// where there are none.
    pub open spec fn goto_match(self) -> EditorState {
        if self.matches.index < self.matches.matches.len() {
            let target = self.matches.matches[self.matches.index as int];
            EditorState {
                cursor: target,
                screen: Screen { x: target.x, y: target.y, ..self.screen },
                refresh: true,
                ..self
            }
        } else {
            self
        }
    }

    /// The matches of `query` in the document taken as the matches, the
    /// index at the first of them, and the cursor on it if there is one.
    pub open spec fn search(self, query: Seq<char>) -> EditorState {
        EditorState {
            matches: MatchSet { matches: found(self.lines, query, self.lines.len() as int), index: 0 },
            ..self
        }.goto_match()
    }

    /// The index moved on by one, but not past the last match, and the
    /// cursor on the match it stands at then; nothing changes when there
    /// are no matches.
    pub open spec fn next_match(self) -> EditorState {
        if self.matches.matches.len() > 0 {
            let index = if self.matches.index + 1 < self.matches.matches.len() {
                self.matches.index + 1
            } else {
                self.matches.matches.len() - 1
            };
            EditorState {
                matches: MatchSet { index: index as usize, ..self.matches },
                ..self
            }.goto_match()
        } else {
            self
        }
    }

    /// The index moved back and the cursor on the match it stands at then;
    /// nothing changes when the index stands at the first match.
    pub open spec fn previous_match(self) -> EditorState {
        if self.matches.index > 0 {
            EditorState {
                matches: MatchSet { index: (self.matches.index - 1) as usize, ..self.matches },
                ..self
            }.goto_match()
        } else {
            self
        }
    }

    /// The cursor a paragraph's worth of lines up or down, stopping at the
    /// ends of the document, and the viewport moved with it.
    pub open spec fn move_by_paragraph(self, direction: Direction) -> EditorState {
        match direction {
            Direction::Up => {
                let y = if self.cursor.y < PARAGRAPH {
                    0
                } else {
                    self.cursor.y - PARAGRAPH
                };
                EditorState {
                    cursor: Cursor { y: y as usize, ..self.cursor },
                    screen: Screen { y: y as usize, ..self.screen },
                    ..self
                }
            },
            Direction::Down => {
                if self.cursor.y + PARAGRAPH >= self.lines.len() {
                    let last = (self.lines.len() - 1) as usize;
                    EditorState {
                        cursor: Cursor { y: last, ..self.cursor },
                        screen: Screen { y: last, ..self.screen },
                        ..self
                    }
                } else {
                    EditorState {
                        cursor: Cursor { y: (self.cursor.y + PARAGRAPH) as usize, ..self.cursor },
                        screen: Screen { y: (self.screen.y + PARAGRAPH) as usize, ..self.screen },
                        ..self
                    }
                }
            },
            _ => self,
        }
    }

    /// The state with the terminal's size taken as the viewport's.
    pub open spec fn resize(self, height: usize, width: usize) -> EditorState {
        EditorState { screen: Screen { height, width, ..self.screen }, ..self }
    }

    /// The cursor and the viewport at the top left corner.
    pub open spec fn reset(self) -> EditorState {
        EditorState {
            cursor: Cursor { x: 0, y: 0 },
            screen: Screen { x: 0, y: 0, ..self.screen },
            ..self
        }
    }

    /// The state with the lines of a file as the document, under the file's
    /// name and with the highlighting rules for it.
    pub open spec fn open_file(
        self,
        file_path: Seq<char>,
        lines: Seq<Seq<char>>,
        syntax: SyntaxView,
    ) -> EditorState {
        EditorState { lines: document(lines), filename: file_path, syntax, ..self }
    }

    /// The text that saving writes to the document's file.
    pub open spec fn file_text(self) -> Seq<char> {
        file_text(self.lines, self.lines.len() as int)
    }

    /// The state with `message` in the log line.
    pub open spec fn log(self, message: Seq<char>) -> EditorState {
        EditorState { log: message, refresh: true, ..self }
    }
}

} // verus!
