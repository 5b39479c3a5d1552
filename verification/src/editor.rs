//! The editor: the document with its cursor and viewport, and the operations
//! that edit it.

use vstd::prelude::*;
use vstd::string::StringExecFns;
use crate::highlight::Syntax;
use crate::model::{BOTTOM_BAR, Cursor, Direction, Matches, Mode, PARAGRAPH, Screen, Visual};
use crate::state::{
    EditorState, document, file_text, indentation, leading_spaces, range_direction, range_end, range_start,
    with_inserted, without,
};
use crate::text::{chars_of, push_chars, repeated, slice, string_of, texts};

verus! {

/// The lines of a document as sequences of characters.
pub open spec fn lines_of(buffer: Seq<Vec<char>>) -> Seq<Seq<char>> {
    Seq::new(buffer.len(), |i: int| buffer[i]@)
}

/// Copies of the lines of `lines` from index `start` up to, not including,
/// index `end`.
pub fn copy_lines(lines: &Vec<Vec<char>>, start: usize, end: usize) -> (r: Vec<Vec<char>>)
    requires
        start <= end <= lines.len(),
    ensures
        lines_of(r@) == lines_of(lines@).subrange(start as int, end as int),
{
    let mut r: Vec<Vec<char>> = Vec::new();
    let mut i: usize = start;
    while i < end
        invariant
            start <= i <= end <= lines.len(),
            r.len() == i - start,
            forall|j: int| 0 <= j < r.len() ==> r[j]@ == lines[start + j]@,
        decreases end - i,
    {
        r.push(lines[i].clone());
        i += 1;
    }
    assert(lines_of(r@) =~~= lines_of(lines@).subrange(start as int, end as int));
    r
}

/// Takes the elements from index `start` up to, not including, index `end`
/// out of `v`.
pub fn remove_range<T>(v: &mut Vec<T>, start: usize, end: usize)
    requires
        start <= end <= old(v).len(),
    ensures
        final(v)@ == without(old(v)@, start as int, end as int),
{
    let mut tail = v.split_off(end);
    v.truncate(start);
    v.append(&mut tail);
    assert(v@ =~= without(old(v)@, start as int, end as int));
}

/// Puts the characters of `t` into `v` before index `at`.
pub fn insert_chars(v: &mut Vec<char>, at: usize, t: &Vec<char>)
    requires
        at <= old(v).len(),
    ensures
        final(v)@ == with_inserted(old(v)@, at as int, t@),
{
    let mut tail = v.split_off(at);
    let mut i: usize = 0;
    while i < t.len()
        invariant
            i <= t.len(),
            at <= old(v).len(),
            v@ == old(v)@.subrange(0, at as int) + t@.take(i as int),
        decreases t.len() - i,
    {
        v.push(t[i]);
        i += 1;
        assert(v@ =~= old(v)@.subrange(0, at as int) + t@.take(i as int));
    }
    v.append(&mut tail);
    assert(t@.take(t.len() as int) =~= t@);
    assert(v@ =~= with_inserted(old(v)@, at as int, t@));
}

/// Puts copies of the lines of `t` into `v` before index `at`.
pub fn insert_lines(v: &mut Vec<Vec<char>>, at: usize, t: &Vec<Vec<char>>)
    requires
        at <= old(v).len(),
    ensures
        lines_of(final(v)@) == with_inserted(lines_of(old(v)@), at as int, lines_of(t@)),
{
    let mut tail = v.split_off(at);
    let mut i: usize = 0;
    while i < t.len()
        invariant
            i <= t.len(),
            at <= old(v).len(),
            v.len() == at + i,
            forall|j: int| 0 <= j < at ==> v[j] == old(v)[j],
            forall|j: int| 0 <= j < i ==> (#[trigger] v[at + j])@ == t[j]@,
        decreases t.len() - i,
    {
        v.push(t[i].clone());
        i += 1;
    }
    v.append(&mut tail);
    proof {
        let a = lines_of(v@);
        let b = with_inserted(lines_of(old(v)@), at as int, lines_of(t@));
        assert(a.len() == b.len());
        assert forall|j: int| 0 <= j < a.len() implies a[j] == b[j] by {
            if j < at {
            } else if j < at + t.len() {
                assert(v[at + (j - at)]@ == t[j - at]@);
            } else {
            }
        }
        assert(a =~= b);
    }
}

/// The live editing state of the file being edited.
#[derive(Debug)]
pub struct Editor {
    /// The document, line by line.
    pub buffer: Vec<Vec<char>>,
    /// What was copied last: whole lines, or one stretch of characters.
    pub clipboard: Vec<Vec<char>>,
    pub matches: Matches,
    pub filename: String,
    /// The column the cursor goes back to on lines that are long enough.
    pub clamp: usize,
    pub cursor: Cursor,
    pub screen: Screen,
    pub syntax: Syntax,
    /// Whether the whole view has to be drawn again.
    pub refresh: bool,
    pub mode: Mode,
    /// The message in the log line.
    pub log: String,
    /// The command line typed so far.
    pub command: Vec<char>,
    /// The selection made last.
    pub visual: Visual,
}

impl View for Editor {
    type V = EditorState;

    open spec fn view(&self) -> EditorState {
        EditorState {
            lines: lines_of(self.buffer@),
            clipboard: lines_of(self.clipboard@),
            matches: self.matches@,
            filename: self.filename@,
            clamp: self.clamp,
            cursor: self.cursor,
            screen: self.screen,
            syntax: self.syntax@,
            refresh: self.refresh,
            mode: self.mode,
            log: self.log@,
            command: self.command@,
            visual: self.visual,
        }
    }
}

impl Editor {
    /// Whether the editor is in a state that the editing operations accept.
    pub open spec fn wf(&self) -> bool {
        self@.wf()
    }

    /// An editor on an unnamed document of one empty line, in normal mode,
    /// that highlights with `syntax`.
    pub fn new(syntax: Syntax) -> (editor: Editor)
        ensures
            editor.wf(),
            editor@ == (EditorState {
                lines: seq![Seq::empty()],
                clipboard: Seq::empty(),
                matches: crate::model::MatchSet { matches: Seq::empty(), index: 0 },
                filename: "*New Buffer*"@,
                clamp: 0,
                cursor: Cursor { x: 0, y: 0 },
                screen: Screen { x: 0, y: 0, height: 0, width: 0 },
                syntax: syntax@,
                refresh: true,
                mode: Mode::Normal,
                log: Seq::empty(),
                command: Seq::empty(),
                visual: Visual { x: 0, y: 0, select_line: false },
            }),
    {
        let mut buffer: Vec<Vec<char>> = Vec::new();
        buffer.push(Vec::new());
        let editor = Editor {
            buffer,
            clipboard: Vec::new(),
            matches: Matches::new(),
            filename: String::from_str("*New Buffer*"),
            clamp: 0,
            cursor: Cursor::new(),
            screen: Screen::new(),
            syntax,
            refresh: true,
            mode: Mode::Normal,
            log: String::new(),
            command: Vec::new(),
            visual: Visual { x: 0, y: 0, select_line: false },
        };
        proof {
            editor.lemma_fits();
            assert(editor@.lines =~= seq![Seq::empty()]);
            assert(editor@.clipboard =~= Seq::empty());
        }
        editor
    }

    /// The lengths of what an editor holds always fit the machine.
    pub proof fn lemma_fits(&self)
        ensures
            self@.fits(),
    {
        assert forall|i: int| 0 <= i < self@.lines.len() implies (#[trigger] self@.lines[i]).len()
            <= usize::MAX by {
            assert(self@.lines[i] == self.buffer@[i]@);
            assert(self.buffer@[i].len() <= usize::MAX);
        }
        assert forall|i: int| 0 <= i < self@.clipboard.len() implies (
        #[trigger] self@.clipboard[i]).len() <= usize::MAX by {
            assert(self@.clipboard[i] == self.clipboard@[i]@);
            assert(self.clipboard@[i].len() <= usize::MAX);
        }
        assert(self.buffer.len() <= usize::MAX);
        assert(self.clipboard.len() <= usize::MAX);
        assert(self.matches.matches.len() <= usize::MAX);
        assert(self.command.len() <= usize::MAX);
    }

    /// Whether the editor is in a state that the editing operations accept.
    pub fn is_wf(&self) -> (b: bool)
        ensures
            b == self.wf(),
    {
        proof {
            self.lemma_fits();
        }
        self.buffer.len() > 0 && self.cursor.y < self.buffer.len() && self.screen.y
            <= self.cursor.y && (self.matches.index < self.matches.matches.len() || (
        self.matches.matches.len() == 0 && self.matches.index == 0))
    }

    /// Whether the cursor's column is on its line or just past its end.
    pub fn is_clamped(&self) -> (b: bool)
        requires
            self.wf(),
        ensures
            b == self@.clamped(),
    {
        self.cursor.x <= self.buffer[self.cursor.y].len()
    }

    /// Takes the terminal's size, in rows and columns, as the viewport's.
    pub fn resize(&mut self, height: usize, width: usize)
        ensures
            final(self)@ == old(self)@.resize(height, width),
    {
        self.screen.height = height;
        self.screen.width = width;
    }

    /// Puts the cursor and the viewport back to the top left corner.
    pub fn reset(&mut self)
        ensures
            final(self)@ == old(self)@.reset(),
    {
        self.cursor = Cursor::new();
        self.screen.reset();
    }

    /// Takes the lines read from the file `file_path` as the document, with
    /// `syntax` to highlight them. A file without lines gives a document of
    /// one empty line. The cursor and the viewport stay where they are.
    pub fn open_file(&mut self, file_path: &str, lines: &Vec<String>, syntax: Syntax)
        ensures
            final(self)@ == old(self)@.open_file(file_path@, texts(lines@), syntax@),
    {
        let mut buffer: Vec<Vec<char>> = Vec::new();
        let mut i: usize = 0;
        while i < lines.len()
            invariant
                i <= lines.len(),
                buffer.len() == i,
                forall|j: int| 0 <= j < i ==> buffer[j]@ == lines[j]@,
            decreases lines.len() - i,
        {
            buffer.push(chars_of(lines[i].as_str()));
            i += 1;
        }
        if buffer.len() == 0 {
            buffer.push(Vec::new());
        }
        self.buffer = buffer;
        self.filename = String::from_str(file_path);
        self.syntax = syntax;
        assert(self@.lines =~~= document(texts(lines@)));
    }

    /// The text that saving writes to the document's file: the lines in
    /// order, each with a line feed after it.
    pub fn file_text(&self) -> (r: String)
        ensures
            r@ == self@.file_text(),
    {
        let mut text: Vec<char> = Vec::new();
        let mut i: usize = 0;
        while i < self.buffer.len()
            invariant
                i <= self.buffer.len(),
                text@ == file_text(self@.lines, i as int),
            decreases self.buffer.len() - i,
        {
            push_chars(&mut text, &self.buffer[i]);
            text.push('\n');
            i += 1;
        }
        string_of(&text)
    }

    /// Shows `message` in the log line.
    pub fn log(&mut self, message: &str)
        ensures
            final(self)@ == old(self)@.log(message@),
    {
        self.log = String::from_str(message);
        self.refresh = true;
    }

    /// Moves the cursor one step. Sideways it stops at the ends of the line
    /// and the clamp column follows it; up and down it stops at the ends of
    /// the document, and the viewport scrolls by one line when the cursor
    /// would leave it.
    pub fn move_cursor(&mut self, direction: Direction)
        requires
            old(self).wf(),
        ensures
            final(self)@ == old(self)@.move_cursor(direction),
            final(self).wf(),
    {
        match direction {
            Direction::Left => {
                if self.cursor.x > 0 {
                    self.cursor.x -= 1;
                }
                self.clamp = self.cursor.x;
            },
            Direction::Right => {
                if self.cursor.x < self.buffer[self.cursor.y].len() {
                    self.cursor.x += 1;
                }
                self.clamp = self.cursor.x;
            },
            Direction::Up => {
                if self.cursor.y > 0 {
                    if self.cursor.y <= self.screen.y {
                        self.screen.y -= 1;
                        self.refresh = true;
                    }
                    self.cursor.y -= 1;
                }
            },
            Direction::Down => {
                if self.cursor.y + 1 < self.buffer.len() {
                    let scroll = self.screen.height < BOTTOM_BAR || self.cursor.y + 1
                        - self.screen.y >= self.screen.height - BOTTOM_BAR;
                    if scroll {
                        self.screen.y += 1;
                        self.refresh = true;
                    }
                    self.cursor.y += 1;
                }
            },
        }
    }

    /// Jumps a paragraph's worth of lines up or down, stopping at the ends
    /// of the document; the viewport jumps with the cursor.
    pub fn move_by_paragraph(&mut self, direction: Direction)
        requires
            old(self).wf(),
        ensures
            final(self)@ == old(self)@.move_by_paragraph(direction),
            final(self).wf(),
    {
        match direction {
            Direction::Up => {
                if self.cursor.y < PARAGRAPH {
                    self.cursor.y = 0;
                } else {
                    self.cursor.y -= PARAGRAPH;
                }
                self.screen.y = self.cursor.y;
            },
            Direction::Down => {
                if self.buffer.len() - self.cursor.y <= PARAGRAPH {
                    self.cursor.y = self.buffer.len() - 1;
                    self.screen.y = self.buffer.len() - 1;
                } else {
                    self.cursor.y += PARAGRAPH;
                    self.screen.y += PARAGRAPH;
                }
            },
            _ => {},
        }
    }

    /// Brings the cursor's column back onto its line: to the end of the line
    /// when it is past it, else to the clamp column when the line is longer
    /// than that.
    pub fn clamp_cursor(&mut self)
        requires
            old(self).wf(),
        ensures
            final(self)@ == old(self)@.clamp_cursor(),
            final(self).wf(),
            final(self)@.clamped(),
    {
        let len = self.buffer[self.cursor.y].len();
        if self.cursor.x > len {
            self.cursor.x = len;
        } else if self.clamp < len {
            self.cursor.x = self.clamp;
        }
    }

    /// Puts `character` in at the cursor and moves the cursor past it.
    pub fn insert(&mut self, character: char)
        requires
            old(self).wf(),
            old(self)@.clamped(),
        ensures
            final(self)@ == old(self)@.insert(character),
            final(self).wf(),
            final(self)@.clamped(),
    {
        self.buffer[self.cursor.y].insert(self.cursor.x, character);
        assert(self.cursor.x < self.buffer[self.cursor.y as int].len());
        self.cursor.x += 1;
        self.clamp = self.cursor.x;
        self.refresh = true;
        proof {
            self.lemma_fits();
            assert(self@.lines =~= old(self)@.insert(character).lines);
        }
    }

    /// Takes out the character before the cursor. At the start of a line the
    /// line is joined onto the one above and the cursor lands where the two
    /// meet; at the start of the document nothing is taken out.
    pub fn remove(&mut self)
        requires
            old(self).wf(),
            old(self)@.clamped(),
        ensures
            final(self)@ == old(self)@.remove(),
            final(self).wf(),
            final(self)@.clamped(),
    {
        if self.cursor.x != 0 {
            self.cursor.x -= 1;
            self.buffer[self.cursor.y].remove(self.cursor.x);
            assert(self@.lines =~= old(self)@.remove().lines);
        } else if self.cursor.y != 0 {
            let line_len = self.buffer[self.cursor.y - 1].len();
            let mut line = self.buffer.remove(self.cursor.y);
            self.buffer[self.cursor.y - 1].append(&mut line);
            if self.cursor.y <= self.screen.y {
                self.screen.y -= 1;
                self.refresh = true;
            }
            self.cursor.y -= 1;
            self.cursor.x = line_len;
            assert(self@.lines =~= old(self)@.remove().lines);
        }
        self.clamp = self.cursor.x;
        self.refresh = true;
        proof {
            self.lemma_fits();
        }
    }

    /// The indentation of the line above the cursor: the length of the run
    /// of spaces it begins with.
    pub fn indentation(&self) -> (indent: usize)
        requires
            self.wf(),
            self.cursor.y > 0,
        ensures
            indent == indentation(self@.lines[self.cursor.y - 1]),
    {
        let line = &self.buffer[self.cursor.y - 1];
        let mut i: usize = 0;
        while i < line.len() && line[i] == ' '
            invariant
                i <= line.len(),
                leading_spaces(line@, 0) == leading_spaces(line@, i as int),
            decreases line.len() - i,
        {
            i += 1;
        }
        i
    }

    /// Breaks the line. With `cut`, what stands from the cursor on moves to
    /// a new line below and the cursor goes to its start. Without, a new
    /// line is opened below, indented like the cursor's line, and the cursor
    /// goes to the end of that indentation.
    pub fn newline(&mut self, cut: bool)
        requires
            old(self).wf(),
            cut ==> old(self)@.clamped(),
        ensures
            final(self)@ == old(self)@.newline(cut),
            final(self).wf(),
            final(self)@.clamped(),
    {
        let ghost before = self@;
        let y = self.cursor.y;
        let below: Vec<char> = if cut {
            self.buffer[y].split_off(self.cursor.x)
        } else {
            Vec::new()
        };
        self.buffer.insert(y + 1, below);
        proof {
            self.lemma_fits();
            if cut {
                assert(self@.lines =~~= before.lines.update(
                    y as int,
                    before.line().take(before.cursor.x as int),
                ).insert(y + 1, before.line().skip(before.cursor.x as int)));
            } else {
                assert(self@.lines =~~= before.lines.insert(y + 1, Seq::empty()));
            }
        }
        self.move_cursor(Direction::Down);
        if cut {
            self.cursor.x = 0;
        } else {
            let indent = self.indentation();
            self.buffer[y + 1] = repeated(' ', indent);
            self.cursor.x = indent;
        }
        self.clamp = self.cursor.x;
        self.refresh = true;
        proof {
            self.lemma_fits();
            assert(self@.lines =~~= before.newline(cut).lines);
        }
    }

    /// The span between a selection's anchor and the cursor, low end first,
    /// and on which side of the cursor the anchor lies. The span leaves its
    /// higher end out: with the anchor first it holds the anchor and not
    /// the cursor's position, with the cursor first the cursor's position
    /// and not the anchor. Where the two are the same, it holds that one
    /// position.
    pub fn range(&self, visual: usize, cursor: usize) -> (r: (std::ops::Range<usize>, Direction))
        requires
            visual == cursor ==> cursor < usize::MAX,
        ensures
            r.0.start == range_start(visual as int, cursor as int),
            r.0.end == range_end(visual as int, cursor as int),
            r.1 == range_direction(visual as int, cursor as int),
    {
        if visual < cursor {
            (visual..cursor, Direction::Down)
        } else if cursor == visual {
            (cursor..visual + 1, Direction::Up)
        } else {
            (cursor..visual, Direction::Up)
        }
    }

    /// Whether the span between the anchor `visual` and the cursor can be
    /// taken out of the document.
    pub fn selection_fits(&self, visual: &Visual) -> (b: bool)
        requires
            self.wf(),
        ensures
            b == self@.selection_fits(*visual),
    {
        self.span_fits(visual) && (!visual.select_line || visual.y < self.buffer.len())
    }

    /// Whether the span between the anchor `visual` and the cursor lies in
    /// the document.
    pub fn span_fits(&self, visual: &Visual) -> (b: bool)
        requires
            self.wf(),
        ensures
            b == self@.span_fits(*visual),
    {
        if visual.select_line {
            visual.y <= self.buffer.len()
        } else {
            let len = self.buffer[self.cursor.y].len();
            if visual.x < self.cursor.x {
                self.cursor.x <= len
            } else {
                visual.x < len || (visual.x == len && self.cursor.x < visual.x)
            }
        }
    }

    /// Puts the selection between `visual` and the cursor on the clipboard:
    /// whole lines, or one stretch of the cursor's line.
    pub fn copy(&mut self, visual: &Visual)
        requires
            old(self).wf(),
            old(self)@.span_fits(*visual),
        ensures
            final(self)@ == old(self)@.copy(*visual),
            final(self).wf(),
    {
        if visual.select_line {
            let range = self.range(visual.y, self.cursor.y).0;
            self.clipboard = copy_lines(&self.buffer, range.start, range.end);
        } else {
            let range = self.range(visual.x, self.cursor.x).0;
            let span = slice(&self.buffer[self.cursor.y], range.start, range.end);
            let mut clipboard: Vec<Vec<char>> = Vec::new();
            clipboard.push(span);
            self.clipboard = clipboard;
            assert(self@.clipboard =~~= old(self)@.selected(*visual));
        }
        proof {
            self.lemma_fits();
        }
    }

    /// Takes the selection between `visual` and the cursor out of the
    /// document. The cursor lands at the start of what was taken out: where
    /// the anchor comes before the cursor, it goes back to the anchor; else
    /// it stays, but for whole lines never below the last line that is
    /// left. A document of one line keeps an empty line.
    pub fn delete(&mut self, visual: &Visual)
        requires
            old(self).wf(),
            old(self)@.selection_fits(*visual),
        ensures
            final(self)@ == old(self)@.delete(*visual),
            final(self).wf(),
    {
        if visual.select_line {
            if self.buffer.len() == 1 {
                self.buffer[0] = Vec::new();
                assert(self@.lines =~~= seq![Seq::<char>::empty()]);
            } else {
                let range = self.range(visual.y, self.cursor.y).0;
                remove_range(&mut self.buffer, range.start, range.end);
                let y = if range.start < self.buffer.len() {
                    range.start
                } else {
                    self.buffer.len() - 1
                };
                if y < self.screen.y {
                    self.screen.y = y;
                    self.refresh = true;
                }
                self.cursor.y = y;
                assert(self@.lines =~~= old(self)@.delete(*visual).lines);
            }
        } else {
            let (range, direction) = self.range(visual.x, self.cursor.x);
            remove_range(&mut self.buffer[self.cursor.y], range.start, range.end);
            if direction != Direction::Up {
                self.cursor.x = visual.x;
                self.clamp = visual.x;
            }
            assert(self@.lines =~~= old(self)@.delete(*visual).lines);
        }
        proof {
            self.lemma_fits();
        }
    }

    /// Whether there is something to paste the way `visual` asks for, and
    /// the cursor is where it can go.
    pub fn paste_fits(&self, visual: &Visual) -> (b: bool)
        requires
            self.wf(),
        ensures
            b == self@.paste_fits(*visual),
    {
        visual.select_line || (self.clipboard.len() > 0 && self.cursor.x
            <= self.buffer[self.cursor.y].len())
    }

    /// Puts the clipboard into the document. As whole lines it goes in
    /// right after the cursor's line and the cursor moves one line down; as
    /// characters its first entry goes in at the cursor, which moves past
    /// it.
    pub fn paste(&mut self, visual: &Visual)
        requires
            old(self).wf(),
            old(self)@.paste_fits(*visual),
        ensures
            final(self)@ == old(self)@.paste(*visual),
            final(self).wf(),
    {
        if visual.select_line {
            insert_lines(&mut self.buffer, self.cursor.y + 1, &self.clipboard);
            proof {
                self.lemma_fits();
            }
            self.move_cursor(Direction::Down);
        } else {
            let n = self.clipboard[0].len();
            insert_chars(&mut self.buffer[self.cursor.y], self.cursor.x, &self.clipboard[0]);
            proof {
                self.lemma_fits();
                assert(self@.lines =~~= old(self)@.paste(*visual).lines);
                assert(self@.lines[self.cursor.y as int].len() == old(self)@.line().len() + n);
            }
            if n > 0 {
                self.cursor.x = self.cursor.x + n;
                self.clamp = self.cursor.x;
            }
        }
    }
}

} // verus!
