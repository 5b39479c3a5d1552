//! What is drawn: the rows of text with their gutter of line numbers, the
//! status bar and the log line, as pieces of text that each have a style.

use vstd::prelude::*;
use crate::buffermanager::{BufferManager, ManagerState};
use crate::editor::Editor;
use crate::error::Error;
use crate::highlight::{
    Category, Colors, Paint, Span, SpanView, TokenView, highlighting_failed, holds_text, spans,
};
use crate::model::{BOTTOM_BAR, GUTTER, Mode};
use crate::state::EditorState;
use crate::text::{chars_of, push_chars, repeat, repeated, slice, string_of};

verus! {

/// A stretch of text in one style.
#[derive(Debug)]
pub struct Piece {
    pub paint: Paint,
    pub text: String,
}

/// A `Piece` as a mathematical value.
pub struct PieceView {
    pub paint: Paint,
    pub text: Seq<char>,
}

impl View for Piece {
    type V = PieceView;

    open spec fn view(&self) -> PieceView {
        PieceView { paint: self.paint, text: self.text@ }
    }
}

/// The views of the pieces of `v`, in order.
pub open spec fn pieces(v: Seq<Piece>) -> Seq<PieceView> {
    Seq::new(v.len(), |i: int| v[i]@)
}

/// The views of the rows of `v`, in order.
pub open spec fn rows(v: Seq<Vec<Piece>>) -> Seq<Seq<PieceView>> {
    Seq::new(v.len(), |i: int| pieces(v[i]@))
}

/// What is to be drawn on the terminal, top down, and where the terminal's
/// cursor goes.
#[derive(Debug)]
pub struct Frame {
    /// Whether everything is drawn anew. Otherwise the rows hold their
    /// gutter only and there is no log line.
    pub full: bool,
    pub rows: Vec<Vec<Piece>>,
    pub bar: Vec<Piece>,
    pub log: Vec<Piece>,
    pub cursor_x: usize,
    pub cursor_y: usize,
}

/// A `Frame` as a mathematical value.
pub struct FrameView {
    pub full: bool,
    pub rows: Seq<Seq<PieceView>>,
    pub bar: Seq<PieceView>,
    pub log: Seq<PieceView>,
    pub cursor_x: usize,
    pub cursor_y: usize,
}

impl View for Frame {
    type V = FrameView;

    open spec fn view(&self) -> FrameView {
        FrameView {
            full: self.full,
            rows: rows(self.rows@),
            bar: pieces(self.bar@),
            log: pieces(self.log@),
            cursor_x: self.cursor_x,
            cursor_y: self.cursor_y,
        }
    }
}

/// The character that writes the digit `d`.
pub open spec fn digit(d: int) -> char {
    seq!['0', '1', '2', '3', '4', '5', '6', '7', '8', '9'][d]
}

/// `n` written in decimal digits.
pub open spec fn decimal(n: nat) -> Seq<char>
    decreases n,
{
    if n < 10 {
        seq![digit(n as int)]
    } else {
        decimal(n / 10).push(digit((n % 10) as int))
    }
}

/// `n` written in decimal digits, at least two of them.
pub open spec fn two_digits(n: nat) -> Seq<char> {
    if n < 10 {
        seq!['0', digit(n as int)]
    } else {
        decimal(n)
    }
}

/// `a - b` where that is positive, else 0.
pub open spec fn minus(a: int, b: int) -> int {
    if a > b {
        a - b
    } else {
        0
    }
}

/// The part of `line` that a viewport shows which begins at column `x` and
/// is `width` columns wide.
pub open spec fn visible(line: Seq<char>, x: int, width: int) -> Seq<char> {
    let from = if x < line.len() {
        x
    } else {
        line.len() as int
    };
    let to = if x + width < line.len() {
        x + width
    } else {
        line.len() as int
    };
    line.subrange(from, to)
}

/// The pieces that the spans of a highlighted line are drawn as.
pub open spec fn text_pieces(shown: Seq<SpanView>) -> Seq<PieceView> {
    Seq::new(shown.len(), |i: int| PieceView { paint: Paint::Text(shown[i].category), text: shown[i].text })
}

/// A piece of text that is drawn like the background.
pub open spec fn plain(text: Seq<char>) -> PieceView {
    PieceView { paint: Paint::Text(Category::Default), text }
}

impl EditorState {
    /// The number of rows that show the document.
    pub open spec fn text_rows(self) -> int {
        minus(self.screen.height as int, BOTTOM_BAR as int)
    }

    /// The gutter of row `row`: how many lines the row is from the cursor's
    /// row, or an arrow on the cursor's row.
    pub open spec fn line_number(self, row: int) -> PieceView {
        let at = self.cursor.y - self.screen.y;
        PieceView {
            paint: Paint::LineNumber,
            text: if row > at {
                two_digits((row - at) as nat).push(' ')
            } else if row < at {
                two_digits((at - row) as nat).push(' ')
            } else {
                seq!['-', '>', ' ']
            },
        }
    }

    /// Whether line `index` shows no text: it is empty or lies beyond the
    /// end of the document.
    pub open spec fn empty_line(self, index: int) -> bool {
        self.lines.len() <= index || self.lines[index].len() == 0
    }

    /// What row `row` shows besides its gutter when it shows no text: the
    /// background, with a tilde first where the document has ended.
    pub open spec fn blank(self, row: int) -> PieceView {
        let room = minus(self.screen.width as int, GUTTER as int);
        if self.lines.len() <= self.screen.y + row {
            plain(seq!['~'] + repeat(' ', room - 1))
        } else {
            plain(repeat(' ', room))
        }
    }

    /// The part of the line of row `row` that the viewport shows.
    pub open spec fn shown(self, row: int) -> Seq<char> {
        visible(self.lines[self.screen.y + row], self.screen.x as int, self.screen.width as int)
    }

    /// The background that fills row `row` after its text.
    pub open spec fn padding(self, row: int) -> PieceView {
        plain(
            repeat(
                ' ',
                self.screen.width - self.lines[self.screen.y + row].len() - (GUTTER + 1),
            ),
        )
    }

    /// Row `row` of the view, where the text it shows was lexed into `found`.
    pub open spec fn text_row(self, row: int, found: Seq<TokenView>) -> Seq<PieceView> {
        seq![self.line_number(row)] + text_pieces(self.syntax.highlight(found)) + seq![
            self.padding(row),
        ]
    }

    /// Row `row` of the view; `None` where the text it shows cannot be
    /// highlighted.
    pub open spec fn row(self, row: int) -> Option<Seq<PieceView>> {
        if self.empty_line(self.screen.y + row) {
            Some(seq![self.line_number(row), self.blank(row)])
        } else {
            match self.syntax.tokenize(self.shown(row)) {
                Some(found) => Some(self.text_row(row, found)),
                None => None,
            }
        }
    }

    /// The status bar: the mode, the file's name and type, and at the right
    /// end the number of the buffer among the buffers and the cursor's line
    /// and column, both counted from 1.
    pub open spec fn bar(self, manager: ManagerState) -> Seq<PieceView> {
        let name = seq![' '] + self.filename;
        let filetype = seq![' ', '['] + self.syntax.filetype + seq![']'];
        let buffer = seq![' ', '['] + decimal((manager.current + 1) as nat) + seq!['/'] + decimal(
            manager.buffers.len(),
        ) + seq![']', ' '];
        let place = seq![' '] + decimal((self.cursor.y + 1) as nat) + seq![':'] + decimal(
            (self.cursor.x + 1) as nat,
        ) + seq![' '];
        let size = self.mode.banner().len() + name.len() + filetype.len() + buffer.len()
            + place.len();
        let bar = |text: Seq<char>| PieceView { paint: Paint::Bar, text };
        seq![
            PieceView { paint: Paint::Mode, text: self.mode.banner() },
            bar(name),
            bar(filetype),
            bar(repeat(' ', self.screen.width - size)),
            bar(buffer),
            bar(place),
        ]
    }

    /// The log line: the message, and background up to the right edge.
    pub open spec fn log_line(self) -> Seq<PieceView> {
        seq![plain(self.log), plain(repeat(' ', self.screen.width - self.log.len()))]
    }

    /// Where the terminal's cursor goes. While a command is typed it
    /// stands after the command in the last row, else on the document's
    /// cursor, right of the gutter.
    pub open spec fn terminal_cursor(self) -> (usize, usize) {
        if self.mode == Mode::Command {
            (self.command.len() as usize, minus(self.screen.height as int, 1) as usize)
        } else {
            (
                if self.cursor.x + GUTTER > usize::MAX {
                    usize::MAX
                } else {
                    (self.cursor.x + GUTTER) as usize
                },
                (self.cursor.y - self.screen.y) as usize,
            )
        }
    }

    /// Whether every row of the view can be highlighted.
    pub open spec fn drawable(self) -> bool {
        forall|row: int| 0 <= row < self.text_rows() ==> (#[trigger] self.row(row)) is Some
    }

    /// What is drawn when everything is drawn anew.
    pub open spec fn full_frame(self, manager: ManagerState) -> FrameView {
        FrameView {
            full: true,
            rows: Seq::new(self.text_rows() as nat, |row: int| self.row(row)->0),
            bar: self.bar(manager),
            log: self.log_line(),
            cursor_x: self.terminal_cursor().0,
            cursor_y: self.terminal_cursor().1,
        }
    }

    /// The gutters of all rows of the view, top down.
    pub open spec fn gutter_rows(self) -> Seq<Seq<PieceView>> {
        Seq::new(self.text_rows() as nat, |row: int| seq![self.line_number(row)])
    }

    /// What is drawn when only the cursor has moved: the gutter and the
    /// status bar.
    pub open spec fn light_frame(self, manager: ManagerState) -> FrameView {
        FrameView {
            full: false,
            rows: self.gutter_rows(),
            bar: self.bar(manager),
            log: Seq::empty(),
            cursor_x: self.terminal_cursor().0,
            cursor_y: self.terminal_cursor().1,
        }
    }

    /// What is drawn.
    pub open spec fn frame(self, manager: ManagerState) -> FrameView {
        if self.refresh {
            self.full_frame(manager)
        } else {
            self.light_frame(manager)
        }
    }

    /// The state before it is drawn: while a command is typed the log line
    /// shows it, and the cursor is brought back onto its line.
    pub open spec fn prepare(self) -> EditorState {
        if self.mode == Mode::Command {
            self.log(self.command).clamp_cursor()
        } else {
            self.clamp_cursor()
        }
    }
}

/// The character that writes the digit `d`.
fn digit_char(d: u8) -> (c: char)
    requires
        d < 10,
    ensures
        c == digit(d as int),
{
    match d {
        0 => '0',
        1 => '1',
        2 => '2',
        3 => '3',
        4 => '4',
        5 => '5',
        6 => '6',
        7 => '7',
        8 => '8',
        _ => '9',
    }
}

/// Writes `n` in decimal digits at the end of `out`.
pub fn push_decimal(out: &mut Vec<char>, n: u128)
    ensures
        final(out)@ == old(out)@ + decimal(n as nat),
    decreases n,
{
    if n >= 10 {
        push_decimal(out, n / 10);
    }
    out.push(digit_char((n % 10) as u8));
    assert(out@ =~= old(out)@ + decimal(n as nat));
}

/// `a - b` where that is positive, else 0.
pub fn minus_or_zero(a: usize, b: usize) -> (r: usize)
    ensures
        r == minus(a as int, b as int),
{
    if a > b {
        a - b
    } else {
        0
    }
}

/// A piece of `text` in the style of `paint`.
fn piece(paint: Paint, text: &Vec<char>) -> (r: Piece)
    ensures
        r@ == (PieceView { paint, text: text@ }),
{
    Piece { paint, text: string_of(text) }
}

impl Editor {
    /// Whether line `index` shows no text: it is empty or lies beyond the
    /// end of the document.
    pub fn empty_line(&self, index: usize) -> (b: bool)
        ensures
            b == self@.empty_line(index as int),
    {
        if self.buffer.len() <= index {
            return true;
        } else if self.buffer[index].len() == 0 {
            return true;
        }
        false
    }

    /// The gutter of row `index` of the view.
    pub fn render_line_number(&self, index: usize) -> (r: Piece)
        requires
            self.wf(),
        ensures
            r@ == self@.line_number(index as int),
    {
        let cursor_position = self.cursor.y - self.screen.y;
        let mut text: Vec<char> = Vec::new();
        if index == cursor_position {
            text.push('-');
            text.push('>');
            text.push(' ');
            assert(text@ =~= seq!['-', '>', ' ']);
        } else {
            let distance = if index > cursor_position {
                index - cursor_position
            } else {
                cursor_position - index
            };
            if distance < 10 {
                text.push('0');
            }
            push_decimal(&mut text, distance as u128);
            text.push(' ');
            assert(text@ =~= two_digits(distance as nat).push(' '));
        }
        piece(Paint::LineNumber, &text)
    }

    /// The gutters of all rows of the view, top down.
    pub fn line_numbers(&self) -> (r: Vec<Vec<Piece>>)
        requires
            self.wf(),
        ensures
            rows(r@) == self@.gutter_rows(),
    {
        let count = minus_or_zero(self.screen.height, BOTTOM_BAR);
        let mut r: Vec<Vec<Piece>> = Vec::new();
        let mut row: usize = 0;
        while row < count
            invariant
                row <= count,
                self.wf(),
                r.len() == row,
                forall|j: int| 0 <= j < row ==> pieces(#[trigger] r[j]@) == seq![self@.line_number(j)],
            decreases count - row,
        {
            let mut gutter: Vec<Piece> = Vec::new();
            gutter.push(self.render_line_number(row));
            assert(pieces(gutter@) =~= seq![self@.line_number(row as int)]);
            r.push(gutter);
            row += 1;
        }
        assert(rows(r@) =~= self@.gutter_rows());
        r
    }

    /// The status bar.
    pub fn render_bar(&self, manager: &BufferManager) -> (r: Vec<Piece>)
        ensures
            pieces(r@) == self@.bar(manager@),
    {
        let banner = self.mode.as_banner();
        let mut name: Vec<char> = Vec::new();
        name.push(' ');
        push_chars(&mut name, &chars_of(self.filename.as_str()));
        let mut filetype: Vec<char> = Vec::new();
        filetype.push(' ');
        filetype.push('[');
        push_chars(&mut filetype, &chars_of(self.syntax.filetype.as_str()));
        filetype.push(']');
        let mut buffer: Vec<char> = Vec::new();
        buffer.push(' ');
        buffer.push('[');
        push_decimal(&mut buffer, manager.current as u128 + 1);
        buffer.push('/');
        push_decimal(&mut buffer, manager.buffers.len() as u128);
        buffer.push(']');
        buffer.push(' ');
        let mut place: Vec<char> = Vec::new();
        place.push(' ');
        push_decimal(&mut place, self.cursor.y as u128 + 1);
        place.push(':');
        push_decimal(&mut place, self.cursor.x as u128 + 1);
        place.push(' ');
        let banner_chars = chars_of(banner.as_str());
        let size: u128 = banner_chars.len() as u128 + name.len() as u128 + filetype.len() as u128
            + buffer.len() as u128 + place.len() as u128;
        let width = self.screen.width;
        let padding = if size < width as u128 {
            repeated(' ', (width as u128 - size) as usize)
        } else {
            Vec::new()
        };
        proof {
            assert(name@ =~= seq![' '] + self@.filename);
            assert(filetype@ =~= seq![' ', '['] + self@.syntax.filetype + seq![']']);
            assert(buffer@ =~= seq![' ', '['] + decimal((manager@.current + 1) as nat) + seq!['/']
                + decimal(manager@.buffers.len()) + seq![']', ' ']);
            assert(place@ =~= seq![' '] + decimal((self.cursor.y + 1) as nat) + seq![':']
                + decimal((self.cursor.x + 1) as nat) + seq![' ']);
            assert(padding@ =~= repeat(' ', width - size));
        }
        let mut r: Vec<Piece> = Vec::new();
        r.push(Piece { paint: Paint::Mode, text: banner });
        r.push(piece(Paint::Bar, &name));
        r.push(piece(Paint::Bar, &filetype));
        r.push(piece(Paint::Bar, &padding));
        r.push(piece(Paint::Bar, &buffer));
        r.push(piece(Paint::Bar, &place));
        assert(pieces(r@) =~= self@.bar(manager@));
        r
    }

    /// The log line.
    pub fn render_log(&self) -> (r: Vec<Piece>)
        ensures
            pieces(r@) == self@.log_line(),
    {
        let message = chars_of(self.log.as_str());
        let padding = repeated(' ', minus_or_zero(self.screen.width, message.len()));
        let mut r: Vec<Piece> = Vec::new();
        r.push(piece(Paint::Text(Category::Default), &message));
        r.push(piece(Paint::Text(Category::Default), &padding));
        assert(padding@ =~= repeat(' ', self.screen.width - self@.log.len()));
        assert(pieces(r@) =~= self@.log_line());
        r
    }

    /// Where the terminal's cursor goes: column and row.
    pub fn terminal_cursor(&self) -> (r: (usize, usize))
        requires
            self.wf(),
        ensures
            r == self@.terminal_cursor(),
    {
        if self.mode == Mode::Command {
            (self.command.len(), minus_or_zero(self.screen.height, 1))
        } else {
            let x = match self.cursor.x.checked_add(GUTTER) {
                Some(x) => x,
                None => usize::MAX,
            };
            (x, self.cursor.y - self.screen.y)
        }
    }

    /// Row `row` of the view, where the text it shows was highlighted as
    /// `shown`.
    pub fn render_text_row(&self, row: usize, shown: &Vec<Span>) -> (r: Vec<Piece>)
        requires
            self.wf(),
            self.screen.y + row < self.buffer.len(),
        ensures
            pieces(r@) == seq![self@.line_number(row as int)] + text_pieces(spans(shown@)) + seq![
                self@.padding(row as int),
            ],
    {
        let mut r: Vec<Piece> = Vec::new();
        r.push(self.render_line_number(row));
        let mut i: usize = 0;
        while i < shown.len()
            invariant
                i <= shown.len(),
                r.len() == i + 1,
                r[0]@ == self@.line_number(row as int),
                forall|j: int|
                    0 <= j < i ==> (#[trigger] r[j + 1])@ == (PieceView {
                        paint: Paint::Text(shown[j].category),
                        text: shown[j].text@,
                    }),
            decreases shown.len() - i,
        {
            r.push(Piece { paint: Paint::Text(shown[i].category), text: shown[i].text.clone() });
            i += 1;
        }
        let length = self.buffer[self.screen.y + row].len();
        let padding = repeated(
            ' ',
            minus_or_zero(minus_or_zero(self.screen.width, length), GUTTER + 1),
        );
        assert(padding@ =~= self@.padding(row as int).text);
        r.push(piece(Paint::Text(Category::Default), &padding));
        proof {
            let a = pieces(r@);
            let b = seq![self@.line_number(row as int)] + text_pieces(spans(shown@)) + seq![
                self@.padding(row as int),
            ];
            assert(a.len() == b.len());
            assert forall|j: int| 0 <= j < a.len() implies a[j] == b[j] by {
                if 0 < j <= shown.len() {
                    assert(r[(j - 1) + 1]@ == (PieceView {
                        paint: Paint::Text(shown[j - 1].category),
                        text: shown[j - 1].text@,
                    }));
                }
            }
            assert(a =~= b);
        }
        r
    }

    /// Row `row` of the view. Fails where the text it shows cannot be
    /// highlighted.
    pub fn render_row(&self, row: usize) -> (r: Result<Vec<Piece>, Error>)
        requires
            self.wf(),
        ensures
            match r {
                Ok(drawn) => self@.row(row as int) == Some(pieces(drawn@)),
                Err(e) => self@.row(row as int) is None && e@
                    == highlighting_failed(),
            },
    {
        let index = match self.screen.y.checked_add(row) {
            Some(index) => index,
            None => usize::MAX,
        };
        if self.empty_line(index) {
            let room = minus_or_zero(self.screen.width, GUTTER);
            let mut text: Vec<char> = Vec::new();
            if self.buffer.len() <= index {
                text.push('~');
                push_chars(&mut text, &repeated(' ', minus_or_zero(room, 1)));
                assert(text@ =~= seq!['~'] + repeat(' ', room - 1));
            } else {
                text = repeated(' ', room);
            }
            let mut drawn: Vec<Piece> = Vec::new();
            drawn.push(self.render_line_number(row));
            drawn.push(piece(Paint::Text(Category::Default), &text));
            assert(pieces(drawn@) =~= seq![self@.line_number(row as int), self@.blank(row as int)]);
            Ok(drawn)
        } else {
            let line = &self.buffer[index];
            let from = if self.screen.x < line.len() {
                self.screen.x
            } else {
                line.len()
            };
            let to = if line.len() - from > self.screen.width {
                from + self.screen.width
            } else {
                line.len()
            };
            let text = string_of(&slice(line, from, to));
            assert(text@ == self@.shown(row as int));
            let shown = self.syntax.highlight(text.as_str())?;
            Ok(self.render_text_row(row, &shown))
        }
    }

    /// Gets the state ready to be drawn: while a command is typed the log
    /// line shows it, and the cursor is brought back onto its line.
    pub fn prepare(&mut self)
        requires
            old(self).wf(),
        ensures
            final(self)@ == old(self)@.prepare(),
            final(self).wf(),
            final(self)@.clamped(),
    {
        if self.mode == Mode::Command {
            let typed = string_of(&self.command);
            self.log(typed.as_str());
        }
        self.clamp_cursor();
    }

    /// What is to be drawn. Where the whole view has to be drawn again,
    /// every row is drawn with its text highlighted, and the view counts as
    /// drawn after that; this fails where a row cannot be highlighted.
    /// Otherwise only the gutter and the status bar are drawn. Nothing else
    /// of the state changes.
    pub fn render(&mut self, manager: &BufferManager) -> (r: Result<Frame, Error>)
        requires
            old(self).wf(),
        ensures
            match r {
                Ok(frame) => {
                    &&& old(self).refresh ==> old(self)@.drawable()
                    &&& frame@ == old(self)@.frame(manager@)
                    &&& final(self)@ == (EditorState { refresh: false, ..old(self)@ })
                },
                Err(e) => {
                    &&& old(self).refresh
                    &&& !old(self)@.drawable()
                    &&& e@ == highlighting_failed()
                    &&& final(self)@ == old(self)@
                },
            },
    {
        let cursor = self.terminal_cursor();
        if !self.refresh {
            let frame = Frame {
                full: false,
                rows: self.line_numbers(),
                bar: self.render_bar(manager),
                log: Vec::new(),
                cursor_x: cursor.0,
                cursor_y: cursor.1,
            };
            assert(frame@.log =~= Seq::empty());
            return Ok(frame);
        }
        let count = minus_or_zero(self.screen.height, BOTTOM_BAR);
        let mut drawn: Vec<Vec<Piece>> = Vec::new();
        let mut row: usize = 0;
        while row < count
            invariant
                row <= count,
                count == self@.text_rows(),
                self.wf(),
                self.refresh,
                *self == *old(self),
                drawn.len() == row,
                forall|j: int| 0 <= j < row ==> self@.row(j) == Some(pieces(#[trigger] drawn[j]@)),
            decreases count - row,
        {
            match self.render_row(row) {
                Ok(pieces) => {
                    drawn.push(pieces);
                },
                Err(e) => {
                    return Err(e);
                },
            }
            row += 1;
        }
        let frame = Frame {
            full: true,
            rows: drawn,
            bar: self.render_bar(manager),
            log: self.render_log(),
            cursor_x: cursor.0,
            cursor_y: cursor.1,
        };
        self.refresh = false;
        proof {
            assert forall|j: int| 0 <= j < old(self)@.text_rows() implies (#[trigger] old(
                self,
            )@.row(j)) is Some by {
                assert(old(self)@.row(j) == Some(pieces(drawn[j]@)));
            }
            assert(frame@.rows =~= old(self)@.full_frame(manager@).rows);
        }
        Ok(frame)
    }
}

/// The first `n` of the texts `parts`, one after the other.
pub open spec fn joined(parts: Seq<Seq<char>>, n: int) -> Seq<char>
    decreases n,
{
    if n <= 0 {
        Seq::empty()
    } else {
        joined(parts, n - 1) + parts[n - 1]
    }
}

/// Whether `whole` is the pieces painted one after the other: a text for
/// each piece, in order, each holding the text of its piece between what
/// switches its style on and off.
pub open spec fn painted(whole: Seq<char>, pieces: Seq<PieceView>) -> bool {
    exists|parts: Seq<Seq<char>>|
        {
            &&& parts.len() == pieces.len()
            &&& forall|i: int|
                0 <= i < pieces.len() ==> holds_text(#[trigger] parts[i], pieces[i].text)
            &&& whole == joined(parts, parts.len() as int)
        }
}

/// Texts that agree in their first `n` give the same when these are
/// joined.
proof fn lemma_joined_agrees(a: Seq<Seq<char>>, b: Seq<Seq<char>>, n: int)
    requires
        n <= a.len(),
        n <= b.len(),
        forall|i: int| 0 <= i < n ==> a[i] == b[i],
    ensures
        joined(a, n) == joined(b, n),
    decreases n,
{
    if n > 0 {
        lemma_joined_agrees(a, b, n - 1);
    }
}

/// The pieces as they are written to the terminal, one after the other,
/// each in its style.
pub fn paint_pieces(colors: &Colors, pieces: &Vec<Piece>) -> (r: String)
    ensures
        painted(r@, self::pieces(pieces@)),
{
    let mut written: Vec<char> = Vec::new();
    let ghost mut parts: Seq<Seq<char>> = Seq::empty();
    let mut i: usize = 0;
    while i < pieces.len()
        invariant
            i <= pieces.len(),
            parts.len() == i,
            forall|j: int| 0 <= j < i ==> holds_text(#[trigger] parts[j], pieces[j].text@),
            written@ == joined(parts, i as int),
        decreases pieces.len() - i,
    {
        let text = colors.paint(pieces[i].paint, pieces[i].text.as_str());
        proof {
            lemma_joined_agrees(parts, parts.push(text@), i as int);
            parts = parts.push(text@);
        }
        push_chars(&mut written, &chars_of(text.as_str()));
        i += 1;
    }
    string_of(&written)
}

} // verus!
