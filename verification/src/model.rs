//! The values the editor is made of: mode, cursor, viewport, selection and
//! search matches.

use vstd::prelude::*;
use vstd::string::StringExecFns;

verus! {

/// Rows at the bottom of the terminal that show no text of the document.
pub const BOTTOM_BAR: usize = 2;

/// Spaces that the tab key inserts.
pub const TAB_SIZE: usize = 4;

/// Lines that a paragraph jump moves over.
pub const PARAGRAPH: usize = 47;

/// Columns that the line-number gutter takes.
pub const GUTTER: usize = 3;

/// How input is read at the moment.
#[derive(Debug, PartialEq, Eq, Clone, Copy, Structural)]
pub enum Mode {
    Normal,
    Insert,
    Visual,
    Command,
}

impl Mode {
    /// The mode's name between two spaces.
    pub open spec fn label(self) -> Seq<char> {
        match self {
            Mode::Normal => " Normal "@,
            Mode::Insert => " Insert "@,
            Mode::Visual => " Visual "@,
            Mode::Command => " Command "@,
        }
    }

    /// The mode's name in capitals between two spaces.
    pub open spec fn banner(self) -> Seq<char> {
        match self {
            Mode::Normal => " NORMAL "@,
            Mode::Insert => " INSERT "@,
            Mode::Visual => " VISUAL "@,
            Mode::Command => " COMMAND "@,
        }
    }

    /// The mode's name between two spaces.
    pub fn as_string(&self) -> (s: String)
        ensures
            s@ == self.label(),
    {
        match self {
            Mode::Normal => String::from_str(" Normal "),
            Mode::Insert => String::from_str(" Insert "),
            Mode::Visual => String::from_str(" Visual "),
            Mode::Command => String::from_str(" Command "),
        }
    }

    /// The label as the status bar shows it.
    pub fn as_banner(&self) -> (s: String)
        ensures
            s@ == self.banner(),
    {
        match self {
            Mode::Normal => String::from_str(" NORMAL "),
            Mode::Insert => String::from_str(" INSERT "),
            Mode::Visual => String::from_str(" VISUAL "),
            Mode::Command => String::from_str(" COMMAND "),
        }
    }
}

/// A way for the cursor to move.
#[derive(Debug, PartialEq, Eq, Clone, Copy, Structural)]
pub enum Direction {
    Left,
    Right,
    Up,
    Down,
}

/// A place in the document: column `x` of line `y`.
#[derive(Clone, Copy, Debug, PartialEq, Eq, Structural)]
pub struct Cursor {
    pub x: usize,
    pub y: usize,
}

impl Cursor {
    /// The start of the document.
    pub fn new() -> (cursor: Cursor)
        ensures
            cursor == (Cursor { x: 0, y: 0 }),
    {
        Cursor { x: 0, y: 0 }
    }
}

/// The window on the document: first visible column and line, and the
/// terminal's size in cells.
#[derive(Clone, Copy, Debug, PartialEq, Eq, Structural)]
pub struct Screen {
    pub x: usize,
    pub y: usize,
    pub height: usize,
    pub width: usize,
}

impl Screen {
    /// A viewport without size at the top left corner.
    pub fn new() -> (screen: Screen)
        ensures
            screen == (Screen { x: 0, y: 0, height: 0, width: 0 }),
    {
        Screen { x: 0, y: 0, height: 0, width: 0 }
    }

    /// Scrolls back to the top left corner; the size stays.
    pub fn reset(&mut self)
        ensures
            *final(self) == (Screen { x: 0, y: 0, ..*old(self) }),
    {
        self.x = 0;
        self.y = 0;
    }
}

/// The anchor of a selection, and whether whole lines are selected.
#[derive(Clone, Copy, Debug, PartialEq, Eq, Structural)]
pub struct Visual {
    pub x: usize,
    pub y: usize,
    pub select_line: bool,
}

impl Visual {
    /// A selection anchored at `cursor`.
    pub fn new(cursor: &Cursor, select_line: bool) -> (visual: Visual)
        ensures
            visual == (Visual { x: cursor.x, y: cursor.y, select_line }),
    {
        Visual { x: cursor.x, y: cursor.y, select_line }
    }
}

/// What a search found, in line order, and the index of the match that the
/// cursor was sent to last.
#[derive(Debug)]
pub struct Matches {
    pub matches: Vec<Cursor>,
    pub index: usize,
}

/// A `Matches` as a mathematical value.
pub struct MatchSet {
    pub matches: Seq<Cursor>,
    pub index: usize,
}

impl MatchSet {
    /// The index stands at one of the matches, or at 0 where there are
    /// none.
    pub open spec fn wf(self) -> bool {
        self.index < self.matches.len() || (self.matches.len() == 0 && self.index == 0)
    }
}

impl View for Matches {
    type V = MatchSet;

    open spec fn view(&self) -> MatchSet {
        MatchSet { matches: self.matches@, index: self.index }
    }
}

impl Clone for Matches {
    fn clone(&self) -> (r: Matches)
        ensures
            r@ == self@,
    {
        Matches { matches: self.matches.clone(), index: self.index }
    }
}

impl Matches {
    /// No matches.
    pub fn new() -> (m: Matches)
        ensures
            m@ == (MatchSet { matches: Seq::empty(), index: 0 }),
    {
        Matches { matches: Vec::new(), index: 0 }
    }
}

} // verus!
