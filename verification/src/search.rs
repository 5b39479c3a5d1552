//! Searching the document for a literal text, and stepping through what was
//! found.

use vstd::prelude::*;
use crate::editor::Editor;
use crate::model::{Cursor, Matches};
use crate::state::{first_match, first_match_from, found, occurs_at};
use crate::text::chars_of;

verus! {

/// Whether `query` stands in `line` at column `x`.
pub fn stands_at(line: &Vec<char>, query: &Vec<char>, x: usize) -> (b: bool)
    requires
        x + query.len() <= line.len(),
    ensures
        b == occurs_at(line@, query@, x as int),
{
    let mut i: usize = 0;
    while i < query.len()
        invariant
            i <= query.len(),
            x + query.len() <= line.len(),
            line@.subrange(x as int, x + i) == query@.take(i as int),
        decreases query.len() - i,
    {
        if line[x + i] != query[i] {
            assert(line@.subrange(x as int, x + query.len())[i as int] != query@[i as int]);
            return false;
        }
        i += 1;
        assert(line@.subrange(x as int, x + i) =~= query@.take(i as int));
    }
    assert(query@.take(query.len() as int) =~= query@);
    true
}

/// The first column where `query` stands in `line`, if it does anywhere.
/// The empty text stands at column 0 of every line.
pub fn find(line: &Vec<char>, query: &Vec<char>) -> (r: Option<usize>)
    ensures
        match r {
            Some(x) => first_match(line@, query@) == Some(x as int),
            None => first_match(line@, query@) is None,
        },
{
    if query.len() > line.len() {
        return None;
    }
    if query.len() == 0 {
        assert(line@.subrange(0, 0) =~= query@);
        return Some(0);
    }
    let last = line.len() - query.len();
    let mut x: usize = 0;
    while x <= last
        invariant
            x <= last + 1,
            query.len() > 0,
            last == line.len() - query.len(),
            first_match(line@, query@) == first_match_from(line@, query@, x as int),
        decreases last + 1 - x,
    {
        if stands_at(line, query, x) {
            return Some(x);
        }
        x += 1;
    }
    None
}

impl Editor {
    /// Moves the cursor to the match the index stands at, with the viewport's
    /// corner on it. Does nothing when the index stands at no match, as
    /// where there are none.
    pub fn goto_match(&mut self)
        ensures
            final(self)@ == old(self)@.goto_match(),
    {
        if self.matches.index < self.matches.matches.len() {
            self.cursor = self.matches.matches[self.matches.index];
            self.screen.y = self.cursor.y;
            self.screen.x = self.cursor.x;
            self.refresh = true;
        }
    }

    /// Finds the first occurrence of `query` in each line and goes to the
    /// first of them. The matches found before are forgotten.
    pub fn search(&mut self, query: &str)
        requires
            old(self).wf(),
        ensures
            final(self)@ == old(self)@.search(query@),
            final(self).wf(),
    {
        let query = chars_of(query);
        self.search_chars(&query);
    }

    /// `search` for a text given as characters.
    pub fn search_chars(&mut self, query: &Vec<char>)
        requires
            old(self).wf(),
        ensures
            final(self)@ == old(self)@.search(query@),
            final(self).wf(),
    {
        let mut matches: Vec<Cursor> = Vec::new();
        let mut y: usize = 0;
        while y < self.buffer.len()
            invariant
                y <= self.buffer.len(),
                matches@ == found(self@.lines, query@, y as int),
                forall|i: int| 0 <= i < matches.len() ==> (#[trigger] matches[i]).y < y,
            decreases self.buffer.len() - y,
        {
            if let Some(x) = find(&self.buffer[y], query) {
                matches.push(Cursor { y, x });
            }
            y += 1;
        }
        self.matches = Matches { matches, index: 0 };
        self.goto_match();
        proof {
            self.lemma_fits();
        }
    }

    /// Moves the index on by one, but not past the last match, then goes
    /// to the match it stands at. Does nothing when there are no matches.
    pub fn next_match(&mut self)
        ensures
            final(self)@ == old(self)@.next_match(),
    {
        let count = self.matches.matches.len();
        if count > 0 {
            if self.matches.index < count - 1 {
                self.matches.index += 1;
            } else {
                self.matches.index = count - 1;
            }
            self.goto_match();
        }
    }

    /// Moves the index back, then goes to the match it stands at.
    pub fn previous_match(&mut self)
        ensures
            final(self)@ == old(self)@.previous_match(),
    {
        if self.matches.index > 0 {
            self.matches.index -= 1;
            self.goto_match();
        }
    }
}

} // verus!
