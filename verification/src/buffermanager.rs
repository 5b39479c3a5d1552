//! The open files: a snapshot of the editing state of each, and which of
//! them is being edited.

use vstd::prelude::*;
use crate::editor::Editor;
use crate::highlight::{Syntax, SyntaxView};
use crate::model::{Cursor, MatchSet, Matches, Screen};
use crate::state::{EditorState, document};
use crate::text::texts;

verus! {

/// What is kept of an open file while another one is edited. The document
/// itself is not kept: it is read again from the file.
#[derive(Debug)]
pub struct Buffer {
    pub matches: Matches,
    pub filename: String,
    pub clamp: usize,
    pub cursor: Cursor,
    pub screen: Screen,
    pub syntax: Syntax,
}

/// A `Buffer` as a mathematical value.
pub struct BufferState {
    pub matches: MatchSet,
    pub filename: Seq<char>,
    pub clamp: usize,
    pub cursor: Cursor,
    pub screen: Screen,
    pub syntax: SyntaxView,
}

impl View for Buffer {
    type V = BufferState;

    open spec fn view(&self) -> BufferState {
        BufferState {
            matches: self.matches@,
            filename: self.filename@,
            clamp: self.clamp,
            cursor: self.cursor,
            screen: self.screen,
            syntax: self.syntax@,
        }
    }
}

/// The snapshot that is taken of the editing state `editor`.
pub open spec fn snapshot(editor: EditorState) -> BufferState {
    BufferState {
        matches: editor.matches,
        filename: editor.filename,
        clamp: editor.clamp,
        cursor: editor.cursor,
        screen: editor.screen,
        syntax: editor.syntax,
    }
}

impl Buffer {
    /// A snapshot of the editing state of `editor`.
    pub fn of(editor: &Editor) -> (buffer: Buffer)
        ensures
            buffer@ == snapshot(editor@),
    {
        Buffer {
            matches: editor.matches.clone(),
            filename: editor.filename.clone(),
            clamp: editor.clamp,
            cursor: editor.cursor,
            screen: editor.screen,
            syntax: editor.syntax.clone(),
        }
    }
}

/// The snapshots of all open files in the order they were opened, and the
/// index of the one being edited.
#[derive(Debug)]
pub struct BufferManager {
    pub buffers: Vec<Buffer>,
    pub current: usize,
}

/// A `BufferManager` as a mathematical value.
pub struct ManagerState {
    pub buffers: Seq<BufferState>,
    pub current: usize,
}

/// The views of the snapshots of `v`, in order.
pub open spec fn snapshots(v: Seq<Buffer>) -> Seq<BufferState> {
    Seq::new(v.len(), |i: int| v[i]@)
}

impl View for BufferManager {
    type V = ManagerState;

    open spec fn view(&self) -> ManagerState {
        ManagerState { buffers: snapshots(self.buffers@), current: self.current }
    }
}

impl ManagerState {
    /// There is a snapshot, and the current index is that of one.
    pub open spec fn wf(self) -> bool {
        self.current < self.buffers.len() <= usize::MAX
    }

    /// The snapshot of the file being edited.
    pub open spec fn active(self) -> BufferState {
        self.buffers[self.current as int]
    }

    /// The snapshots with one of `editor` added after them.
    pub open spec fn load_buffer(self, editor: EditorState) -> ManagerState {
        ManagerState { buffers: self.buffers.push(snapshot(editor)), ..self }
    }

    /// The snapshots with the current one replaced by one of `editor`.
    pub open spec fn save_buffer(self, editor: EditorState) -> ManagerState {
        ManagerState { buffers: self.buffers.update(self.current as int, snapshot(editor)), ..self }
    }

    /// The next snapshot made current, if there is one.
    pub open spec fn next_buffer(self) -> ManagerState {
        if self.current + 1 < self.buffers.len() {
            ManagerState { current: (self.current + 1) as usize, ..self }
        } else {
            self
        }
    }

    /// The snapshot before the current one made current, if there is one.
    pub open spec fn previous_buffer(self) -> ManagerState {
        if self.current > 0 {
            ManagerState { current: (self.current - 1) as usize, ..self }
        } else {
            self
        }
    }

    /// The current snapshot taken away and the one before it made current;
    /// nothing changes when it is the only one.
    pub open spec fn close_buffer(self) -> ManagerState {
        if self.buffers.len() > 1 {
            ManagerState { buffers: self.buffers.remove(self.current as int), ..self }.previous_buffer()
        } else {
            self
        }
    }

    /// The editing state after the current snapshot is brought back into
    /// `editor`, with `lines` as what its file holds now.
    pub open spec fn reload(self, editor: EditorState, lines: Seq<Seq<char>>) -> EditorState {
        let buffer = self.active();
        EditorState {
            lines: document(lines),
            filename: buffer.filename,
            cursor: buffer.cursor,
            screen: buffer.screen,
            matches: buffer.matches,
            clamp: buffer.clamp,
            syntax: buffer.syntax,
            refresh: true,
            ..editor
        }
    }
}

impl BufferManager {
    /// Whether there is a snapshot and the current index is that of one.
    pub open spec fn wf(&self) -> bool {
        self@.wf()
    }

    /// A manager that holds one snapshot, that of `editor`.
    pub fn new(editor: &Editor) -> (manager: BufferManager)
        ensures
            manager@ == (ManagerState { buffers: seq![snapshot(editor@)], current: 0 }),
            manager.wf(),
    {
        let mut manager = BufferManager { buffers: Vec::new(), current: 0 };
        manager.load_buffer(editor);
        assert(manager@.buffers =~= seq![snapshot(editor@)]);
        manager
    }

    /// Whether there is a snapshot and the current index is that of one.
    pub fn is_wf(&self) -> (b: bool)
        ensures
            b == self.wf(),
    {
        self.current < self.buffers.len()
    }

    /// Adds a snapshot of `editor` after the others. The current index stays.
    pub fn load_buffer(&mut self, editor: &Editor)
        ensures
            final(self)@ == old(self)@.load_buffer(editor@),
    {
        self.buffers.push(Buffer::of(editor));
        assert(self@.buffers =~= old(self)@.buffers.push(snapshot(editor@)));
    }

    /// Takes the current snapshot away and makes the one before it current,
    /// or the one after it where there is none before. Nothing changes when
    /// only one snapshot is left. Returns whether a snapshot was taken away,
    /// so that the current one has to be brought back with `reload`.
    pub fn close_buffer(&mut self) -> (closed: bool)
        requires
            old(self).wf(),
        ensures
            final(self)@ == old(self)@.close_buffer(),
            closed == (old(self)@.buffers.len() > 1),
            final(self).wf(),
    {
        if self.buffers.len() > 1 {
            let _ = self.buffers.remove(self.current);
            self.previous_buffer();
            assert(self@.buffers =~= old(self)@.buffers.remove(old(self).current as int));
            true
        } else {
            false
        }
    }

    /// Replaces the current snapshot by one of `editor`.
    pub fn save_buffer(&mut self, editor: &Editor)
        requires
            old(self).wf(),
        ensures
            final(self)@ == old(self)@.save_buffer(editor@),
            final(self).wf(),
    {
        self.buffers[self.current] = Buffer::of(editor);
        assert(self@.buffers =~= old(self)@.buffers.update(
            old(self).current as int,
            snapshot(editor@),
        ));
    }

    /// Brings the current snapshot back into `editor`, with `lines` as what
    /// was read from its file: the document is those lines, everything the
    /// snapshot holds is as it was when the snapshot was taken, and the
    /// whole view is to be drawn again.
    pub fn reload(&self, editor: &mut Editor, lines: &Vec<String>)
        requires
            self.wf(),
        ensures
            final(editor)@ == self@.reload(old(editor)@, texts(lines@)),
    {
        let buffer = &self.buffers[self.current];
        editor.open_file(buffer.filename.as_str(), lines, buffer.syntax.clone());
        editor.cursor = buffer.cursor;
        editor.screen = buffer.screen;
        editor.matches = buffer.matches.clone();
        editor.clamp = buffer.clamp;
        editor.refresh = true;
    }

    /// Makes the next snapshot current, if there is one.
    pub fn next_buffer(&mut self)
        requires
            old(self).wf(),
        ensures
            final(self)@ == old(self)@.next_buffer(),
            final(self).wf(),
    {
        if self.current + 1 < self.buffers.len() {
            self.current += 1;
        }
    }

    /// Makes the snapshot before the current one current, if there is one.
    pub fn previous_buffer(&mut self)
        ensures
            final(self)@ == old(self)@.previous_buffer(),
    {
        if self.current > 0 {
            self.current -= 1;
        }
    }

    /// The name of the file of the current snapshot.
    pub fn current_filename(&self) -> (name: String)
        requires
            self.wf(),
        ensures
            name@ == self@.active().filename,
    {
        self.buffers[self.current].filename.clone()
    }
}

} // verus!
