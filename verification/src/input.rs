//! The modal state machine: what each key does in each mode, what a
//! command line asks for, and what is to be done outside the editor
//! because of it.

use vstd::prelude::*;
use vstd::string::StringExecFns;
use crate::buffermanager::{BufferManager, ManagerState, snapshot};
use crate::editor::Editor;
use crate::error::{Error, ErrorKind, ErrorView};
use crate::highlight::{
    Syntax, SyntaxView, TokenView, highlighting_failed, line_too_long, next_boundary_from,
    previous_boundary_from, total_length,
};
use crate::model::{Direction, Mode, TAB_SIZE, Visual};
use crate::state::{EditorState, document};
use crate::text::{slice, string_of, texts};

verus! {

/// A key press, as far as the editor tells keys apart.
#[derive(Clone, Copy, Debug, PartialEq, Eq, Structural)]
pub enum Key {
    ArrowUp,
    ArrowDown,
    ArrowLeft,
    ArrowRight,
    Enter,
    Backspace,
    Tab,
    Escape,
    /// The start of an escape sequence that is no plain key: two more keys
    /// follow, a modifier and an arrow.
    UnknownEscSeq,
    Char(char),
    /// Any other key.
    Other,
}

/// What has to happen outside the editor before the next key is read.
#[derive(Debug)]
pub enum Action {
    /// Nothing.
    Continue,
    /// Read the two keys that follow and hand them to `handle_escape`.
    ReadEscape,
    /// Write the document to its file and hand the outcome to `log_save`;
    /// with `quit`, end the process after that with status 0.
    Save { quit: bool },
    /// End the process with status 0.
    Quit,
    /// Read the file at `path` and hand what was read to `open_buffer`, or
    /// the reason why it could not be read to `read_failed`.
    Open { path: String },
    /// Read the file at `path`, that of the current snapshot, and hand what
    /// was read to `BufferManager::reload`, or the reason why it could not
    /// be read to `read_failed`, with `fatal` as it is here.
    Reload { path: String, fatal: bool },
    /// End with this error.
    Fail { error: Error },
}

/// An `Action` as a mathematical value.
pub enum ActionView {
    Continue,
    ReadEscape,
    Save { quit: bool },
    Quit,
    Open { path: Seq<char> },
    Reload { path: Seq<char>, fatal: bool },
    Fail { error: ErrorView },
}

impl View for Action {
    type V = ActionView;

    open spec fn view(&self) -> ActionView {
        match self {
            Action::Continue => ActionView::Continue,
            Action::ReadEscape => ActionView::ReadEscape,
            Action::Save { quit } => ActionView::Save { quit: *quit },
            Action::Quit => ActionView::Quit,
            Action::Open { path } => ActionView::Open { path: path@ },
            Action::Reload { path, fatal } => ActionView::Reload { path: path@, fatal: *fatal },
            Action::Fail { error } => ActionView::Fail { error: error@ },
        }
    }
}

/// What a command line asks for.
#[derive(Debug)]
pub enum Command {
    /// `:E`: write the document to its file.
    Save,
    /// `:EQ`: write the document, then end.
    SaveAndQuit,
    /// `:q`: end.
    Quit,
    /// `:qb`: close the current buffer.
    CloseBuffer,
    /// `:/` and a text: search for the text.
    Search(Vec<char>),
    /// `:O`, a space and a path: open the file in a new buffer.
    Open(Vec<char>),
}

/// A `Command` as a mathematical value.
pub enum CommandView {
    Save,
    SaveAndQuit,
    Quit,
    CloseBuffer,
    Search(Seq<char>),
    Open(Seq<char>),
}

impl View for Command {
    type V = CommandView;

    open spec fn view(&self) -> CommandView {
        match self {
            Command::Save => CommandView::Save,
            Command::SaveAndQuit => CommandView::SaveAndQuit,
            Command::Quit => CommandView::Quit,
            Command::CloseBuffer => CommandView::CloseBuffer,
            Command::Search(text) => CommandView::Search(text@),
            Command::Open(path) => CommandView::Open(path@),
        }
    }
}

/// What the command line `cmd` asks for; `None` where it is no command.
pub open spec fn parse(cmd: Seq<char>) -> Option<CommandView> {
    if cmd == seq![':', 'E'] {
        Some(CommandView::Save)
    } else if cmd == seq![':', 'E', 'Q'] {
        Some(CommandView::SaveAndQuit)
    } else if cmd == seq![':', 'q'] {
        Some(CommandView::Quit)
    } else if cmd == seq![':', 'q', 'b'] {
        Some(CommandView::CloseBuffer)
    } else if cmd.len() >= 2 && cmd[0] == ':' && cmd[1] == '/' {
        Some(CommandView::Search(cmd.skip(2)))
    } else if cmd.len() >= 3 && cmd[0] == ':' && cmd[1] == 'O' && cmd[2] == ' ' {
        Some(CommandView::Open(cmd.skip(3)))
    } else {
        None
    }
}

/// The error for a command line that is no command.
pub open spec fn unknown_command(cmd: Seq<char>) -> ErrorView {
    ErrorView { kind: ErrorKind::CommandError, message: "Unknown command: `"@ + cmd + "`"@ }
}

/// What the command line `cmd` asks for, or the error that says that it is
/// no command.
pub fn parse_command(cmd: &Vec<char>) -> (r: Result<Command, Error>)
    ensures
        match r {
            Ok(command) => parse(cmd@) == Some(command@),
            Err(e) => parse(cmd@) is None && e@ == unknown_command(cmd@),
        },
{
    let n = cmd.len();
    if n >= 2 && cmd[0] == ':' {
        if n == 2 && cmd[1] == 'E' {
            assert(cmd@ =~= seq![':', 'E']);
            return Ok(Command::Save);
        }
        if n == 3 && cmd[1] == 'E' && cmd[2] == 'Q' {
            assert(cmd@ =~= seq![':', 'E', 'Q']);
            return Ok(Command::SaveAndQuit);
        }
        if n == 2 && cmd[1] == 'q' {
            assert(cmd@ =~= seq![':', 'q']);
            return Ok(Command::Quit);
        }
        if n == 3 && cmd[1] == 'q' && cmd[2] == 'b' {
            assert(cmd@ =~= seq![':', 'q', 'b']);
            return Ok(Command::CloseBuffer);
        }
        if cmd[1] == '/' {
            let text = slice(cmd, 2, n);
            assert(text@ =~= cmd@.skip(2));
            return Ok(Command::Search(text));
        }
        if n >= 3 && cmd[1] == 'O' && cmd[2] == ' ' {
            let path = slice(cmd, 3, n);
            assert(path@ =~= cmd@.skip(3));
            return Ok(Command::Open(path));
        }
    }
    let message = String::from_str("Unknown command: `").concat(string_of(cmd).as_str()).concat(
        "`",
    );
    assert(seq![':', 'E'].len() == 2 && seq![':', 'E'][0] == ':' && seq![':', 'E'][1] == 'E');
    assert(seq![':', 'q'].len() == 2 && seq![':', 'q'][0] == ':' && seq![':', 'q'][1] == 'q');
    assert(seq![':', 'E', 'Q'].len() == 3 && seq![':', 'E', 'Q'][0] == ':' && seq![':', 'E', 'Q'][1]
        == 'E' && seq![':', 'E', 'Q'][2] == 'Q');
    assert(seq![':', 'q', 'b'].len() == 3 && seq![':', 'q', 'b'][0] == ':' && seq![':', 'q', 'b'][1]
        == 'q' && seq![':', 'q', 'b'][2] == 'b');
    Err(Error { kind: ErrorKind::CommandError, message })
}

/// The state after an input was handled, and what it asks for.
pub struct Step {
    pub editor: EditorState,
    pub manager: ManagerState,
    pub action: ActionView,
}

impl EditorState {
    /// The message that says how writing the document went.
    pub open spec fn save_message(self, written: bool) -> Seq<char> {
        if written {
            "wrote to `"@ + self.filename + "`"@
        } else {
            "failed to write to `"@ + self.filename + "`"@
        }
    }

    /// The state with the log line saying how writing the document went.
    pub open spec fn log_save(self, written: bool) -> EditorState {
        self.log(self.save_message(written))
    }

    /// The state after the file that was named on the command line could
    /// not be opened: the log line says so, and the document stays empty.
    pub open spec fn open_failed(self, path: Seq<char>) -> EditorState {
        self.log("Failed to open `"@ + path + "`"@)
    }

    /// What follows when a file that was asked for could not be read, for
    /// the reason `message`: where that is fatal, the editor ends with an
    /// error of the kind for files; else the log line gives the reason.
    pub open spec fn read_failed(self, message: Seq<char>, fatal: bool) -> (EditorState, ActionView) {
        if fatal {
            (self, ActionView::Fail { error: ErrorView { kind: ErrorKind::IOError, message } })
        } else {
            (self.log(message), ActionView::Continue)
        }
    }

    /// Whether `key` can be handled in this state. Where text is typed or
    /// taken out at the cursor, the cursor's column has to be on its line;
    /// in visual mode a selection that is copied has to lie in the
    /// document, and one that is cut has to leave a line of it; and in
    /// normal mode there has to be something to paste.
    pub open spec fn accepts(self, key: Key) -> bool {
        match (self.mode, key) {
            (Mode::Insert, Key::Char(_)) => self.clamped(),
            (Mode::Insert, Key::Enter) => self.clamped(),
            (Mode::Insert, Key::Backspace) => self.clamped(),
            (Mode::Insert, Key::Tab) => self.clamped(),
            (Mode::Visual, Key::Char('y')) => self.span_fits(self.visual),
            (Mode::Visual, Key::Char('d')) => self.selection_fits(self.visual),
            (Mode::Normal, Key::Char('p')) => self.paste_fits(self.visual),
            _ => true,
        }
    }

    /// Whether `key` makes the cursor jump to a search match.
    pub open spec fn jumps(self, key: Key) -> bool {
        self.mode == Mode::Normal && (key == Key::Char('n') || key == Key::Char('b'))
    }

    /// The selection of the whole line that the cursor is on.
    pub open spec fn line_selection(self) -> Visual {
        Visual { x: self.cursor.x, y: self.cursor.y, select_line: true }
    }

    /// What a character does in normal mode.
    pub open spec fn normal_key(self, character: char) -> EditorState {
        let done = if character == 'v' || character == 'V' {
            EditorState {
                visual: Visual { x: self.cursor.x, y: self.cursor.y, select_line: character != 'v' },
                mode: Mode::Visual,
                ..self
            }
        } else if character == 'y' {
            EditorState { visual: self.line_selection(), ..self }.copy(self.line_selection())
        } else if character == 'd' {
            EditorState { visual: self.line_selection(), ..self }.copy(
                self.line_selection(),
            ).delete(self.line_selection())
        } else if character == 'p' {
            self.paste(self.visual)
        } else if character == 'o' {
            EditorState { mode: Mode::Insert, ..self.newline(false) }
        } else if character == 'i' {
            EditorState { mode: Mode::Insert, ..self }
        } else if character == 'n' {
            self.next_match()
        } else if character == 'b' {
            self.previous_match()
        } else if character == ':' {
            EditorState { command: self.command.push(':'), mode: Mode::Command, ..self }
        } else {
            self
        };
        EditorState { refresh: true, ..done }
    }

    /// What a character does in visual mode.
    pub open spec fn visual_key(self, character: char) -> EditorState {
        if character == 'y' {
            EditorState { mode: Mode::Normal, refresh: true, ..self.copy(self.visual) }
        } else if character == 'd' {
            EditorState {
                mode: Mode::Normal,
                refresh: true,
                ..self.copy(self.visual).delete(self.visual)
            }
        } else {
            self
        }
    }

    /// What a character does, by mode.
    pub open spec fn char_key(self, character: char) -> EditorState {
        match self.mode {
            Mode::Insert => self.insert(character),
            Mode::Command => EditorState { command: self.command.push(character), ..self },
            Mode::Visual => self.visual_key(character),
            Mode::Normal => self.normal_key(character),
        }
    }

    /// What the command line `cmd` does.
    pub open spec fn command(self, manager: ManagerState, cmd: Seq<char>) -> Step {
        match parse(cmd) {
            Some(CommandView::Save) => Step {
                editor: self,
                manager,
                action: ActionView::Save { quit: false },
            },
            Some(CommandView::SaveAndQuit) => Step {
                editor: self,
                manager,
                action: ActionView::Save { quit: true },
            },
            Some(CommandView::Quit) => Step { editor: self, manager, action: ActionView::Quit },
            Some(CommandView::CloseBuffer) => Step {
                editor: self,
                manager: manager.close_buffer(),
                action: if manager.buffers.len() > 1 {
                    ActionView::Reload {
                        path: manager.close_buffer().active().filename,
                        fatal: false,
                    }
                } else {
                    ActionView::Continue
                },
            },
            Some(CommandView::Search(text)) => Step {
                editor: self.search(text),
                manager,
                action: ActionView::Continue,
            },
            Some(CommandView::Open(path)) => Step {
                editor: self,
                manager,
                action: ActionView::Open { path },
            },
            None => Step {
                editor: self.log(unknown_command(cmd).message),
                manager,
                action: ActionView::Continue,
            },
        }
    }

    /// What a key does.
    pub open spec fn handle_key(self, manager: ManagerState, key: Key) -> Step {
        let stay = |editor: EditorState| Step { editor, manager, action: ActionView::Continue };
        match key {
            Key::ArrowUp => stay(self.move_cursor(Direction::Up)),
            Key::ArrowDown => stay(self.move_cursor(Direction::Down)),
            Key::ArrowLeft => stay(self.move_cursor(Direction::Left)),
            Key::ArrowRight => stay(self.move_cursor(Direction::Right)),
            Key::Enter => match self.mode {
                Mode::Insert => stay(self.newline(true)),
                Mode::Command => EditorState {
                    mode: Mode::Normal,
                    command: Seq::empty(),
                    ..self
                }.command(manager, self.command),
                _ => stay(self),
            },
            Key::Backspace => match self.mode {
                Mode::Insert => stay(self.remove()),
                Mode::Command => stay(
                    EditorState {
                        command: if self.command.len() > 0 {
                            self.command.drop_last()
                        } else {
                            self.command
                        },
                        ..self
                    },
                ),
                _ => stay(self),
            },
            Key::Tab => match self.mode {
                Mode::Insert => stay(self.insert_spaces(TAB_SIZE as nat)),
                _ => stay(self),
            },
            Key::Escape => stay(
                EditorState { command: Seq::empty(), mode: Mode::Normal, refresh: true, ..self },
            ),
            Key::UnknownEscSeq => Step { editor: self, manager, action: ActionView::ReadEscape },
            Key::Char(character) => stay(self.char_key(character)),
            Key::Other => stay(self),
        }
    }

    /// The outcome of a jump to the next token boundary, or with `forward`
    /// unset to the previous one, where the lexer made `found` of the
    /// cursor's line: the cursor goes to the boundary and the clamp column
    /// follows; the editor ends with an error where the line could not be
    /// lexed or is too long for the machine.
    pub open spec fn jump(
        self,
        manager: ManagerState,
        found: Option<Seq<TokenView>>,
        forward: bool,
    ) -> Step {
        match found {
            Some(found) => if total_length(found) <= usize::MAX {
                Step {
                    editor: self.at_column(
                        if forward {
                            next_boundary_from(found, 0, self.cursor.x as int)
                        } else {
                            previous_boundary_from(found, 0, self.cursor.x as int)
                        },
                    ),
                    manager,
                    action: ActionView::Continue,
                }
            } else {
                Step { editor: self, manager, action: ActionView::Fail { error: line_too_long() } }
            },
            None => Step {
                editor: self,
                manager,
                action: ActionView::Fail { error: highlighting_failed() },
            },
        }
    }

    /// What the two keys after the start of an escape sequence do. With
    /// shift (`2`), right and left jump to the next and the previous token
    /// boundary, up and down by a paragraph. With control (`5`), the live
    /// state is saved into the current snapshot, right and left make the
    /// next and the previous snapshot current, and the current snapshot is
    /// to be brought back.
    pub open spec fn handle_escape(self, manager: ManagerState, modifier: Key, arrow: Key) -> Step {
        let stay = |editor: EditorState| Step { editor, manager, action: ActionView::Continue };
        if modifier == Key::Char('2') {
            if arrow == Key::Char('C') {
                self.jump(manager, self.syntax.tokenize(self.line()), true)
            } else if arrow == Key::Char('D') {
                self.jump(manager, self.syntax.tokenize(self.line()), false)
            } else if arrow == Key::Char('A') {
                stay(EditorState { refresh: true, ..self.move_by_paragraph(Direction::Up) })
            } else if arrow == Key::Char('B') {
                stay(EditorState { refresh: true, ..self.move_by_paragraph(Direction::Down) })
            } else {
                stay(self)
            }
        } else if modifier == Key::Char('5') {
            let saved = manager.save_buffer(self);
            if arrow == Key::Char('C') || arrow == Key::Char('D') {
                let switched = if arrow == Key::Char('C') {
                    saved.next_buffer()
                } else {
                    saved.previous_buffer()
                };
                Step {
                    editor: self,
                    manager: switched,
                    action: ActionView::Reload { path: switched.active().filename, fatal: true },
                }
            } else {
                Step { editor: self, manager: saved, action: ActionView::Continue }
            }
        } else {
            stay(self)
        }
    }

    /// The editing state after the file `path` was read as `lines` to be
    /// opened in a new buffer: the document is the file's, shown from its
    /// top left corner.
    pub open spec fn open_buffer(
        self,
        path: Seq<char>,
        lines: Seq<Seq<char>>,
        syntax: SyntaxView,
    ) -> EditorState {
        EditorState { refresh: true, ..self.open_file(path, lines, syntax).reset() }
    }
}

impl ManagerState {
    /// The snapshots after the editing state `opened` of a newly opened
    /// file was added as a new buffer and made current.
    pub open spec fn open_buffer(self, opened: EditorState) -> ManagerState {
        ManagerState {
            buffers: self.buffers.push(snapshot(opened)),
            current: self.buffers.len() as usize,
        }
    }
}

impl Editor {
    /// Says in the log line how writing the document went.
    pub fn log_save(&mut self, written: bool)
        ensures
            final(self)@ == old(self)@.log_save(written),
    {
        let start = if written {
            String::from_str("wrote to `")
        } else {
            String::from_str("failed to write to `")
        };
        let message = start.concat(self.filename.as_str()).concat("`");
        self.log(message.as_str());
    }

    /// Says in the log line that the file `path` could not be opened.
    pub fn open_failed(&mut self, path: &str)
        ensures
            final(self)@ == old(self)@.open_failed(path@),
    {
        let message = String::from_str("Failed to open `").concat(path).concat("`");
        self.log(message.as_str());
    }

    /// Takes note that a file that was asked for could not be read, for
    /// the reason `message`. Where that is `fatal` the editor is to end
    /// with an error that carries the reason; else the log line shows it.
    pub fn read_failed(&mut self, message: &str, fatal: bool) -> (action: Action)
        ensures
            (final(self)@, action@) == old(self)@.read_failed(message@, fatal),
    {
        if fatal {
            Action::Fail { error: Error::new(ErrorKind::IOError, message) }
        } else {
            self.log(message);
            Action::Continue
        }
    }

    /// Whether `key` can be handled in this state.
    pub fn accepts(&self, key: Key) -> (b: bool)
        requires
            self.wf(),
        ensures
            b == self@.accepts(key),
    {
        match (self.mode, key) {
            (Mode::Insert, Key::Char(_)) => self.is_clamped(),
            (Mode::Insert, Key::Enter) => self.is_clamped(),
            (Mode::Insert, Key::Backspace) => self.is_clamped(),
            (Mode::Insert, Key::Tab) => self.is_clamped(),
            (Mode::Visual, Key::Char('y')) => self.span_fits(&self.visual),
            (Mode::Visual, Key::Char('d')) => self.selection_fits(&self.visual),
            (Mode::Normal, Key::Char('p')) => self.paste_fits(&self.visual),
            _ => true,
        }
    }

    /// Carries out the command line `cmd`. Writing, ending, and reading a
    /// file are asked for by the action that is returned; a search is made
    /// at once; closing a buffer takes its snapshot away and asks for the
    /// one that is current then to be brought back; anything else is
    /// answered in the log line.
    pub fn command(&mut self, cmd: &Vec<char>, manager: &mut BufferManager) -> (action: Action)
        requires
            old(self).wf(),
            old(manager).wf(),
        ensures
            (Step { editor: final(self)@, manager: final(manager)@, action: action@ })
                == old(self)@.command(old(manager)@, cmd@),
            final(self).wf(),
            final(manager).wf(),
    {
        match parse_command(cmd) {
            Ok(Command::Save) => Action::Save { quit: false },
            Ok(Command::SaveAndQuit) => Action::Save { quit: true },
            Ok(Command::Quit) => Action::Quit,
            Ok(Command::CloseBuffer) => {
                if manager.close_buffer() {
                    Action::Reload { path: manager.current_filename(), fatal: false }
                } else {
                    Action::Continue
                }
            },
            Ok(Command::Search(text)) => {
                self.search_chars(&text);
                Action::Continue
            },
            Ok(Command::Open(path)) => Action::Open { path: string_of(&path) },
            Err(e) => {
                self.log(e.message.as_str());
                Action::Continue
            },
        }
    }

    /// What a character does in normal mode.
    fn normal_key(&mut self, character: char)
        requires
            old(self).wf(),
            old(self)@.accepts(Key::Char(character)),
            old(self).mode == Mode::Normal,
        ensures
            final(self)@ == old(self)@.normal_key(character),
            character != 'n' && character != 'b' ==> final(self).wf(),
    {
        if character == 'v' || character == 'V' {
            self.visual = Visual::new(&self.cursor, character != 'v');
            self.mode = Mode::Visual;
        } else if character == 'y' {
            let visual = Visual::new(&self.cursor, true);
            self.visual = visual;
            self.copy(&visual);
        } else if character == 'd' {
            let visual = Visual::new(&self.cursor, true);
            self.visual = visual;
            self.copy(&visual);
            self.delete(&visual);
        } else if character == 'p' {
            let visual = self.visual;
            self.paste(&visual);
        } else if character == 'o' {
            self.newline(false);
            self.mode = Mode::Insert;
        } else if character == 'i' {
            self.mode = Mode::Insert;
        } else if character == 'n' {
            self.next_match();
        } else if character == 'b' {
            self.previous_match();
        } else if character == ':' {
            self.command.push(character);
            self.mode = Mode::Command;
        }
        self.refresh = true;
        proof {
            self.lemma_fits();
        }
    }

    /// What a character does in visual mode.
    fn visual_key(&mut self, character: char)
        requires
            old(self).wf(),
            old(self)@.accepts(Key::Char(character)),
            old(self).mode == Mode::Visual,
        ensures
            final(self)@ == old(self)@.visual_key(character),
            final(self).wf(),
    {
        let visual = self.visual;
        if character == 'y' {
            self.copy(&visual);
            self.mode = Mode::Normal;
            self.refresh = true;
        } else if character == 'd' {
            self.copy(&visual);
            self.delete(&visual);
            self.mode = Mode::Normal;
            self.refresh = true;
        }
    }

    /// Handles one key. The arrows move the cursor in every mode. In
    /// insert mode text is typed, Enter breaks the line, Backspace takes a
    /// character out and Tab puts spaces in. In command mode the command
    /// line is typed and Enter carries it out. In visual mode `y` copies
    /// the selection and `d` cuts it. In normal mode `v` and `V` begin a
    /// selection, `y` and `d` copy and cut the cursor's line, `p` pastes,
    /// `o` opens a line, `i` begins inserting, `n` and `b` step through the
    /// search matches and `:` begins a command. Escape goes back to normal
    /// mode.
    pub fn handle_key(&mut self, manager: &mut BufferManager, key: Key) -> (action: Action)
        requires
            old(self).wf(),
            old(self)@.accepts(key),
            old(manager).wf(),
        ensures
            (Step { editor: final(self)@, manager: final(manager)@, action: action@ })
                == old(self)@.handle_key(old(manager)@, key),
            final(manager).wf(),
            !old(self)@.jumps(key) ==> final(self).wf(),
    {
        match key {
            Key::ArrowUp => {
                self.move_cursor(Direction::Up);
            },
            Key::ArrowDown => {
                self.move_cursor(Direction::Down);
            },
            Key::ArrowLeft => {
                self.move_cursor(Direction::Left);
            },
            Key::ArrowRight => {
                self.move_cursor(Direction::Right);
            },
            Key::Enter => {
                if self.mode == Mode::Insert {
                    self.newline(true);
                } else if self.mode == Mode::Command {
                    let mut cmd: Vec<char> = Vec::new();
                    std::mem::swap(&mut cmd, &mut self.command);
                    self.mode = Mode::Normal;
                    proof {
                        self.lemma_fits();
                    }
                    return self.command(&cmd, manager);
                }
            },
            Key::Backspace => {
                if self.mode == Mode::Insert {
                    self.remove();
                } else if self.mode == Mode::Command {
                    self.command.pop();
                    proof {
                        self.lemma_fits();
                    }
                }
            },
            Key::Tab => {
                if self.mode == Mode::Insert {
                    let mut i: usize = 0;
                    while i < TAB_SIZE
                        invariant
                            i <= TAB_SIZE,
                            self.wf(),
                            self@.clamped(),
                            self@ == old(self)@.insert_spaces(i as nat),
                            *manager == *old(manager),
                        decreases TAB_SIZE - i,
                    {
                        self.insert(' ');
                        i += 1;
                    }
                }
            },
            Key::Escape => {
                self.command = Vec::new();
                self.mode = Mode::Normal;
                self.refresh = true;
                proof {
                    self.lemma_fits();
                }
            },
            Key::UnknownEscSeq => {
                return Action::ReadEscape;
            },
            Key::Char(character) => {
                match self.mode {
                    Mode::Insert => {
                        self.insert(character);
                    },
                    Mode::Command => {
                        self.command.push(character);
                        proof {
                            self.lemma_fits();
                        }
                    },
                    Mode::Visual => {
                        self.visual_key(character);
                    },
                    Mode::Normal => {
                        self.normal_key(character);
                    },
                }
            },
            Key::Other => {},
        }
        Action::Continue
    }

    /// Handles the two keys that follow the start of an escape sequence.
    pub fn handle_escape(&mut self, manager: &mut BufferManager, modifier: Key, arrow: Key) -> (action:
        Action)
        requires
            old(self).wf(),
            old(manager).wf(),
        ensures
            (Step { editor: final(self)@, manager: final(manager)@, action: action@ })
                == old(self)@.handle_escape(old(manager)@, modifier, arrow),
            final(self).wf(),
            final(manager).wf(),
    {
        match modifier {
            Key::Char('2') => {
                match arrow {
                    Key::Char('C') | Key::Char('D') => {
                        let line = string_of(&self.buffer[self.cursor.y]);
                        let column = if arrow == Key::Char('C') {
                            self.syntax.next_token(line.as_str(), self.cursor.x)
                        } else {
                            self.syntax.previous_token(line.as_str(), self.cursor.x)
                        };
                        match column {
                            Ok(x) => {
                                self.cursor.x = x;
                                self.clamp = x;
                            },
                            Err(error) => {
                                return Action::Fail { error };
                            },
                        }
                    },
                    Key::Char('A') => {
                        self.move_by_paragraph(Direction::Up);
                        self.refresh = true;
                    },
                    Key::Char('B') => {
                        self.move_by_paragraph(Direction::Down);
                        self.refresh = true;
                    },
                    _ => {},
                }
            },
            Key::Char('5') => {
                manager.save_buffer(self);
                match arrow {
                    Key::Char('C') => {
                        manager.next_buffer();
                    },
                    Key::Char('D') => {
                        manager.previous_buffer();
                    },
                    _ => {
                        return Action::Continue;
                    },
                }
                return Action::Reload { path: manager.current_filename(), fatal: true };
            },
            _ => {},
        }
        Action::Continue
    }

    /// Takes the file `path`, read as `lines`, into a new buffer and makes
    /// that buffer the current one: the document is the file's, shown from
    /// its top left corner, and a snapshot of that is added to `manager`.
    /// The snapshot of the buffer that was current is left as it is.
    pub fn open_buffer(
        &mut self,
        manager: &mut BufferManager,
        path: &str,
        lines: &Vec<String>,
        syntax: Syntax,
    )
        requires
            old(manager).wf(),
        ensures
            final(self)@ == old(self)@.open_buffer(path@, texts(lines@), syntax@),
            final(manager)@ == old(manager)@.open_buffer(final(self)@),
            final(self)@.matches.wf() ==> final(self).wf(),
            final(manager).wf(),
    {
        self.open_file(path, lines, syntax);
        self.reset();
        self.refresh = true;
        manager.load_buffer(self);
        assert(manager@.buffers.len() == manager.buffers.len());
        assert(old(manager)@.buffers.len() == old(manager).buffers.len());
        manager.current = manager.buffers.len() - 1;
        proof {
            self.lemma_fits();
        }
    }
}

} // verus!
