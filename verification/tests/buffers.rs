use te::buffermanager::{Buffer, BufferManager};
use te::editor::Editor;
use te::highlight::{Colors, Syntax};
use te::input::{Action, Key};
use te::model::{Cursor, Mode, Screen};

fn text_syntax() -> Syntax {
    Syntax {
        keywords: Vec::new(),
        types: Vec::new(),
        operators: Vec::new(),
        symbols: Vec::new(),
        sections: Vec::new(),
        colors: Colors {
            keywords: 0,
            types: 0,
            operators: 0,
            integers: 0,
            strings: 0,
            line_numbers: 0,
            bar: 0,
            mode_fg: 0,
            mode_bg: 0,
            background: 0,
        },
        filetype: String::from("text"),
    }
}

fn lines_of(lines: &[&str]) -> Vec<String> {
    lines.iter().map(|l| l.to_string()).collect()
}

fn file(name: &str, lines: &[&str]) -> Editor {
    let mut editor = Editor::new(text_syntax());
    editor.open_file(name, &lines_of(lines), text_syntax());
    editor.resize(24, 80);
    editor
}

fn shown(editor: &Editor) -> Vec<String> {
    editor.buffer.iter().map(|l| l.iter().collect::<String>()).collect()
}

fn type_command(editor: &mut Editor, manager: &mut BufferManager, command: &str) -> Action {
    for c in command.chars() {
        editor.handle_key(manager, Key::Char(c));
    }
    editor.handle_key(manager, Key::Enter)
}

#[test]
fn a_new_manager_holds_a_snapshot_of_the_editor() {
    let mut editor = file("a.txt", &["one", "two"]);
    editor.cursor = Cursor { x: 1, y: 1 };
    editor.clamp = 1;
    let manager = BufferManager::new(&editor);
    assert_eq!(manager.buffers.len(), 1);
    assert_eq!(manager.current, 0);
    assert!(manager.is_wf());
    assert_eq!(manager.buffers[0].filename, "a.txt");
    assert_eq!(manager.buffers[0].cursor, Cursor { x: 1, y: 1 });
    assert_eq!(manager.buffers[0].clamp, 1);
    assert_eq!(manager.buffers[0].screen, Screen { x: 0, y: 0, height: 24, width: 80 });
    assert_eq!(manager.current_filename(), "a.txt");
}

#[test]
fn a_snapshot_copies_the_matches() {
    let mut editor = file("a.txt", &["ab", "ab"]);
    editor.search("ab");
    editor.next_match();
    let buffer = Buffer::of(&editor);
    assert_eq!(buffer.matches.matches, vec![Cursor { x: 0, y: 0 }, Cursor { x: 0, y: 1 }]);
    assert_eq!(buffer.matches.index, 1);
    assert_eq!(buffer.syntax.filetype, "text");
}

#[test]
fn load_buffer_appends_without_switching() {
    let editor = file("a.txt", &["one"]);
    let mut manager = BufferManager::new(&editor);
    let other = file("b.txt", &["two"]);
    manager.load_buffer(&other);
    assert_eq!(manager.buffers.len(), 2);
    assert_eq!(manager.current, 0);
    assert_eq!(manager.buffers[1].filename, "b.txt");
}

#[test]
fn closing_the_only_buffer_changes_nothing() {
    let editor = file("a.txt", &["one"]);
    let mut manager = BufferManager::new(&editor);
    assert!(!manager.close_buffer());
    assert_eq!(manager.buffers.len(), 1);
    assert_eq!(manager.current, 0);
    assert_eq!(manager.buffers[0].filename, "a.txt");
}

#[test]
fn closing_a_buffer_makes_the_one_before_current() {
    let editor = file("a.txt", &["one"]);
    let mut manager = BufferManager::new(&editor);
    manager.load_buffer(&file("b.txt", &["two"]));
    manager.load_buffer(&file("c.txt", &["three"]));
    manager.current = 1;
    assert!(manager.close_buffer());
    assert_eq!(manager.buffers.len(), 2);
    assert_eq!(manager.current, 0);
    assert_eq!(manager.buffers[0].filename, "a.txt");
    assert_eq!(manager.buffers[1].filename, "c.txt");
}

#[test]
fn closing_the_first_buffer_makes_the_next_current() {
    let editor = file("a.txt", &["one"]);
    let mut manager = BufferManager::new(&editor);
    manager.load_buffer(&file("b.txt", &["two"]));
    assert!(manager.close_buffer());
    assert_eq!(manager.buffers.len(), 1);
    assert_eq!(manager.current, 0);
    assert_eq!(manager.current_filename(), "b.txt");
}

#[test]
fn next_and_previous_stop_at_the_ends() {
    let editor = file("a.txt", &["one"]);
    let mut manager = BufferManager::new(&editor);
    manager.load_buffer(&file("b.txt", &["two"]));
    manager.previous_buffer();
    assert_eq!(manager.current, 0);
    manager.next_buffer();
    assert_eq!(manager.current, 1);
    manager.next_buffer();
    assert_eq!(manager.current, 1);
    manager.previous_buffer();
    assert_eq!(manager.current, 0);
}

#[test]
fn save_buffer_overwrites_the_current_snapshot() {
    let mut editor = file("a.txt", &["one", "two"]);
    let mut manager = BufferManager::new(&editor);
    manager.load_buffer(&file("b.txt", &["x"]));
    editor.cursor = Cursor { x: 2, y: 1 };
    editor.screen.y = 1;
    manager.save_buffer(&editor);
    assert_eq!(manager.buffers.len(), 2);
    assert_eq!(manager.buffers[0].cursor, Cursor { x: 2, y: 1 });
    assert_eq!(manager.buffers[0].screen.y, 1);
    assert_eq!(manager.buffers[1].cursor, Cursor { x: 0, y: 0 });
}

#[test]
fn reload_brings_the_snapshot_back_with_the_file_as_it_is_now() {
    let mut editor = file("a.txt", &["one", "two"]);
    editor.search("o");
    editor.clipboard = vec![vec!['c']];
    editor.cursor = Cursor { x: 1, y: 1 };
    editor.clamp = 1;
    let manager = BufferManager::new(&editor);
    let saved = Buffer::of(&editor);
    editor.cursor = Cursor { x: 0, y: 0 };
    editor.clamp = 0;
    editor.matches.matches.clear();
    editor.matches.index = 0;
    editor.refresh = false;
    editor.mode = Mode::Insert;
    manager.reload(&mut editor, &lines_of(&["uno", "dos", "tres"]));
    assert_eq!(shown(&editor), vec!["uno", "dos", "tres"]);
    assert_eq!(editor.filename, "a.txt");
    assert_eq!(editor.cursor, saved.cursor);
    assert_eq!(editor.screen, saved.screen);
    assert_eq!(editor.matches.matches, saved.matches.matches);
    assert_eq!(editor.matches.index, saved.matches.index);
    assert_eq!(editor.clamp, 1);
    assert!(editor.refresh);
    assert_eq!(editor.mode, Mode::Insert);
    assert_eq!(editor.clipboard, vec![vec!['c']]);
}

#[test]
fn reload_of_an_empty_file_gives_one_empty_line() {
    let mut editor = file("a.txt", &["one"]);
    let manager = BufferManager::new(&editor);
    manager.reload(&mut editor, &Vec::new());
    assert_eq!(shown(&editor), vec![""]);
}

#[test]
fn switching_to_the_next_buffer_and_back_restores_the_saved_state() {
    let mut editor = file("a.txt", &["one", "two", "three"]);
    let mut manager = BufferManager::new(&editor);
    manager.load_buffer(&file("b.txt", &["x", "y"]));
    editor.search("t");
    editor.next_match();
    editor.cursor = Cursor { x: 2, y: 2 };
    editor.screen.y = 1;
    editor.screen.x = 1;
    let before = Buffer::of(&editor);

    manager.save_buffer(&editor);
    manager.next_buffer();
    manager.reload(&mut editor, &lines_of(&["x", "y"]));
    assert_eq!(editor.filename, "b.txt");
    assert_eq!(editor.cursor, Cursor { x: 0, y: 0 });
    assert!(editor.matches.matches.is_empty());
    editor.cursor = Cursor { x: 1, y: 1 };

    manager.save_buffer(&editor);
    manager.previous_buffer();
    manager.reload(&mut editor, &lines_of(&["one", "two", "three"]));
    assert_eq!(manager.current, 0);
    assert_eq!(editor.filename, "a.txt");
    assert_eq!(editor.cursor, before.cursor);
    assert_eq!(editor.screen, before.screen);
    assert_eq!(editor.matches.matches, before.matches.matches);
    assert_eq!(editor.matches.index, before.matches.index);
    assert_eq!(manager.buffers[1].cursor, Cursor { x: 1, y: 1 });
}

#[test]
fn switching_away_without_saving_loses_the_live_state() {
    let mut editor = file("a.txt", &["one", "two"]);
    let mut manager = BufferManager::new(&editor);
    manager.load_buffer(&file("b.txt", &["x"]));
    editor.cursor = Cursor { x: 1, y: 1 };
    manager.next_buffer();
    manager.reload(&mut editor, &lines_of(&["x"]));
    manager.previous_buffer();
    manager.reload(&mut editor, &lines_of(&["one", "two"]));
    assert_eq!(editor.cursor, Cursor { x: 0, y: 0 });
}

#[test]
fn opening_a_second_file_and_going_back_restores_the_first() {
    let mut editor = file("a.txt", &["one", "two", "three"]);
    let mut manager = BufferManager::new(&editor);
    editor.cursor = Cursor { x: 2, y: 1 };
    editor.screen.y = 1;
    manager.save_buffer(&editor);
    let saved = Buffer::of(&editor);

    editor.handle_key(&mut manager, Key::Char(':'));
    let action = type_command(&mut editor, &mut manager, "O other.txt");
    match action {
        Action::Open { path } => {
            assert_eq!(path, "other.txt");
            editor.open_buffer(&mut manager, &path, &lines_of(&["x", "y"]), text_syntax());
        }
        _ => panic!("the command asks for a file to be opened"),
    }
    assert_eq!(manager.buffers.len(), 2);
    assert_eq!(manager.current, 1);
    assert_eq!(editor.filename, "other.txt");
    assert_eq!(shown(&editor), vec!["x", "y"]);
    assert_eq!(editor.cursor, Cursor { x: 0, y: 0 });
    assert_eq!(editor.screen.y, 0);
    assert!(editor.refresh);
    assert_eq!(manager.buffers[1].filename, "other.txt");

    let action = editor.handle_escape(&mut manager, Key::Char('5'), Key::Char('D'));
    match action {
        Action::Reload { path, fatal } => {
            assert_eq!(path, "a.txt");
            assert!(fatal);
            manager.reload(&mut editor, &lines_of(&["one", "two", "three"]));
        }
        _ => panic!("switching asks for the buffer to be brought back"),
    }
    assert_eq!(manager.current, 0);
    assert_eq!(editor.filename, "a.txt");
    assert_eq!(editor.cursor, saved.cursor);
    assert_eq!(editor.screen, saved.screen);
    assert_eq!(shown(&editor), vec!["one", "two", "three"]);
}

#[test]
fn opening_with_several_buffers_makes_the_new_one_current() {
    let mut editor = file("a.txt", &["one"]);
    let mut manager = BufferManager::new(&editor);
    manager.load_buffer(&file("b.txt", &["two"]));
    manager.load_buffer(&file("c.txt", &["three"]));
    editor.open_buffer(&mut manager, "d.txt", &lines_of(&["four"]), text_syntax());
    assert_eq!(manager.buffers.len(), 4);
    assert_eq!(manager.current, 3);
    assert_eq!(manager.current_filename(), "d.txt");
    assert!(editor.is_wf());
}

#[test]
fn control_right_saves_and_switches_to_the_next_buffer() {
    let mut editor = file("a.txt", &["one", "two"]);
    let mut manager = BufferManager::new(&editor);
    manager.load_buffer(&file("b.txt", &["x"]));
    editor.cursor = Cursor { x: 1, y: 1 };
    let action = editor.handle_escape(&mut manager, Key::Char('5'), Key::Char('C'));
    assert!(matches!(action, Action::Reload { ref path, fatal: true } if path == "b.txt"));
    assert_eq!(manager.current, 1);
    assert_eq!(manager.buffers[0].cursor, Cursor { x: 1, y: 1 });
    assert_eq!(editor.cursor, Cursor { x: 1, y: 1 });
}

#[test]
fn control_right_on_the_last_buffer_asks_for_it_again() {
    let mut editor = file("a.txt", &["one"]);
    let mut manager = BufferManager::new(&editor);
    let action = editor.handle_escape(&mut manager, Key::Char('5'), Key::Char('C'));
    assert!(matches!(action, Action::Reload { ref path, fatal: true } if path == "a.txt"));
    assert_eq!(manager.current, 0);
}

#[test]
fn control_with_another_key_only_saves() {
    let mut editor = file("a.txt", &["one", "two"]);
    let mut manager = BufferManager::new(&editor);
    editor.cursor = Cursor { x: 0, y: 1 };
    let action = editor.handle_escape(&mut manager, Key::Char('5'), Key::Char('A'));
    assert!(matches!(action, Action::Continue));
    assert_eq!(manager.buffers[0].cursor, Cursor { x: 0, y: 1 });
}

#[test]
fn closing_a_buffer_by_command() {
    let mut editor = file("a.txt", &["one"]);
    let mut manager = BufferManager::new(&editor);
    editor.open_buffer(&mut manager, "b.txt", &lines_of(&["two"]), text_syntax());
    editor.handle_key(&mut manager, Key::Char(':'));
    let action = type_command(&mut editor, &mut manager, "qb");
    assert!(matches!(action, Action::Reload { ref path, fatal: false } if path == "a.txt"));
    assert_eq!(manager.buffers.len(), 1);
    assert_eq!(manager.current, 0);
    assert_eq!(editor.mode, Mode::Normal);

    editor.handle_key(&mut manager, Key::Char(':'));
    let action = type_command(&mut editor, &mut manager, "qb");
    assert!(matches!(action, Action::Continue));
    assert_eq!(manager.buffers.len(), 1);
    assert_eq!(manager.current, 0);
}
