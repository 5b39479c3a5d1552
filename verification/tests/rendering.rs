use te::buffermanager::BufferManager;
use te::editor::Editor;
use te::error::ErrorKind;
use te::highlight::{Category, Colors, Paint, Section, Syntax};
use te::input::Key;
use te::model::{Cursor, Mode};
use te::render::{minus_or_zero, push_decimal, Piece};
use te::text::push_chars;

fn syntax_for_rust() -> Syntax {
    Syntax {
        keywords: vec![String::from("fn")],
        types: vec![String::from("u8")],
        operators: vec![String::from("+")],
        symbols: vec!['(', ')', '+', ' '],
        sections: vec![Section {
            name: String::from("string"),
            start: String::from("\""),
            end: String::from("\""),
        }],
        colors: Colors {
            keywords: 0,
            types: 0,
            operators: 0,
            integers: 0,
            strings: 0,
            line_numbers: 0,
            bar: 0,
            mode_fg: 0,
            mode_bg: 0,
            background: 0,
        },
        filetype: String::from("rust"),
    }
}

fn view(lines: &[&str], height: usize, width: usize) -> (Editor, BufferManager) {
    let mut editor = Editor::new(syntax_for_rust());
    let lines: Vec<String> = lines.iter().map(|l| l.to_string()).collect();
    editor.open_file("main.rs", &lines, syntax_for_rust());
    editor.resize(height, width);
    let manager = BufferManager::new(&editor);
    (editor, manager)
}

fn drawn(pieces: &[Piece]) -> Vec<(Paint, String)> {
    pieces.iter().map(|p| (p.paint, p.text.clone())).collect()
}

fn written(pieces: &[Piece]) -> String {
    pieces.iter().map(|p| p.text.as_str()).collect()
}

fn decimal(n: u128) -> String {
    let mut out = Vec::new();
    push_decimal(&mut out, n);
    out.iter().collect()
}

#[test]
fn numbers_are_written_in_decimal() {
    assert_eq!(decimal(0), "0");
    assert_eq!(decimal(7), "7");
    assert_eq!(decimal(10), "10");
    assert_eq!(decimal(1234567890), "1234567890");
    assert_eq!(decimal(u128::MAX), "340282366920938463463374607431768211455");
    let mut out = vec!['x'];
    push_decimal(&mut out, 42);
    push_chars(&mut out, &vec!['a', 'b']);
    assert_eq!(out, vec!['x', '4', '2', 'a', 'b']);
}

#[test]
fn subtraction_stops_at_zero() {
    assert_eq!(minus_or_zero(5, 3), 2);
    assert_eq!(minus_or_zero(3, 3), 0);
    assert_eq!(minus_or_zero(3, 5), 0);
}

#[test]
fn line_numbers_are_relative_to_the_cursor() {
    let (mut editor, _) = view(&["a"; 30], 24, 80);
    editor.cursor = Cursor { x: 0, y: 12 };
    editor.screen.y = 10;
    assert_eq!(editor.render_line_number(2).text, "-> ");
    assert_eq!(editor.render_line_number(0).text, "02 ");
    assert_eq!(editor.render_line_number(1).text, "01 ");
    assert_eq!(editor.render_line_number(3).text, "01 ");
    assert_eq!(editor.render_line_number(11).text, "09 ");
    assert_eq!(editor.render_line_number(12).text, "10 ");
    assert_eq!(editor.render_line_number(102).text, "100 ");
    assert_eq!(editor.render_line_number(5).paint, Paint::LineNumber);
}

#[test]
fn empty_lines_are_those_without_text() {
    let (editor, _) = view(&["a", "", "b"], 24, 80);
    assert!(!editor.empty_line(0));
    assert!(editor.empty_line(1));
    assert!(!editor.empty_line(2));
    assert!(editor.empty_line(3));
    assert!(editor.empty_line(usize::MAX));
}

#[test]
fn the_bar_shows_mode_file_buffer_and_place() {
    let (mut editor, manager) = view(&["abc", "def"], 24, 40);
    editor.cursor = Cursor { x: 2, y: 1 };
    let bar = editor.render_bar(&manager);
    assert_eq!(
        drawn(&bar),
        vec![
            (Paint::Mode, String::from(" NORMAL ")),
            (Paint::Bar, String::from(" main.rs")),
            (Paint::Bar, String::from(" [rust]")),
            (Paint::Bar, " ".repeat(40 - 8 - 8 - 7 - 7 - 5)),
            (Paint::Bar, String::from(" [1/1] ")),
            (Paint::Bar, String::from(" 2:3 ")),
        ]
    );
    assert_eq!(written(&bar).chars().count(), 40);
}

#[test]
fn the_bar_counts_the_buffers() {
    let (mut editor, mut manager) = view(&["abc"], 24, 80);
    for _ in 0..11 {
        manager.load_buffer(&editor);
    }
    manager.current = 9;
    editor.mode = Mode::Insert;
    let bar = editor.render_bar(&manager);
    assert_eq!(bar[0].text, " INSERT ");
    assert_eq!(bar[4].text, " [10/12] ");
    assert_eq!(bar[5].text, " 1:1 ");
    assert_eq!(written(&bar).chars().count(), 80);
}

#[test]
fn a_bar_that_does_not_fit_has_no_padding() {
    let (editor, manager) = view(&["abc"], 24, 10);
    let bar = editor.render_bar(&manager);
    assert_eq!(bar[3].text, "");
    assert_eq!(written(&bar), " NORMAL  main.rs [rust] [1/1]  1:1 ");
}

#[test]
fn the_log_line_is_padded_to_the_width() {
    let (mut editor, _) = view(&["abc"], 24, 12);
    editor.log("saved");
    let log = editor.render_log();
    assert_eq!(
        drawn(&log),
        vec![
            (Paint::Text(Category::Default), String::from("saved")),
            (Paint::Text(Category::Default), String::from("       ")),
        ]
    );
    editor.log("a message longer than the line");
    let log = editor.render_log();
    assert_eq!(log[1].text, "");
}

#[test]
fn a_row_of_text_is_highlighted_and_padded() {
    let (editor, _) = view(&["fn f()", ""], 24, 20);
    let row = editor.render_row(0).unwrap();
    assert_eq!(
        drawn(&row),
        vec![
            (Paint::LineNumber, String::from("-> ")),
            (Paint::Text(Category::Keyword), String::from("fn")),
            (Paint::Text(Category::Default), String::from(" ")),
            (Paint::Text(Category::Default), String::from("f")),
            (Paint::Text(Category::Default), String::from("(")),
            (Paint::Text(Category::Default), String::from(")")),
            (Paint::Text(Category::Default), String::from(" ")),
            (Paint::Text(Category::Default), " ".repeat(20 - 6 - 4)),
        ]
    );
    assert_eq!(written(&row).chars().count(), 20);
}

#[test]
fn a_row_without_text_is_background() {
    let (editor, _) = view(&["fn f()", ""], 24, 20);
    let row = editor.render_row(1).unwrap();
    assert_eq!(
        drawn(&row),
        vec![
            (Paint::LineNumber, String::from("01 ")),
            (Paint::Text(Category::Default), " ".repeat(17)),
        ]
    );
}

#[test]
fn a_row_below_the_document_begins_with_a_tilde() {
    let (editor, _) = view(&["fn f()", ""], 24, 20);
    let row = editor.render_row(2).unwrap();
    assert_eq!(
        drawn(&row),
        vec![
            (Paint::LineNumber, String::from("02 ")),
            (Paint::Text(Category::Default), format!("~{}", " ".repeat(16))),
        ]
    );
    let (narrow, _) = view(&["a"], 24, 2);
    assert_eq!(narrow.render_row(5).unwrap()[1].text, "~");
}

#[test]
fn a_row_shows_the_columns_of_the_viewport() {
    let (mut editor, _) = view(&["0123456789", "ab"], 24, 4);
    editor.screen.x = 3;
    let row = editor.render_row(0).unwrap();
    assert_eq!(row[1].text, "3456");
    let row = editor.render_row(1).unwrap();
    assert_eq!(written(&row[1..row.len() - 1]), " ");
    editor.screen.x = 8;
    let row = editor.render_row(0).unwrap();
    assert_eq!(row[1].text, "89");
}

#[test]
fn a_row_that_cannot_be_highlighted_is_a_render_error() {
    let (editor, _) = view(&["ok", "naïve"], 24, 20);
    assert!(editor.render_row(0).is_ok());
    let error = editor.render_row(1).unwrap_err();
    assert_eq!(error.kind, ErrorKind::RenderError);
    assert_eq!(error.message, "syntax highlighting has failed");
}

#[test]
fn a_full_frame_draws_everything_and_clears_the_flag() {
    let (mut editor, manager) = view(&["fn f()", "", "x"], 7, 20);
    editor.cursor = Cursor { x: 1, y: 2 };
    editor.log("hello");
    assert!(editor.refresh);
    let frame = editor.render(&manager).unwrap();
    assert!(frame.full);
    assert!(!editor.refresh);
    assert_eq!(frame.rows.len(), 5);
    assert_eq!(written(&frame.rows[0]), format!("02 fn f() {}", " ".repeat(10)));
    assert_eq!(written(&frame.rows[1]), format!("01 {}", " ".repeat(17)));
    assert_eq!(written(&frame.rows[2]), format!("-> x {}", " ".repeat(15)));
    assert_eq!(written(&frame.rows[3]), format!("01 ~{}", " ".repeat(16)));
    assert_eq!(written(&frame.rows[4]), format!("02 ~{}", " ".repeat(16)));
    assert_eq!(frame.bar[5].text, " 3:2 ");
    assert_eq!(written(&frame.log), format!("hello{}", " ".repeat(15)));
    assert_eq!((frame.cursor_x, frame.cursor_y), (4, 2));
    assert_eq!(editor.cursor, Cursor { x: 1, y: 2 });
}

#[test]
fn a_light_frame_draws_the_gutter_and_the_bar() {
    let (mut editor, manager) = view(&["fn f()", "", "x"], 6, 20);
    editor.refresh = false;
    editor.cursor = Cursor { x: 0, y: 1 };
    let frame = editor.render(&manager).unwrap();
    assert!(!frame.full);
    assert!(!editor.refresh);
    let gutters: Vec<String> = frame.rows.iter().map(|r| written(r)).collect();
    assert_eq!(gutters, vec!["01 ", "-> ", "01 ", "02 "]);
    assert!(frame.rows.iter().all(|r| r.len() == 1));
    assert!(frame.log.is_empty());
    assert_eq!(frame.bar.len(), 6);
    assert_eq!((frame.cursor_x, frame.cursor_y), (3, 1));
    let rows = editor.line_numbers();
    assert_eq!(rows.len(), 4);
}

#[test]
fn a_light_frame_does_not_look_at_the_text() {
    let (mut editor, manager) = view(&["naïve"], 6, 20);
    editor.refresh = false;
    assert!(editor.render(&manager).is_ok());
}

#[test]
fn a_frame_fails_where_a_row_cannot_be_highlighted() {
    let (mut editor, manager) = view(&["ok", "naïve"], 6, 20);
    let error = editor.render(&manager).unwrap_err();
    assert_eq!(error.kind, ErrorKind::RenderError);
    assert!(editor.refresh);
}

#[test]
fn rows_outside_the_viewport_are_not_drawn() {
    let (mut editor, manager) = view(&["ok", "fine", "naïve"], 4, 20);
    let frame = editor.render(&manager).unwrap();
    assert_eq!(frame.rows.len(), 2);
    let (mut tiny, manager) = view(&["naïve"], 2, 20);
    let frame = tiny.render(&manager).unwrap();
    assert!(frame.rows.is_empty());
    let (mut none, manager) = view(&["naïve"], 0, 0);
    let frame = none.render(&manager).unwrap();
    assert!(frame.rows.is_empty());
    assert_eq!((frame.cursor_x, frame.cursor_y), (3, 0));
}

#[test]
fn the_viewport_follows_the_scroll_offset() {
    let lines: Vec<String> = (0..10).map(|i| format!("l{}", i)).collect();
    let mut editor = Editor::new(syntax_for_rust());
    editor.open_file("main.rs", &lines, syntax_for_rust());
    editor.resize(5, 20);
    let manager = BufferManager::new(&editor);
    editor.cursor = Cursor { x: 0, y: 5 };
    editor.screen.y = 4;
    let frame = editor.render(&manager).unwrap();
    assert_eq!(written(&frame.rows[0]), format!("01 l4 {}", " ".repeat(14)));
    assert_eq!(written(&frame.rows[1]), format!("-> l5 {}", " ".repeat(14)));
    assert_eq!(written(&frame.rows[2]), format!("01 l6 {}", " ".repeat(14)));
    assert_eq!((frame.cursor_x, frame.cursor_y), (3, 1));
}

#[test]
fn while_a_command_is_typed_the_cursor_is_in_the_log_line() {
    let (mut editor, mut manager) = view(&["abc"], 24, 80);
    editor.handle_key(&mut manager, Key::Char(':'));
    editor.handle_key(&mut manager, Key::Char('q'));
    editor.prepare();
    assert_eq!(editor.log, ":q");
    assert_eq!(editor.terminal_cursor(), (2, 23));
    let frame = editor.render(&manager).unwrap();
    assert_eq!((frame.cursor_x, frame.cursor_y), (2, 23));
    assert_eq!(frame.log[0].text, ":q");
}

#[test]
fn preparing_clamps_the_cursor() {
    let (mut editor, _) = view(&["abc", "a"], 24, 80);
    editor.cursor = Cursor { x: 3, y: 1 };
    editor.clamp = 3;
    editor.log("kept");
    editor.prepare();
    assert_eq!(editor.cursor, Cursor { x: 1, y: 1 });
    assert_eq!(editor.log, "kept");
}
