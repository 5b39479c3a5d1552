use te::editor::Editor;
use te::highlight::{Colors, Syntax};
use te::model::Cursor;
use te::search::{find, stands_at};

fn no_syntax() -> Syntax {
    Syntax {
        keywords: Vec::new(),
        types: Vec::new(),
        operators: Vec::new(),
        symbols: Vec::new(),
        sections: Vec::new(),
        colors: Colors {
            keywords: 0,
            types: 0,
            operators: 0,
            integers: 0,
            strings: 0,
            line_numbers: 0,
            bar: 0,
            mode_fg: 0,
            mode_bg: 0,
            background: 0,
        },
        filetype: String::from("text"),
    }
}

fn document(lines: &[&str]) -> Editor {
    let mut editor = Editor::new(no_syntax());
    let lines: Vec<String> = lines.iter().map(|l| l.to_string()).collect();
    editor.open_file("test.txt", &lines, no_syntax());
    editor
}

fn chars(s: &str) -> Vec<char> {
    s.chars().collect()
}

#[test]
fn find_gives_the_first_occurrence() {
    assert_eq!(find(&chars("hello"), &chars("l")), Some(2));
    assert_eq!(find(&chars("aab"), &chars("ab")), Some(1));
    assert_eq!(find(&chars("abab"), &chars("ab")), Some(0));
    assert_eq!(find(&chars("xyz"), &chars("xyz")), Some(0));
    assert_eq!(find(&chars("xxab"), &chars("ab")), Some(2));
}

#[test]
fn find_gives_nothing_where_the_text_is_absent() {
    assert_eq!(find(&chars("hello"), &chars("z")), None);
    assert_eq!(find(&chars("ab"), &chars("abc")), None);
    assert_eq!(find(&chars(""), &chars("a")), None);
}

#[test]
fn find_of_the_empty_text_is_column_zero() {
    assert_eq!(find(&chars("abc"), &chars("")), Some(0));
    assert_eq!(find(&chars(""), &chars("")), Some(0));
}

#[test]
fn find_counts_characters_not_bytes() {
    assert_eq!(find(&chars("héllo"), &chars("l")), Some(2));
}

#[test]
fn stands_at_compares_in_place() {
    assert!(stands_at(&chars("xabc"), &chars("ab"), 1));
    assert!(!stands_at(&chars("xabc"), &chars("ab"), 0));
    assert!(stands_at(&chars("xabc"), &chars(""), 4));
}

#[test]
fn search_finds_one_match_per_line_and_jumps_to_the_first() {
    let mut editor = document(&["xabc", "yyab"]);
    editor.refresh = false;
    editor.search("ab");
    assert_eq!(editor.matches.matches, vec![Cursor { y: 0, x: 1 }, Cursor { y: 1, x: 2 }]);
    assert_eq!(editor.matches.index, 0);
    assert_eq!(editor.cursor, Cursor { y: 0, x: 1 });
    assert_eq!(editor.screen.y, 0);
    assert_eq!(editor.screen.x, 1);
    assert!(editor.refresh);
}

#[test]
fn search_skips_lines_without_a_match_and_takes_the_first_of_a_line() {
    let mut editor = document(&["none", "abab", "", "zab"]);
    editor.search("ab");
    assert_eq!(editor.matches.matches, vec![Cursor { y: 1, x: 0 }, Cursor { y: 3, x: 1 }]);
    assert_eq!(editor.cursor, Cursor { y: 1, x: 0 });
}

#[test]
fn search_without_a_match_leaves_the_cursor() {
    let mut editor = document(&["abc", "def"]);
    editor.cursor = Cursor { x: 2, y: 1 };
    editor.refresh = false;
    editor.search("zz");
    assert!(editor.matches.matches.is_empty());
    assert_eq!(editor.matches.index, 0);
    assert_eq!(editor.cursor, Cursor { x: 2, y: 1 });
    assert!(!editor.refresh);
}

#[test]
fn a_new_search_forgets_the_old_matches_and_starts_over() {
    let mut editor = document(&["ab", "ab", "cd"]);
    editor.search("ab");
    editor.next_match();
    editor.next_match();
    assert_eq!(editor.matches.index, 1);
    editor.search("cd");
    assert_eq!(editor.matches.matches, vec![Cursor { y: 2, x: 0 }]);
    assert_eq!(editor.matches.index, 0);
    assert_eq!(editor.cursor, Cursor { y: 2, x: 0 });
}

#[test]
fn stepping_through_the_matches() {
    let mut editor = document(&["xabc", "yyab", "ab"]);
    editor.search("ab");
    assert_eq!(editor.cursor, Cursor { y: 0, x: 1 });
    assert_eq!(editor.matches.index, 0);
    editor.next_match();
    assert_eq!(editor.matches.index, 1);
    assert_eq!(editor.cursor, Cursor { y: 1, x: 2 });
    assert_eq!(editor.screen.y, 1);
    assert_eq!(editor.screen.x, 2);
    editor.next_match();
    assert_eq!(editor.matches.index, 2);
    assert_eq!(editor.cursor, Cursor { y: 2, x: 0 });
    editor.cursor = Cursor { y: 0, x: 0 };
    editor.refresh = false;
    editor.next_match();
    assert_eq!(editor.matches.index, 2);
    assert_eq!(editor.cursor, Cursor { y: 2, x: 0 });
    assert!(editor.refresh);
    assert_eq!(editor.matches.matches.len(), 3);
    editor.previous_match();
    assert_eq!(editor.matches.index, 1);
    assert_eq!(editor.cursor, Cursor { y: 1, x: 2 });
    editor.previous_match();
    assert_eq!(editor.matches.index, 0);
    assert_eq!(editor.cursor, Cursor { y: 0, x: 1 });
    editor.refresh = false;
    editor.previous_match();
    assert_eq!(editor.matches.index, 0);
    assert_eq!(editor.cursor, Cursor { y: 0, x: 1 });
    assert!(!editor.refresh);
    assert!(editor.is_wf());
}

#[test]
fn the_first_step_leaves_the_first_match() {
    let mut editor = document(&["xabc", "yyab"]);
    editor.search("ab");
    editor.next_match();
    assert_eq!(editor.cursor, Cursor { y: 1, x: 2 });
    assert_eq!(editor.matches.index, 1);
}

#[test]
fn stepping_with_one_match_stays_on_it() {
    let mut editor = document(&["xabc", "none"]);
    editor.search("ab");
    editor.cursor = Cursor { y: 1, x: 0 };
    editor.next_match();
    assert_eq!(editor.matches.index, 0);
    assert_eq!(editor.cursor, Cursor { y: 0, x: 1 });
}

#[test]
fn stepping_without_matches_does_nothing() {
    let mut editor = document(&["abc"]);
    editor.cursor = Cursor { x: 1, y: 0 };
    editor.refresh = false;
    editor.next_match();
    editor.previous_match();
    editor.goto_match();
    assert_eq!(editor.cursor, Cursor { x: 1, y: 0 });
    assert_eq!(editor.matches.index, 0);
    assert!(editor.matches.matches.is_empty());
    assert!(!editor.refresh);
}

#[test]
fn search_for_the_empty_text_matches_every_line() {
    let mut editor = document(&["a", "", "b"]);
    editor.search("");
    assert_eq!(
        editor.matches.matches,
        vec![Cursor { y: 0, x: 0 }, Cursor { y: 1, x: 0 }, Cursor { y: 2, x: 0 }]
    );
}

#[test]
fn paragraph_jumps_stop_at_the_ends() {
    let lines: Vec<String> = (0..100).map(|i| format!("{}", i)).collect();
    let mut editor = Editor::new(no_syntax());
    editor.open_file("test.txt", &lines, no_syntax());
    editor.resize(24, 80);
    editor.move_by_paragraph(te::model::Direction::Down);
    assert_eq!(editor.cursor.y, 47);
    assert_eq!(editor.screen.y, 47);
    editor.move_by_paragraph(te::model::Direction::Down);
    assert_eq!(editor.cursor.y, 94);
    assert_eq!(editor.screen.y, 94);
    editor.move_by_paragraph(te::model::Direction::Down);
    assert_eq!(editor.cursor.y, 99);
    assert_eq!(editor.screen.y, 99);
    editor.move_by_paragraph(te::model::Direction::Up);
    assert_eq!(editor.cursor.y, 52);
    assert_eq!(editor.screen.y, 52);
    editor.move_by_paragraph(te::model::Direction::Up);
    assert_eq!(editor.cursor.y, 5);
    editor.move_by_paragraph(te::model::Direction::Up);
    assert_eq!(editor.cursor.y, 0);
    assert_eq!(editor.screen.y, 0);
    editor.move_by_paragraph(te::model::Direction::Left);
    assert_eq!(editor.cursor, Cursor { x: 0, y: 0 });
}

#[test]
fn paragraph_jump_down_keeps_the_cursor_row() {
    let lines: Vec<String> = (0..100).map(|i| format!("{}", i)).collect();
    let mut editor = Editor::new(no_syntax());
    editor.open_file("test.txt", &lines, no_syntax());
    editor.resize(24, 80);
    editor.cursor.y = 10;
    editor.screen.y = 4;
    editor.move_by_paragraph(te::model::Direction::Down);
    assert_eq!(editor.cursor.y, 57);
    assert_eq!(editor.screen.y, 51);
}
