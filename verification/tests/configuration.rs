use te::config::{
    color_of, is_rust, list_of, load_colors, load_rust, remove_str_sym, section_of,
    value_to_section, value_to_vec, vec_to_symbols,
};
use te::error::ErrorKind;
use te::highlight::{Colors, Syntax};

const RULES: &str = r#"{
    "keywords": ["fn", "let"],
    "types": ["u8", "String"],
    "symbols": ["(", ")", "+"],
    "strings": ["\"", "\""],
    "operators": ["+", "->"]
}"#;

const PALETTE: &str = r#"{
    "bg": 234, "keywords": 1, "types": 2, "operators": 3, "integers": 4, "strings": 5,
    "line_numbers": 6, "bar": 7, "mode_fg": 8, "mode_bg": 9
}"#;

fn black() -> Colors {
    Colors {
        keywords: 0,
        types: 0,
        operators: 0,
        integers: 0,
        strings: 0,
        line_numbers: 0,
        bar: 0,
        mode_fg: 0,
        mode_bg: 0,
        background: 0,
    }
}

#[test]
fn remove_str_sym_drops_the_ends_and_the_backslashes() {
    assert_eq!(remove_str_sym(String::from("\"fn\"")), "fn");
    assert_eq!(remove_str_sym(String::from("\"\\\"\"")), "\"");
    assert_eq!(remove_str_sym(String::from("\"a\\\\b\"")), "ab");
    assert_eq!(remove_str_sym(String::from("xyz")), "y");
    assert_eq!(remove_str_sym(String::from("12")), "");
    assert_eq!(remove_str_sym(String::from("a")), "");
    assert_eq!(remove_str_sym(String::from("")), "");
    assert_eq!(remove_str_sym(String::from("\\\\\\")), "");
    assert_eq!(remove_str_sym(String::from("<é>")), "é");
}

#[test]
fn lists_are_read_from_arrays() {
    assert_eq!(value_to_vec(RULES, "keywords"), vec!["fn", "let"]);
    assert_eq!(value_to_vec(RULES, "operators"), vec!["+", "->"]);
    assert_eq!(value_to_vec(RULES, "strings"), vec!["\"", "\""]);
    assert_eq!(value_to_vec(RULES, "absent"), Vec::<String>::new());
    assert_eq!(value_to_vec(r#"{"keywords": "fn"}"#, "keywords"), Vec::<String>::new());
    assert_eq!(value_to_vec("[1, 2]", "keywords"), Vec::<String>::new());
    assert_eq!(value_to_vec("not json", "keywords"), Vec::<String>::new());
}

#[test]
fn items_that_are_no_strings_lose_their_ends() {
    assert_eq!(value_to_vec(r#"{"k": [123, true, 7, null, "ab"]}"#, "k"), vec!["2", "ru", "", "ul", "ab"]);
}

#[test]
fn lists_of_given_items() {
    assert_eq!(list_of(&None), Vec::<String>::new());
    assert_eq!(list_of(&Some(Vec::new())), Vec::<String>::new());
    assert_eq!(
        list_of(&Some(vec![String::from("\"a\""), String::from("\"b\\n\"")])),
        vec!["a", "bn"]
    );
}

#[test]
fn symbols_are_the_first_characters() {
    let symbols = vec![String::from("("), String::from("->"), String::from("é")];
    assert_eq!(vec_to_symbols(&symbols), Some(vec!['(', '-', 'é']));
    assert_eq!(vec_to_symbols(&Vec::new()), Some(Vec::new()));
    assert_eq!(vec_to_symbols(&vec![String::from("a"), String::new()]), None);
}

#[test]
fn a_section_needs_a_start_and_an_end() {
    let section = value_to_section("string", RULES, "strings").unwrap();
    assert_eq!(section.name, "string");
    assert_eq!(section.start, "\"");
    assert_eq!(section.end, "\"");
    let section = value_to_section("comment", r#"{"c": ["<", ">"]}"#, "c").unwrap();
    assert_eq!(section.name, "comment");
    assert_eq!(section.start, "<");
    assert_eq!(section.end, ">");

    let error = value_to_section("string", r#"{"strings": ["'"]}"#, "strings").unwrap_err();
    assert_eq!(error.kind, ErrorKind::ConfigError);
    assert_eq!(error.message, "section need a start and end");
    let error = value_to_section("string", r#"{"strings": ["a", "b", "c"]}"#, "strings").unwrap_err();
    assert_eq!(error.message, "section need a start and end");
    let error = value_to_section("string", r#"{"strings": 1}"#, "strings").unwrap_err();
    assert_eq!(error.kind, ErrorKind::ConfigError);
    assert_eq!(error.message, "failed to parse config");
    let error = value_to_section("string", "{}", "strings").unwrap_err();
    assert_eq!(error.message, "failed to parse config");
}

#[test]
fn sections_of_given_items() {
    let section = section_of("s", &Some(vec![String::from("\"(\""), String::from("\")\"")])).unwrap();
    assert_eq!(section.start, "(");
    assert_eq!(section.end, ")");
    assert_eq!(section_of("s", &None).unwrap_err().message, "failed to parse config");
    assert_eq!(section_of("s", &Some(Vec::new())).unwrap_err().message, "section need a start and end");
}

#[test]
fn colours_are_cut_to_eight_bits() {
    assert_eq!(color_of(None), 0);
    assert_eq!(color_of(Some(0)), 0);
    assert_eq!(color_of(Some(255)), 255);
    assert_eq!(color_of(Some(256)), 0);
    assert_eq!(color_of(Some(300)), 44);
    assert_eq!(color_of(Some(u64::MAX)), 255);
}

#[test]
fn colours_are_read_by_name() {
    assert_eq!(
        load_colors(PALETTE),
        Colors {
            keywords: 1,
            types: 2,
            operators: 3,
            integers: 4,
            strings: 5,
            line_numbers: 6,
            bar: 7,
            mode_fg: 8,
            mode_bg: 9,
            background: 234,
        }
    );
}

#[test]
fn colours_that_are_absent_or_no_numbers_are_zero() {
    assert_eq!(load_colors("{}"), black());
    assert_eq!(load_colors("nonsense"), black());
    let colors = load_colors(r#"{"bg": "red", "keywords": -1, "types": 1.5, "bar": 257}"#);
    assert_eq!(colors, Colors { bar: 1, ..black() });
}

#[test]
fn rust_rules_are_read() {
    let syntax = load_rust(RULES, black()).unwrap();
    assert_eq!(syntax.keywords, vec!["fn", "let"]);
    assert_eq!(syntax.types, vec!["u8", "String"]);
    assert_eq!(syntax.operators, vec!["+", "->"]);
    assert_eq!(syntax.symbols, vec!['(', ')', '+', ' ']);
    assert_eq!(syntax.sections.len(), 1);
    assert_eq!(syntax.sections[0].name, "string");
    assert_eq!(syntax.sections[0].start, "\"");
    assert_eq!(syntax.sections[0].end, "\"");
    assert_eq!(syntax.filetype, "rust");
    assert_eq!(syntax.colors, black());
}

#[test]
fn rules_read_from_a_file_highlight() {
    let syntax = Syntax::load("rs", RULES, PALETTE).unwrap();
    let spans = syntax.highlight("fn f(u8)").unwrap();
    let texts: Vec<&str> = spans.iter().map(|s| s.text.as_str()).collect();
    assert_eq!(texts, vec!["fn", " ", "f", "(", "u8", ")", " "]);
    assert_eq!(spans[0].category, te::highlight::Category::Keyword);
    assert_eq!(spans[4].category, te::highlight::Category::Type);
}

#[test]
fn rules_that_are_no_json_are_a_config_error() {
    let error = load_rust("{", black()).unwrap_err();
    assert_eq!(error.kind, ErrorKind::ConfigError);
    let expected = serde_json::from_str::<serde_json::Value>("{").unwrap_err().to_string();
    assert_eq!(error.message, expected);
    assert!(!error.message.is_empty());
}

#[test]
fn rules_with_an_empty_symbol_are_a_config_error() {
    let error = load_rust(r#"{"symbols": ["(", ""], "strings": ["'", "'"]}"#, black()).unwrap_err();
    assert_eq!(error.kind, ErrorKind::ConfigError);
    assert_eq!(error.message, "symbol without a character");
    let error = load_rust(r#"{"symbols": [5], "strings": ["'", "'"]}"#, black()).unwrap_err();
    assert_eq!(error.message, "symbol without a character");
}

#[test]
fn rules_without_strings_are_a_config_error() {
    let error = load_rust(r#"{"keywords": ["fn"]}"#, black()).unwrap_err();
    assert_eq!(error.kind, ErrorKind::ConfigError);
    assert_eq!(error.message, "failed to parse config");
    let error = load_rust(r#"{"strings": []}"#, black()).unwrap_err();
    assert_eq!(error.message, "section need a start and end");
}

#[test]
fn rules_may_leave_lists_out() {
    let syntax = load_rust(r#"{"strings": ["'", "'"]}"#, black()).unwrap();
    assert!(syntax.keywords.is_empty());
    assert!(syntax.types.is_empty());
    assert!(syntax.operators.is_empty());
    assert_eq!(syntax.symbols, vec![' ']);
    assert_eq!(syntax.sections[0].start, "'");
}

#[test]
fn the_extension_chooses_the_rules() {
    let syntax = Syntax::load("rs", RULES, PALETTE).unwrap();
    assert_eq!(syntax.filetype, "rust");
    assert_eq!(syntax.keywords, vec!["fn", "let"]);
    assert_eq!(syntax.colors.background, 234);
    assert_eq!(syntax.colors.mode_bg, 9);

    for extension in ["txt", "", "RS", "rss", "r"] {
        let syntax = Syntax::load(extension, RULES, PALETTE).unwrap();
        assert_eq!(syntax.filetype, "text");
        assert!(syntax.keywords.is_empty());
        assert!(syntax.types.is_empty());
        assert!(syntax.operators.is_empty());
        assert!(syntax.symbols.is_empty());
        assert!(syntax.sections.is_empty());
        assert_eq!(syntax.colors.background, 234);
    }
}

#[test]
fn plain_text_needs_no_rules() {
    let syntax = Syntax::load("txt", "", "{}").unwrap();
    assert_eq!(syntax.filetype, "text");
    assert_eq!(syntax.colors, black());
}

#[test]
fn colours_that_are_no_json_are_a_config_error() {
    let expected = serde_json::from_str::<serde_json::Value>("").unwrap_err().to_string();
    let error = Syntax::load("txt", "", "").unwrap_err();
    assert_eq!(error.kind, ErrorKind::ConfigError);
    assert_eq!(error.message, expected);
    let error = Syntax::load("rs", RULES, "").unwrap_err();
    assert_eq!(error.kind, ErrorKind::ConfigError);
    assert_eq!(error.message, expected);
}

#[test]
fn what_is_wrong_with_the_rules_is_said_first() {
    let error = Syntax::load("rs", "{}", "").unwrap_err();
    assert_eq!(error.message, "failed to parse config");
}

#[test]
fn the_file_name_chooses_the_rules() {
    assert_eq!(Syntax::new("src/main.rs", RULES, PALETTE).unwrap().filetype, "rust");
    assert_eq!(Syntax::new("notes.txt", RULES, PALETTE).unwrap().filetype, "text");
    assert_eq!(Syntax::new("Makefile", "", PALETTE).unwrap().filetype, "text");
    assert_eq!(Syntax::new(".rs", "", PALETTE).unwrap().filetype, "text");
    assert_eq!(Syntax::new("a.b.rs", RULES, PALETTE).unwrap().filetype, "rust");
    assert!(Syntax::needs_rules("lib.rs"));
    assert!(!Syntax::needs_rules("lib.rs.bak"));
    assert!(!Syntax::needs_rules("rs"));
    let error = Syntax::new("main.rs", "[", PALETTE).unwrap_err();
    assert_eq!(error.kind, ErrorKind::ConfigError);
}

#[test]
fn only_rust_files_have_rules() {
    assert!(is_rust("rs"));
    assert!(!is_rust("RS"));
    assert!(!is_rust(""));
    assert!(!is_rust("rs "));
    assert!(!is_rust("txt"));
}

#[test]
fn rules_are_needed_only_where_the_name_holds_the_extension() {
    for name in ["main.rs", "src/lib.rs", "a.b.rs", "..rs", "x.rs"] {
        assert!(Syntax::needs_rules(name), "{:?}", name);
    }
    for name in ["", "rs", ".rs", "main.rs.bak", "main.r", "main.txt", "dir.rs/file", "mainrs", "a.RS"] {
        assert!(!Syntax::needs_rules(name), "{:?}", name);
    }
    for name in ["main.rs", "a/b.rs", ".rs", "rs", "x.rs.bak", "x.rs/y", "..rs", "α.rs"] {
        if Syntax::needs_rules(name) {
            let at = name.find(".rs").expect("the name holds the extension");
            assert!(at > 0, "{:?}", name);
        }
    }
}

#[test]
fn a_plain_name_needs_rules_where_it_ends_in_the_extension() {
    for stem in ["main", "a", "a.b", ".", "x y", "α", "a.rs", "-"] {
        let name = format!("{}.rs", stem);
        assert!(Syntax::needs_rules(&name), "{:?}", name);
        assert_eq!(Syntax::new(&name, RULES, PALETTE).unwrap().filetype, "rust");
        assert_eq!(Syntax::new(&name, RULES, PALETTE).unwrap().keywords, vec!["fn", "let"]);
    }
    for name in ["", ".rs", "rs", "main", "main.", "main.rs.", "main.rs.txt", "main.rsx", "main.RS", ".."] {
        assert!(!Syntax::needs_rules(name), "{:?}", name);
        assert_eq!(Syntax::new(name, RULES, PALETTE).unwrap().filetype, "text");
        assert!(Syntax::new(name, RULES, PALETTE).unwrap().keywords.is_empty());
    }
}
