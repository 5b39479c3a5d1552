//! Reading the highlighting rules of a file type and the colours from
//! their JSON texts.

use vstd::prelude::*;
use vstd::string::StringExecFns;
use crate::error::{Error, ErrorKind, ErrorView};
use crate::highlight::{Colors, Section, SectionView, Syntax, SyntaxView};
use crate::text::{chars_of, string_of, texts};

verus! {

/// What the JSON parser says against `text`; `None` where `text` is JSON.
pub uninterp spec fn json_fault(text: Seq<char>) -> Option<Seq<char>>;

/// The items of the array that the JSON object `text` holds under `key`,
/// each written as JSON in its compact form; `None` where `text` is no
/// JSON, or no object, or holds no array under `key`.
pub uninterp spec fn json_items(text: Seq<char>, key: Seq<char>) -> Option<Seq<Seq<char>>>;

/// The number that the JSON object `text` holds under `key`; `None` where
/// `text` is no JSON, or no object, or holds there no whole number from 0
/// to 2^64 - 1.
pub uninterp spec fn json_number(text: Seq<char>, key: Seq<char>) -> Option<u64>;

/// `from_str` of serde_json for a `Value`: the message of the error it
/// gives for `text`, if it gives one.
#[verifier::external_body]
fn parse_fault(text: &str) -> (r: Option<String>)
    ensures
        match r {
            Some(message) => json_fault(text@) == Some(message@),
            None => json_fault(text@) is None,
        },
{
    serde_json::from_str::<serde_json::Value>(text).err().map(|e| e.to_string())
}

/// `from_str` of serde_json for a `Value`, then the value under `key`
/// (null where there is none) and `Value::as_array` of it; each item is
/// handed on as the text that it displays as.
#[verifier::external_body]
fn array_items(text: &str, key: &str) -> (r: Option<Vec<String>>)
    ensures
        match r {
            Some(items) => json_items(text@, key@) == Some(texts(items@)),
            None => json_items(text@, key@) is None,
        },
{
    let value = serde_json::from_str::<serde_json::Value>(text).ok()?;
    let items = value[key].as_array()?;
    Some(items.iter().map(|item| item.to_string()).collect())
}

/// `from_str` of serde_json for a `Value`, then the value under `key`
/// (null where there is none) and `Value::as_u64` of it.
#[verifier::external_body]
fn number(text: &str, key: &str) -> (r: Option<u64>)
    ensures
        r == json_number(text@, key@),
{
    let value = serde_json::from_str::<serde_json::Value>(text).ok()?;
    value[key].as_u64()
}

/// Whether `filename` holds a dot with `extension` right after it and with
/// something before it.
pub open spec fn names_extension(filename: Seq<char>, extension: Seq<char>) -> bool {
    exists|before: Seq<char>, after: Seq<char>|
        before.len() > 0 && filename == before + seq!['.'] + extension + after
}

/// Whether `filename` is a file name and nothing more on every platform:
/// it holds none of the characters that part a directory or a drive from
/// the name.
pub open spec fn plain_name(filename: Seq<char>) -> bool {
    !filename.contains('/') && !filename.contains('\\') && !filename.contains(':')
}

/// Whether `filename` is a stem that is not empty, a dot, and `extension`.
pub open spec fn ends_with_extension(filename: Seq<char>, extension: Seq<char>) -> bool {
    exists|stem: Seq<char>| stem.len() > 0 && filename == stem + seq!['.'] + extension
}

/// `Path::extension` of std for the path `filename`, as text; empty where
/// the path has no extension. An extension is what follows the last dot of
/// the file name, and a dot that the file name begins with does not count.
/// So the path holds the dot with the extension after it and with
/// something before it. Where the path is a plain file name, the file name
/// is all of it: the extension is then what follows its last dot, where
/// something stands before that dot. For other paths, where the file name
/// begins and ends goes by the platform and is not stated.
#[verifier::external_body]
fn extension(filename: &str) -> (r: String)
    ensures
        r@.len() > 0 ==> names_extension(filename@, r@),
        plain_name(filename@) && r@.len() > 0 ==> ends_with_extension(filename@, r@),
        forall|ext: Seq<char>|
            plain_name(filename@) && !ext.contains('.') && #[trigger] ends_with_extension(
                filename@,
                ext,
            ) ==> r@ == ext,
{
    std::path::Path::new(filename).extension().and_then(|e| e.to_str()).unwrap_or("").to_string()
}

/// `s` without its backslashes.
pub open spec fn without_backslashes(s: Seq<char>) -> Seq<char>
    decreases s.len(),
{
    if s.len() == 0 {
        s
    } else if s.last() == '\\' {
        without_backslashes(s.drop_last())
    } else {
        without_backslashes(s.drop_last()).push(s.last())
    }
}

/// What a JSON string stands for, roughly: the text without its first and
/// its last character, the quotes, and without any backslash.
pub open spec fn unquoted(s: Seq<char>) -> Seq<char> {
    if s.len() >= 2 {
        without_backslashes(s.subrange(1, s.len() - 1))
    } else {
        Seq::empty()
    }
}

/// The text without its first and its last character and without any
/// backslash.
pub fn remove_str_sym(string: String) -> (r: String)
    ensures
        r@ == unquoted(string@),
{
    let chars = chars_of(string.as_str());
    let mut kept: Vec<char> = Vec::new();
    if chars.len() < 2 {
        return string_of(&kept);
    }
    let ghost inner = chars@.subrange(1, chars.len() - 1);
    let mut i: usize = 1;
    while i < chars.len() - 1
        invariant
            1 <= i <= chars.len() - 1,
            inner == chars@.subrange(1, chars.len() - 1),
            kept@ == without_backslashes(inner.take(i - 1)),
        decreases chars.len() - i,
    {
        if chars[i] != '\\' {
            kept.push(chars[i]);
        }
        assert(inner.take(i as int).drop_last() =~= inner.take(i - 1));
        i += 1;
    }
    assert(inner.take(i - 1) =~= inner);
    string_of(&kept)
}

/// The texts of `items`, each unquoted.
pub open spec fn unquoted_all(items: Seq<Seq<char>>) -> Seq<Seq<char>> {
    Seq::new(items.len(), |i: int| unquoted(items[i]))
}

/// The list that a configuration holds under a key: its items unquoted,
/// or nothing where it holds no array there.
pub open spec fn config_list(items: Option<Seq<Seq<char>>>) -> Seq<Seq<char>> {
    match items {
        Some(items) => unquoted_all(items),
        None => Seq::empty(),
    }
}

/// The colour that a configuration gives: the number it holds, cut to
/// eight bits, or 0 where it holds none.
pub open spec fn config_color(number: Option<u64>) -> u8 {
    match number {
        Some(n) => (n % 256) as u8,
        None => 0,
    }
}

/// The colours that the JSON text `text` gives.
pub open spec fn config_colors(text: Seq<char>) -> Colors {
    Colors {
        keywords: config_color(json_number(text, "keywords"@)),
        types: config_color(json_number(text, "types"@)),
        operators: config_color(json_number(text, "operators"@)),
        integers: config_color(json_number(text, "integers"@)),
        strings: config_color(json_number(text, "strings"@)),
        line_numbers: config_color(json_number(text, "line_numbers"@)),
        bar: config_color(json_number(text, "bar"@)),
        mode_fg: config_color(json_number(text, "mode_fg"@)),
        mode_bg: config_color(json_number(text, "mode_bg"@)),
        background: config_color(json_number(text, "bg"@)),
    }
}

/// A configuration error with the given message.
pub open spec fn config_error(message: Seq<char>) -> ErrorView {
    ErrorView { kind: ErrorKind::ConfigError, message }
}

/// The first character of each of `symbols`, and a space after them.
pub open spec fn symbol_chars(symbols: Seq<Seq<char>>) -> Seq<char> {
    Seq::new(symbols.len(), |i: int| symbols[i][0]).push(' ')
}

/// Whether none of `symbols` is empty.
pub open spec fn symbols_named(symbols: Seq<Seq<char>>) -> bool {
    forall|i: int| 0 <= i < symbols.len() ==> (#[trigger] symbols[i]).len() > 0
}

/// The highlighting rules that the JSON text `text` gives for Rust, drawn
/// in `colors`, or what is wrong with the text.
pub open spec fn rust_syntax(text: Seq<char>, colors: Colors) -> Result<SyntaxView, ErrorView> {
    let symbols = config_list(json_items(text, "symbols"@));
    if json_fault(text) is Some {
        Err(config_error(json_fault(text)->0))
    } else if !symbols_named(symbols) {
        Err(config_error("symbol without a character"@))
    } else {
        match config_section("string"@, json_items(text, "strings"@)) {
            Ok(section) => Ok(
                SyntaxView {
                    keywords: config_list(json_items(text, "keywords"@)),
                    types: config_list(json_items(text, "types"@)),
                    operators: config_list(json_items(text, "operators"@)),
                    symbols: symbol_chars(symbols),
                    sections: seq![section],
                    colors,
                    filetype: "rust"@,
                },
            ),
            Err(e) => Err(e),
        }
    }
}

/// The rules for a file that is plain text: nothing is highlighted.
pub open spec fn text_syntax(colors: Colors) -> SyntaxView {
    SyntaxView {
        keywords: Seq::empty(),
        types: Seq::empty(),
        operators: Seq::empty(),
        symbols: Seq::empty(),
        sections: Seq::empty(),
        colors,
        filetype: "text"@,
    }
}

/// Whether files with the given extension are highlighted by rules of
/// their own, which have to be read for them: those of Rust are.
pub open spec fn has_rules(extension: Seq<char>) -> bool {
    extension == "rs"@
}

/// The highlighting rules for a file with the given extension, read from
/// the JSON text of the rules of its file type and the JSON text of the
/// colours, or what is wrong with these texts. What is wrong with the
/// rules is said before what is wrong with the colours.
pub open spec fn load(extension: Seq<char>, rules: Seq<char>, colors: Seq<char>) -> Result<
    SyntaxView,
    ErrorView,
> {
    if has_rules(extension) && rust_syntax(rules, config_colors(colors)) is Err {
        rust_syntax(rules, config_colors(colors))
    } else if json_fault(colors) is Some {
        Err(config_error(json_fault(colors)->0))
    } else if has_rules(extension) {
        rust_syntax(rules, config_colors(colors))
    } else {
        Ok(text_syntax(config_colors(colors)))
    }
}

/// Whether `r` is what `load` gives for the extension and the two texts.
pub open spec fn loaded(
    r: Result<Syntax, Error>,
    extension: Seq<char>,
    rules: Seq<char>,
    colors: Seq<char>,
) -> bool {
    match r {
        Ok(syntax) => load(extension, rules, colors) == Ok::<SyntaxView, ErrorView>(syntax@),
        Err(e) => load(extension, rules, colors) == Err::<SyntaxView, ErrorView>(e@),
    }
}

/// Whether files with the given extension are highlighted by rules of
/// their own.
pub fn is_rust(extension: &str) -> (b: bool)
    ensures
        b == has_rules(extension@),
{
    String::from_str(extension) == String::from_str("rs")
}

/// The list that the JSON text `text` holds under `key`.
pub fn value_to_vec(text: &str, key: &str) -> (r: Vec<String>)
    ensures
        texts(r@) == config_list(json_items(text@, key@)),
{
    let items = array_items(text, key);
    list_of(&items)
}

/// The list that a configuration holds where the items of its array are
/// `items`: each item unquoted, or nothing where there is no array.
pub fn list_of(items: &Option<Vec<String>>) -> (r: Vec<String>)
    ensures
        texts(r@) == config_list(
            match items {
                Some(items) => Some(texts(items@)),
                None => None,
            },
        ),
{
    let mut r: Vec<String> = Vec::new();
    match items {
        Some(items) => {
            let mut i: usize = 0;
            while i < items.len()
                invariant
                    i <= items.len(),
                    r.len() == i,
                    forall|j: int| 0 <= j < i ==> r[j]@ == unquoted(items[j]@),
                decreases items.len() - i,
            {
                r.push(remove_str_sym(items[i].clone()));
                i += 1;
            }
            assert(texts(r@) =~= unquoted_all(texts(items@)));
        },
        None => {
            assert(texts(r@) =~= Seq::empty());
        },
    }
    r
}

/// The first character of each of `symbols`; `None` where one of them is
/// empty.
pub fn vec_to_symbols(symbols: &Vec<String>) -> (r: Option<Vec<char>>)
    ensures
        match r {
            Some(chars) => {
                &&& symbols_named(texts(symbols@))
                &&& chars@.push(' ') == symbol_chars(texts(symbols@))
            },
            None => !symbols_named(texts(symbols@)),
        },
{
    let mut r: Vec<char> = Vec::new();
    let mut i: usize = 0;
    while i < symbols.len()
        invariant
            i <= symbols.len(),
            r.len() == i,
            forall|j: int|
                0 <= j < i ==> (#[trigger] symbols[j])@.len() > 0 && r[j] == symbols[j]@[0],
        decreases symbols.len() - i,
    {
        let chars = chars_of(symbols[i].as_str());
        if chars.len() == 0 {
            assert(texts(symbols@)[i as int].len() == 0);
            return None;
        }
        r.push(chars[0]);
        i += 1;
    }
    proof {
        let names = texts(symbols@);
        assert forall|j: int| 0 <= j < names.len() implies (#[trigger] names[j]).len() > 0 by {
            assert(symbols[j]@.len() > 0);
        }
        assert(r@.push(' ') =~= symbol_chars(names));
    }
    Some(r)
}

/// The section `name` that a configuration gives where the items of its
/// array are `items`: the array has to hold the start mark and the end
/// mark, and nothing else.
pub open spec fn config_section(name: Seq<char>, items: Option<Seq<Seq<char>>>) -> Result<
    SectionView,
    ErrorView,
> {
    match items {
        Some(items) => if items.len() == 2 {
            Ok(SectionView { name, start: unquoted(items[0]), end: unquoted(items[1]) })
        } else {
            Err(config_error("section need a start and end"@))
        },
        None => Err(config_error("failed to parse config"@)),
    }
}

/// The section `name` whose start and end marks the JSON text `text` holds
/// as an array of two under `key`.
pub fn value_to_section(name: &str, text: &str, key: &str) -> (r: Result<Section, Error>)
    ensures
        match r {
            Ok(section) => config_section(name@, json_items(text@, key@)) == Ok::<
                SectionView,
                ErrorView,
            >(section@),
            Err(e) => config_section(name@, json_items(text@, key@)) == Err::<
                SectionView,
                ErrorView,
            >(e@),
        },
{
    let items = array_items(text, key);
    section_of(name, &items)
}

/// The section `name` that a configuration gives where the items of its
/// array are `items`.
pub fn section_of(name: &str, items: &Option<Vec<String>>) -> (r: Result<Section, Error>)
    ensures
        match r {
            Ok(section) => config_section(
                name@,
                match items {
                    Some(items) => Some(texts(items@)),
                    None => None,
                },
            ) == Ok::<SectionView, ErrorView>(section@),
            Err(e) => config_section(
                name@,
                match items {
                    Some(items) => Some(texts(items@)),
                    None => None,
                },
            ) == Err::<SectionView, ErrorView>(e@),
        },
{
    match items {
        Some(items) => {
            if items.len() == 2 {
                Ok(
                    Section {
                        name: String::from_str(name),
                        start: remove_str_sym(items[0].clone()),
                        end: remove_str_sym(items[1].clone()),
                    },
                )
            } else {
                Err(Error::new(ErrorKind::ConfigError, "section need a start and end"))
            }
        },
        None => Err(Error::new(ErrorKind::ConfigError, "failed to parse config")),
    }
}

/// The colour that the JSON text `text` holds under `key`.
fn color(text: &str, key: &str) -> (r: u8)
    ensures
        r == config_color(json_number(text@, key@)),
{
    color_of(number(text, key))
}

/// The colour that a configuration gives where it holds `number`: the
/// number cut to eight bits, or 0 where it holds none.
pub fn color_of(number: Option<u64>) -> (r: u8)
    ensures
        r == config_color(number),
{
    match number {
        Some(n) => (n % 256) as u8,
        None => 0,
    }
}

/// The colours that the JSON text `text` gives: under `bg` the background,
/// under `bar` the status bar's, under `mode_fg` and `mode_bg` those of the
/// mode's name, and under the name of each class of text its colour.
pub fn load_colors(text: &str) -> (r: Colors)
    ensures
        r == config_colors(text@),
{
    Colors {
        keywords: color(text, "keywords"),
        types: color(text, "types"),
        operators: color(text, "operators"),
        integers: color(text, "integers"),
        strings: color(text, "strings"),
        line_numbers: color(text, "line_numbers"),
        bar: color(text, "bar"),
        mode_fg: color(text, "mode_fg"),
        mode_bg: color(text, "mode_bg"),
        background: color(text, "bg"),
    }
}

/// The highlighting rules that the JSON text `text` gives for Rust.
pub fn load_rust(text: &str, colors: Colors) -> (r: Result<Syntax, Error>)
    ensures
        match r {
            Ok(syntax) => rust_syntax(text@, colors) == Ok::<SyntaxView, ErrorView>(syntax@),
            Err(e) => rust_syntax(text@, colors) == Err::<SyntaxView, ErrorView>(e@),
        },
{
    if let Some(message) = parse_fault(text) {
        return Err(Error { kind: ErrorKind::ConfigError, message });
    }
    let keywords = value_to_vec(text, "keywords");
    let types = value_to_vec(text, "types");
    let mut symbols = match vec_to_symbols(&value_to_vec(text, "symbols")) {
        Some(symbols) => symbols,
        None => {
            return Err(Error::new(ErrorKind::ConfigError, "symbol without a character"));
        },
    };
    symbols.push(' ');
    let section = value_to_section("string", text, "strings")?;
    let operators = value_to_vec(text, "operators");
    let mut sections: Vec<Section> = Vec::new();
    sections.push(section);
    let syntax = Syntax {
        keywords,
        types,
        operators,
        symbols,
        sections,
        colors,
        filetype: String::from_str("rust"),
    };
    assert(syntax@.sections =~= seq![section@]);
    Ok(syntax)
}

impl Syntax {
    /// The highlighting rules for a file with the given extension; see
    /// `load`.
    pub fn load(extension: &str, rules: &str, colors: &str) -> (r: Result<Syntax, Error>)
        ensures
            match r {
                Ok(syntax) => load(extension@, rules@, colors@) == Ok::<SyntaxView, ErrorView>(
                    syntax@,
                ),
                Err(e) => load(extension@, rules@, colors@) == Err::<SyntaxView, ErrorView>(e@),
            },
    {
        let palette = load_colors(colors);
        let syntax = if is_rust(extension) {
            load_rust(rules, palette)?
        } else {
            let syntax = Syntax {
                keywords: Vec::new(),
                types: Vec::new(),
                operators: Vec::new(),
                symbols: Vec::new(),
                sections: Vec::new(),
                colors: palette,
                filetype: String::from_str("text"),
            };
            assert(syntax@.keywords =~= Seq::empty());
            assert(syntax@.types =~= Seq::empty());
            assert(syntax@.operators =~= Seq::empty());
            assert(syntax@.sections =~= Seq::empty());
            assert(syntax@.symbols =~= Seq::empty());
            syntax
        };
        if let Some(message) = parse_fault(colors) {
            return Err(Error { kind: ErrorKind::ConfigError, message });
        }
        Ok(syntax)
    }

    /// The highlighting rules for the file `filename`, which go by its
    /// extension, read from the JSON text of the rules of its file type
    /// and the JSON text of the colours. A plain file name is highlighted
    /// as Rust where it ends in `.rs` after a stem, else as plain text. A
    /// path with directories is highlighted by the extension that the
    /// platform finds in it, which the path holds after a dot.
    pub fn new(filename: &str, rules: &str, colors: &str) -> (r: Result<Syntax, Error>)
        ensures
            plain_name(filename@) ==> loaded(
                r,
                if ends_with_extension(filename@, "rs"@) {
                    "rs"@
                } else {
                    Seq::empty()
                },
                rules@,
                colors@,
            ),
            exists|extension: Seq<char>|
                {
                    &&& extension.len() > 0 ==> names_extension(filename@, extension)
                    &&& #[trigger] loaded(r, extension, rules@, colors@)
                },
    {
        let extension = extension(filename);
        proof {
            reveal_strlit("rs");
            assert(!"rs"@.contains('.'));
        }
        let r = Syntax::load(extension.as_str(), rules, colors);
        assert(loaded(r, extension@, rules@, colors@));
        r
    }

    /// Whether the file `filename` is highlighted by rules that have to be
    /// read for it, which goes by its extension. A plain file name needs
    /// them where it ends in `.rs` after a stem, and only there. Of a path
    /// with directories the platform says where the file name begins; it
    /// needs them only where it holds `.rs` after something else.
    pub fn needs_rules(filename: &str) -> (b: bool)
        ensures
            plain_name(filename@) ==> (b <==> ends_with_extension(filename@, "rs"@)),
            b ==> names_extension(filename@, "rs"@),
    {
        let extension = extension(filename);
        proof {
            reveal_strlit("rs");
            assert(!"rs"@.contains('.'));
        }
        is_rust(extension.as_str())
    }
}

} // verus!
