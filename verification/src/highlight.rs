//! Syntax highlighting: what the editor knows of a file type, and how a line
//! of text is split and classified.

use vstd::prelude::*;
use vstd::string::{StrSliceExecFns, StringExecFns};
use crate::error::{Error, ErrorKind, ErrorView};
use crate::text::{chars_of, texts};

verus! {

/// Numbers of the 256-colour palette that the editor draws with.
#[derive(Clone, Copy, Debug, PartialEq, Eq, Structural)]
pub struct Colors {
    pub keywords: u8,
    pub types: u8,
    pub operators: u8,
    pub integers: u8,
    pub strings: u8,
    pub line_numbers: u8,
    pub bar: u8,
    pub mode_fg: u8,
    pub mode_bg: u8,
    pub background: u8,
}

/// A stretch of text between a start and an end mark that is lexed as one
/// token, such as a string literal.
#[derive(Debug)]
pub struct Section {
    pub name: String,
    pub start: String,
    pub end: String,
}

/// A `Section` as a mathematical value.
pub struct SectionView {
    pub name: Seq<char>,
    pub start: Seq<char>,
    pub end: Seq<char>,
}

impl View for Section {
    type V = SectionView;

    open spec fn view(&self) -> SectionView {
        SectionView { name: self.name@, start: self.start@, end: self.end@ }
    }
}

impl Clone for Section {
    fn clone(&self) -> (r: Section)
        ensures
            r@ == self@,
    {
        Section { name: self.name.clone(), start: self.start.clone(), end: self.end.clone() }
    }
}

/// The views of the sections of `v`, in order.
pub open spec fn sections(v: Seq<Section>) -> Seq<SectionView> {
    Seq::new(v.len(), |i: int| v[i]@)
}

/// The highlighting rules of one file type with the colours to draw them in.
#[derive(Debug)]
pub struct Syntax {
    pub keywords: Vec<String>,
    pub types: Vec<String>,
    pub operators: Vec<String>,
    pub symbols: Vec<char>,
    pub sections: Vec<Section>,
    pub colors: Colors,
    pub filetype: String,
}

/// A `Syntax` as a mathematical value.
pub struct SyntaxView {
    pub keywords: Seq<Seq<char>>,
    pub types: Seq<Seq<char>>,
    pub operators: Seq<Seq<char>>,
    pub symbols: Seq<char>,
    pub sections: Seq<SectionView>,
    pub colors: Colors,
    pub filetype: Seq<char>,
}

impl View for Syntax {
    type V = SyntaxView;

    open spec fn view(&self) -> SyntaxView {
        SyntaxView {
            keywords: texts(self.keywords@),
            types: texts(self.types@),
            operators: texts(self.operators@),
            symbols: self.symbols@,
            sections: sections(self.sections@),
            colors: self.colors,
            filetype: self.filetype@,
        }
    }
}

/// A copy of a list of sections.
fn clone_sections(v: &Vec<Section>) -> (r: Vec<Section>)
    ensures
        sections(r@) == sections(v@),
{
    let mut r: Vec<Section> = Vec::new();
    let mut i: usize = 0;
    while i < v.len()
        invariant
            i <= v.len(),
            r.len() == i,
            forall|j: int| 0 <= j < i ==> r[j]@ == v[j]@,
        decreases v.len() - i,
    {
        r.push(v[i].clone());
        i += 1;
    }
    r
}

impl Clone for Syntax {
    fn clone(&self) -> (r: Syntax)
        ensures
            r@ == self@,
    {
        Syntax {
            keywords: self.keywords.clone(),
            types: self.types.clone(),
            operators: self.operators.clone(),
            symbols: self.symbols.clone(),
            sections: clone_sections(&self.sections),
            colors: self.colors,
            filetype: self.filetype.clone(),
        }
    }
}

/// One piece of a lexed line: its text, and the name of the section it is
/// where it is one (then the text is what stands between the marks).
#[derive(Debug)]
pub struct Token {
    pub text: String,
    pub section: Option<String>,
}

/// A `Token` as a mathematical value.
pub struct TokenView {
    pub text: Seq<char>,
    pub section: Option<Seq<char>>,
}

impl View for Token {
    type V = TokenView;

    open spec fn view(&self) -> TokenView {
        TokenView {
            text: self.text@,
            section: match self.section {
                Some(name) => Some(name@),
                None => None,
            },
        }
    }
}

/// The views of the tokens of `v`, in order.
pub open spec fn tokens(v: Seq<Token>) -> Seq<TokenView> {
    Seq::new(v.len(), |i: int| v[i]@)
}

/// What the lexer makes of `text` when it knows the given keywords,
/// sections and one-character symbols and keeps white space; `None` where
/// it fails on the text. The lexer takes digits for a whole number where
/// the number fits the machine's `usize`, so the largest `usize`, `limit`,
/// has a say.
pub uninterp spec fn lexed(
    limit: int,
    keywords: Seq<Seq<char>>,
    sections: Seq<SectionView>,
    symbols: Seq<char>,
    text: Seq<char>,
) -> Option<Seq<TokenView>>;

/// `Lexer::tokenize` of lib_lexin, on a lexer made by `Lexer::new` with the
/// given keywords, sections and symbols (each symbol without a name) that
/// keeps white space, after `Lexer::load_str` of `text`. What comes back
/// depends on these four and on the width of `usize` alone. Each token is
/// handed on as the text that `Token::as_string` gives for it, with the
/// section's name where the token is a section.
#[verifier::external_body]
fn lex(keywords: &Vec<String>, sections: &Vec<Section>, symbols: &Vec<char>, text: &str) -> (r:
    Option<Vec<Token>>)
    ensures
        match r {
            Some(found) => lexed(
                usize::MAX as int,
                texts(keywords@),
                self::sections(sections@),
                symbols@,
                text@,
            ) == Some(tokens(found@)),
            None => lexed(
                usize::MAX as int,
                texts(keywords@),
                self::sections(sections@),
                symbols@,
                text@,
            ) is None,
        },
{
    let sections: Vec<lib_lexin::Section> = sections.iter().map(
        |s| lib_lexin::Section::new(&s.name, &s.start, &s.end),
    ).collect();
    let symbols: Vec<(char, String)> = symbols.iter().map(|c| (*c, String::new())).collect();
    let mut lexer = lib_lexin::Lexer::new(keywords, &sections, &symbols, true);
    lexer.load_str(text);
    let found = lexer.tokenize().ok()?;
    Some(found.iter().map(|t| Token {
        text: t.as_string(),
        section: match t {
            lib_lexin::Token::Section(name, _, _) => Some(name.clone()),
            _ => None,
        },
    }).collect())
}

/// The classes of text that are drawn differently.
#[derive(Clone, Copy, Debug, PartialEq, Eq, Structural)]
pub enum Category {
    Keyword,
    Type,
    Operator,
    Integer,
    String,
    Default,
}

/// A piece of a highlighted line: the text to show and its class.
#[derive(Debug)]
pub struct Span {
    pub category: Category,
    pub text: String,
}

/// A `Span` as a mathematical value.
pub struct SpanView {
    pub category: Category,
    pub text: Seq<char>,
}

impl View for Span {
    type V = SpanView;

    open spec fn view(&self) -> SpanView {
        SpanView { category: self.category, text: self.text@ }
    }
}

/// The views of the spans of `v`, in order.
pub open spec fn spans(v: Seq<Span>) -> Seq<SpanView> {
    Seq::new(v.len(), |i: int| v[i]@)
}

/// Whether `c` is one of the digits 0 to 9.
pub open spec fn is_digit(c: char) -> bool {
    '0' <= c <= '9'
}

/// The number that the decimal digits `s` write.
pub open spec fn decimal_value(s: Seq<char>) -> int
    decreases s.len(),
{
    if s.len() == 0 {
        0
    } else {
        decimal_value(s.drop_last()) * 10 + (s.last() as int - '0' as int)
    }
}

/// Whether `s` writes a number that fits the machine's `usize`: decimal
/// digits, at least one, with at most a `+` before them.
pub open spec fn is_number(s: Seq<char>) -> bool {
    all_digits(unsigned(s)) && decimal_value(unsigned(s)) <= usize::MAX
}

/// `s` without the `+` that it may begin with.
pub open spec fn unsigned(s: Seq<char>) -> Seq<char> {
    if s.len() > 0 && s[0] == '+' {
        s.skip(1)
    } else {
        s
    }
}

/// Whether `s` is made of digits, at least one.
pub open spec fn all_digits(s: Seq<char>) -> bool {
    s.len() > 0 && forall|i: int| 0 <= i < s.len() ==> is_digit(#[trigger] s[i])
}

/// A number written in digits is at least the number that any of its
/// beginnings writes.
proof fn lemma_decimal_value_grows(s: Seq<char>, n: int)
    requires
        0 <= n <= s.len(),
        forall|i: int| 0 <= i < s.len() ==> is_digit(#[trigger] s[i]),
    ensures
        0 <= decimal_value(s.take(n)) <= decimal_value(s),
    decreases s.len() - n,
{
    if n == s.len() {
        assert(s.take(n) =~= s);
        lemma_decimal_value_nonnegative(s);
    } else {
        lemma_decimal_value_grows(s, n + 1);
        assert(s.take(n + 1).drop_last() =~= s.take(n));
        assert(s.take(n + 1).last() == s[n]);
        lemma_decimal_value_nonnegative(s.take(n));
    }
}

/// Digits write a number that is not negative.
proof fn lemma_decimal_value_nonnegative(s: Seq<char>)
    requires
        forall|i: int| 0 <= i < s.len() ==> is_digit(#[trigger] s[i]),
    ensures
        0 <= decimal_value(s),
    decreases s.len(),
{
    if s.len() > 0 {
        lemma_decimal_value_nonnegative(s.drop_last());
    }
}

/// Whether `text` writes a number that fits the machine's `usize`.
pub fn parses_as_number(text: &str) -> (b: bool)
    ensures
        b == is_number(text@),
{
    let chars = chars_of(text);
    let start: usize = if chars.len() > 0 && chars[0] == '+' {
        1
    } else {
        0
    };
    if chars.len() == start {
        return false;
    }
    let ghost digits = unsigned(text@);
    assert(digits =~= chars@.skip(start as int));
    let mut value: usize = 0;
    let mut i: usize = start;
    while i < chars.len()
        invariant
            start <= i <= chars.len(),
            digits == chars@.skip(start as int),
            digits.len() > 0,
            digits == unsigned(text@),
            forall|j: int| 0 <= j < i - start ==> is_digit(#[trigger] digits[j]),
            value == decimal_value(digits.take(i - start)),
        decreases chars.len() - i,
    {
        let c = chars[i];
        if !('0' <= c && c <= '9') {
            assert(!is_digit(digits[i - start]));
            return false;
        }
        let digit: usize = (c as u32 - '0' as u32) as usize;
        proof {
            assert(digits.take(i + 1 - start).drop_last() =~= digits.take(i - start));
            assert(digits.take(i + 1 - start).last() == c);
        }
        let grown = match value.checked_mul(10) {
            Some(tens) => tens.checked_add(digit),
            None => None,
        };
        match grown {
            Some(v) => {
                value = v;
            },
            None => {
                proof {
                    if all_digits(digits) {
                        lemma_decimal_value_grows(digits, i + 1 - start);
                    }
                }
                return false;
            },
        }
        i += 1;
    }
    assert(digits.take(i - start) =~= digits);
    true
}

/// Whether `text` is one of the strings of `list`.
pub fn contains_text(list: &Vec<String>, text: &String) -> (b: bool)
    ensures
        b == texts(list@).contains(text@),
{
    let mut i: usize = 0;
    while i < list.len()
        invariant
            i <= list.len(),
            forall|j: int| 0 <= j < i ==> texts(list@)[j] != text@,
        decreases list.len() - i,
    {
        if list[i] == *text {
            assert(texts(list@)[i as int] == text@);
            return true;
        }
        i += 1;
    }
    false
}

/// The columns that a token takes in its line: a string shows its two
/// marks as well.
pub open spec fn token_length(token: TokenView) -> nat {
    if token.section == Some("string"@) {
        token.text.len() + 2
    } else {
        token.text.len()
    }
}

/// The column where token `i` of a line begins: the columns that the
/// tokens before it take.
pub open spec fn start_of(tokens: Seq<TokenView>, i: int) -> int
    decreases i,
{
    if i <= 0 {
        0
    } else {
        start_of(tokens, i - 1) + token_length(tokens[i - 1])
    }
}

/// The column where the first token begins that begins after column `x`,
/// among the tokens from index `i` on; `x` itself where none does.
pub open spec fn next_boundary_from(tokens: Seq<TokenView>, i: int, x: int) -> int
    decreases tokens.len() - i,
{
    if i < 0 || i >= tokens.len() {
        x
    } else if start_of(tokens, i) > x {
        start_of(tokens, i)
    } else {
        next_boundary_from(tokens, i + 1, x)
    }
}

/// The column where the first token begins that ends at column `x` or
/// after it, among the tokens from index `i` on; `x` itself where none
/// does.
pub open spec fn previous_boundary_from(tokens: Seq<TokenView>, i: int, x: int) -> int
    decreases tokens.len() - i,
{
    if i < 0 || i >= tokens.len() {
        x
    } else if start_of(tokens, i + 1) >= x {
        start_of(tokens, i)
    } else {
        previous_boundary_from(tokens, i + 1, x)
    }
}

/// The columns that all the tokens take together.
pub open spec fn total_length(tokens: Seq<TokenView>) -> int {
    start_of(tokens, tokens.len() as int)
}

/// A later token does not begin before an earlier one.
pub proof fn lemma_start_of_grows(tokens: Seq<TokenView>, i: int, j: int)
    requires
        0 <= i <= j,
    ensures
        0 <= start_of(tokens, i) <= start_of(tokens, j),
    decreases j,
{
    if i < j {
        lemma_start_of_grows(tokens, i, j - 1);
    } else if 0 < i {
        lemma_start_of_grows(tokens, i - 1, i - 1);
    }
}

/// The error for a line that the lexer fails on.
pub open spec fn highlighting_failed() -> ErrorView {
    ErrorView { kind: ErrorKind::RenderError, message: "syntax highlighting has failed"@ }
}

/// The error for a line whose tokens take more columns than the machine can
/// count.
pub open spec fn line_too_long() -> ErrorView {
    ErrorView { kind: ErrorKind::RenderError, message: "line too long"@ }
}

impl SyntaxView {
    /// The words that the lexer takes as keywords: the keywords, then the
    /// type names.
    pub open spec fn words(self) -> Seq<Seq<char>> {
        self.keywords + self.types
    }

    /// The tokens of `line`, which is lexed with two spaces after it so
    /// that its last token is complete; `None` where the lexer fails.
    pub open spec fn tokenize(self, line: Seq<char>) -> Option<Seq<TokenView>> {
        lexed(usize::MAX as int, self.words(), self.sections, self.symbols, line + "  "@)
    }

    /// The class of a token: a string section is a string; other text is
    /// looked up among the keywords, then the types, then the operators;
    /// what is left is an integer where it writes a number.
    pub open spec fn classify(self, token: TokenView) -> Category {
        if token.section == Some("string"@) {
            Category::String
        } else if self.keywords.contains(token.text) {
            Category::Keyword
        } else if self.types.contains(token.text) {
            Category::Type
        } else if self.operators.contains(token.text) {
            Category::Operator
        } else if is_number(token.text) {
            Category::Integer
        } else {
            Category::Default
        }
    }

    /// How a token is shown: a string between double quotes, other text
    /// as it is.
    pub open spec fn span(self, token: TokenView) -> SpanView {
        SpanView {
            category: self.classify(token),
            text: if token.section == Some("string"@) {
                seq!['"'] + token.text + seq!['"']
            } else {
                token.text
            },
        }
    }

    /// The spans of a line that was lexed into `tokens`.
    pub open spec fn highlight(self, tokens: Seq<TokenView>) -> Seq<SpanView> {
        Seq::new(tokens.len(), |i: int| self.span(tokens[i]))
    }
}

impl Token {
    /// Whether the token is a string section.
    pub fn is_string(&self) -> (b: bool)
        ensures
            b == (self@.section == Some("string"@)),
    {
        match &self.section {
            Some(name) => {
                let string = String::from_str("string");
                *name == string
            },
            None => false,
        }
    }
}

/// What is drawn in a style of its own.
#[derive(Clone, Copy, Debug, PartialEq, Eq, Structural)]
pub enum Paint {
    /// Text of the document, by its class.
    Text(Category),
    /// The gutter of line numbers.
    LineNumber,
    /// The status bar.
    Bar,
    /// The mode's name in the status bar.
    Mode,
}

/// `Style` of console: a foreground and a background colour with
/// attributes such as bold. Nothing is known of what is inside.
#[verifier::external_type_specification]
#[verifier::external_body]
pub struct ExStyle(console::Style);

/// `Style::new` of console: the style without colours and attributes.
/// Nothing is said of the result.
pub assume_specification[ console::Style::new ]() -> (style: console::Style);

/// `Style::color256` of console: the style with the foreground colour set
/// to a number of the 256-colour palette. Nothing is said of the result.
pub assume_specification[ console::Style::color256 ](style: console::Style, color: u8) -> (r:
    console::Style);

/// `Style::on_color256` of console: the style with the background colour
/// set to a number of the 256-colour palette. Nothing is said of the
/// result.
pub assume_specification[ console::Style::on_color256 ](style: console::Style, color: u8) -> (r:
    console::Style);

/// `Style::bold` of console: the style with bold added. Nothing is said of
/// the result.
pub assume_specification[ console::Style::bold ](style: console::Style) -> (r: console::Style);

/// Whether `whole` is `part` with something before it and something after
/// it, or with nothing there.
pub open spec fn holds_text(whole: Seq<char>, part: Seq<char>) -> bool {
    exists|before: Seq<char>, after: Seq<char>| whole == before + part + after
}

/// `Style::apply_to` of console, and the text that the styled object
/// displays as: `text` itself, between the codes that switch the style on
/// and off. Whether these codes are written depends on the terminal that
/// the process writes to, so they are not stated.
#[verifier::external_body]
fn styled(style: &console::Style, text: &str) -> (r: String)
    ensures
        holds_text(r@, text@),
{
    style.apply_to(text).to_string()
}

/// How a kind of text is drawn: the numbers of its colours in the
/// 256-colour palette, and whether it is bold. Without a foreground the
/// text has the terminal's own colour.
#[derive(Clone, Copy, Debug, PartialEq, Eq, Structural)]
pub struct Look {
    pub foreground: Option<u8>,
    pub background: u8,
    pub bold: bool,
}

impl Colors {
    /// The style that `paint` is drawn in. Text of the document has the
    /// colour of its class on the common background, keywords in bold, and
    /// text of no class has the background alone. The gutter has its own
    /// colour on the common background, the status bar only a background of
    /// its own, and the mode's name its own two colours, in bold.
    pub open spec fn style_of(self, paint: Paint) -> Look {
        match paint {
            Paint::Text(Category::Keyword) => Look {
                foreground: Some(self.keywords),
                background: self.background,
                bold: true,
            },
            Paint::Text(Category::Type) => Look {
                foreground: Some(self.types),
                background: self.background,
                bold: false,
            },
            Paint::Text(Category::Operator) => Look {
                foreground: Some(self.operators),
                background: self.background,
                bold: false,
            },
            Paint::Text(Category::Integer) => Look {
                foreground: Some(self.integers),
                background: self.background,
                bold: false,
            },
            Paint::Text(Category::String) => Look {
                foreground: Some(self.strings),
                background: self.background,
                bold: false,
            },
            Paint::Text(Category::Default) => Look {
                foreground: None,
                background: self.background,
                bold: false,
            },
            Paint::LineNumber => Look {
                foreground: Some(self.line_numbers),
                background: self.background,
                bold: false,
            },
            Paint::Bar => Look { foreground: None, background: self.bar, bold: false },
            Paint::Mode => Look {
                foreground: Some(self.mode_fg),
                background: self.mode_bg,
                bold: true,
            },
        }
    }

    /// The style that `paint` is drawn in.
    pub fn style(&self, paint: Paint) -> (style: Look)
        ensures
            style == self.style_of(paint),
    {
        let plain = Look { foreground: None, background: self.background, bold: false };
        match paint {
            Paint::Text(Category::Keyword) => Look {
                foreground: Some(self.keywords),
                bold: true,
                ..plain
            },
            Paint::Text(Category::Type) => Look { foreground: Some(self.types), ..plain },
            Paint::Text(Category::Operator) => Look { foreground: Some(self.operators), ..plain },
            Paint::Text(Category::Integer) => Look { foreground: Some(self.integers), ..plain },
            Paint::Text(Category::String) => Look { foreground: Some(self.strings), ..plain },
            Paint::Text(Category::Default) => plain,
            Paint::LineNumber => Look { foreground: Some(self.line_numbers), ..plain },
            Paint::Bar => Look { background: self.bar, ..plain },
            Paint::Mode => Look {
                foreground: Some(self.mode_fg),
                background: self.mode_bg,
                bold: true,
            },
        }
    }

    /// `text` as it is written to the terminal to show in the style of
    /// `paint`: the text between the codes for the style, where the
    /// terminal takes colours.
    pub fn paint(&self, paint: Paint, text: &str) -> (r: String)
        ensures
            holds_text(r@, text@),
    {
        let style = self.style(paint);
        let plain = console::Style::new().on_color256(style.background);
        let coloured = match style.foreground {
            Some(color) => plain.color256(color),
            None => plain,
        };
        let weighted = if style.bold {
            coloured.bold()
        } else {
            coloured
        };
        styled(&weighted, text)
    }
}

impl Syntax {
    /// The tokens of `line`.
    pub fn tokenize(&self, line: &str) -> (r: Result<Vec<Token>, Error>)
        ensures
            match r {
                Ok(found) => self@.tokenize(line@) == Some(tokens(found@)),
                Err(e) => self@.tokenize(line@) is None && e@ == highlighting_failed(),
            },
    {
        let mut words: Vec<String> = Vec::new();
        let mut i: usize = 0;
        while i < self.keywords.len()
            invariant
                i <= self.keywords.len(),
                words.len() == i,
                forall|j: int| 0 <= j < i ==> words[j]@ == self.keywords[j]@,
            decreases self.keywords.len() - i,
        {
            words.push(self.keywords[i].clone());
            i += 1;
        }
        let n = self.keywords.len();
        i = 0;
        while i < self.types.len()
            invariant
                i <= self.types.len(),
                n == self.keywords.len(),
                words.len() == n + i,
                forall|j: int| 0 <= j < n ==> words[j]@ == self.keywords[j]@,
                forall|j: int| 0 <= j < i ==> (#[trigger] words[n + j])@ == self.types[j]@,
            decreases self.types.len() - i,
        {
            words.push(self.types[i].clone());
            i += 1;
        }
        proof {
            let a = texts(words@);
            let b = self@.words();
            assert(a.len() == b.len());
            assert forall|j: int| 0 <= j < a.len() implies a[j] == b[j] by {
                if j >= n {
                    assert(words[n + (j - n)]@ == self.types[j - n]@);
                }
            }
            assert(a =~= b);
        }
        let text = String::from_str(line).concat("  ");
        match lex(&words, &self.sections, &self.symbols, text.as_str()) {
            Some(found) => Ok(found),
            None => Err(Error::new(ErrorKind::RenderError, "syntax highlighting has failed")),
        }
    }

    /// The class of `token`.
    pub fn classify(&self, token: &Token) -> (category: Category)
        ensures
            category == self@.classify(token@),
    {
        if token.is_string() {
            Category::String
        } else if contains_text(&self.keywords, &token.text) {
            Category::Keyword
        } else if contains_text(&self.types, &token.text) {
            Category::Type
        } else if contains_text(&self.operators, &token.text) {
            Category::Operator
        } else if parses_as_number(token.text.as_str()) {
            Category::Integer
        } else {
            Category::Default
        }
    }

    /// `token` as it is shown, with its class.
    pub fn span(&self, token: &Token) -> (span: Span)
        ensures
            span@ == self@.span(token@),
    {
        let category = self.classify(token);
        let text = if token.is_string() {
            let shown = String::from_str("\"").concat(token.text.as_str()).concat("\"");
            proof {
                reveal_strlit("\"");
                assert("\""@ =~= seq!['"']);
            }
            shown
        } else {
            token.text.clone()
        };
        Span { category, text }
    }

    /// `token` as it is written to the terminal to show in the colours of
    /// its class: the text it is shown as, between the codes for the
    /// colours.
    pub fn colorize(&self, token: &Token) -> (r: String)
        ensures
            holds_text(r@, self@.span(token@).text),
    {
        let span = self.span(token);
        self.colors.paint(Paint::Text(span.category), span.text.as_str())
    }

    /// The pieces that `line` is shown as, each with its class, in order.
    /// Fails where the lexer fails on the line.
    pub fn highlight(&self, line: &str) -> (r: Result<Vec<Span>, Error>)
        ensures
            match r {
                Ok(shown) => self@.tokenize(line@) is Some && spans(shown@) == self@.highlight(
                    self@.tokenize(line@)->0,
                ),
                Err(e) => self@.tokenize(line@) is None && e@ == highlighting_failed(),
            },
    {
        let found = match self.tokenize(line) {
            Ok(found) => found,
            Err(e) => {
                return Err(e);
            },
        };
        Ok(self.spans(&found))
    }

    /// The pieces that a line lexed into the tokens `found` is shown as.
    pub fn spans(&self, found: &Vec<Token>) -> (shown: Vec<Span>)
        ensures
            spans(shown@) == self@.highlight(tokens(found@)),
    {
        let mut shown: Vec<Span> = Vec::new();
        let mut i: usize = 0;
        while i < found.len()
            invariant
                i <= found.len(),
                shown.len() == i,
                forall|j: int| 0 <= j < i ==> shown[j]@ == self@.span(found[j]@),
            decreases found.len() - i,
        {
            shown.push(self.span(&found[i]));
            i += 1;
        }
        assert(spans(shown@) =~= self@.highlight(tokens(found@)));
        shown
    }

    /// The column where the next token after column `x` of `line` begins;
    /// `x` itself where no token begins after it. Fails where the lexer
    /// fails on the line or the line is too long for the machine.
    pub fn next_token(&self, line: &str, x: usize) -> (r: Result<usize, Error>)
        ensures
            match r {
                Ok(column) => {
                    &&& self@.tokenize(line@) matches Some(found)
                    &&& total_length(found) <= usize::MAX
                    &&& column == next_boundary_from(found, 0, x as int)
                },
                Err(e) => match self@.tokenize(line@) {
                    Some(found) => total_length(found) > usize::MAX && e@ == line_too_long(),
                    None => e@ == highlighting_failed(),
                },
            },
    {
        let found = match self.tokenize(line) {
            Ok(found) => found,
            Err(e) => {
                return Err(e);
            },
        };
        match next_boundary(&found, x) {
            Some(column) => Ok(column),
            None => Err(Error::new(ErrorKind::RenderError, "line too long")),
        }
    }

    /// The column where the token begins that column `x` of `line` lies in
    /// or comes right after: the first token that ends at `x` or after it;
    /// `x` itself where the line ends before `x`. Fails where the lexer
    /// fails on the line or the line is too long for the machine.
    pub fn previous_token(&self, line: &str, x: usize) -> (r: Result<usize, Error>)
        ensures
            match r {
                Ok(column) => {
                    &&& self@.tokenize(line@) matches Some(found)
                    &&& total_length(found) <= usize::MAX
                    &&& column == previous_boundary_from(found, 0, x as int)
                },
                Err(e) => match self@.tokenize(line@) {
                    Some(found) => total_length(found) > usize::MAX && e@ == line_too_long(),
                    None => e@ == highlighting_failed(),
                },
            },
    {
        let found = match self.tokenize(line) {
            Ok(found) => found,
            Err(e) => {
                return Err(e);
            },
        };
        match previous_boundary(&found, x) {
            Some(column) => Ok(column),
            None => Err(Error::new(ErrorKind::RenderError, "line too long")),
        }
    }
}

impl Token {
    /// The columns that the token takes in its line, where that number
    /// fits the machine.
    pub fn length(&self) -> (length: Option<usize>)
        ensures
            match length {
                Some(n) => n == token_length(self@),
                None => token_length(self@) > usize::MAX,
            },
    {
        let length = self.text.as_str().unicode_len();
        if self.is_string() {
            length.checked_add(2)
        } else {
            Some(length)
        }
    }
}

/// The column where each token of `found` begins, and after them the
/// column where the last one ends; `None` where the tokens take more
/// columns than the machine can count.
pub fn token_starts(found: &Vec<Token>) -> (r: Option<Vec<usize>>)
    ensures
        match r {
            Some(starts) => {
                &&& starts.len() == found.len() + 1
                &&& forall|i: int|
                    0 <= i <= found.len() ==> #[trigger] starts[i] == start_of(tokens(found@), i)
            },
            None => total_length(tokens(found@)) > usize::MAX,
        },
{
    let mut starts: Vec<usize> = Vec::new();
    starts.push(0);
    let mut i: usize = 0;
    while i < found.len()
        invariant
            i <= found.len(),
            starts.len() == i + 1,
            forall|j: int| 0 <= j <= i ==> #[trigger] starts[j] == start_of(tokens(found@), j),
        decreases found.len() - i,
    {
        let end = match found[i].length() {
            Some(length) => starts[i].checked_add(length),
            None => None,
        };
        proof {
            assert(tokens(found@)[i as int] == found[i as int]@);
            lemma_start_of_grows(tokens(found@), i as int, i as int);
            lemma_start_of_grows(tokens(found@), i + 1, found.len() as int);
        }
        match end {
            Some(end) => {
                starts.push(end);
            },
            None => {
                return None;
            },
        }
        i += 1;
    }
    Some(starts)
}

/// The column where the first of the tokens `found` begins that begins
/// after column `x`; `x` itself where none does; `None` where the tokens
/// take more columns than the machine can count.
pub fn next_boundary(found: &Vec<Token>, x: usize) -> (r: Option<usize>)
    ensures
        match r {
            Some(column) => total_length(tokens(found@)) <= usize::MAX && column
                == next_boundary_from(tokens(found@), 0, x as int),
            None => total_length(tokens(found@)) > usize::MAX,
        },
{
    let starts = token_starts(found)?;
    assert(starts[found.len() as int] == total_length(tokens(found@)));
    let mut i: usize = 0;
    while i < found.len()
        invariant
            i <= found.len(),
            starts.len() == found.len() + 1,
            total_length(tokens(found@)) <= usize::MAX,
            forall|j: int|
                0 <= j <= found.len() ==> #[trigger] starts[j] == start_of(tokens(found@), j),
            next_boundary_from(tokens(found@), 0, x as int) == next_boundary_from(
                tokens(found@),
                i as int,
                x as int,
            ),
        decreases found.len() - i,
    {
        if starts[i] > x {
            return Some(starts[i]);
        }
        i += 1;
    }
    Some(x)
}

/// The column where the first of the tokens `found` begins that ends at
/// column `x` or after it; `x` itself where none does; `None` where the
/// tokens take more columns than the machine can count.
pub fn previous_boundary(found: &Vec<Token>, x: usize) -> (r: Option<usize>)
    ensures
        match r {
            Some(column) => total_length(tokens(found@)) <= usize::MAX && column
                == previous_boundary_from(tokens(found@), 0, x as int),
            None => total_length(tokens(found@)) > usize::MAX,
        },
{
    let starts = token_starts(found)?;
    assert(starts[found.len() as int] == total_length(tokens(found@)));
    let mut i: usize = 0;
    while i < found.len()
        invariant
            i <= found.len(),
            starts.len() == found.len() + 1,
            total_length(tokens(found@)) <= usize::MAX,
            forall|j: int|
                0 <= j <= found.len() ==> #[trigger] starts[j] == start_of(tokens(found@), j),
            previous_boundary_from(tokens(found@), 0, x as int) == previous_boundary_from(
                tokens(found@),
                i as int,
                x as int,
            ),
        decreases found.len() - i,
    {
        if starts[i + 1] >= x {
            return Some(starts[i]);
        }
        i += 1;
    }
    Some(x)
}

} // verus!
