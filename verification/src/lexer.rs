//! The lexer: from source text to tokens, in one pass.
//!
//! The lexer knows nothing of the grammar. Keywords come out as identifiers,
//! every line break comes out as a token of its own, and a character that no
//! rule covers comes out as a token of kind `Other` for the parser to reject.
//! The only text it refuses is a string literal that is never closed.

use vstd::prelude::*;
use crate::token::{Token, TokenKind, TokenView, tokens_view};

verus! {

/// Why a text could not be cut into tokens.
#[derive(Clone, Copy, Debug, PartialEq, Eq, Structural)]
pub enum LexError {
    /// The string literal that opens at `pos` is never closed.
    UnterminatedString { pos: usize },
}

/// The classes of characters that a token is a run of.
#[derive(Clone, Copy, Debug, PartialEq, Eq, Structural)]
pub enum CharClass {
    /// Letters, digits and the underscore.
    Word,
    /// Decimal digits.
    Digit,
    /// Everything but a line break.
    InLine,
    /// Everything but a single quote.
    InSingleQuotes,
}

pub open spec fn is_digit(c: char) -> bool {
    '0' <= c && c <= '9'
}

pub open spec fn is_word_start(c: char) -> bool {
    ('a' <= c && c <= 'z') || ('A' <= c && c <= 'Z') || c == '_'
}

/// Blanks separate tokens and belong to none. A line break is no blank.
pub open spec fn is_blank(c: char) -> bool {
    c == ' ' || c == '\t' || c == '\r'
}

pub open spec fn in_class(class: CharClass, c: char) -> bool {
    match class {
        CharClass::Word => is_word_start(c) || is_digit(c),
        CharClass::Digit => is_digit(c),
        CharClass::InLine => c != '\n',
        CharClass::InSingleQuotes => c != '\'',
    }
}

/// Where the longest run of characters of `class` that starts at `i` ends.
pub open spec fn run_end(s: Seq<char>, i: int, class: CharClass) -> int
    decreases s.len() - i,
{
    if 0 <= i < s.len() && in_class(class, s[i]) {
        run_end(s, i + 1, class)
    } else {
        i
    }
}

/// Where the double quote is that closes a string whose contents start at
/// `i`; a backslash takes the character after it along. A result at the end
/// of the text means that the string is never closed.
pub open spec fn closing_quote(s: Seq<char>, i: int) -> int
    decreases s.len() - i,
{
    if i < 0 || i >= s.len() {
        i
    } else if s[i] == '"' {
        i
    } else if s[i] == '\\' && i + 2 <= s.len() {
        closing_quote(s, i + 2)
    } else {
        closing_quote(s, i + 1)
    }
}

/// Where a number that starts at `i` ends: after its digits, and after a
/// fraction if a dot and a digit follow them.
pub open spec fn number_end(s: Seq<char>, i: int) -> int {
    let whole = run_end(s, i, CharClass::Digit);
    if whole + 1 < s.len() && s[whole] == '.' && is_digit(s[whole + 1]) {
        run_end(s, whole + 1, CharClass::Digit)
    } else {
        whole
    }
}

/// The kind of an operator of two characters, if the two make one.
pub open spec fn pair_kind(a: char, b: char) -> Option<TokenKind> {
    if a == '<' && b == '=' {
        Some(TokenKind::LessThanOrEqual)
    } else if a == '>' && b == '=' {
        Some(TokenKind::GreaterThanOrEqual)
    } else if a == '=' && b == '=' {
        Some(TokenKind::EqualTo)
    } else if a == '!' && b == '=' {
        Some(TokenKind::NotEqualTo)
    } else if a == '&' && b == '&' {
        Some(TokenKind::And)
    } else if a == '|' && b == '|' {
        Some(TokenKind::Or)
    } else {
        None
    }
}

/// The kind of a token of one character.
pub open spec fn single_kind(c: char) -> TokenKind {
    if c == '(' {
        TokenKind::LeftParen
    } else if c == ')' {
        TokenKind::RightParen
    } else if c == '[' {
        TokenKind::LeftBracket
    } else if c == ']' {
        TokenKind::RightBracket
    } else if c == '{' {
        TokenKind::LeftBrace
    } else if c == '}' {
        TokenKind::RightBrace
    } else if c == ',' {
        TokenKind::Comma
    } else if c == ':' {
        TokenKind::Colon
    } else if c == '=' {
        TokenKind::Equal
    } else if c == '+' {
        TokenKind::Plus
    } else if c == '-' {
        TokenKind::Minus
    } else if c == '*' {
        TokenKind::Star
    } else if c == '!' {
        TokenKind::Bang
    } else if c == '&' {
        TokenKind::Ampersand
    } else if c == '<' {
        TokenKind::LessThan
    } else if c == '>' {
        TokenKind::GreaterThan
    } else {
        TokenKind::Other
    }
}

/// The token of kind `kind` that starts at `at` and whose text is the
/// characters of `s` from `from` up to `to`.
pub open spec fn cut(kind: TokenKind, s: Seq<char>, from: int, to: int, at: int) -> TokenView {
    TokenView { kind, text: s.subrange(from, to), pos: at as usize }
}

/// The token that starts at `i`, where `s` has a character that is no blank,
/// and the place after it.
///
/// The text of a string is what stands between its quotes, and the text of
/// a comment is what follows its `#`.
pub open spec fn token_at(s: Seq<char>, i: int) -> Result<(TokenView, int), LexError> {
    let c = s[i];
    if c == '\n' {
        Ok((cut(TokenKind::EndOfLine, s, i, i + 1, i), i + 1))
    } else if is_word_start(c) {
        let end = run_end(s, i, CharClass::Word);
        Ok((cut(TokenKind::Identifier, s, i, end, i), end))
    } else if is_digit(c) {
        let end = number_end(s, i);
        Ok((cut(TokenKind::Number, s, i, end, i), end))
    } else if c == '\'' {
        let close = run_end(s, i + 1, CharClass::InSingleQuotes);
        if close >= s.len() {
            Err(LexError::UnterminatedString { pos: i as usize })
        } else {
            Ok((cut(TokenKind::SingleQuoteString, s, i + 1, close, i), close + 1))
        }
    } else if c == '"' {
        let close = closing_quote(s, i + 1);
        if close >= s.len() {
            Err(LexError::UnterminatedString { pos: i as usize })
        } else {
            Ok((cut(TokenKind::DoubleQuoteString, s, i + 1, close, i), close + 1))
        }
    } else if c == '#' {
        let end = run_end(s, i + 1, CharClass::InLine);
        Ok((cut(TokenKind::Comment, s, i + 1, end, i), end))
    } else if i + 1 < s.len() && pair_kind(c, s[i + 1]) is Some {
        Ok((cut(pair_kind(c, s[i + 1])->0, s, i, i + 2, i), i + 2))
    } else {
        Ok((cut(single_kind(c), s, i, i + 1, i), i + 1))
    }
}

/// The token that ends every token sequence: it has no text and stands at
/// the end of the source.
pub open spec fn end_token(s: Seq<char>) -> TokenView {
    TokenView { kind: TokenKind::EndOfFile, text: Seq::empty(), pos: s.len() as usize }
}

/// The tokens of `s` from `i` on.
pub open spec fn lex_from(s: Seq<char>, i: int) -> Result<Seq<TokenView>, LexError>
    decreases s.len() - i,
{
    if i < 0 || i >= s.len() {
        Ok(seq![end_token(s)])
    } else if is_blank(s[i]) {
        lex_from(s, i + 1)
    } else {
        match token_at(s, i) {
            Ok((token, end)) => {
                proof {
                    lemma_token_at_advances(s, i);
                }
                match lex_from(s, end) {
                    Ok(rest) => Ok(seq![token] + rest),
                    Err(e) => Err(e),
                }
            },
            Err(e) => Err(e),
        }
    }
}

/// The tokens of a source text: each token in the order of the text, then
/// the end token; or the first string literal that is never closed.
pub open spec fn lex(s: Seq<char>) -> Result<Seq<TokenView>, LexError> {
    lex_from(s, 0)
}

/// A run ends at or after its start, and within the text.
pub proof fn lemma_run_end_bounds(s: Seq<char>, i: int, class: CharClass)
    requires
        0 <= i <= s.len(),
    ensures
        i <= run_end(s, i, class) <= s.len(),
        0 <= i < s.len() && in_class(class, s[i]) ==> i < run_end(s, i, class),
    decreases s.len() - i,
{
    if i < s.len() && in_class(class, s[i]) {
        lemma_run_end_bounds(s, i + 1, class);
    }
}

/// The closing quote is looked for at or after the start.
pub proof fn lemma_closing_quote_bounds(s: Seq<char>, i: int)
    requires
        0 <= i,
    ensures
        i <= s.len() ==> i <= closing_quote(s, i) <= s.len(),
    decreases s.len() - i,
{
    if i < s.len() && s[i] != '"' {
        if s[i] == '\\' && i + 2 <= s.len() {
            lemma_closing_quote_bounds(s, i + 2);
        } else {
            lemma_closing_quote_bounds(s, i + 1);
        }
    }
}

/// Every token takes at least one character and ends within the text.
pub proof fn lemma_token_at_advances(s: Seq<char>, i: int)
    requires
        0 <= i < s.len(),
    ensures
        token_at(s, i) is Ok ==> i < token_at(s, i)->Ok_0.1 <= s.len(),
{
    lemma_run_end_bounds(s, i, CharClass::Word);
    lemma_run_end_bounds(s, i, CharClass::Digit);
    lemma_run_end_bounds(s, i + 1, CharClass::InLine);
    lemma_run_end_bounds(s, i + 1, CharClass::InSingleQuotes);
    lemma_closing_quote_bounds(s, i + 1);
    let whole = run_end(s, i, CharClass::Digit);
    if whole + 1 < s.len() {
        lemma_run_end_bounds(s, whole + 1, CharClass::Digit);
    }
}

/// The model of a lexer's result.
pub open spec fn lexed_view(r: Result<Vec<Token>, LexError>) -> Result<Seq<TokenView>, LexError> {
    match r {
        Ok(tokens) => Ok(tokens_view(tokens@)),
        Err(e) => Err(e),
    }
}

/// `r` with `before` in front of its tokens.
pub open spec fn after(before: Seq<TokenView>, r: Result<Seq<TokenView>, LexError>) -> Result<
    Seq<TokenView>,
    LexError,
> {
    match r {
        Ok(rest) => Ok(before + rest),
        Err(e) => Err(e),
    }
}

impl CharClass {
    /// Whether `c` belongs to the class.
    pub fn has(&self, c: char) -> (r: bool)
        ensures
            r == in_class(*self, c),
    {
        match self {
            CharClass::Word => ('a' <= c && c <= 'z') || ('A' <= c && c <= 'Z') || c == '_'
                || ('0' <= c && c <= '9'),
            CharClass::Digit => '0' <= c && c <= '9',
            CharClass::InLine => c != '\n',
            CharClass::InSingleQuotes => c != '\'',
        }
    }
}

/// The characters of a string, in their order.
fn chars_of(s: &str) -> (v: Vec<char>)
    ensures
        v@ == s@,
{
    let mut v: Vec<char> = Vec::new();
    for c in it: s.chars()
        invariant
            v@ == it.seq().take(it.index() as int),
            it.seq() == s@,
    {
        v.push(c);
    }
    v
}

/// Where the run of `class` that starts at `i` ends.
fn scan(chars: &Vec<char>, i: usize, class: CharClass) -> (end: usize)
    requires
        i <= chars@.len(),
    ensures
        end == run_end(chars@, i as int, class),
        i <= end <= chars@.len(),
{
    let mut j = i;
    while j < chars.len() && class.has(chars[j])
        invariant
            i <= j <= chars@.len(),
            run_end(chars@, i as int, class) == run_end(chars@, j as int, class),
        decreases chars@.len() - j,
    {
        j += 1;
    }
    j
}

/// Where the double quote is that closes the string whose contents start at
/// `i`, or a place at or past the end if there is none.
fn scan_string(chars: &Vec<char>, i: usize) -> (end: usize)
    requires
        i <= chars@.len(),
    ensures
        end == closing_quote(chars@, i as int),
        i <= end <= chars@.len(),
{
    let mut j = i;
    while j < chars.len() && chars[j] != '"'
        invariant
            i <= j <= chars@.len(),
            closing_quote(chars@, i as int) == closing_quote(chars@, j as int),
        decreases chars@.len() - j,
    {
        if chars[j] == '\\' && j < chars.len() - 1 {
            j += 2;
        } else {
            j += 1;
        }
    }
    j
}

/// The token of kind `kind` at `at` whose text is `source` from `from` up to `to`.
fn cut_token(source: &str, kind: TokenKind, from: usize, to: usize, at: usize) -> (r: Token)
    requires
        from <= to <= source@.len(),
    ensures
        r@ == cut(kind, source@, from as int, to as int, at as int),
{
    Token { kind, text: String::from_str(source.substring_char(from, to)), pos: at }
}

/// The kind of the operator that `a` and `b` make, if they make one.
fn pair_of(a: char, b: char) -> (r: Option<TokenKind>)
    ensures
        r == pair_kind(a, b),
{
    if a == '<' && b == '=' {
        Some(TokenKind::LessThanOrEqual)
    } else if a == '>' && b == '=' {
        Some(TokenKind::GreaterThanOrEqual)
    } else if a == '=' && b == '=' {
        Some(TokenKind::EqualTo)
    } else if a == '!' && b == '=' {
        Some(TokenKind::NotEqualTo)
    } else if a == '&' && b == '&' {
        Some(TokenKind::And)
    } else if a == '|' && b == '|' {
        Some(TokenKind::Or)
    } else {
        None
    }
}

/// The kind of the token that the character `c` makes alone.
fn single_of(c: char) -> (r: TokenKind)
    ensures
        r == single_kind(c),
{
    if c == '(' {
        TokenKind::LeftParen
    } else if c == ')' {
        TokenKind::RightParen
    } else if c == '[' {
        TokenKind::LeftBracket
    } else if c == ']' {
        TokenKind::RightBracket
    } else if c == '{' {
        TokenKind::LeftBrace
    } else if c == '}' {
        TokenKind::RightBrace
    } else if c == ',' {
        TokenKind::Comma
    } else if c == ':' {
        TokenKind::Colon
    } else if c == '=' {
        TokenKind::Equal
    } else if c == '+' {
        TokenKind::Plus
    } else if c == '-' {
        TokenKind::Minus
    } else if c == '*' {
        TokenKind::Star
    } else if c == '!' {
        TokenKind::Bang
    } else if c == '&' {
        TokenKind::Ampersand
    } else if c == '<' {
        TokenKind::LessThan
    } else if c == '>' {
        TokenKind::GreaterThan
    } else {
        TokenKind::Other
    }
}

/// The token that starts at `i` and the place after it.
fn next_token(source: &str, chars: &Vec<char>, i: usize) -> (r: Result<(Token, usize), LexError>)
    requires
        chars@ == source@,
        i < chars@.len(),
    ensures
        match r {
            Ok((token, end)) => token_at(source@, i as int) == Ok::<(TokenView, int), LexError>(
                (token@, end as int),
            ) && i < end <= chars@.len(),
            Err(e) => token_at(source@, i as int) == Err::<(TokenView, int), LexError>(e),
        },
{
    proof {
        lemma_token_at_advances(source@, i as int);
    }
    let n = chars.len();
    let c = chars[i];
    if c == '\n' {
        Ok((cut_token(source, TokenKind::EndOfLine, i, i + 1, i), i + 1))
    } else if ('a' <= c && c <= 'z') || ('A' <= c && c <= 'Z') || c == '_' {
        let end = scan(chars, i, CharClass::Word);
        Ok((cut_token(source, TokenKind::Identifier, i, end, i), end))
    } else if '0' <= c && c <= '9' {
        let whole = scan(chars, i, CharClass::Digit);
        let end = if whole < chars.len() - 1 && chars[whole] == '.' && CharClass::Digit.has(
            chars[whole + 1],
        ) {
            scan(chars, whole + 1, CharClass::Digit)
        } else {
            whole
        };
        Ok((cut_token(source, TokenKind::Number, i, end, i), end))
    } else if c == '\'' {
        let close = scan(chars, i + 1, CharClass::InSingleQuotes);
        if close >= chars.len() {
            Err(LexError::UnterminatedString { pos: i })
        } else {
            Ok((cut_token(source, TokenKind::SingleQuoteString, i + 1, close, i), close + 1))
        }
    } else if c == '"' {
        let close = scan_string(chars, i + 1);
        if close >= chars.len() {
            Err(LexError::UnterminatedString { pos: i })
        } else {
            Ok((cut_token(source, TokenKind::DoubleQuoteString, i + 1, close, i), close + 1))
        }
    } else if c == '#' {
        let end = scan(chars, i + 1, CharClass::InLine);
        Ok((cut_token(source, TokenKind::Comment, i + 1, end, i), end))
    } else {
        let pair = if i < chars.len() - 1 {
            pair_of(c, chars[i + 1])
        } else {
            None
        };
        match pair {
            Some(kind) => Ok((cut_token(source, kind, i, i + 2, i), i + 2)),
            None => Ok((cut_token(source, single_of(c), i, i + 1, i), i + 1)),
        }
    }
}

/// Cuts a source text into tokens.
///
/// The result holds every token of the text in the text's order, each with
/// its kind, its text and the place where it starts, and ends with the end
/// token. Blanks separate tokens and are dropped; line breaks are tokens.
/// The text is refused if and only if it opens a string literal that it
/// never closes, with the place of the first such literal.
pub fn tokenize(source: &str) -> (r: Result<Vec<Token>, LexError>)
    ensures
        lexed_view(r) == lex(source@),
{
    let chars = chars_of(source);
    let n = chars.len();
    let mut tokens: Vec<Token> = Vec::new();
    let mut i: usize = 0;
    assert(tokens_view(tokens@) + lex_from(source@, 0)->Ok_0 =~= lex_from(source@, 0)->Ok_0);
    while i < n
        invariant
            i <= n,
            n == chars@.len(),
            chars@ == source@,
            lex(source@) == after(tokens_view(tokens@), lex_from(source@, i as int)),
        decreases n - i,
    {
        let c = chars[i];
        if c == ' ' || c == '\t' || c == '\r' {
            i += 1;
        } else {
            match next_token(source, &chars, i) {
                Ok((token, end)) => {
                    let ghost before = tokens_view(tokens@);
                    let ghost rest = lex_from(source@, end as int);
                    tokens.push(token);
                    assert(tokens_view(tokens@) =~= before.push(token@));
                    proof {
                        if let Ok(tail) = rest {
                            assert(before + (seq![token@] + tail) =~= before.push(token@) + tail);
                        }
                    }
                    i = end;
                },
                Err(e) => {
                    return Err(e);
                },
            }
        }
    }
    let ghost before = tokens_view(tokens@);
    tokens.push(Token { kind: TokenKind::EndOfFile, text: String::new(), pos: n });
    assert(tokens_view(tokens@) =~= before + seq![end_token(source@)]);
    Ok(tokens)
}

} // verus!
