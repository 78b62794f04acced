//! Tokens: the vocabulary shared by the lexer and the parser.

use vstd::prelude::*;

verus! {

/// What sort of token a piece of source text is.
///
/// Keywords are not a kind of their own: they are identifiers, told apart by
/// their text where the grammar asks for one.
#[derive(Clone, Copy, Debug, PartialEq, Eq, Structural)]
pub enum TokenKind {
    Identifier,
    Number,
    SingleQuoteString,
    DoubleQuoteString,
    Comment,
    EndOfLine,
    EndOfFile,
    LeftParen,
    RightParen,
    LeftBracket,
    RightBracket,
    LeftBrace,
    RightBrace,
    Comma,
    Colon,
    Equal,
    Plus,
    Minus,
    Star,
    Bang,
    Ampersand,
    Or,
    And,
    LessThan,
    GreaterThan,
    LessThanOrEqual,
    GreaterThanOrEqual,
    EqualTo,
    NotEqualTo,
    /// Any character the lexer has no rule for, kept for the parser to reject.
    Other,
}

/// The model of a token: its kind, its text and where it starts in the source,
/// counted in characters.
pub struct TokenView {
    pub kind: TokenKind,
    pub text: Seq<char>,
    pub pos: usize,
}

/// One token of source text.
#[derive(Clone, Debug)]
pub struct Token {
    pub kind: TokenKind,
    pub text: String,
    pub pos: usize,
}

impl View for Token {
    type V = TokenView;

    open spec fn view(&self) -> TokenView {
        TokenView { kind: self.kind, text: self.text@, pos: self.pos }
    }
}

/// The models of a sequence of tokens, one for one.
pub open spec fn tokens_view(tokens: Seq<Token>) -> Seq<TokenView> {
    Seq::new(tokens.len(), |i: int| tokens[i]@)
}

/// The name of a token kind, as it is shown in messages and placeholders.
pub open spec fn kind_name(kind: TokenKind) -> Seq<char> {
    match kind {
        TokenKind::Identifier => "Identifier"@,
        TokenKind::Number => "Number"@,
        TokenKind::SingleQuoteString => "SingleQuoteString"@,
        TokenKind::DoubleQuoteString => "DoubleQuoteString"@,
        TokenKind::Comment => "Comment"@,
        TokenKind::EndOfLine => "EndOfLine"@,
        TokenKind::EndOfFile => "EndOfFile"@,
        TokenKind::LeftParen => "LeftParen"@,
        TokenKind::RightParen => "RightParen"@,
        TokenKind::LeftBracket => "LeftBracket"@,
        TokenKind::RightBracket => "RightBracket"@,
        TokenKind::LeftBrace => "LeftBrace"@,
        TokenKind::RightBrace => "RightBrace"@,
        TokenKind::Comma => "Comma"@,
        TokenKind::Colon => "Colon"@,
        TokenKind::Equal => "Equal"@,
        TokenKind::Plus => "Plus"@,
        TokenKind::Minus => "Minus"@,
        TokenKind::Star => "Star"@,
        TokenKind::Bang => "Bang"@,
        TokenKind::Ampersand => "Ampersand"@,
        TokenKind::Or => "Or"@,
        TokenKind::And => "And"@,
        TokenKind::LessThan => "LessThan"@,
        TokenKind::GreaterThan => "GreaterThan"@,
        TokenKind::LessThanOrEqual => "LessThanOrEqual"@,
        TokenKind::GreaterThanOrEqual => "GreaterThanOrEqual"@,
        TokenKind::EqualTo => "EqualTo"@,
        TokenKind::NotEqualTo => "NotEqualTo"@,
        TokenKind::Other => "Other"@,
    }
}

impl TokenKind {
    /// The kind's name.
    pub fn name(&self) -> (r: &'static str)
        ensures
            r@ == kind_name(*self),
    {
        match self {
            TokenKind::Identifier => "Identifier",
            TokenKind::Number => "Number",
            TokenKind::SingleQuoteString => "SingleQuoteString",
            TokenKind::DoubleQuoteString => "DoubleQuoteString",
            TokenKind::Comment => "Comment",
            TokenKind::EndOfLine => "EndOfLine",
            TokenKind::EndOfFile => "EndOfFile",
            TokenKind::LeftParen => "LeftParen",
            TokenKind::RightParen => "RightParen",
            TokenKind::LeftBracket => "LeftBracket",
            TokenKind::RightBracket => "RightBracket",
            TokenKind::LeftBrace => "LeftBrace",
            TokenKind::RightBrace => "RightBrace",
            TokenKind::Comma => "Comma",
            TokenKind::Colon => "Colon",
            TokenKind::Equal => "Equal",
            TokenKind::Plus => "Plus",
            TokenKind::Minus => "Minus",
            TokenKind::Star => "Star",
            TokenKind::Bang => "Bang",
            TokenKind::Ampersand => "Ampersand",
            TokenKind::Or => "Or",
            TokenKind::And => "And",
            TokenKind::LessThan => "LessThan",
            TokenKind::GreaterThan => "GreaterThan",
            TokenKind::LessThanOrEqual => "LessThanOrEqual",
            TokenKind::GreaterThanOrEqual => "GreaterThanOrEqual",
            TokenKind::EqualTo => "EqualTo",
            TokenKind::NotEqualTo => "NotEqualTo",
            TokenKind::Other => "Other",
        }
    }
}

impl Token {
    /// A token of the given kind and text that starts at `pos`.
    pub fn new(kind: TokenKind, text: &str, pos: usize) -> (r: Token)
        ensures
            r@ == (TokenView { kind, text: text@, pos }),
    {
        Token { kind, text: String::from_str(text), pos }
    }

    /// A copy of the token.
    pub fn duplicate(&self) -> (r: Token)
        ensures
            r@ == self@,
    {
        Token { kind: self.kind, text: self.text.clone(), pos: self.pos }
    }

    /// Whether the token's text is exactly this.
    pub fn has_text(&self, text: &str) -> (r: bool)
        ensures
            r == (self@.text == text@),
    {
        self.text == String::from_str(text)
    }

    /// Whether the token is an identifier with exactly this text.
    pub fn is_word(&self, word: &str) -> (r: bool)
        ensures
            r == is_word(self@, word@),
    {
        self.kind == TokenKind::Identifier && self.text == String::from_str(word)
    }
}

/// Whether a token is an identifier with exactly this text: the test by which
/// the parser recognises keywords.
pub open spec fn is_word(token: TokenView, word: Seq<char>) -> bool {
    token.kind == TokenKind::Identifier && token.text == word
}

/// A token that stands as a name: an augroup's name, an event, a pattern, a
/// dictionary key.
#[derive(Clone, Debug)]
pub struct Literal {
    pub token: Token,
}

impl View for Literal {
    type V = TokenView;

    open spec fn view(&self) -> TokenView {
        self.token@
    }
}

impl Literal {
    /// A copy of the literal.
    pub fn duplicate(&self) -> (r: Literal)
        ensures
            r@ == self@,
    {
        Literal { token: self.token.duplicate() }
    }
}

/// The models of a sequence of literals, one for one.
pub open spec fn literals_view(literals: Seq<Literal>) -> Seq<TokenView> {
    Seq::new(literals.len(), |i: int| literals[i]@)
}

} // verus!
