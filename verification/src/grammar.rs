//! The grammar: which tree a sequence of tokens is, stated over the models
//! of tokens and trees.
//!
//! Every rule is a function from the tokens and a place among them to the
//! tree that starts there and the place after it, or to the first violation
//! found. Commands are told apart by their leading keyword; expressions are
//! read by precedence climbing.

use vstd::prelude::*;
use crate::token::{TokenKind, TokenView, is_word};
use crate::ast::{
    BlockView, CommandView, ExprView, IdentView, Operator, ParamView, Quote, VimScope,
};

verus! {

/// A keyword that a rule asks for by name.
#[derive(Clone, Copy, Debug, PartialEq, Eq, Structural)]
pub enum Keyword {
    Augroup,
    End,
    Autocmd,
    Def,
    EndDef,
    If,
    EndIf,
}

/// What a rule asked for where it found something else.
#[derive(Clone, Copy, Debug, PartialEq, Eq, Structural)]
pub enum Expected {
    /// A token of this kind.
    Kind(TokenKind),
    /// This keyword.
    Word(Keyword),
    /// The end of the line.
    EndOfLine,
    /// The start of an expression.
    Expression,
    /// A name: an event, a pattern, a dictionary key.
    Literal,
    /// An assignment or a call, where an expression stands as a command.
    Command,
    /// A rule that ends past the place where it started. Every rule of this
    /// grammar does, so no token sequence is refused for this.
    Progress,
}

/// A violation of the grammar: what was asked for, the kind of the token
/// found in its place, and where that token starts in the source.
#[derive(Clone, Copy, Debug, PartialEq, Eq, Structural)]
pub struct ParseError {
    pub expected: Expected,
    pub found: TokenKind,
    pub pos: usize,
}

/// Where a body of commands stops.
#[derive(Clone, Copy, Debug, PartialEq, Eq, Structural)]
pub enum Stop {
    /// At the end of the tokens only.
    End,
    /// Before `enddef`.
    EndDef,
    /// Before `endif`.
    EndIf,
    /// Before `augroup`.
    Augroup,
    /// Before a closing brace.
    Brace,
}

pub const LOWEST: u8 = 0;

pub const OR: u8 = 1;

pub const AND: u8 = 2;

pub const COMPARE: u8 = 3;

pub const SUM: u8 = 4;

pub const PRODUCT: u8 = 5;

pub const PREFIX: u8 = 6;

pub const CALL: u8 = 7;

pub open spec fn keyword_text(keyword: Keyword) -> Seq<char> {
    match keyword {
        Keyword::Augroup => "augroup"@,
        Keyword::End => "END"@,
        Keyword::Autocmd => "autocmd"@,
        Keyword::Def => "def"@,
        Keyword::EndDef => "enddef"@,
        Keyword::If => "if"@,
        Keyword::EndIf => "endif"@,
    }
}

/// The kind of the token at `pos`; past the last token, the end of the file.
pub open spec fn kind_at(toks: Seq<TokenView>, pos: int) -> TokenKind {
    if 0 <= pos < toks.len() {
        toks[pos].kind
    } else {
        TokenKind::EndOfFile
    }
}

/// Whether the token at `pos` is the identifier `word`.
pub open spec fn word_at(toks: Seq<TokenView>, pos: int, word: Seq<char>) -> bool {
    0 <= pos < toks.len() && is_word(toks[pos], word)
}

/// The violation found at `pos` by a rule that asked for `expected`.
pub open spec fn fail(toks: Seq<TokenView>, pos: int, expected: Expected) -> ParseError {
    ParseError {
        expected,
        found: kind_at(toks, pos),
        pos: if 0 <= pos < toks.len() {
            toks[pos].pos
        } else if toks.len() > 0 {
            toks[toks.len() - 1].pos
        } else {
            0
        },
    }
}

/// The place after the token at `pos`, which must be of kind `kind`.
pub open spec fn expect_kind(toks: Seq<TokenView>, pos: int, kind: TokenKind) -> Result<
    int,
    ParseError,
> {
    if kind_at(toks, pos) == kind && 0 <= pos < toks.len() {
        Ok(pos + 1)
    } else {
        Err(fail(toks, pos, Expected::Kind(kind)))
    }
}

/// The place after the token at `pos`, which must be the keyword `keyword`.
pub open spec fn expect_word(toks: Seq<TokenView>, pos: int, keyword: Keyword) -> Result<
    int,
    ParseError,
> {
    if word_at(toks, pos, keyword_text(keyword)) {
        Ok(pos + 1)
    } else {
        Err(fail(toks, pos, Expected::Word(keyword)))
    }
}

/// The place after the end of the line at `pos`. A line also ends where the
/// tokens end; the end token is left in place.
pub open spec fn expect_eol(toks: Seq<TokenView>, pos: int) -> Result<int, ParseError> {
    if kind_at(toks, pos) == TokenKind::EndOfLine {
        Ok(pos + 1)
    } else if kind_at(toks, pos) == TokenKind::EndOfFile {
        Ok(pos)
    } else {
        Err(fail(toks, pos, Expected::EndOfLine))
    }
}

/// The result of a rule that started at `pos`: it ends past `pos` and
/// within the tokens.
pub open spec fn within<T>(toks: Seq<TokenView>, pos: int, r: Result<(T, int), ParseError>) -> Result<
    (T, int),
    ParseError,
> {
    match r {
        Ok((_, end)) => if pos < end <= toks.len() {
            r
        } else {
            Err(fail(toks, pos, Expected::Progress))
        },
        Err(_) => r,
    }
}

/// The scope that a scope marker names.
pub open spec fn scope_of(marker: Seq<char>) -> Option<VimScope> {
    if marker == "g"@ {
        Some(VimScope::Global)
    } else if marker == "t"@ {
        Some(VimScope::Tab)
    } else if marker == "w"@ {
        Some(VimScope::Window)
    } else if marker == "b"@ {
        Some(VimScope::Buffer)
    } else if marker == "s"@ {
        Some(VimScope::Script)
    } else if marker == "l"@ {
        Some(VimScope::Local)
    } else if marker == "a"@ {
        Some(VimScope::Argument)
    } else if marker == "v"@ {
        Some(VimScope::VimVar)
    } else {
        None
    }
}

/// The binary operator that a token kind stands for, and how tightly it binds.
pub open spec fn infix_operator(kind: TokenKind) -> Option<(Operator, u8)> {
    match kind {
        TokenKind::Or => Some((Operator::Or, OR)),
        TokenKind::And => Some((Operator::And, AND)),
        TokenKind::LessThan => Some((Operator::LessThan, COMPARE)),
        TokenKind::GreaterThan => Some((Operator::GreaterThan, COMPARE)),
        TokenKind::LessThanOrEqual => Some((Operator::LessThanOrEqual, COMPARE)),
        TokenKind::GreaterThanOrEqual => Some((Operator::GreaterThanOrEqual, COMPARE)),
        TokenKind::Plus => Some((Operator::Plus, SUM)),
        TokenKind::Minus => Some((Operator::Minus, SUM)),
        TokenKind::Star => Some((Operator::Multiply, PRODUCT)),
        _ => None,
    }
}

/// The unary operator that a token kind stands for.
pub open spec fn prefix_operator(kind: TokenKind) -> Option<Operator> {
    match kind {
        TokenKind::Bang => Some(Operator::Bang),
        TokenKind::Minus => Some(Operator::Minus),
        TokenKind::Plus => Some(Operator::Plus),
        _ => None,
    }
}

/// Whether a token of this kind can stand as a name.
pub open spec fn is_literal_kind(kind: TokenKind) -> bool {
    kind == TokenKind::Identifier || kind == TokenKind::Star || kind == TokenKind::Number || kind
        == TokenKind::SingleQuoteString || kind == TokenKind::DoubleQuoteString
}

/// The identifier that starts at `pos`, where an identifier token stands:
/// `true` and `false` are booleans, a scope marker with a colon and a name
/// is a scoped identifier, and anything else is a plain name.
pub open spec fn parse_identifier(toks: Seq<TokenView>, pos: int) -> (ExprView, int) {
    let text = toks[pos].text;
    if text == "true"@ {
        (ExprView::Boolean(true), pos + 1)
    } else if text == "false"@ {
        (ExprView::Boolean(false), pos + 1)
    } else if scope_of(text) is Some && kind_at(toks, pos + 1) == TokenKind::Colon && kind_at(
        toks,
        pos + 2,
    ) == TokenKind::Identifier {
        (
            ExprView::Identifier(
                IdentView::Scoped(scope_of(text)->0, Box::new(IdentView::Raw(toks[pos + 2].text))),
            ),
            pos + 3,
        )
    } else {
        (ExprView::Identifier(IdentView::Raw(text)), pos + 1)
    }
}

/// The expression that starts at `pos` and whose operators all bind more
/// tightly than `prec`.
pub open spec fn parse_expr(toks: Seq<TokenView>, pos: int, prec: u8) -> Result<
    (ExprView, int),
    ParseError,
>
    decreases toks.len() - pos, 3int,
{
    match within(toks, pos, parse_prefix(toks, pos)) {
        Ok((left, next)) => parse_infix(toks, next, prec, left),
        Err(e) => Err(e),
    }
}

/// The operand that starts at `pos`: a literal, an identifier, an option, a
/// group in parentheses, an array, a dictionary, or a unary operator with
/// its operand.
pub open spec fn parse_prefix(toks: Seq<TokenView>, pos: int) -> Result<(ExprView, int), ParseError>
    decreases toks.len() - pos, 2int,
{
    if pos < 0 || pos >= toks.len() {
        Err(fail(toks, pos, Expected::Expression))
    } else {
        let token = toks[pos];
        match token.kind {
            TokenKind::Identifier => Ok(parse_identifier(toks, pos)),
            TokenKind::Number => Ok((ExprView::Number(token.text), pos + 1)),
            TokenKind::SingleQuoteString => Ok((ExprView::Str(Quote::Single, token.text), pos + 1)),
            TokenKind::DoubleQuoteString => Ok((ExprView::Str(Quote::Double, token.text), pos + 1)),
            TokenKind::Ampersand => match expect_kind(toks, pos + 1, TokenKind::Identifier) {
                Ok(next) => Ok((ExprView::VimOption(toks[pos + 1]), next)),
                Err(e) => Err(e),
            },
            TokenKind::LeftParen => match within(toks, pos + 1, parse_expr(toks, pos + 1, LOWEST)) {
                Ok((inner, next)) => match expect_kind(toks, next, TokenKind::RightParen) {
                    Ok(end) => Ok((ExprView::Grouped(Box::new(inner)), end)),
                    Err(e) => Err(e),
                },
                Err(e) => Err(e),
            },
            TokenKind::LeftBracket => match parse_list(
                toks,
                pos + 1,
                TokenKind::RightBracket,
                Seq::empty(),
            ) {
                Ok((elements, end)) => Ok((ExprView::Array(elements), end)),
                Err(e) => Err(e),
            },
            TokenKind::LeftBrace => match parse_entries(toks, pos + 1, Seq::empty()) {
                Ok((entries, end)) => Ok((ExprView::Dict(entries), end)),
                Err(e) => Err(e),
            },
            kind => match prefix_operator(kind) {
                Some(op) => match parse_expr(toks, pos + 1, PREFIX) {
                    Ok((right, end)) => Ok((ExprView::Prefix(op, Box::new(right)), end)),
                    Err(e) => Err(e),
                },
                None => Err(fail(toks, pos, Expected::Expression)),
            },
        }
    }
}

/// What `left`, which ends at `pos`, grows into: as long as a call or a
/// binary operator that binds more tightly than `prec` follows, it becomes
/// the callee or the left operand of a larger expression.
pub open spec fn parse_infix(toks: Seq<TokenView>, pos: int, prec: u8, left: ExprView) -> Result<
    (ExprView, int),
    ParseError,
>
    decreases toks.len() - pos, 4int,
{
    if pos < 0 || pos >= toks.len() {
        Ok((left, pos))
    } else if toks[pos].kind == TokenKind::LeftParen && prec < CALL {
        match within(toks, pos, parse_list(toks, pos + 1, TokenKind::RightParen, Seq::empty())) {
            Ok((args, next)) => parse_infix(toks, next, prec, ExprView::Call(Box::new(left), args)),
            Err(e) => Err(e),
        }
    } else {
        match infix_operator(toks[pos].kind) {
            Some((op, binds)) => if prec < binds {
                match within(toks, pos, parse_expr(toks, pos + 1, binds)) {
                    Ok((right, next)) => parse_infix(
                        toks,
                        next,
                        prec,
                        ExprView::Infix(Box::new(left), op, Box::new(right)),
                    ),
                    Err(e) => Err(e),
                }
            } else {
                Ok((left, pos))
            },
            None => Ok((left, pos)),
        }
    }
}

/// The expressions, separated by commas, from `pos` up to the token of kind
/// `close`, after `acc`; the place is the one after `close`.
pub open spec fn parse_list(
    toks: Seq<TokenView>,
    pos: int,
    close: TokenKind,
    acc: Seq<ExprView>,
) -> Result<(Seq<ExprView>, int), ParseError>
    decreases toks.len() - pos, 5int,
{
    if pos < 0 || pos >= toks.len() {
        Err(fail(toks, pos, Expected::Kind(close)))
    } else if toks[pos].kind == close {
        Ok((acc, pos + 1))
    } else {
        match within(toks, pos, parse_expr(toks, pos, LOWEST)) {
            Ok((element, next)) => if kind_at(toks, next) == TokenKind::Comma {
                parse_list(toks, next + 1, close, acc.push(element))
            } else {
                match expect_kind(toks, next, close) {
                    Ok(end) => Ok((acc.push(element), end)),
                    Err(e) => Err(e),
                }
            },
            Err(e) => Err(e),
        }
    }
}

/// The entries of a dictionary, each a key, a colon and a value, separated
/// by commas, from `pos` up to the closing brace, after `acc`.
pub open spec fn parse_entries(
    toks: Seq<TokenView>,
    pos: int,
    acc: Seq<(TokenView, ExprView)>,
) -> Result<(Seq<(TokenView, ExprView)>, int), ParseError>
    decreases toks.len() - pos, 5int,
{
    if pos < 0 || pos >= toks.len() {
        Err(fail(toks, pos, Expected::Kind(TokenKind::RightBrace)))
    } else if toks[pos].kind == TokenKind::RightBrace {
        Ok((acc, pos + 1))
    } else if !is_literal_kind(toks[pos].kind) {
        Err(fail(toks, pos, Expected::Literal))
    } else {
        match expect_kind(toks, pos + 1, TokenKind::Colon) {
            Ok(start) => match within(toks, start, parse_expr(toks, start, LOWEST)) {
                Ok((value, next)) => if kind_at(toks, next) == TokenKind::Comma {
                    parse_entries(toks, next + 1, acc.push((toks[pos], value)))
                } else {
                    match expect_kind(toks, next, TokenKind::RightBrace) {
                        Ok(end) => Ok((acc.push((toks[pos], value)), end)),
                        Err(e) => Err(e),
                    }
                },
                Err(e) => Err(e),
            },
            Err(e) => Err(e),
        }
    }
}

/// The type annotation at `pos`, if a colon stands there: the colon and the
/// type's name.
pub open spec fn parse_annotation(toks: Seq<TokenView>, pos: int) -> Result<
    (Option<TokenView>, int),
    ParseError,
> {
    if kind_at(toks, pos) == TokenKind::Colon {
        match expect_kind(toks, pos + 1, TokenKind::Identifier) {
            Ok(next) => Ok((Some(toks[pos + 1]), next)),
            Err(e) => Err(e),
        }
    } else {
        Ok((None, pos))
    }
}

/// The declared parameters from `pos` up to the closing parenthesis, after
/// `acc`; the place is the one after the parenthesis.
pub open spec fn parse_params(toks: Seq<TokenView>, pos: int, acc: Seq<ParamView>) -> Result<
    (Seq<ParamView>, int),
    ParseError,
>
    decreases toks.len() - pos,
{
    if pos < 0 || pos >= toks.len() {
        Err(fail(toks, pos, Expected::Kind(TokenKind::RightParen)))
    } else if toks[pos].kind == TokenKind::RightParen {
        Ok((acc, pos + 1))
    } else if toks[pos].kind != TokenKind::Identifier {
        Err(fail(toks, pos, Expected::Kind(TokenKind::Identifier)))
    } else {
        match parse_annotation(toks, pos + 1) {
            Ok((ty, next)) => {
                let param = ParamView { name: toks[pos], ty };
                if kind_at(toks, next) == TokenKind::Comma && pos < next < toks.len() {
                    parse_params(toks, next + 1, acc.push(param))
                } else {
                    match expect_kind(toks, next, TokenKind::RightParen) {
                        Ok(end) => Ok((acc.push(param), end)),
                        Err(e) => Err(e),
                    }
                }
            },
            Err(e) => Err(e),
        }
    }
}

/// The names, separated by commas, that start at `pos`, after `acc`: one
/// name, and another one for as long as a comma follows.
pub open spec fn parse_literals(toks: Seq<TokenView>, pos: int, acc: Seq<TokenView>) -> Result<
    (Seq<TokenView>, int),
    ParseError,
>
    decreases toks.len() - pos,
{
    if pos < 0 || pos >= toks.len() || !is_literal_kind(toks[pos].kind) {
        Err(fail(toks, pos, Expected::Literal))
    } else if kind_at(toks, pos + 1) == TokenKind::Comma {
        parse_literals(toks, pos + 2, acc.push(toks[pos]))
    } else {
        Ok((acc.push(toks[pos]), pos + 1))
    }
}

/// Whether a body with this stop ends before the token at `pos`.
pub open spec fn at_stop(toks: Seq<TokenView>, pos: int, stop: Stop) -> bool {
    kind_at(toks, pos) == TokenKind::EndOfFile || match stop {
        Stop::End => false,
        Stop::EndDef => word_at(toks, pos, "enddef"@),
        Stop::EndIf => word_at(toks, pos, "endif"@),
        Stop::Augroup => word_at(toks, pos, "augroup"@),
        Stop::Brace => kind_at(toks, pos) == TokenKind::RightBrace,
    }
}

/// The command that an expression standing alone on its line makes: an
/// assignment if an equals sign follows it, a call if it is one.
pub open spec fn parse_statement(toks: Seq<TokenView>, pos: int) -> Result<
    (CommandView, int),
    ParseError,
> {
    match parse_expr(toks, pos, LOWEST) {
        Ok((left, next)) => if kind_at(toks, next) == TokenKind::Equal {
            match parse_expr(toks, next + 1, LOWEST) {
                Ok((right, after)) => match expect_eol(toks, after) {
                    Ok(end) => Ok((CommandView::Assign { left, right }, end)),
                    Err(e) => Err(e),
                },
                Err(e) => Err(e),
            }
        } else {
            match left {
                ExprView::Call(callee, args) => match expect_eol(toks, next) {
                    Ok(end) => Ok((CommandView::Call { callee: *callee, args }, end)),
                    Err(e) => Err(e),
                },
                _ => Err(fail(toks, next, Expected::Command)),
            }
        },
        Err(e) => Err(e),
    }
}

/// The `vim9script` marker at `pos`, with `noclear` if that word follows.
pub open spec fn parse_vim9script(toks: Seq<TokenView>, pos: int) -> Result<
    (CommandView, int),
    ParseError,
> {
    let noclear = word_at(toks, pos + 1, "noclear"@);
    match expect_eol(
        toks,
        if noclear {
            pos + 2
        } else {
            pos + 1
        },
    ) {
        Ok(end) => Ok((CommandView::Vim9Script { noclear }, end)),
        Err(e) => Err(e),
    }
}

/// The declaration at `pos`: `var`, a name, a type if one is given, an
/// equals sign and the value.
pub open spec fn parse_var(toks: Seq<TokenView>, pos: int) -> Result<(CommandView, int), ParseError> {
    match expect_kind(toks, pos + 1, TokenKind::Identifier) {
        Ok(after_name) => match parse_annotation(toks, after_name) {
            Ok((ty, after_type)) => match expect_kind(toks, after_type, TokenKind::Equal) {
                Ok(start) => match parse_expr(toks, start, LOWEST) {
                    Ok((expr, next)) => match expect_eol(toks, next) {
                        Ok(end) => Ok(
                            (
                                CommandView::Var {
                                    name: IdentView::Raw(toks[pos + 1].text),
                                    ty,
                                    expr,
                                },
                                end,
                            ),
                        ),
                        Err(e) => Err(e),
                    },
                    Err(e) => Err(e),
                },
                Err(e) => Err(e),
            },
            Err(e) => Err(e),
        },
        Err(e) => Err(e),
    }
}

/// The `echo` command at `pos`.
pub open spec fn parse_echo(toks: Seq<TokenView>, pos: int) -> Result<(CommandView, int), ParseError> {
    match parse_expr(toks, pos + 1, LOWEST) {
        Ok((expr, next)) => match expect_eol(toks, next) {
            Ok(end) => Ok((CommandView::Echo { expr }, end)),
            Err(e) => Err(e),
        },
        Err(e) => Err(e),
    }
}

/// The `return` command at `pos`, with its value if the line goes on.
pub open spec fn parse_return(toks: Seq<TokenView>, pos: int) -> Result<
    (CommandView, int),
    ParseError,
> {
    if kind_at(toks, pos + 1) == TokenKind::EndOfLine || kind_at(toks, pos + 1)
        == TokenKind::EndOfFile {
        match expect_eol(toks, pos + 1) {
            Ok(end) => Ok((CommandView::Return { expr: None }, end)),
            Err(e) => Err(e),
        }
    } else {
        match parse_expr(toks, pos + 1, LOWEST) {
            Ok((expr, next)) => match expect_eol(toks, next) {
                Ok(end) => Ok((CommandView::Return { expr: Some(expr) }, end)),
                Err(e) => Err(e),
            },
            Err(e) => Err(e),
        }
    }
}

/// The header of a function definition at `pos`: `def`, the name, the
/// parameters in parentheses, the return type if one is given, and the end
/// of the line. The place is where the body starts.
pub open spec fn parse_def_header(toks: Seq<TokenView>, pos: int) -> Result<
    ((IdentView, Seq<ParamView>, Option<TokenView>), int),
    ParseError,
> {
    match expect_word(toks, pos, Keyword::Def) {
        Ok(_) => match expect_kind(toks, pos + 1, TokenKind::Identifier) {
            Ok(after_name) => match expect_kind(toks, after_name, TokenKind::LeftParen) {
                Ok(start) => match parse_params(toks, start, Seq::empty()) {
                    Ok((params, after_params)) => match parse_annotation(toks, after_params) {
                        Ok((ret, after_type)) => match expect_eol(toks, after_type) {
                            Ok(end) => Ok(((IdentView::Raw(toks[pos + 1].text), params, ret), end)),
                            Err(e) => Err(e),
                        },
                        Err(e) => Err(e),
                    },
                    Err(e) => Err(e),
                },
                Err(e) => Err(e),
            },
            Err(e) => Err(e),
        },
        Err(e) => Err(e),
    }
}

/// The header of a conditional at `pos`: `if`, the condition and the end of
/// the line. The place is where the body starts.
pub open spec fn parse_if_header(toks: Seq<TokenView>, pos: int) -> Result<
    (ExprView, int),
    ParseError,
> {
    match expect_word(toks, pos, Keyword::If) {
        Ok(_) => match parse_expr(toks, pos + 1, LOWEST) {
            Ok((condition, next)) => match expect_eol(toks, next) {
                Ok(end) => Ok((condition, end)),
                Err(e) => Err(e),
            },
            Err(e) => Err(e),
        },
        Err(e) => Err(e),
    }
}

/// The header of an augroup at `pos`: `augroup`, the name and the end of
/// the line. The place is where the body starts.
pub open spec fn parse_augroup_header(toks: Seq<TokenView>, pos: int) -> Result<
    (TokenView, int),
    ParseError,
> {
    match expect_word(toks, pos, Keyword::Augroup) {
        Ok(_) => match expect_kind(toks, pos + 1, TokenKind::Identifier) {
            Ok(after_name) => match expect_eol(toks, after_name) {
                Ok(end) => Ok((toks[pos + 1], end)),
                Err(e) => Err(e),
            },
            Err(e) => Err(e),
        },
        Err(e) => Err(e),
    }
}

/// The end of an augroup at `pos`: `augroup`, `END` and the end of the line.
pub open spec fn parse_augroup_end(toks: Seq<TokenView>, pos: int) -> Result<int, ParseError> {
    match expect_word(toks, pos, Keyword::Augroup) {
        Ok(after_word) => match expect_word(toks, after_word, Keyword::End) {
            Ok(after_end) => expect_eol(toks, after_end),
            Err(e) => Err(e),
        },
        Err(e) => Err(e),
    }
}

/// The header of an autocmd at `pos`: `autocmd`, a bang if one follows, the
/// events and the patterns. The place is where the action starts.
pub open spec fn parse_autocmd_header(toks: Seq<TokenView>, pos: int) -> Result<
    ((bool, Seq<TokenView>, Seq<TokenView>), int),
    ParseError,
> {
    let bang = kind_at(toks, pos + 1) == TokenKind::Bang;
    let start = if bang {
        pos + 2
    } else {
        pos + 1
    };
    match expect_word(toks, pos, Keyword::Autocmd) {
        Ok(_) => match parse_literals(toks, start, Seq::empty()) {
            Ok((events, after_events)) => match parse_literals(toks, after_events, Seq::empty()) {
                Ok((pattern, end)) => Ok(((bang, events, pattern), end)),
                Err(e) => Err(e),
            },
            Err(e) => Err(e),
        },
        Err(e) => Err(e),
    }
}

/// The end of a block at `pos`: the word that closes it, then the end of
/// the line.
pub open spec fn parse_end(toks: Seq<TokenView>, pos: int, keyword: Keyword) -> Result<
    int,
    ParseError,
> {
    match expect_word(toks, pos, keyword) {
        Ok(next) => expect_eol(toks, next),
        Err(e) => Err(e),
    }
}

/// The function definition at `pos`: its header, its body up to `enddef`,
/// and `enddef` on a line of its own.
pub open spec fn parse_def(toks: Seq<TokenView>, pos: int) -> Result<(CommandView, int), ParseError>
    decreases toks.len() - pos, 0int,
{
    match within(toks, pos, parse_def_header(toks, pos)) {
        Ok(((name, params, ret), start)) => match parse_body(
            toks,
            start,
            Stop::EndDef,
            Seq::empty(),
        ) {
            Ok((body, next)) => match parse_end(toks, next, Keyword::EndDef) {
                Ok(end) => Ok((CommandView::Def { name, params, ret, body }, end)),
                Err(e) => Err(e),
            },
            Err(e) => Err(e),
        },
        Err(e) => Err(e),
    }
}

/// The conditional at `pos`: its header, its body up to `endif`, and
/// `endif` on a line of its own.
pub open spec fn parse_if(toks: Seq<TokenView>, pos: int) -> Result<(CommandView, int), ParseError>
    decreases toks.len() - pos, 0int,
{
    match within(toks, pos, parse_if_header(toks, pos)) {
        Ok((condition, start)) => match parse_body(toks, start, Stop::EndIf, Seq::empty()) {
            Ok((body, next)) => match parse_end(toks, next, Keyword::EndIf) {
                Ok(end) => Ok((CommandView::If { condition, body }, end)),
                Err(e) => Err(e),
            },
            Err(e) => Err(e),
        },
        Err(e) => Err(e),
    }
}

/// The augroup at `pos`: `augroup` and the name on one line, the body up to
/// where `augroup` stands again, and `augroup END` on a line of its own.
pub open spec fn parse_augroup(toks: Seq<TokenView>, pos: int) -> Result<
    (CommandView, int),
    ParseError,
>
    decreases toks.len() - pos, 0int,
{
    match within(toks, pos, parse_augroup_header(toks, pos)) {
        Ok((name, start)) => match parse_body(toks, start, Stop::Augroup, Seq::empty()) {
            Ok((body, next)) => match parse_augroup_end(toks, next) {
                Ok(end) => Ok((CommandView::Augroup { name, body }, end)),
                Err(e) => Err(e),
            },
            Err(e) => Err(e),
        },
        Err(e) => Err(e),
    }
}

/// The autocmd at `pos`: `autocmd`, a bang if one follows, the events, the
/// patterns, and what it runs.
pub open spec fn parse_autocmd(toks: Seq<TokenView>, pos: int) -> Result<
    (CommandView, int),
    ParseError,
>
    decreases toks.len() - pos, 0int,
{
    match within(toks, pos, parse_autocmd_header(toks, pos)) {
        Ok(((bang, events, pattern), start)) => match parse_block(toks, start) {
            Ok((block, end)) => Ok((CommandView::Autocmd { bang, events, pattern, block }, end)),
            Err(e) => Err(e),
        },
        Err(e) => Err(e),
    }
}

/// The command that starts at `pos`, through the end of its line.
///
/// The leading token decides the rule: a line break is an empty command, a
/// comment stands for itself, a keyword opens its construct, and anything
/// else is an expression that stands as a command.
pub open spec fn parse_command(toks: Seq<TokenView>, pos: int) -> Result<
    (CommandView, int),
    ParseError,
>
    decreases toks.len() - pos, 1int,
{
    if pos < 0 || pos >= toks.len() {
        Err(fail(toks, pos, Expected::Command))
    } else if toks[pos].kind == TokenKind::EndOfLine {
        Ok((CommandView::NoOp(toks[pos]), pos + 1))
    } else if toks[pos].kind == TokenKind::Comment {
        match expect_eol(toks, pos + 1) {
            Ok(end) => Ok((CommandView::Comment(toks[pos]), end)),
            Err(e) => Err(e),
        }
    } else if word_at(toks, pos, "vim9script"@) {
        parse_vim9script(toks, pos)
    } else if word_at(toks, pos, "var"@) {
        parse_var(toks, pos)
    } else if word_at(toks, pos, "echo"@) {
        parse_echo(toks, pos)
    } else if word_at(toks, pos, "return"@) {
        parse_return(toks, pos)
    } else if word_at(toks, pos, "finish"@) {
        match expect_eol(toks, pos + 1) {
            Ok(end) => Ok((CommandView::Finish(toks[pos]), end)),
            Err(e) => Err(e),
        }
    } else if word_at(toks, pos, "def"@) {
        parse_def(toks, pos)
    } else if word_at(toks, pos, "if"@) {
        parse_if(toks, pos)
    } else if word_at(toks, pos, "augroup"@) {
        parse_augroup(toks, pos)
    } else if word_at(toks, pos, "autocmd"@) {
        parse_autocmd(toks, pos)
    } else {
        parse_statement(toks, pos)
    }
}

/// What an autocmd runs, from `pos`: a block of commands if an opening
/// brace stands there, else one command.
pub open spec fn parse_block(toks: Seq<TokenView>, pos: int) -> Result<(BlockView, int), ParseError>
    decreases toks.len() - pos, 2int,
{
    if kind_at(toks, pos) == TokenKind::LeftBrace && 0 <= pos < toks.len() {
        match expect_eol(toks, pos + 1) {
            Ok(start) => if pos < start <= toks.len() {
                match parse_body(toks, start, Stop::Brace, Seq::empty()) {
                    Ok((body, next)) => match expect_kind(toks, next, TokenKind::RightBrace) {
                        Ok(after_brace) => match expect_eol(toks, after_brace) {
                            Ok(end) => Ok((BlockView::Block(body), end)),
                            Err(e) => Err(e),
                        },
                        Err(e) => Err(e),
                    },
                    Err(e) => Err(e),
                }
            } else {
                Err(fail(toks, pos, Expected::Progress))
            },
            Err(e) => Err(e),
        }
    } else {
        match parse_command(toks, pos) {
            Ok((command, end)) => Ok((BlockView::Command(Box::new(command)), end)),
            Err(e) => Err(e),
        }
    }
}

/// The commands from `pos` up to where the body stops, after `acc`. The
/// token that stops the body is left in place for the caller to check.
pub open spec fn parse_body(toks: Seq<TokenView>, pos: int, stop: Stop, acc: Seq<CommandView>) -> Result<
    (Seq<CommandView>, int),
    ParseError,
>
    decreases toks.len() - pos, 3int,
{
    if at_stop(toks, pos, stop) {
        Ok((acc, pos))
    } else {
        match within(toks, pos, parse_command(toks, pos)) {
            Ok((command, next)) => parse_body(toks, next, stop, acc.push(command)),
            Err(e) => Err(e),
        }
    }
}

/// The program that a token sequence is: its commands, in their order, up
/// to the end of the tokens; or the first violation of the grammar.
pub open spec fn parse_program(toks: Seq<TokenView>) -> Result<Seq<CommandView>, ParseError> {
    match parse_body(toks, 0, Stop::End, Seq::empty()) {
        Ok((commands, _)) => Ok(commands),
        Err(e) => Err(e),
    }
}

} // verus!
