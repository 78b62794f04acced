//! The parser: from tokens to the syntax tree.
//!
//! Commands are parsed by recursive descent, told apart by their leading
//! keyword; expressions by precedence climbing. The first violation of the
//! grammar ends the parse: no partial tree is returned.

use vstd::prelude::*;
use crate::token::{Literal, Token, TokenKind, TokenView, tokens_view, literals_view};
use crate::ast::{
    ArrayLiteral, AssignStatement, AugroupCommand, AutocmdBlock, AutocmdCommand, Block, Body,
    CallExpression, CommandView, DefCommand, DictLiteral, EchoCommand, ExCommand,
    ExprView, Expression, GroupedExpression, Identifier, IfCommand, InfixExpression, KeyValue,
    Operator, ParamView, Parameter, PrefixExpression, Program, RawIdentifier, ReturnCommand,
    ScopedIdentifier, StatementCommand, VarCommand, Vim9ScriptCommand, VimBoolean, VimKey,
    VimNumber, VimOption, VimScope, VimString, commands_view, entries_view, exprs_view,
    lemma_commands_view_push, lemma_entries_view_push, lemma_exprs_view_push, opt_literal_view,
    params_view,
};
use crate::grammar;
use crate::grammar::{
    Expected, Keyword, ParseError, Stop, AND, CALL, COMPARE, LOWEST, OR, PREFIX, PRODUCT, SUM,
};

verus! {

/// The model of the result of a rule.
pub open spec fn parsed<T: View>(r: Result<(T, usize), ParseError>) -> Result<
    (T::V, int),
    ParseError,
> {
    match r {
        Ok((tree, end)) => Ok((tree@, end as int)),
        Err(e) => Err(e),
    }
}

/// The model of the result of a rule that gives a place only.
pub open spec fn placed(r: Result<usize, ParseError>) -> Result<int, ParseError> {
    match r {
        Ok(end) => Ok(end as int),
        Err(e) => Err(e),
    }
}

/// The model of the result of a rule for a list of expressions.
pub open spec fn exprs_parsed(r: Result<(Vec<Expression>, usize), ParseError>) -> Result<
    (Seq<ExprView>, int),
    ParseError,
> {
    match r {
        Ok((exprs, end)) => Ok((exprs_view(exprs@), end as int)),
        Err(e) => Err(e),
    }
}

/// The model of the result of a rule for the entries of a dictionary.
pub open spec fn entries_parsed(r: Result<(Vec<KeyValue>, usize), ParseError>) -> Result<
    (Seq<(TokenView, ExprView)>, int),
    ParseError,
> {
    match r {
        Ok((entries, end)) => Ok((entries_view(entries@), end as int)),
        Err(e) => Err(e),
    }
}

/// Whether a failure, if `r` is one, is a violation of the grammar by the
/// tokens.
pub open spec fn sound<T>(r: Result<T, ParseError>) -> bool {
    match r {
        Ok(_) => true,
        Err(e) => e.expected != Expected::Progress,
    }
}

impl Keyword {
    /// The keyword as it is written.
    pub fn text(&self) -> (r: &'static str)
        ensures
            r@ == grammar::keyword_text(*self),
    {
        match self {
            Keyword::Augroup => "augroup",
            Keyword::End => "END",
            Keyword::Autocmd => "autocmd",
            Keyword::Def => "def",
            Keyword::EndDef => "enddef",
            Keyword::If => "if",
            Keyword::EndIf => "endif",
        }
    }
}

fn kind_at(tokens: &Vec<Token>, pos: usize) -> (r: TokenKind)
    ensures
        r == grammar::kind_at(tokens_view(tokens@), pos as int),
{
    if pos < tokens.len() {
        tokens[pos].kind
    } else {
        TokenKind::EndOfFile
    }
}

fn word_at(tokens: &Vec<Token>, pos: usize, word: &str) -> (r: bool)
    ensures
        r == grammar::word_at(tokens_view(tokens@), pos as int, word@),
{
    pos < tokens.len() && tokens[pos].is_word(word)
}

fn fail(tokens: &Vec<Token>, pos: usize, expected: Expected) -> (r: ParseError)
    ensures
        r == grammar::fail(tokens_view(tokens@), pos as int, expected),
{
    let n = tokens.len();
    let at = if pos < n {
        tokens[pos].pos
    } else if n > 0 {
        tokens[n - 1].pos
    } else {
        0
    };
    ParseError { expected, found: kind_at(tokens, pos), pos: at }
}

fn expect_kind(tokens: &Vec<Token>, pos: usize, kind: TokenKind) -> (r: Result<usize, ParseError>)
    ensures
        placed(r) == grammar::expect_kind(tokens_view(tokens@), pos as int, kind),
        r matches Ok(end) ==> pos < tokens@.len() && end == pos + 1,
        sound(r),
{
    if pos < tokens.len() && tokens[pos].kind == kind {
        Ok(pos + 1)
    } else {
        Err(fail(tokens, pos, Expected::Kind(kind)))
    }
}

fn expect_word(tokens: &Vec<Token>, pos: usize, keyword: Keyword) -> (r: Result<
    usize,
    ParseError,
>)
    ensures
        placed(r) == grammar::expect_word(tokens_view(tokens@), pos as int, keyword),
        r matches Ok(end) ==> pos < tokens@.len() && end == pos + 1,
        sound(r),
{
    let n = tokens.len();
    if word_at(tokens, pos, keyword.text()) {
        Ok(pos + 1)
    } else {
        Err(fail(tokens, pos, Expected::Word(keyword)))
    }
}

fn expect_eol(tokens: &Vec<Token>, pos: usize) -> (r: Result<usize, ParseError>)
    ensures
        placed(r) == grammar::expect_eol(tokens_view(tokens@), pos as int),
        r matches Ok(end) ==> pos <= end <= pos + 1 && (end <= tokens@.len() || end == pos),
        sound(r),
{
    let n = tokens.len();
    let kind = kind_at(tokens, pos);
    if kind == TokenKind::EndOfLine {
        Ok(pos + 1)
    } else if kind == TokenKind::EndOfFile {
        Ok(pos)
    } else {
        Err(fail(tokens, pos, Expected::EndOfLine))
    }
}

fn scope_of(token: &Token) -> (r: Option<VimScope>)
    ensures
        r == grammar::scope_of(token@.text),
{
    if token.has_text("g") {
        Some(VimScope::Global)
    } else if token.has_text("t") {
        Some(VimScope::Tab)
    } else if token.has_text("w") {
        Some(VimScope::Window)
    } else if token.has_text("b") {
        Some(VimScope::Buffer)
    } else if token.has_text("s") {
        Some(VimScope::Script)
    } else if token.has_text("l") {
        Some(VimScope::Local)
    } else if token.has_text("a") {
        Some(VimScope::Argument)
    } else if token.has_text("v") {
        Some(VimScope::VimVar)
    } else {
        None
    }
}

fn infix_operator(kind: TokenKind) -> (r: Option<(Operator, u8)>)
    ensures
        r == grammar::infix_operator(kind),
{
    match kind {
        TokenKind::Or => Some((Operator::Or, OR)),
        TokenKind::And => Some((Operator::And, AND)),
        TokenKind::LessThan => Some((Operator::LessThan, COMPARE)),
        TokenKind::GreaterThan => Some((Operator::GreaterThan, COMPARE)),
        TokenKind::LessThanOrEqual => Some((Operator::LessThanOrEqual, COMPARE)),
        TokenKind::GreaterThanOrEqual => Some((Operator::GreaterThanOrEqual, COMPARE)),
        TokenKind::Plus => Some((Operator::Plus, SUM)),
        TokenKind::Minus => Some((Operator::Minus, SUM)),
        TokenKind::Star => Some((Operator::Multiply, PRODUCT)),
        _ => None,
    }
}

fn prefix_operator(kind: TokenKind) -> (r: Option<Operator>)
    ensures
        r == grammar::prefix_operator(kind),
{
    match kind {
        TokenKind::Bang => Some(Operator::Bang),
        TokenKind::Minus => Some(Operator::Minus),
        TokenKind::Plus => Some(Operator::Plus),
        _ => None,
    }
}

fn is_literal_kind(kind: TokenKind) -> (r: bool)
    ensures
        r == grammar::is_literal_kind(kind),
{
    kind == TokenKind::Identifier || kind == TokenKind::Star || kind == TokenKind::Number || kind
        == TokenKind::SingleQuoteString || kind == TokenKind::DoubleQuoteString
}

/// The plain identifier that the token names.
fn raw_identifier(token: &Token) -> (r: Identifier)
    ensures
        r@ == crate::ast::IdentView::Raw(token@.text),
{
    Identifier::Raw(RawIdentifier { name: token.text.clone() })
}

fn parse_identifier(tokens: &Vec<Token>, pos: usize) -> (r: (Expression, usize))
    requires
        pos < tokens@.len(),
    ensures
        (r.0@, r.1 as int) == grammar::parse_identifier(tokens_view(tokens@), pos as int),
        pos < r.1 <= tokens@.len(),
{
    let n = tokens.len();
    let token = &tokens[pos];
    if token.has_text("true") {
        (Expression::Boolean(VimBoolean { value: true }), pos + 1)
    } else if token.has_text("false") {
        (Expression::Boolean(VimBoolean { value: false }), pos + 1)
    } else {
        match scope_of(token) {
            Some(scope) => {
                if n >= 2 && pos < n - 2 && tokens[pos + 1].kind == TokenKind::Colon && tokens[pos
                    + 2].kind == TokenKind::Identifier {
                    let accessor = raw_identifier(&tokens[pos + 2]);
                    (
                        Expression::Identifier(
                            Identifier::Scope(
                                ScopedIdentifier { scope, accessor: Box::new(accessor) },
                            ),
                        ),
                        pos + 3,
                    )
                } else {
                    (Expression::Identifier(raw_identifier(token)), pos + 1)
                }
            },
            None => (Expression::Identifier(raw_identifier(token)), pos + 1),
        }
    }
}

/// Parses the expression that starts at `pos` and whose operators all bind
/// more tightly than `prec`.
pub fn parse_expression(tokens: &Vec<Token>, pos: usize, prec: u8) -> (r: Result<
    (Expression, usize),
    ParseError,
>)
    ensures
        parsed(r) == grammar::parse_expr(tokens_view(tokens@), pos as int, prec),
        r matches Ok((_, end)) ==> pos < end <= tokens@.len(),
        sound(r),
    decreases tokens@.len() - pos, 3int,
{
    let (left, next) = parse_prefix(tokens, pos)?;
    parse_infix(tokens, next, prec, left)
}

fn parse_prefix(tokens: &Vec<Token>, pos: usize) -> (r: Result<(Expression, usize), ParseError>)
    ensures
        parsed(r) == grammar::parse_prefix(tokens_view(tokens@), pos as int),
        r matches Ok((_, end)) ==> pos < end <= tokens@.len(),
        sound(r),
    decreases tokens@.len() - pos, 2int,
{
    if pos >= tokens.len() {
        return Err(fail(tokens, pos, Expected::Expression));
    }
    let token = &tokens[pos];
    match token.kind {
        TokenKind::Identifier => Ok(parse_identifier(tokens, pos)),
        TokenKind::Number => Ok(
            (Expression::Number(VimNumber { value: token.text.clone() }), pos + 1),
        ),
        TokenKind::SingleQuoteString => Ok(
            (Expression::String(VimString::SingleQuote(token.text.clone())), pos + 1),
        ),
        TokenKind::DoubleQuoteString => Ok(
            (Expression::String(VimString::DoubleQuote(token.text.clone())), pos + 1),
        ),
        TokenKind::Ampersand => {
            let next = expect_kind(tokens, pos + 1, TokenKind::Identifier)?;
            let option = Literal { token: tokens[pos + 1].duplicate() };
            Ok((Expression::VimOption(VimOption { option }), next))
        },
        TokenKind::LeftParen => {
            let (inner, next) = parse_expression(tokens, pos + 1, LOWEST)?;
            let end = expect_kind(tokens, next, TokenKind::RightParen)?;
            Ok((Expression::Grouped(GroupedExpression { expr: Box::new(inner) }), end))
        },
        TokenKind::LeftBracket => {
            let (elements, end) = parse_list(tokens, pos + 1, TokenKind::RightBracket)?;
            Ok((Expression::Array(ArrayLiteral { elements }), end))
        },
        TokenKind::LeftBrace => {
            let (elements, end) = parse_entries(tokens, pos + 1)?;
            Ok((Expression::Dict(DictLiteral { elements }), end))
        },
        kind => match prefix_operator(kind) {
            Some(operator) => {
                let (right, end) = parse_expression(tokens, pos + 1, PREFIX)?;
                Ok((Expression::Prefix(PrefixExpression { operator, right: Box::new(right) }), end))
            },
            None => Err(fail(tokens, pos, Expected::Expression)),
        },
    }
}

fn parse_infix(tokens: &Vec<Token>, pos: usize, prec: u8, operand: Expression) -> (r: Result<
    (Expression, usize),
    ParseError,
>)
    requires
        pos <= tokens@.len(),
    ensures
        parsed(r) == grammar::parse_infix(tokens_view(tokens@), pos as int, prec, operand@),
        r matches Ok((_, end)) ==> pos <= end <= tokens@.len(),
        sound(r),
    decreases tokens@.len() - pos, 4int,
{
    let ghost toks = tokens_view(tokens@);
    let ghost first = operand@;
    let mut left = operand;
    let mut at = pos;
    loop
        invariant
            pos <= at <= tokens@.len(),
            toks == tokens_view(tokens@),
            first == operand@,
            grammar::parse_infix(toks, pos as int, prec, first) == grammar::parse_infix(
                toks,
                at as int,
                prec,
                left@,
            ),
        decreases tokens@.len() - at,
    {
        if at >= tokens.len() {
            return Ok((left, at));
        }
        let kind = tokens[at].kind;
        if kind == TokenKind::LeftParen && prec < CALL {
            let (args, next) = parse_list(tokens, at + 1, TokenKind::RightParen)?;
            left = Expression::Call(CallExpression { expr: Box::new(left), args });
            at = next;
        } else {
            match infix_operator(kind) {
                Some((operator, binds)) => {
                    if prec < binds {
                        let (right, next) = parse_expression(tokens, at + 1, binds)?;
                        left = Expression::Infix(
                            InfixExpression {
                                left: Box::new(left),
                                operator,
                                right: Box::new(right),
                            },
                        );
                        at = next;
                    } else {
                        return Ok((left, at));
                    }
                },
                None => {
                    return Ok((left, at));
                },
            }
        }
    }
}

fn parse_list(tokens: &Vec<Token>, pos: usize, close: TokenKind) -> (r: Result<
    (Vec<Expression>, usize),
    ParseError,
>)
    requires
        pos <= tokens@.len(),
    ensures
        exprs_parsed(r) == grammar::parse_list(
            tokens_view(tokens@),
            pos as int,
            close,
            Seq::empty(),
        ),
        r matches Ok((_, end)) ==> pos < end <= tokens@.len(),
        sound(r),
    decreases tokens@.len() - pos, 5int,
{
    let ghost toks = tokens_view(tokens@);
    let mut acc: Vec<Expression> = Vec::new();
    let mut at = pos;
    assert(exprs_view(acc@) =~= Seq::empty());
    loop
        invariant
            pos <= at <= tokens@.len(),
            toks == tokens_view(tokens@),
            grammar::parse_list(toks, pos as int, close, Seq::empty()) == grammar::parse_list(
                toks,
                at as int,
                close,
                exprs_view(acc@),
            ),
        decreases tokens@.len() - at,
    {
        if at >= tokens.len() {
            return Err(fail(tokens, at, Expected::Kind(close)));
        }
        if tokens[at].kind == close {
            return Ok((acc, at + 1));
        }
        let (element, next) = parse_expression(tokens, at, LOWEST)?;
        proof {
            lemma_exprs_view_push(acc@, element);
        }
        acc.push(element);
        if kind_at(tokens, next) == TokenKind::Comma {
            at = next + 1;
        } else {
            let end = expect_kind(tokens, next, close)?;
            return Ok((acc, end));
        }
    }
}

fn parse_entries(tokens: &Vec<Token>, pos: usize) -> (r: Result<
    (Vec<KeyValue>, usize),
    ParseError,
>)
    requires
        pos <= tokens@.len(),
    ensures
        entries_parsed(r) == grammar::parse_entries(
            tokens_view(tokens@),
            pos as int,
            Seq::empty(),
        ),
        r matches Ok((_, end)) ==> pos < end <= tokens@.len(),
        sound(r),
    decreases tokens@.len() - pos, 5int,
{
    let ghost toks = tokens_view(tokens@);
    let mut acc: Vec<KeyValue> = Vec::new();
    let mut at = pos;
    assert(entries_view(acc@) =~= Seq::empty());
    loop
        invariant
            pos <= at <= tokens@.len(),
            toks == tokens_view(tokens@),
            grammar::parse_entries(toks, pos as int, Seq::empty()) == grammar::parse_entries(
                toks,
                at as int,
                entries_view(acc@),
            ),
        decreases tokens@.len() - at,
    {
        if at >= tokens.len() {
            return Err(fail(tokens, at, Expected::Kind(TokenKind::RightBrace)));
        }
        if tokens[at].kind == TokenKind::RightBrace {
            return Ok((acc, at + 1));
        }
        if !is_literal_kind(tokens[at].kind) {
            return Err(fail(tokens, at, Expected::Literal));
        }
        let start = expect_kind(tokens, at + 1, TokenKind::Colon)?;
        let (value, next) = parse_expression(tokens, start, LOWEST)?;
        let entry = KeyValue {
            key: VimKey::Literal(Literal { token: tokens[at].duplicate() }),
            value,
        };
        proof {
            lemma_entries_view_push(acc@, entry);
        }
        acc.push(entry);
        if kind_at(tokens, next) == TokenKind::Comma {
            at = next + 1;
        } else {
            let end = expect_kind(tokens, next, TokenKind::RightBrace)?;
            return Ok((acc, end));
        }
    }
}

fn parse_annotation(tokens: &Vec<Token>, pos: usize) -> (r: Result<
    (Option<Literal>, usize),
    ParseError,
>)
    ensures
        match r {
            Ok((ty, end)) => grammar::parse_annotation(tokens_view(tokens@), pos as int) == Ok::<
                (Option<TokenView>, int),
                ParseError,
            >((opt_literal_view(ty), end as int)),
            Err(e) => grammar::parse_annotation(tokens_view(tokens@), pos as int) == Err::<
                (Option<TokenView>, int),
                ParseError,
            >(e),
        },
        r matches Ok((_, end)) ==> pos <= end && (end <= tokens@.len() || end == pos),
        sound(r),
{
    let n = tokens.len();
    if kind_at(tokens, pos) == TokenKind::Colon {
        let next = expect_kind(tokens, pos + 1, TokenKind::Identifier)?;
        Ok((Some(Literal { token: tokens[pos + 1].duplicate() }), next))
    } else {
        Ok((None, pos))
    }
}

/// The model of the result of a rule for a list of parameters.
pub open spec fn params_parsed(r: Result<(Vec<Parameter>, usize), ParseError>) -> Result<
    (Seq<ParamView>, int),
    ParseError,
> {
    match r {
        Ok((params, end)) => Ok((params_view(params@), end as int)),
        Err(e) => Err(e),
    }
}

fn parse_params(tokens: &Vec<Token>, pos: usize) -> (r: Result<(Vec<Parameter>, usize), ParseError>)
    ensures
        params_parsed(r) == grammar::parse_params(tokens_view(tokens@), pos as int, Seq::empty()),
        r matches Ok((_, end)) ==> pos < end <= tokens@.len(),
        sound(r),
{
    let ghost toks = tokens_view(tokens@);
    let mut acc: Vec<Parameter> = Vec::new();
    let mut at = pos;
    assert(params_view(acc@) =~= Seq::empty());
    loop
        invariant
            pos <= at,
            toks == tokens_view(tokens@),
            grammar::parse_params(toks, pos as int, Seq::empty()) == grammar::parse_params(
                toks,
                at as int,
                params_view(acc@),
            ),
        decreases tokens@.len() - at,
    {
        if at >= tokens.len() {
            return Err(fail(tokens, at, Expected::Kind(TokenKind::RightParen)));
        }
        if tokens[at].kind == TokenKind::RightParen {
            return Ok((acc, at + 1));
        }
        if tokens[at].kind != TokenKind::Identifier {
            return Err(fail(tokens, at, Expected::Kind(TokenKind::Identifier)));
        }
        let (ty, next) = parse_annotation(tokens, at + 1)?;
        let param = Parameter { name: Literal { token: tokens[at].duplicate() }, ty };
        let ghost before = params_view(acc@);
        acc.push(param);
        assert(params_view(acc@) =~= before.push(param@));
        if kind_at(tokens, next) == TokenKind::Comma {
            at = next + 1;
        } else {
            let end = expect_kind(tokens, next, TokenKind::RightParen)?;
            return Ok((acc, end));
        }
    }
}

/// The model of the result of a rule for a list of names.
pub open spec fn literals_parsed(r: Result<(Vec<Literal>, usize), ParseError>) -> Result<
    (Seq<TokenView>, int),
    ParseError,
> {
    match r {
        Ok((literals, end)) => Ok((literals_view(literals@), end as int)),
        Err(e) => Err(e),
    }
}

fn parse_literals(tokens: &Vec<Token>, pos: usize) -> (r: Result<(Vec<Literal>, usize), ParseError>)
    ensures
        literals_parsed(r) == grammar::parse_literals(
            tokens_view(tokens@),
            pos as int,
            Seq::empty(),
        ),
        r matches Ok((_, end)) ==> pos < end <= tokens@.len(),
        sound(r),
{
    let ghost toks = tokens_view(tokens@);
    let mut acc: Vec<Literal> = Vec::new();
    let mut at = pos;
    assert(literals_view(acc@) =~= Seq::empty());
    loop
        invariant
            pos <= at,
            toks == tokens_view(tokens@),
            grammar::parse_literals(toks, pos as int, Seq::empty()) == grammar::parse_literals(
                toks,
                at as int,
                literals_view(acc@),
            ),
        decreases tokens@.len() - at,
    {
        if at >= tokens.len() || !is_literal_kind(tokens[at].kind) {
            return Err(fail(tokens, at, Expected::Literal));
        }
        let literal = Literal { token: tokens[at].duplicate() };
        let ghost before = literals_view(acc@);
        acc.push(literal);
        assert(literals_view(acc@) =~= before.push(literal@));
        if kind_at(tokens, at + 1) == TokenKind::Comma {
            at = at + 2;
        } else {
            return Ok((acc, at + 1));
        }
    }
}

fn at_stop(tokens: &Vec<Token>, pos: usize, stop: Stop) -> (r: bool)
    ensures
        r == grammar::at_stop(tokens_view(tokens@), pos as int, stop),
{
    kind_at(tokens, pos) == TokenKind::EndOfFile || match stop {
        Stop::End => false,
        Stop::EndDef => word_at(tokens, pos, "enddef"),
        Stop::EndIf => word_at(tokens, pos, "endif"),
        Stop::Augroup => word_at(tokens, pos, "augroup"),
        Stop::Brace => kind_at(tokens, pos) == TokenKind::RightBrace,
    }
}

fn parse_statement(tokens: &Vec<Token>, pos: usize) -> (r: Result<(ExCommand, usize), ParseError>)
    ensures
        parsed(r) == grammar::parse_statement(tokens_view(tokens@), pos as int),
        r matches Ok((_, end)) ==> pos < end <= tokens@.len(),
        sound(r),
{
    let n = tokens.len();
    let (left, next) = parse_expression(tokens, pos, LOWEST)?;
    if kind_at(tokens, next) == TokenKind::Equal {
        let (right, after) = parse_expression(tokens, next + 1, LOWEST)?;
        let end = expect_eol(tokens, after)?;
        Ok((ExCommand::Statement(StatementCommand::Assign(AssignStatement { left, right })), end))
    } else {
        match left {
            Expression::Call(call) => {
                let end = expect_eol(tokens, next)?;
                Ok((ExCommand::Call(call), end))
            },
            _ => Err(fail(tokens, next, Expected::Command)),
        }
    }
}

fn parse_vim9script(tokens: &Vec<Token>, pos: usize) -> (r: Result<
    (ExCommand, usize),
    ParseError,
>)
    requires
        pos < tokens@.len(),
    ensures
        parsed(r) == grammar::parse_vim9script(tokens_view(tokens@), pos as int),
        r matches Ok((_, end)) ==> pos < end <= tokens@.len(),
        sound(r),
{
    let n = tokens.len();
    let noclear = word_at(tokens, pos + 1, "noclear");
    let end = expect_eol(
        tokens,
        if noclear {
            pos + 2
        } else {
            pos + 1
        },
    )?;
    Ok((ExCommand::Vim9Script(Vim9ScriptCommand { noclear }), end))
}

fn parse_var(tokens: &Vec<Token>, pos: usize) -> (r: Result<(ExCommand, usize), ParseError>)
    requires
        pos < tokens@.len(),
    ensures
        parsed(r) == grammar::parse_var(tokens_view(tokens@), pos as int),
        r matches Ok((_, end)) ==> pos < end <= tokens@.len(),
        sound(r),
{
    let n = tokens.len();
    let after_name = expect_kind(tokens, pos + 1, TokenKind::Identifier)?;
    let (ty, after_type) = parse_annotation(tokens, after_name)?;
    let start = expect_kind(tokens, after_type, TokenKind::Equal)?;
    let (expr, next) = parse_expression(tokens, start, LOWEST)?;
    let end = expect_eol(tokens, next)?;
    let name = raw_identifier(&tokens[pos + 1]);
    Ok((ExCommand::Var(VarCommand { name, ty, expr }), end))
}

fn parse_echo(tokens: &Vec<Token>, pos: usize) -> (r: Result<(ExCommand, usize), ParseError>)
    requires
        pos < tokens@.len(),
    ensures
        parsed(r) == grammar::parse_echo(tokens_view(tokens@), pos as int),
        r matches Ok((_, end)) ==> pos < end <= tokens@.len(),
        sound(r),
{
    let n = tokens.len();
    let (expr, next) = parse_expression(tokens, pos + 1, LOWEST)?;
    let end = expect_eol(tokens, next)?;
    Ok((ExCommand::Echo(EchoCommand { expr }), end))
}

fn parse_return(tokens: &Vec<Token>, pos: usize) -> (r: Result<(ExCommand, usize), ParseError>)
    requires
        pos < tokens@.len(),
    ensures
        parsed(r) == grammar::parse_return(tokens_view(tokens@), pos as int),
        r matches Ok((_, end)) ==> pos < end <= tokens@.len(),
        sound(r),
{
    let n = tokens.len();
    let kind = kind_at(tokens, pos + 1);
    if kind == TokenKind::EndOfLine || kind == TokenKind::EndOfFile {
        let end = expect_eol(tokens, pos + 1)?;
        Ok((ExCommand::Return(ReturnCommand { expr: None }), end))
    } else {
        let (expr, next) = parse_expression(tokens, pos + 1, LOWEST)?;
        let end = expect_eol(tokens, next)?;
        Ok((ExCommand::Return(ReturnCommand { expr: Some(expr) }), end))
    }
}

fn parse_end(tokens: &Vec<Token>, pos: usize, keyword: Keyword) -> (r: Result<usize, ParseError>)
    ensures
        placed(r) == grammar::parse_end(tokens_view(tokens@), pos as int, keyword),
        r matches Ok(end) ==> pos < end <= tokens@.len(),
        sound(r),
{
    let n = tokens.len();
    let next = expect_word(tokens, pos, keyword)?;
    expect_eol(tokens, next)
}

fn parse_def(tokens: &Vec<Token>, pos: usize) -> (r: Result<(DefCommand, usize), ParseError>)
    ensures
        parsed(r) == grammar::parse_def(tokens_view(tokens@), pos as int),
        r matches Ok((_, end)) ==> pos < end <= tokens@.len(),
        sound(r),
    decreases tokens@.len() - pos, 0int,
{
    let n = tokens.len();
    expect_word(tokens, pos, Keyword::Def)?;
    let after_name = expect_kind(tokens, pos + 1, TokenKind::Identifier)?;
    let start = expect_kind(tokens, after_name, TokenKind::LeftParen)?;
    let (params, after_params) = parse_params(tokens, start)?;
    let (ret, after_type) = parse_annotation(tokens, after_params)?;
    let body_start = expect_eol(tokens, after_type)?;
    let (commands, next) = parse_body(tokens, body_start, Stop::EndDef)?;
    let end = parse_end(tokens, next, Keyword::EndDef)?;
    let name = raw_identifier(&tokens[pos + 1]);
    Ok((DefCommand { name, params, ret, body: Body { commands } }, end))
}

fn parse_if(tokens: &Vec<Token>, pos: usize) -> (r: Result<(IfCommand, usize), ParseError>)
    ensures
        parsed(r) == grammar::parse_if(tokens_view(tokens@), pos as int),
        r matches Ok((_, end)) ==> pos < end <= tokens@.len(),
        sound(r),
    decreases tokens@.len() - pos, 0int,
{
    let n = tokens.len();
    expect_word(tokens, pos, Keyword::If)?;
    let (condition, next) = parse_expression(tokens, pos + 1, LOWEST)?;
    let body_start = expect_eol(tokens, next)?;
    let (commands, next) = parse_body(tokens, body_start, Stop::EndIf)?;
    let end = parse_end(tokens, next, Keyword::EndIf)?;
    Ok((IfCommand { condition, body: Body { commands } }, end))
}

fn parse_augroup_end(tokens: &Vec<Token>, pos: usize) -> (r: Result<usize, ParseError>)
    ensures
        placed(r) == grammar::parse_augroup_end(tokens_view(tokens@), pos as int),
        r matches Ok(end) ==> pos < end <= tokens@.len(),
        sound(r),
{
    let n = tokens.len();
    let after_word = expect_word(tokens, pos, Keyword::Augroup)?;
    let after_end = expect_word(tokens, after_word, Keyword::End)?;
    expect_eol(tokens, after_end)
}

fn parse_augroup(tokens: &Vec<Token>, pos: usize) -> (r: Result<
    (AugroupCommand, usize),
    ParseError,
>)
    ensures
        parsed(r) == grammar::parse_augroup(tokens_view(tokens@), pos as int),
        r matches Ok((_, end)) ==> pos < end <= tokens@.len(),
        sound(r),
    decreases tokens@.len() - pos, 0int,
{
    let n = tokens.len();
    expect_word(tokens, pos, Keyword::Augroup)?;
    let after_name = expect_kind(tokens, pos + 1, TokenKind::Identifier)?;
    let body_start = expect_eol(tokens, after_name)?;
    let (commands, next) = parse_body(tokens, body_start, Stop::Augroup)?;
    let end = parse_augroup_end(tokens, next)?;
    let augroup_name = Literal { token: tokens[pos + 1].duplicate() };
    Ok((AugroupCommand { augroup_name, body: Body { commands } }, end))
}

fn parse_autocmd(tokens: &Vec<Token>, pos: usize) -> (r: Result<
    (AutocmdCommand, usize),
    ParseError,
>)
    ensures
        parsed(r) == grammar::parse_autocmd(tokens_view(tokens@), pos as int),
        r matches Ok((_, end)) ==> pos < end <= tokens@.len(),
        sound(r),
    decreases tokens@.len() - pos, 0int,
{
    let n = tokens.len();
    expect_word(tokens, pos, Keyword::Autocmd)?;
    let bang = kind_at(tokens, pos + 1) == TokenKind::Bang;
    let start = if bang {
        pos + 2
    } else {
        pos + 1
    };
    let (events, after_events) = parse_literals(tokens, start)?;
    let (pattern, after_pattern) = parse_literals(tokens, after_events)?;
    let (block, end) = parse_block(tokens, after_pattern)?;
    Ok((AutocmdCommand { bang, events, pattern, block }, end))
}

fn parse_block(tokens: &Vec<Token>, pos: usize) -> (r: Result<(AutocmdBlock, usize), ParseError>)
    ensures
        parsed(r) == grammar::parse_block(tokens_view(tokens@), pos as int),
        r matches Ok((_, end)) ==> pos < end <= tokens@.len(),
        sound(r),
    decreases tokens@.len() - pos, 2int,
{
    let n = tokens.len();
    if kind_at(tokens, pos) == TokenKind::LeftBrace {
        let start = expect_eol(tokens, pos + 1)?;
        let (commands, next) = parse_body(tokens, start, Stop::Brace)?;
        let after_brace = expect_kind(tokens, next, TokenKind::RightBrace)?;
        let end = expect_eol(tokens, after_brace)?;
        Ok((AutocmdBlock::Block(Block { body: Body { commands } }), end))
    } else {
        let (command, end) = parse_command(tokens, pos)?;
        Ok((AutocmdBlock::Command(Box::new(command)), end))
    }
}

/// The model of the result of a rule for a run of commands.
pub open spec fn commands_parsed(r: Result<(Vec<ExCommand>, usize), ParseError>) -> Result<
    (Seq<CommandView>, int),
    ParseError,
> {
    match r {
        Ok((commands, end)) => Ok((commands_view(commands@), end as int)),
        Err(e) => Err(e),
    }
}

fn parse_body(tokens: &Vec<Token>, pos: usize, stop: Stop) -> (r: Result<
    (Vec<ExCommand>, usize),
    ParseError,
>)
    ensures
        commands_parsed(r) == grammar::parse_body(
            tokens_view(tokens@),
            pos as int,
            stop,
            Seq::empty(),
        ),
        r matches Ok((_, end)) ==> pos <= end && (end <= tokens@.len() || end == pos),
        sound(r),
    decreases tokens@.len() - pos, 3int,
{
    let ghost toks = tokens_view(tokens@);
    let mut acc: Vec<ExCommand> = Vec::new();
    let mut at = pos;
    assert(commands_view(acc@) =~= Seq::empty());
    loop
        invariant
            pos <= at,
            at <= tokens@.len() || at == pos,
            toks == tokens_view(tokens@),
            grammar::parse_body(toks, pos as int, stop, Seq::empty()) == grammar::parse_body(
                toks,
                at as int,
                stop,
                commands_view(acc@),
            ),
        decreases tokens@.len() - at,
    {
        if at_stop(tokens, at, stop) {
            return Ok((acc, at));
        }
        let (command, next) = parse_command(tokens, at)?;
        proof {
            lemma_commands_view_push(acc@, command);
        }
        acc.push(command);
        at = next;
    }
}

/// Parses the command that starts at `pos`, through the end of its line.
pub fn parse_command(tokens: &Vec<Token>, pos: usize) -> (r: Result<
    (ExCommand, usize),
    ParseError,
>)
    ensures
        parsed(r) == grammar::parse_command(tokens_view(tokens@), pos as int),
        r matches Ok((_, end)) ==> pos < end <= tokens@.len(),
        sound(r),
    decreases tokens@.len() - pos, 1int,
{
    let n = tokens.len();
    if pos >= n {
        return Err(fail(tokens, pos, Expected::Command));
    }
    let token = &tokens[pos];
    if token.kind == TokenKind::EndOfLine {
        Ok((ExCommand::NoOp(token.duplicate()), pos + 1))
    } else if token.kind == TokenKind::Comment {
        let end = expect_eol(tokens, pos + 1)?;
        Ok((ExCommand::Comment(token.duplicate()), end))
    } else if token.is_word("vim9script") {
        parse_vim9script(tokens, pos)
    } else if token.is_word("var") {
        parse_var(tokens, pos)
    } else if token.is_word("echo") {
        parse_echo(tokens, pos)
    } else if token.is_word("return") {
        parse_return(tokens, pos)
    } else if token.is_word("finish") {
        let end = expect_eol(tokens, pos + 1)?;
        Ok((ExCommand::Finish(token.duplicate()), end))
    } else if token.is_word("def") {
        let (command, end) = parse_def(tokens, pos)?;
        Ok((ExCommand::Def(command), end))
    } else if token.is_word("if") {
        let (command, end) = parse_if(tokens, pos)?;
        Ok((ExCommand::If(command), end))
    } else if token.is_word("augroup") {
        let (command, end) = parse_augroup(tokens, pos)?;
        Ok((ExCommand::Augroup(command), end))
    } else if token.is_word("autocmd") {
        let (command, end) = parse_autocmd(tokens, pos)?;
        Ok((ExCommand::Autocmd(command), end))
    } else {
        parse_statement(tokens, pos)
    }
}

/// The model of a parser's result.
pub open spec fn program_parsed(r: Result<Program, ParseError>) -> Result<
    Seq<CommandView>,
    ParseError,
> {
    match r {
        Ok(program) => Ok(program@),
        Err(e) => Err(e),
    }
}

/// Parses a token sequence into a program.
///
/// The result is the program that the grammar gives the tokens: its
/// commands, in the order of the tokens. The parse fails if and only if the
/// tokens violate the grammar, with the first violation: what was asked
/// for, the kind of the token found, and where that token stands in the
/// source.
pub fn parse(tokens: Vec<Token>) -> (r: Result<Program, ParseError>)
    ensures
        program_parsed(r) == grammar::parse_program(tokens_view(tokens@)),
        sound(r),
{
    let (commands, _) = parse_body(&tokens, 0, Stop::End)?;
    Ok(Program { commands })
}

/// A parser at work: the tokens, and the place of the next token to read.
pub struct Parser {
    pub tokens: Vec<Token>,
    pub pos: usize,
}

/// How a rule moves a parser: on success the parser stands after the tree
/// that the rule gives at the place where the parser stood, and the result
/// is that tree; on failure the parser stays where it was, and the result
/// is the rule's violation. The tokens never change.
pub open spec fn advanced<T: View>(
    before: Parser,
    after: Parser,
    r: Result<T, ParseError>,
    rule: Result<(T::V, int), ParseError>,
) -> bool {
    &&& after.tokens == before.tokens
    &&& match rule {
        Ok((tree, end)) => r is Ok && r->Ok_0@ == tree && after.pos == end,
        Err(e) => r == Err::<T, ParseError>(e) && after.pos == before.pos,
    }
}

impl Parser {
    /// A parser that stands at the first of `tokens`.
    pub fn new(tokens: Vec<Token>) -> (r: Parser)
        ensures
            r.tokens == tokens,
            r.pos == 0,
    {
        Parser { tokens, pos: 0 }
    }

    /// Parses the command at the parser's place.
    pub fn parse_command(&mut self) -> (r: Result<ExCommand, ParseError>)
        ensures
            advanced(
                *old(self),
                *final(self),
                r,
                grammar::parse_command(tokens_view(old(self).tokens@), old(self).pos as int),
            ),
            sound(r),
    {
        match parse_command(&self.tokens, self.pos) {
            Ok((command, end)) => {
                self.pos = end;
                Ok(command)
            },
            Err(e) => Err(e),
        }
    }

    /// Parses the commands from the parser's place to the end of the tokens.
    pub fn parse_program(&mut self) -> (r: Result<Program, ParseError>)
        ensures
            advanced(
                *old(self),
                *final(self),
                r,
                grammar::parse_body(
                    tokens_view(old(self).tokens@),
                    old(self).pos as int,
                    Stop::End,
                    Seq::empty(),
                ),
            ),
            sound(r),
    {
        match parse_body(&self.tokens, self.pos, Stop::End) {
            Ok((commands, end)) => {
                self.pos = end;
                Ok(Program { commands })
            },
            Err(e) => Err(e),
        }
    }
}

impl AugroupCommand {
    /// Parses the augroup at the parser's place: `augroup` and the name on
    /// one line, the body up to where `augroup` stands again, and
    /// `augroup END` on a line of its own.
    pub fn parse(parser: &mut Parser) -> (r: Result<ExCommand, ParseError>)
        ensures
            advanced(
                *old(parser),
                *final(parser),
                r,
                grammar::parse_augroup(tokens_view(old(parser).tokens@), old(parser).pos as int),
            ),
            sound(r),
    {
        match parse_augroup(&parser.tokens, parser.pos) {
            Ok((command, end)) => {
                parser.pos = end;
                Ok(ExCommand::Augroup(command))
            },
            Err(e) => Err(e),
        }
    }
}

impl AutocmdCommand {
    /// Parses the autocmd at the parser's place: `autocmd`, a bang if one
    /// follows, the events, the patterns, and what the autocmd runs.
    pub fn parse(parser: &mut Parser) -> (r: Result<ExCommand, ParseError>)
        ensures
            advanced(
                *old(parser),
                *final(parser),
                r,
                grammar::parse_autocmd(tokens_view(old(parser).tokens@), old(parser).pos as int),
            ),
            sound(r),
    {
        match parse_autocmd(&parser.tokens, parser.pos) {
            Ok((command, end)) => {
                parser.pos = end;
                Ok(ExCommand::Autocmd(command))
            },
            Err(e) => Err(e),
        }
    }
}

impl AutocmdBlock {
    /// Parses what an autocmd runs, at the parser's place: a block of
    /// commands if an opening brace stands there, else one command.
    pub fn parse(parser: &mut Parser) -> (r: Result<AutocmdBlock, ParseError>)
        ensures
            advanced(
                *old(parser),
                *final(parser),
                r,
                grammar::parse_block(tokens_view(old(parser).tokens@), old(parser).pos as int),
            ),
            sound(r),
    {
        match parse_block(&parser.tokens, parser.pos) {
            Ok((block, end)) => {
                parser.pos = end;
                Ok(block)
            },
            Err(e) => Err(e),
        }
    }
}

} // verus!
