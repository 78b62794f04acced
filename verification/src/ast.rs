//! The syntax tree: commands and expressions, and their mathematical model.
//!
//! The executable tree keeps one type per construct. Its model folds them
//! into four: identifiers, expressions, commands and autocmd actions.

use vstd::prelude::*;
use crate::token::{Token, TokenView, Literal, literals_view};

verus! {

/// The namespace a scoped identifier names.
#[derive(Clone, Copy, Debug, PartialEq, Eq, Structural)]
pub enum VimScope {
    Global,
    Tab,
    Window,
    Buffer,
    Script,
    Local,
    Argument,
    VimVar,
}

/// Unary and binary operators.
#[derive(Clone, Copy, Debug, PartialEq, Eq, Structural)]
pub enum Operator {
    Plus,
    Minus,
    Multiply,
    Bang,
    Or,
    And,
    LessThan,
    GreaterThan,
    LessThanOrEqual,
    GreaterThanOrEqual,
}

/// Which quote a string literal was written with.
#[derive(Clone, Copy, Debug, PartialEq, Eq, Structural)]
pub enum Quote {
    Single,
    Double,
}

// ---------------------------------------------------------------------------
// The model
// ---------------------------------------------------------------------------

/// The model of an identifier.
pub enum IdentView {
    Raw(Seq<char>),
    Scoped(VimScope, Box<IdentView>),
}

/// The model of an expression.
pub enum ExprView {
    Identifier(IdentView),
    Number(Seq<char>),
    Str(Quote, Seq<char>),
    Boolean(bool),
    Grouped(Box<ExprView>),
    Call(Box<ExprView>, Seq<ExprView>),
    Prefix(Operator, Box<ExprView>),
    Infix(Box<ExprView>, Operator, Box<ExprView>),
    Array(Seq<ExprView>),
    Dict(Seq<(TokenView, ExprView)>),
    VimOption(TokenView),
    Empty,
}

/// The model of a declared parameter of a function definition.
pub struct ParamView {
    pub name: TokenView,
    pub ty: Option<TokenView>,
}

/// The model of a command.
pub enum CommandView {
    Vim9Script { noclear: bool },
    Var { name: IdentView, ty: Option<TokenView>, expr: ExprView },
    Echo { expr: ExprView },
    Assign { left: ExprView, right: ExprView },
    Return { expr: Option<ExprView> },
    Def { name: IdentView, params: Seq<ParamView>, ret: Option<TokenView>, body: Seq<CommandView> },
    If { condition: ExprView, body: Seq<CommandView> },
    Augroup { name: TokenView, body: Seq<CommandView> },
    Autocmd { bang: bool, events: Seq<TokenView>, pattern: Seq<TokenView>, block: BlockView },
    Call { callee: ExprView, args: Seq<ExprView> },
    Finish(TokenView),
    Comment(TokenView),
    NoOp(TokenView),
    Skip,
    EndOfFile,
}

/// The model of what an autocmd runs: one command, or a block of them.
pub enum BlockView {
    Command(Box<CommandView>),
    Block(Seq<CommandView>),
}

// ---------------------------------------------------------------------------
// Expressions
// ---------------------------------------------------------------------------

/// A plain name.
#[derive(Debug)]
pub struct RawIdentifier {
    pub name: String,
}

/// A name behind a scope marker, as in `g:name`.
#[derive(Debug)]
pub struct ScopedIdentifier {
    pub scope: VimScope,
    pub accessor: Box<Identifier>,
}

#[derive(Debug)]
pub enum Identifier {
    Raw(RawIdentifier),
    Scope(ScopedIdentifier),
}

#[derive(Debug)]
pub struct VimNumber {
    pub value: String,
}

/// A string literal; the variant records the quote it was written with.
#[derive(Debug)]
pub enum VimString {
    SingleQuote(String),
    DoubleQuote(String),
}

#[derive(Debug)]
pub struct VimBoolean {
    pub value: bool,
}

#[derive(Debug)]
pub struct GroupedExpression {
    pub expr: Box<Expression>,
}

#[derive(Debug)]
pub struct CallExpression {
    pub expr: Box<Expression>,
    pub args: Vec<Expression>,
}

#[derive(Debug)]
pub struct PrefixExpression {
    pub operator: Operator,
    pub right: Box<Expression>,
}

#[derive(Debug)]
pub struct InfixExpression {
    pub left: Box<Expression>,
    pub operator: Operator,
    pub right: Box<Expression>,
}

#[derive(Debug)]
pub struct ArrayLiteral {
    pub elements: Vec<Expression>,
}

/// A dictionary key.
#[derive(Debug)]
pub enum VimKey {
    Literal(Literal),
}

#[derive(Debug)]
pub struct KeyValue {
    pub key: VimKey,
    pub value: Expression,
}

#[derive(Debug)]
pub struct DictLiteral {
    pub elements: Vec<KeyValue>,
}

/// A reference to an editor option, as in `&name`.
#[derive(Debug)]
pub struct VimOption {
    pub option: Literal,
}

#[derive(Debug)]
pub enum Expression {
    Identifier(Identifier),
    Number(VimNumber),
    String(VimString),
    Boolean(VimBoolean),
    Grouped(GroupedExpression),
    Call(CallExpression),
    Prefix(PrefixExpression),
    Infix(InfixExpression),
    Array(ArrayLiteral),
    Dict(DictLiteral),
    VimOption(VimOption),
    /// No expression at all, where the grammar allows one to be absent.
    Empty,
}

// ---------------------------------------------------------------------------
// Commands
// ---------------------------------------------------------------------------

#[derive(Debug)]
pub struct Vim9ScriptCommand {
    pub noclear: bool,
}

#[derive(Debug)]
pub struct VarCommand {
    pub name: Identifier,
    pub ty: Option<Literal>,
    pub expr: Expression,
}

#[derive(Debug)]
pub struct EchoCommand {
    pub expr: Expression,
}

#[derive(Debug)]
pub struct AssignStatement {
    pub left: Expression,
    pub right: Expression,
}

#[derive(Debug)]
pub enum StatementCommand {
    Assign(AssignStatement),
}

#[derive(Debug)]
pub struct ReturnCommand {
    pub expr: Option<Expression>,
}

/// A declared parameter of a function definition.
#[derive(Debug)]
pub struct Parameter {
    pub name: Literal,
    pub ty: Option<Literal>,
}

#[derive(Debug)]
pub struct DefCommand {
    pub name: Identifier,
    pub params: Vec<Parameter>,
    pub ret: Option<Literal>,
    pub body: Body,
}

#[derive(Debug)]
pub struct IfCommand {
    pub condition: Expression,
    pub body: Body,
}

#[derive(Debug)]
pub struct AugroupCommand {
    pub augroup_name: Literal,
    pub body: Body,
}

#[derive(Debug)]
pub struct AutocmdCommand {
    pub bang: bool,
    pub events: Vec<Literal>,
    pub pattern: Vec<Literal>,
    pub block: AutocmdBlock,
}

/// What an autocmd runs: one command written on its line, or a block in braces.
#[derive(Debug)]
pub enum AutocmdBlock {
    Command(Box<ExCommand>),
    Block(Block),
}

/// Commands between braces.
#[derive(Debug)]
pub struct Block {
    pub body: Body,
}

/// An ordered run of commands.
#[derive(Debug)]
pub struct Body {
    pub commands: Vec<ExCommand>,
}

#[derive(Debug)]
pub enum ExCommand {
    Vim9Script(Vim9ScriptCommand),
    Var(VarCommand),
    Echo(EchoCommand),
    Statement(StatementCommand),
    Return(ReturnCommand),
    Def(DefCommand),
    If(IfCommand),
    Augroup(AugroupCommand),
    Autocmd(AutocmdCommand),
    Call(CallExpression),
    Finish(Token),
    Comment(Token),
    NoOp(Token),
    Skip,
    EndOfFile,
}

/// A whole source unit.
#[derive(Debug)]
pub struct Program {
    pub commands: Vec<ExCommand>,
}

// ---------------------------------------------------------------------------
// Views
// ---------------------------------------------------------------------------

/// The model of an identifier.
pub open spec fn ident_view(id: Identifier) -> IdentView
    decreases id,
{
    match id {
        Identifier::Raw(raw) => IdentView::Raw(raw.name@),
        Identifier::Scope(scoped) => IdentView::Scoped(
            scoped.scope,
            Box::new(ident_view(*scoped.accessor)),
        ),
    }
}

/// The model of an expression.
pub open spec fn expr_view(e: Expression) -> ExprView
    decreases e, 0int,
{
    match e {
        Expression::Identifier(identifier) => ExprView::Identifier(ident_view(identifier)),
        Expression::Number(number) => ExprView::Number(number.value@),
        Expression::String(VimString::SingleQuote(s)) => ExprView::Str(Quote::Single, s@),
        Expression::String(VimString::DoubleQuote(s)) => ExprView::Str(Quote::Double, s@),
        Expression::Boolean(boolean) => ExprView::Boolean(boolean.value),
        Expression::Grouped(grouped) => ExprView::Grouped(Box::new(expr_view(*grouped.expr))),
        Expression::Call(call) => ExprView::Call(
            Box::new(expr_view(*call.expr)),
            exprs_view(call.args@),
        ),
        Expression::Prefix(prefix) => ExprView::Prefix(
            prefix.operator,
            Box::new(expr_view(*prefix.right)),
        ),
        Expression::Infix(infix) => ExprView::Infix(
            Box::new(expr_view(*infix.left)),
            infix.operator,
            Box::new(expr_view(*infix.right)),
        ),
        Expression::Array(array) => ExprView::Array(exprs_view(array.elements@)),
        Expression::Dict(dict) => ExprView::Dict(entries_view(dict.elements@)),
        Expression::VimOption(option) => ExprView::VimOption(option.option@),
        Expression::Empty => ExprView::Empty,
    }
}

/// The models of a sequence of expressions, one for one.
pub open spec fn exprs_view(exprs: Seq<Expression>) -> Seq<ExprView>
    decreases exprs, exprs.len() + 1,
{
    exprs_view_upto(exprs, exprs.len() as int)
}

/// The models of the first `n` expressions.
pub open spec fn exprs_view_upto(exprs: Seq<Expression>, n: int) -> Seq<ExprView>
    decreases exprs, n,
{
    if n <= 0 || n > exprs.len() {
        Seq::empty()
    } else {
        exprs_view_upto(exprs, n - 1).push(expr_view(exprs[n - 1]))
    }
}

/// The model of a dictionary key.
pub open spec fn key_view(key: VimKey) -> TokenView {
    match key {
        VimKey::Literal(literal) => literal@,
    }
}

/// The models of a dictionary's entries, one for one.
pub open spec fn entries_view(entries: Seq<KeyValue>) -> Seq<(TokenView, ExprView)>
    decreases entries, entries.len() + 1,
{
    entries_view_upto(entries, entries.len() as int)
}

/// The models of the first `n` entries.
pub open spec fn entries_view_upto(entries: Seq<KeyValue>, n: int) -> Seq<(TokenView, ExprView)>
    decreases entries, n,
{
    if n <= 0 || n > entries.len() {
        Seq::empty()
    } else {
        entries_view_upto(entries, n - 1).push(
            (key_view(entries[n - 1].key), expr_view(entries[n - 1].value)),
        )
    }
}

/// The model of an optional literal.
pub open spec fn opt_literal_view(literal: Option<Literal>) -> Option<TokenView> {
    match literal {
        Some(l) => Some(l@),
        None => None,
    }
}

/// The model of an optional expression.
pub open spec fn opt_expr_view(e: Option<Expression>) -> Option<ExprView> {
    match e {
        Some(e) => Some(expr_view(e)),
        None => None,
    }
}

/// The models of a sequence of parameters, one for one.
pub open spec fn params_view(params: Seq<Parameter>) -> Seq<ParamView> {
    Seq::new(params.len(), |i: int| params[i]@)
}

/// The model of a command.
pub open spec fn command_view(c: ExCommand) -> CommandView
    decreases c, 0int,
{
    match c {
        ExCommand::Vim9Script(c) => CommandView::Vim9Script { noclear: c.noclear },
        ExCommand::Var(c) => CommandView::Var {
            name: ident_view(c.name),
            ty: opt_literal_view(c.ty),
            expr: expr_view(c.expr),
        },
        ExCommand::Echo(c) => CommandView::Echo { expr: expr_view(c.expr) },
        ExCommand::Statement(StatementCommand::Assign(a)) => CommandView::Assign {
            left: expr_view(a.left),
            right: expr_view(a.right),
        },
        ExCommand::Return(c) => CommandView::Return { expr: opt_expr_view(c.expr) },
        ExCommand::Def(c) => CommandView::Def {
            name: ident_view(c.name),
            params: params_view(c.params@),
            ret: opt_literal_view(c.ret),
            body: commands_view(c.body.commands@),
        },
        ExCommand::If(c) => CommandView::If {
            condition: expr_view(c.condition),
            body: commands_view(c.body.commands@),
        },
        ExCommand::Augroup(c) => CommandView::Augroup {
            name: c.augroup_name@,
            body: commands_view(c.body.commands@),
        },
        ExCommand::Autocmd(c) => CommandView::Autocmd {
            bang: c.bang,
            events: literals_view(c.events@),
            pattern: literals_view(c.pattern@),
            block: block_view(c.block),
        },
        ExCommand::Call(c) => CommandView::Call {
            callee: expr_view(*c.expr),
            args: exprs_view(c.args@),
        },
        ExCommand::Finish(t) => CommandView::Finish(t@),
        ExCommand::Comment(t) => CommandView::Comment(t@),
        ExCommand::NoOp(t) => CommandView::NoOp(t@),
        ExCommand::Skip => CommandView::Skip,
        ExCommand::EndOfFile => CommandView::EndOfFile,
    }
}

/// The model of what an autocmd runs.
pub open spec fn block_view(block: AutocmdBlock) -> BlockView
    decreases block, 0int,
{
    match block {
        AutocmdBlock::Command(command) => BlockView::Command(Box::new(command_view(*command))),
        AutocmdBlock::Block(block) => BlockView::Block(commands_view(block.body.commands@)),
    }
}

/// The models of a sequence of commands, one for one.
pub open spec fn commands_view(commands: Seq<ExCommand>) -> Seq<CommandView>
    decreases commands, commands.len() + 1,
{
    commands_view_upto(commands, commands.len() as int)
}

/// The models of the first `n` commands.
pub open spec fn commands_view_upto(commands: Seq<ExCommand>, n: int) -> Seq<CommandView>
    decreases commands, n,
{
    if n <= 0 || n > commands.len() {
        Seq::empty()
    } else {
        commands_view_upto(commands, n - 1).push(command_view(commands[n - 1]))
    }
}

impl View for RawIdentifier {
    type V = IdentView;

    open spec fn view(&self) -> IdentView {
        IdentView::Raw(self.name@)
    }
}

impl View for ScopedIdentifier {
    type V = IdentView;

    open spec fn view(&self) -> IdentView {
        IdentView::Scoped(self.scope, Box::new(ident_view(*self.accessor)))
    }
}

impl View for Identifier {
    type V = IdentView;

    open spec fn view(&self) -> IdentView {
        ident_view(*self)
    }
}

impl View for VimNumber {
    type V = ExprView;

    open spec fn view(&self) -> ExprView {
        ExprView::Number(self.value@)
    }
}

impl View for VimString {
    type V = ExprView;

    open spec fn view(&self) -> ExprView {
        match self {
            VimString::SingleQuote(s) => ExprView::Str(Quote::Single, s@),
            VimString::DoubleQuote(s) => ExprView::Str(Quote::Double, s@),
        }
    }
}

impl View for VimBoolean {
    type V = ExprView;

    open spec fn view(&self) -> ExprView {
        ExprView::Boolean(self.value)
    }
}

impl View for VimOption {
    type V = ExprView;

    open spec fn view(&self) -> ExprView {
        ExprView::VimOption(self.option@)
    }
}

impl View for VimKey {
    type V = TokenView;

    open spec fn view(&self) -> TokenView {
        key_view(*self)
    }
}

impl View for KeyValue {
    type V = (TokenView, ExprView);

    open spec fn view(&self) -> (TokenView, ExprView) {
        (key_view(self.key), expr_view(self.value))
    }
}

impl View for GroupedExpression {
    type V = ExprView;

    open spec fn view(&self) -> ExprView {
        ExprView::Grouped(Box::new(expr_view(*self.expr)))
    }
}

impl View for CallExpression {
    type V = ExprView;

    open spec fn view(&self) -> ExprView {
        ExprView::Call(Box::new(expr_view(*self.expr)), exprs_view(self.args@))
    }
}

impl View for PrefixExpression {
    type V = ExprView;

    open spec fn view(&self) -> ExprView {
        ExprView::Prefix(self.operator, Box::new(expr_view(*self.right)))
    }
}

impl View for InfixExpression {
    type V = ExprView;

    open spec fn view(&self) -> ExprView {
        ExprView::Infix(
            Box::new(expr_view(*self.left)),
            self.operator,
            Box::new(expr_view(*self.right)),
        )
    }
}

impl View for ArrayLiteral {
    type V = ExprView;

    open spec fn view(&self) -> ExprView {
        ExprView::Array(exprs_view(self.elements@))
    }
}

impl View for DictLiteral {
    type V = ExprView;

    open spec fn view(&self) -> ExprView {
        ExprView::Dict(entries_view(self.elements@))
    }
}

impl View for Expression {
    type V = ExprView;

    open spec fn view(&self) -> ExprView {
        expr_view(*self)
    }
}

impl View for Parameter {
    type V = ParamView;

    open spec fn view(&self) -> ParamView {
        ParamView { name: self.name@, ty: opt_literal_view(self.ty) }
    }
}

impl View for Body {
    type V = Seq<CommandView>;

    open spec fn view(&self) -> Seq<CommandView> {
        commands_view(self.commands@)
    }
}

impl View for Block {
    type V = Seq<CommandView>;

    open spec fn view(&self) -> Seq<CommandView> {
        commands_view(self.body.commands@)
    }
}

impl View for AutocmdBlock {
    type V = BlockView;

    open spec fn view(&self) -> BlockView {
        block_view(*self)
    }
}

impl View for Vim9ScriptCommand {
    type V = CommandView;

    open spec fn view(&self) -> CommandView {
        CommandView::Vim9Script { noclear: self.noclear }
    }
}

impl View for VarCommand {
    type V = CommandView;

    open spec fn view(&self) -> CommandView {
        CommandView::Var {
            name: ident_view(self.name),
            ty: opt_literal_view(self.ty),
            expr: expr_view(self.expr),
        }
    }
}

impl View for EchoCommand {
    type V = CommandView;

    open spec fn view(&self) -> CommandView {
        CommandView::Echo { expr: expr_view(self.expr) }
    }
}

impl View for AssignStatement {
    type V = CommandView;

    open spec fn view(&self) -> CommandView {
        CommandView::Assign { left: expr_view(self.left), right: expr_view(self.right) }
    }
}

impl View for StatementCommand {
    type V = CommandView;

    open spec fn view(&self) -> CommandView {
        match self {
            StatementCommand::Assign(a) => CommandView::Assign {
                left: expr_view(a.left),
                right: expr_view(a.right),
            },
        }
    }
}

impl View for ReturnCommand {
    type V = CommandView;

    open spec fn view(&self) -> CommandView {
        CommandView::Return { expr: opt_expr_view(self.expr) }
    }
}

impl View for DefCommand {
    type V = CommandView;

    open spec fn view(&self) -> CommandView {
        CommandView::Def {
            name: ident_view(self.name),
            params: params_view(self.params@),
            ret: opt_literal_view(self.ret),
            body: commands_view(self.body.commands@),
        }
    }
}

impl View for IfCommand {
    type V = CommandView;

    open spec fn view(&self) -> CommandView {
        CommandView::If {
            condition: expr_view(self.condition),
            body: commands_view(self.body.commands@),
        }
    }
}

impl View for AugroupCommand {
    type V = CommandView;

    open spec fn view(&self) -> CommandView {
        CommandView::Augroup {
            name: self.augroup_name@,
            body: commands_view(self.body.commands@),
        }
    }
}

impl View for AutocmdCommand {
    type V = CommandView;

    open spec fn view(&self) -> CommandView {
        CommandView::Autocmd {
            bang: self.bang,
            events: literals_view(self.events@),
            pattern: literals_view(self.pattern@),
            block: block_view(self.block),
        }
    }
}

impl View for ExCommand {
    type V = CommandView;

    open spec fn view(&self) -> CommandView {
        command_view(*self)
    }
}

impl View for Program {
    type V = Seq<CommandView>;

    open spec fn view(&self) -> Seq<CommandView> {
        commands_view(self.commands@)
    }
}

/// The model of a sequence of expressions has the model of each expression
/// at the expression's place.
pub proof fn lemma_exprs_view(exprs: Seq<Expression>)
    ensures
        exprs_view(exprs).len() == exprs.len(),
        forall|i: int| 0 <= i < exprs.len() ==> (#[trigger] exprs_view(exprs)[i]) == exprs[i]@,
{
    lemma_exprs_view_upto(exprs, exprs.len() as int);
}

proof fn lemma_exprs_view_upto(exprs: Seq<Expression>, n: int)
    requires
        0 <= n <= exprs.len(),
    ensures
        exprs_view_upto(exprs, n).len() == n,
        forall|i: int| 0 <= i < n ==> (#[trigger] exprs_view_upto(exprs, n)[i]) == exprs[i]@,
    decreases n,
{
    if n > 0 {
        lemma_exprs_view_upto(exprs, n - 1);
    }
}

/// The model of a dictionary's entries has the model of each entry at the
/// entry's place.
pub proof fn lemma_entries_view(entries: Seq<KeyValue>)
    ensures
        entries_view(entries).len() == entries.len(),
        forall|i: int|
            0 <= i < entries.len() ==> (#[trigger] entries_view(entries)[i]) == entries[i]@,
{
    lemma_entries_view_upto(entries, entries.len() as int);
}

proof fn lemma_entries_view_upto(entries: Seq<KeyValue>, n: int)
    requires
        0 <= n <= entries.len(),
    ensures
        entries_view_upto(entries, n).len() == n,
        forall|i: int| 0 <= i < n ==> (#[trigger] entries_view_upto(entries, n)[i]) == entries[i]@,
    decreases n,
{
    if n > 0 {
        lemma_entries_view_upto(entries, n - 1);
    }
}

/// The model of a sequence of commands has the model of each command at the
/// command's place.
pub proof fn lemma_commands_view(commands: Seq<ExCommand>)
    ensures
        commands_view(commands).len() == commands.len(),
        forall|i: int|
            0 <= i < commands.len() ==> (#[trigger] commands_view(commands)[i]) == commands[i]@,
{
    lemma_commands_view_upto(commands, commands.len() as int);
}

proof fn lemma_commands_view_upto(commands: Seq<ExCommand>, n: int)
    requires
        0 <= n <= commands.len(),
    ensures
        commands_view_upto(commands, n).len() == n,
        forall|i: int|
            0 <= i < n ==> (#[trigger] commands_view_upto(commands, n)[i]) == commands[i]@,
    decreases n,
{
    if n > 0 {
        lemma_commands_view_upto(commands, n - 1);
    }
}

/// Appending an expression appends its model.
pub proof fn lemma_exprs_view_push(exprs: Seq<Expression>, e: Expression)
    ensures
        exprs_view(exprs.push(e)) == exprs_view(exprs).push(e@),
{
    lemma_exprs_view(exprs);
    lemma_exprs_view(exprs.push(e));
    assert(exprs_view(exprs.push(e)) =~= exprs_view(exprs).push(e@));
}

/// Appending an entry appends its model.
pub proof fn lemma_entries_view_push(entries: Seq<KeyValue>, entry: KeyValue)
    ensures
        entries_view(entries.push(entry)) == entries_view(entries).push(entry@),
{
    lemma_entries_view(entries);
    lemma_entries_view(entries.push(entry));
    assert(entries_view(entries.push(entry)) =~= entries_view(entries).push(entry@));
}

/// Appending a command appends its model.
pub proof fn lemma_commands_view_push(commands: Seq<ExCommand>, c: ExCommand)
    ensures
        commands_view(commands.push(c)) == commands_view(commands).push(c@),
{
    lemma_commands_view(commands);
    lemma_commands_view(commands.push(c));
    assert(commands_view(commands.push(c)) =~= commands_view(commands).push(c@));
}

} // verus!
