//! The code generator: from the syntax tree to Lua text.
//!
//! Every node type implements [`Generate`]. A node's text is composed from
//! the texts of its children, generated first and in their order. The only
//! state of a run is the [`State`], handed down the walk by reference.

use vstd::prelude::*;
use crate::ast::{
    ArrayLiteral, AssignStatement, AugroupCommand, AutocmdBlock, AutocmdCommand, Block, Body,
    CallExpression, CommandView, DefCommand, DictLiteral, EchoCommand, ExCommand, ExprView,
    Expression, GroupedExpression, Identifier, IfCommand, InfixExpression, Operator,
    PrefixExpression, Program, RawIdentifier, ReturnCommand, ScopedIdentifier, StatementCommand,
    VarCommand, Vim9ScriptCommand, VimBoolean, VimKey, VimNumber, VimOption, VimScope, VimString,
    commands_view, entries_view, exprs_view, lemma_commands_view, lemma_entries_view,
    lemma_exprs_view,
};
use crate::format::{format_lua, stylua_formatted};
use crate::grammar::{ParseError, parse_program};
use crate::lexer::{LexError, lex, tokenize};
use crate::parser::parse;
use crate::target::{
    Emitted, GenError, Group, callee_text, gen_block, gen_body, gen_command, gen_commands,
    gen_entries, gen_expr, gen_exprs, gen_ident, gen_program, join_upto, lines_upto, lowercase_of,
    operator_text, quoted_events,
};
use crate::token::{Literal, TokenView, literals_view};

verus! {

/// The context of one generation run: the augroup that encloses the command
/// being generated, if any.
///
/// A run starts with no augroup. Generating an augroup sets the field for
/// the time its body is generated and clears it afterwards.
pub struct State {
    pub augroup: Option<Literal>,
}

impl View for State {
    type V = Group;

    open spec fn view(&self) -> Group {
        match self.augroup {
            Some(literal) => Some(literal@),
            None => None,
        }
    }
}

impl State {
    /// The state at the start of a run: no enclosing augroup.
    pub fn new() -> (r: State)
        ensures
            r@ == None::<TokenView>,
    {
        State { augroup: None }
    }
}

/// The model of a generated text or its failure.
pub open spec fn text_view(r: Result<String, GenError>) -> Result<Seq<char>, GenError> {
    match r {
        Ok(s) => Ok(s@),
        Err(e) => Err(e),
    }
}

/// The models of a sequence of strings, one for one.
pub open spec fn strings_view(strings: Seq<String>) -> Seq<Seq<char>> {
    Seq::new(strings.len(), |i: int| strings[i]@)
}

/// The model of generated parts or their failure.
pub open spec fn parts_view(r: Result<Vec<String>, GenError>) -> Result<Seq<Seq<char>>, GenError> {
    match r {
        Ok(v) => Ok(strings_view(v@)),
        Err(e) => Err(e),
    }
}

/// A node of the syntax tree that can be written out as Lua.
pub trait Generate {
    /// What generating this node yields in the given context.
    spec fn emitted(&self, group: Group) -> Emitted;

    /// Generates the node's text in the context `state`, and leaves in
    /// `state` the context for what follows the node.
    fn gen(&self, state: &mut State) -> (r: Result<String, GenError>)
        ensures
            text_view(r) == self.emitted(old(state)@).text,
            final(state)@ == self.emitted(old(state)@).group,
    ;
}

/// What `str::to_lowercase` returns.
///
/// The standard library's `str::to_lowercase` maps each character to its
/// lower-case form by the Unicode tables and depends on nothing but the
/// string; the contract gives that result its name.
#[verifier::external_body]
fn lowercase(s: &str) -> (r: String)
    ensures
        r@ == lowercase_of(s@),
{
    s.to_lowercase()
}

/// Whether `s` begins with `prefix`.
pub fn has_prefix(s: &str, prefix: &str) -> (r: bool)
    ensures
        r == prefix@.is_prefix_of(s@),
{
    let n = prefix.unicode_len();
    if s.unicode_len() < n {
        return false;
    }
    let mut i: usize = 0;
    while i < n
        invariant
            i <= n,
            n == prefix@.len(),
            n <= s@.len(),
            forall|j: int| 0 <= j < i ==> s@[j] == prefix@[j],
        decreases n - i,
    {
        if s.get_char(i) != prefix.get_char(i) {
            assert(prefix@[i as int] != s@.subrange(0, n as int)[i as int]);
            return false;
        }
        i += 1;
    }
    assert(prefix@ =~= s@.subrange(0, n as int));
    true
}

/// `parts` joined by `sep`.
pub fn join(parts: &Vec<String>, sep: &str) -> (r: String)
    ensures
        r@ == crate::target::join(strings_view(parts@), sep@),
{
    let mut out = String::new();
    let mut i: usize = 0;
    while i < parts.len()
        invariant
            i <= parts.len(),
            out@ == join_upto(strings_view(parts@), sep@, i as int),
        decreases parts.len() - i,
    {
        if i > 0 {
            out.append(sep);
        }
        out.append(parts[i].as_str());
        i += 1;
        proof {
            if i == 1 {
                assert(out@ =~= strings_view(parts@)[0]);
            }
        }
    }
    out
}

/// The function that a call to `name` reaches, given `name` in lower case:
/// the native API for a lower-case name that begins with `nvim_`, the
/// builtin functions for any other lower-case name, and the script's own
/// function for a name that is not all lower case.
pub fn route_call(name: &str, lowered: &str) -> (r: String)
    ensures
        r@ == callee_text(name@, lowered@),
{
    if String::from_str(lowered) == String::from_str(name) {
        if has_prefix(name, "nvim_") {
            let mut out = String::from_str("vim.api.");
            out.append(name);
            out
        } else {
            let mut out = String::from_str("vim.fn.");
            out.append(name);
            out
        }
    } else {
        String::from_str(name)
    }
}

/// `a`, `b` and `c` in a row.
fn concat3(a: &str, b: &str, c: &str) -> (r: String)
    ensures
        r@ == a@ + b@ + c@,
{
    let mut out = String::from_str(a);
    out.append(b);
    out.append(c);
    out
}

impl Generate for Operator {
    open spec fn emitted(&self, group: Group) -> Emitted {
        Emitted { text: Ok(operator_text(*self)), group }
    }

    fn gen(&self, state: &mut State) -> (r: Result<String, GenError>) {
        let text = match self {
            Operator::Plus => "+",
            Operator::Minus => "-",
            Operator::Multiply => "*",
            Operator::Bang => "not",
            Operator::Or => "or",
            Operator::And => "and",
            Operator::LessThan => "<",
            Operator::GreaterThan => ">",
            Operator::LessThanOrEqual => "<=",
            Operator::GreaterThanOrEqual => ">=",
        };
        Ok(String::from_str(text))
    }
}

impl Generate for Literal {
    open spec fn emitted(&self, group: Group) -> Emitted {
        Emitted { text: Ok(self@.text), group }
    }

    fn gen(&self, state: &mut State) -> (r: Result<String, GenError>) {
        Ok(self.token.text.clone())
    }
}

impl Generate for VimKey {
    open spec fn emitted(&self, group: Group) -> Emitted {
        Emitted { text: Ok(self@.text), group }
    }

    fn gen(&self, state: &mut State) -> (r: Result<String, GenError>) {
        match self {
            VimKey::Literal(literal) => Ok(literal.token.text.clone()),
        }
    }
}

impl Generate for RawIdentifier {
    open spec fn emitted(&self, group: Group) -> Emitted {
        Emitted { text: gen_ident(self@), group }
    }

    fn gen(&self, state: &mut State) -> (r: Result<String, GenError>) {
        Ok(self.name.clone())
    }
}

impl Generate for ScopedIdentifier {
    open spec fn emitted(&self, group: Group) -> Emitted {
        Emitted { text: gen_ident(self@), group }
    }

    fn gen(&self, state: &mut State) -> (r: Result<String, GenError>)
        decreases self,
    {
        match self.scope {
            VimScope::Global => {
                let accessor = self.accessor.gen(state)?;
                let mut out = String::from_str("vim.g.");
                out.append(accessor.as_str());
                Ok(out)
            },
            scope => Err(GenError::Scope(scope)),
        }
    }
}

impl Generate for Identifier {
    open spec fn emitted(&self, group: Group) -> Emitted {
        Emitted { text: gen_ident(self@), group }
    }

    fn gen(&self, state: &mut State) -> (r: Result<String, GenError>)
        decreases self,
    {
        match self {
            Identifier::Raw(raw) => raw.gen(state),
            Identifier::Scope(scoped) => scoped.gen(state),
        }
    }
}

impl Generate for VimNumber {
    open spec fn emitted(&self, group: Group) -> Emitted {
        Emitted { text: gen_expr(self@), group }
    }

    fn gen(&self, state: &mut State) -> (r: Result<String, GenError>) {
        Ok(self.value.clone())
    }
}

impl Generate for VimString {
    open spec fn emitted(&self, group: Group) -> Emitted {
        Emitted { text: gen_expr(self@), group }
    }

    fn gen(&self, state: &mut State) -> (r: Result<String, GenError>) {
        match self {
            VimString::SingleQuote(s) => Ok(concat3("'", s.as_str(), "'")),
            VimString::DoubleQuote(s) => Ok(concat3("\"", s.as_str(), "\"")),
        }
    }
}

impl Generate for VimBoolean {
    open spec fn emitted(&self, group: Group) -> Emitted {
        Emitted { text: gen_expr(self@), group }
    }

    fn gen(&self, state: &mut State) -> (r: Result<String, GenError>) {
        if self.value {
            Ok(String::from_str("true"))
        } else {
            Ok(String::from_str("false"))
        }
    }
}

impl Generate for VimOption {
    open spec fn emitted(&self, group: Group) -> Emitted {
        Emitted { text: gen_expr(self@), group }
    }

    fn gen(&self, state: &mut State) -> (r: Result<String, GenError>) {
        let name = self.option.gen(state)?;
        Ok(concat3("vim.api.nvim_get_option_value('", name.as_str(), "', {})"))
    }
}

impl Generate for GroupedExpression {
    open spec fn emitted(&self, group: Group) -> Emitted {
        Emitted { text: gen_expr(self@), group }
    }

    fn gen(&self, state: &mut State) -> (r: Result<String, GenError>)
        decreases self,
    {
        let inner = self.expr.gen(state)?;
        Ok(concat3("(", inner.as_str(), ")"))
    }
}

impl Generate for PrefixExpression {
    open spec fn emitted(&self, group: Group) -> Emitted {
        Emitted { text: gen_expr(self@), group }
    }

    fn gen(&self, state: &mut State) -> (r: Result<String, GenError>) {
        Err(GenError::PrefixExpression)
    }
}

impl Generate for InfixExpression {
    open spec fn emitted(&self, group: Group) -> Emitted {
        Emitted { text: gen_expr(self@), group }
    }

    fn gen(&self, state: &mut State) -> (r: Result<String, GenError>)
        decreases self,
    {
        let left = self.left.gen(state)?;
        let operator = self.operator.gen(state)?;
        let right = self.right.gen(state)?;
        let mut out = String::from_str("(");
        out.append(left.as_str());
        out.append(" ");
        out.append(operator.as_str());
        out.append(" ");
        out.append(right.as_str());
        out.append(")");
        Ok(out)
    }
}

/// Generates each expression in its order and collects the texts.
fn gen_each(exprs: &Vec<Expression>, state: &mut State) -> (r: Result<Vec<String>, GenError>)
    ensures
        parts_view(r) == gen_exprs(exprs_view(exprs@), exprs@.len() as int),
        final(state)@ == old(state)@,
    decreases exprs,
{
    let ghost es = exprs_view(exprs@);
    let mut parts: Vec<String> = Vec::new();
    let mut i: usize = 0;
    assert(strings_view(parts@) =~= Seq::empty());
    proof {
        lemma_exprs_view(exprs@);
    }
    while i < exprs.len()
        invariant
            i <= exprs.len(),
            es == exprs_view(exprs@),
            es.len() == exprs@.len(),
            gen_exprs(es, i as int) == Ok::<Seq<Seq<char>>, GenError>(strings_view(parts@)),
            state@ == old(state)@,
        decreases exprs.len() - i,
    {
        proof {
            lemma_exprs_view(exprs@);
        }
        let text = match exprs[i].gen(state) {
            Ok(text) => text,
            Err(e) => {
                proof {
                    lemma_gen_exprs_fails(es, i as int + 1, es.len() as int);
                }
                return Err(e);
            },
        };
        let ghost before = strings_view(parts@);
        parts.push(text);
        i += 1;
        assert(strings_view(parts@) =~= before.push(text@));
    }
    Ok(parts)
}

/// Once a prefix of a list fails to generate, every longer prefix fails the
/// same way.
pub proof fn lemma_gen_exprs_fails(es: Seq<ExprView>, n: int, m: int)
    requires
        0 <= n <= m <= es.len(),
        gen_exprs(es, n) is Err,
    ensures
        gen_exprs(es, m) == gen_exprs(es, n),
    decreases m - n,
{
    if n < m {
        lemma_gen_exprs_fails(es, n, m - 1);
    }
}

impl Generate for CallExpression {
    open spec fn emitted(&self, group: Group) -> Emitted {
        Emitted { text: gen_expr(self@), group }
    }

    fn gen(&self, state: &mut State) -> (r: Result<String, GenError>)
        decreases self,
    {
        proof {
            lemma_exprs_view(self.args@);
        }
        let func = match &(*self.expr) {
            Expression::Identifier(Identifier::Raw(raw)) => {
                let lowered = lowercase(raw.name.as_str());
                route_call(raw.name.as_str(), lowered.as_str())
            },
            Expression::Identifier(Identifier::Scope(_)) => {
                return Err(GenError::ScopedCallee);
            },
            _ => {
                return Err(GenError::ComputedCallee);
            },
        };
        let args = gen_each(&self.args, state)?;
        let joined = join(&args, ", ");
        let mut out = func;
        out.append("(");
        out.append(joined.as_str());
        out.append(")");
        Ok(out)
    }
}

impl Generate for ArrayLiteral {
    open spec fn emitted(&self, group: Group) -> Emitted {
        Emitted { text: gen_expr(self@), group }
    }

    fn gen(&self, state: &mut State) -> (r: Result<String, GenError>)
        decreases self,
    {
        proof {
            lemma_exprs_view(self.elements@);
        }
        let parts = gen_each(&self.elements, state)?;
        let joined = join(&parts, ", ");
        Ok(concat3("{ ", joined.as_str(), " }"))
    }
}

/// Once a prefix of a dictionary fails to generate, every longer prefix
/// fails the same way.
pub proof fn lemma_gen_entries_fails(entries: Seq<(TokenView, ExprView)>, n: int, m: int)
    requires
        0 <= n <= m <= entries.len(),
        gen_entries(entries, n) is Err,
    ensures
        gen_entries(entries, m) == gen_entries(entries, n),
    decreases m - n,
{
    if n < m {
        lemma_gen_entries_fails(entries, n, m - 1);
    }
}

impl Generate for DictLiteral {
    open spec fn emitted(&self, group: Group) -> Emitted {
        Emitted { text: gen_expr(self@), group }
    }

    fn gen(&self, state: &mut State) -> (r: Result<String, GenError>)
        decreases self,
    {
        let ghost entries = entries_view(self.elements@);
        let mut parts: Vec<String> = Vec::new();
        let mut i: usize = 0;
        assert(strings_view(parts@) =~= Seq::empty());
        proof {
            lemma_entries_view(self.elements@);
        }
        while i < self.elements.len()
            invariant
                i <= self.elements.len(),
                entries == entries_view(self.elements@),
                entries.len() == self.elements@.len(),
                gen_entries(entries, i as int) == Ok::<Seq<Seq<char>>, GenError>(
                    strings_view(parts@),
                ),
                state@ == old(state)@,
            decreases self.elements.len() - i,
        {
            let entry = &self.elements[i];
            proof {
                lemma_entries_view(self.elements@);
            }
            let key = entry.key.gen(state)?;
            let value = match entry.value.gen(state) {
                Ok(value) => value,
                Err(e) => {
                    proof {
                        lemma_gen_entries_fails(entries, i as int + 1, entries.len() as int);
                    }
                    return Err(e);
                },
            };
            let ghost before = strings_view(parts@);
            parts.push(concat3(key.as_str(), " = ", value.as_str()));
            i += 1;
            assert(strings_view(parts@) =~= before.push(key@ + " = "@ + value@));
        }
        let joined = join(&parts, ", ");
        Ok(concat3("{ ", joined.as_str(), " }"))
    }
}

impl Generate for Expression {
    open spec fn emitted(&self, group: Group) -> Emitted {
        Emitted { text: gen_expr(self@), group }
    }

    fn gen(&self, state: &mut State) -> (r: Result<String, GenError>)
        decreases self,
    {
        match self {
            Expression::Identifier(identifier) => identifier.gen(state),
            Expression::Number(number) => number.gen(state),
            Expression::String(string) => string.gen(state),
            Expression::Boolean(boolean) => boolean.gen(state),
            Expression::Grouped(grouped) => grouped.gen(state),
            Expression::Call(call) => call.gen(state),
            Expression::Prefix(prefix) => prefix.gen(state),
            Expression::Infix(infix) => infix.gen(state),
            Expression::Array(array) => array.gen(state),
            Expression::Dict(dict) => dict.gen(state),
            Expression::VimOption(option) => option.gen(state),
            Expression::Empty => Ok(String::new()),
        }
    }
}

impl Generate for Vim9ScriptCommand {
    open spec fn emitted(&self, group: Group) -> Emitted {
        gen_command(self@, group)
    }

    fn gen(&self, state: &mut State) -> (r: Result<String, GenError>) {
        Ok(String::from_str("-- vim9script"))
    }
}

impl Generate for VarCommand {
    open spec fn emitted(&self, group: Group) -> Emitted {
        gen_command(self@, group)
    }

    fn gen(&self, state: &mut State) -> (r: Result<String, GenError>) {
        let name = self.name.gen(state)?;
        let expr = self.expr.gen(state)?;
        let mut out = String::from_str("local ");
        out.append(name.as_str());
        out.append(" = ");
        out.append(expr.as_str());
        Ok(out)
    }
}

impl Generate for EchoCommand {
    open spec fn emitted(&self, group: Group) -> Emitted {
        gen_command(self@, group)
    }

    fn gen(&self, state: &mut State) -> (r: Result<String, GenError>) {
        let expr = self.expr.gen(state)?;
        Ok(concat3("print(", expr.as_str(), ")"))
    }
}

impl Generate for AssignStatement {
    open spec fn emitted(&self, group: Group) -> Emitted {
        gen_command(self@, group)
    }

    fn gen(&self, state: &mut State) -> (r: Result<String, GenError>) {
        let left = self.left.gen(state)?;
        let right = self.right.gen(state)?;
        Ok(concat3(left.as_str(), " = ", right.as_str()))
    }
}

impl Generate for StatementCommand {
    open spec fn emitted(&self, group: Group) -> Emitted {
        gen_command(self@, group)
    }

    fn gen(&self, state: &mut State) -> (r: Result<String, GenError>) {
        match self {
            StatementCommand::Assign(assign) => assign.gen(state),
        }
    }
}

impl Generate for ReturnCommand {
    open spec fn emitted(&self, group: Group) -> Emitted {
        gen_command(self@, group)
    }

    fn gen(&self, state: &mut State) -> (r: Result<String, GenError>) {
        match &self.expr {
            Some(expr) => {
                let text = expr.gen(state)?;
                let mut out = String::from_str("return ");
                out.append(text.as_str());
                Ok(out)
            },
            None => Ok(String::from_str("return")),
        }
    }
}

/// Once a prefix of a run of commands fails to generate, every longer
/// prefix fails the same way and leaves the same context.
pub proof fn lemma_gen_commands_fails(cs: Seq<CommandView>, n: int, m: int, group: Group)
    requires
        0 <= n <= m <= cs.len(),
        gen_commands(cs, n, group).0 is Err,
    ensures
        gen_commands(cs, m, group) == gen_commands(cs, n, group),
    decreases m - n,
{
    if n < m {
        lemma_gen_commands_fails(cs, n, m - 1, group);
    }
}

/// Generates each command in its order, handing the context from one to the
/// next, and collects the texts.
fn gen_all(commands: &Vec<ExCommand>, state: &mut State) -> (r: Result<Vec<String>, GenError>)
    ensures
        parts_view(r) == gen_commands(
            commands_view(commands@),
            commands@.len() as int,
            old(state)@,
        ).0,
        final(state)@ == gen_commands(
            commands_view(commands@),
            commands@.len() as int,
            old(state)@,
        ).1,
    decreases commands,
{
    let ghost cs = commands_view(commands@);
    let ghost start = old(state)@;
    let mut parts: Vec<String> = Vec::new();
    let mut i: usize = 0;
    assert(strings_view(parts@) =~= Seq::empty());
    proof {
        lemma_commands_view(commands@);
    }
    while i < commands.len()
        invariant
            i <= commands.len(),
            cs == commands_view(commands@),
            cs.len() == commands@.len(),
            start == old(state)@,
            gen_commands(cs, i as int, start) == (
                Ok::<Seq<Seq<char>>, GenError>(strings_view(parts@)),
                state@,
            ),
        decreases commands.len() - i,
    {
        proof {
            lemma_commands_view(commands@);
        }
        let text = match commands[i].gen(state) {
            Ok(text) => text,
            Err(e) => {
                proof {
                    lemma_gen_commands_fails(cs, i as int + 1, cs.len() as int, start);
                }
                return Err(e);
            },
        };
        let ghost before = strings_view(parts@);
        parts.push(text);
        i += 1;
        assert(strings_view(parts@) =~= before.push(text@));
    }
    Ok(parts)
}

impl Generate for Body {
    open spec fn emitted(&self, group: Group) -> Emitted {
        gen_body(self@, group)
    }

    fn gen(&self, state: &mut State) -> (r: Result<String, GenError>)
        decreases self,
    {
        proof {
            lemma_commands_view(self.commands@);
        }
        let parts = gen_all(&self.commands, state)?;
        Ok(join(&parts, "\n"))
    }
}

impl Generate for Block {
    open spec fn emitted(&self, group: Group) -> Emitted {
        gen_body(self@, group)
    }

    fn gen(&self, state: &mut State) -> (r: Result<String, GenError>)
        decreases self,
    {
        self.body.gen(state)
    }
}

impl Generate for DefCommand {
    open spec fn emitted(&self, group: Group) -> Emitted {
        gen_command(self@, group)
    }

    fn gen(&self, state: &mut State) -> (r: Result<String, GenError>)
        decreases self,
    {
        let name = self.name.gen(state)?;
        let body = self.body.gen(state)?;
        let mut out = String::from_str("\nlocal ");
        out.append(name.as_str());
        out.append(" = function()\n  ");
        out.append(body.as_str());
        out.append("\nend");
        Ok(out)
    }
}

impl Generate for IfCommand {
    open spec fn emitted(&self, group: Group) -> Emitted {
        gen_command(self@, group)
    }

    fn gen(&self, state: &mut State) -> (r: Result<String, GenError>)
        decreases self,
    {
        let condition = self.condition.gen(state)?;
        let body = self.body.gen(state)?;
        let mut out = String::from_str("if ");
        out.append(condition.as_str());
        out.append(" then\n  ");
        out.append(body.as_str());
        out.append("\nend");
        Ok(out)
    }
}

impl Generate for AugroupCommand {
    open spec fn emitted(&self, group: Group) -> Emitted {
        gen_command(self@, group)
    }

    fn gen(&self, state: &mut State) -> (r: Result<String, GenError>)
        decreases self,
    {
        state.augroup = Some(self.augroup_name.duplicate());
        let body = self.body.gen(state);
        state.augroup = None;
        let body = body?;
        let mut out = String::from_str("\n    vim.api.nvim_create_augroup(\"");
        out.append(self.augroup_name.token.text.as_str());
        out.append("\", { clear = false })\n\n    ");
        out.append(body.as_str());
        out.append("\n");
        Ok(out)
    }
}

impl Generate for AutocmdBlock {
    open spec fn emitted(&self, group: Group) -> Emitted {
        gen_block(self@, group)
    }

    fn gen(&self, state: &mut State) -> (r: Result<String, GenError>)
        decreases self,
    {
        match self {
            AutocmdBlock::Command(command) => command.gen(state),
            AutocmdBlock::Block(block) => block.gen(state),
        }
    }
}

/// The names of the events, each between single quotes.
fn quote_events(events: &Vec<Literal>) -> (r: Vec<String>)
    ensures
        strings_view(r@) == quoted_events(literals_view(events@)),
{
    let mut parts: Vec<String> = Vec::new();
    let mut i: usize = 0;
    while i < events.len()
        invariant
            i <= events.len(),
            parts@.len() == i,
            forall|j: int| 0 <= j < i ==> (#[trigger] parts@[j])@ == "'"@ + events@[j]@.text + "'"@,
        decreases events.len() - i,
    {
        parts.push(concat3("'", events[i].token.text.as_str(), "'"));
        i += 1;
    }
    assert(strings_view(parts@) =~= quoted_events(literals_view(events@)));
    parts
}

impl Generate for AutocmdCommand {
    open spec fn emitted(&self, group: Group) -> Emitted {
        gen_command(self@, group)
    }

    fn gen(&self, state: &mut State) -> (r: Result<String, GenError>)
        decreases self,
    {
        let group = match &state.augroup {
            Some(group) => concat3("group = '", group.token.text.as_str(), "',"),
            None => String::new(),
        };
        let events = quote_events(&self.events);
        let event_list = join(&events, ", ");
        let body = self.block.gen(state)?;
        let mut out = String::from_str("\nvim.api.nvim_create_autocmd({ ");
        out.append(event_list.as_str());
        out.append(" }, {\n    ");
        out.append(group.as_str());
        out.append("\n    callback = function()\n");
        out.append(body.as_str());
        out.append("\nend,\n})\n");
        Ok(out)
    }
}

impl Generate for ExCommand {
    open spec fn emitted(&self, group: Group) -> Emitted {
        gen_command(self@, group)
    }

    fn gen(&self, state: &mut State) -> (r: Result<String, GenError>)
        decreases self,
    {
        match self {
            ExCommand::Vim9Script(cmd) => cmd.gen(state),
            ExCommand::Var(cmd) => cmd.gen(state),
            ExCommand::Echo(cmd) => cmd.gen(state),
            ExCommand::Statement(cmd) => cmd.gen(state),
            ExCommand::Return(cmd) => cmd.gen(state),
            ExCommand::Def(cmd) => cmd.gen(state),
            ExCommand::If(cmd) => cmd.gen(state),
            ExCommand::Augroup(cmd) => cmd.gen(state),
            ExCommand::Autocmd(cmd) => cmd.gen(state),
            ExCommand::Comment(token) => {
                let mut out = String::from_str("-- ");
                out.append(token.text.as_str());
                Ok(out)
            },
            ExCommand::NoOp(token) => {
                let mut out = String::from_str("-- ");
                out.append(token.kind.name());
                Ok(out)
            },
            ExCommand::Call(_) => Err(GenError::CallCommand),
            ExCommand::Finish(_) => Err(GenError::FinishCommand),
            ExCommand::Skip => Err(GenError::SkipCommand),
            ExCommand::EndOfFile => Err(GenError::EndOfFileCommand),
        }
    }
}

/// Each part followed by a line break.
fn lines(parts: &Vec<String>) -> (r: String)
    ensures
        r@ == lines_upto(strings_view(parts@), parts@.len() as int),
{
    let mut out = String::new();
    let mut i: usize = 0;
    while i < parts.len()
        invariant
            i <= parts.len(),
            out@ == lines_upto(strings_view(parts@), i as int),
        decreases parts.len() - i,
    {
        out.append(parts[i].as_str());
        out.append("\n");
        i += 1;
    }
    out
}

/// Generates the Lua text of a program: the text of each command, in the
/// program's order, each followed by a line break.
///
/// The run has a context of its own, which starts with no augroup. The run
/// fails if and only if one of the commands cannot be generated, with the
/// failure of the first such command.
pub fn eval(program: Program) -> (r: Result<String, GenError>)
    ensures
        text_view(r) == gen_program(program@),
{
    eval_commands(&program.commands)
}

/// Generates the Lua text of the commands of a program, from a fresh context.
pub fn eval_commands(commands: &Vec<ExCommand>) -> (r: Result<String, GenError>)
    ensures
        text_view(r) == gen_program(commands_view(commands@)),
{
    proof {
        lemma_commands_view(commands@);
    }
    let mut state = State::new();
    let parts = gen_all(commands, &mut state)?;
    Ok(lines(&parts))
}

/// Why a source text could not be turned into Lua.
#[derive(Clone, Copy, Debug, PartialEq, Eq, Structural)]
pub enum Failure {
    /// The text could not be cut into tokens.
    Lex(LexError),
    /// The tokens violate the grammar.
    Parse(ParseError),
    /// The tree holds a construct that has no rule.
    Generate(GenError),
    /// The formatter refused the generated text.
    Format,
}

/// The Lua text of a source text, before any formatting: the text is cut
/// into tokens, the tokens are parsed, and the tree is generated. The first
/// stage that fails decides the failure.
pub open spec fn transpiled(source: Seq<char>) -> Result<Seq<char>, Failure> {
    match lex(source) {
        Ok(tokens) => match parse_program(tokens) {
            Ok(program) => match gen_program(program) {
                Ok(lua) => Ok(lua),
                Err(e) => Err(Failure::Generate(e)),
            },
            Err(e) => Err(Failure::Parse(e)),
        },
        Err(e) => Err(Failure::Lex(e)),
    }
}

/// The model of a text or the reason why there is none.
pub open spec fn output_view(r: Result<String, Failure>) -> Result<Seq<char>, Failure> {
    match r {
        Ok(s) => Ok(s@),
        Err(e) => Err(e),
    }
}

/// Turns a source text into Lua text, without formatting it.
pub fn transpile(contents: &str) -> (r: Result<String, Failure>)
    ensures
        output_view(r) == transpiled(contents@),
{
    let tokens = match tokenize(contents) {
        Ok(tokens) => tokens,
        Err(e) => {
            return Err(Failure::Lex(e));
        },
    };
    let program = match parse(tokens) {
        Ok(program) => program,
        Err(e) => {
            return Err(Failure::Parse(e));
        },
    };
    match eval(program) {
        Ok(lua) => Ok(lua),
        Err(e) => Err(Failure::Generate(e)),
    }
}

/// What the formatter makes of generated text: the formatted text, or the
/// failure of the whole run where the formatter refused the text.
pub fn formatted(outcome: Result<String, stylua_lib::Error>) -> (r: Result<String, Failure>)
    ensures
        match outcome {
            Ok(text) => r == Ok::<String, Failure>(text),
            Err(_) => r == Err::<String, Failure>(Failure::Format),
        },
{
    match outcome {
        Ok(text) => Ok(text),
        Err(_) => Err(Failure::Format),
    }
}

/// The Lua text that a source text becomes: the text of [`transpiled`],
/// formatted; or the failure of the first stage that fails.
pub open spec fn generated(source: Seq<char>) -> Result<Seq<char>, Failure> {
    match transpiled(source) {
        Ok(lua) => match stylua_formatted(lua) {
            Some(text) => Ok(text),
            None => Err(Failure::Format),
        },
        Err(e) => Err(e),
    }
}

/// Turns a source text into formatted Lua text.
///
/// The text is cut into tokens, parsed, generated and handed to the
/// formatter. It is refused if and only if one of the stages refuses it,
/// with the failure of the first that does.
pub fn generate(contents: &str) -> (r: Result<String, Failure>)
    ensures
        output_view(r) == generated(contents@),
{
    let lua = transpile(contents)?;
    formatted(format_lua(lua.as_str()))
}

} // verus!
