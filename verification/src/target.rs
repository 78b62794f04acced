//! What the generated Lua text is, stated over the model of the syntax tree.
//!
//! Each construct has one rule. A rule composes the texts of the node's
//! children, taken left to right; the first child that cannot be generated
//! decides the failure. Commands also thread the generation context: the
//! augroup that encloses them, if any.

use vstd::prelude::*;
use crate::token::{TokenView, kind_name};
use crate::ast::{VimScope, Operator, Quote, IdentView, ExprView, CommandView, BlockView};

verus! {

/// Why a tree could not be generated. Each variant names the construct that
/// has no rule.
#[derive(Clone, Copy, Debug, PartialEq, Eq, Structural)]
pub enum GenError {
    /// A call written as a command of its own.
    CallCommand,
    /// The `finish` command.
    FinishCommand,
    /// A command the parser skipped over.
    SkipCommand,
    /// The end-of-file marker used as a command.
    EndOfFileCommand,
    /// A unary operator applied to an operand.
    PrefixExpression,
    /// An identifier in a scope other than the global one.
    Scope(VimScope),
    /// A call whose callee is a scoped identifier.
    ScopedCallee,
    /// A call whose callee is not an identifier.
    ComputedCallee,
}

/// The context of a generation run: the augroup that encloses the command
/// being generated, or none.
pub type Group = Option<TokenView>;

/// What generating a command yields: its text, or why there is none, and the
/// context that the next command sees.
pub struct Emitted {
    pub text: Result<Seq<char>, GenError>,
    pub group: Group,
}

/// What `str::to_lowercase` returns for a string, as a value of its argument.
pub uninterp spec fn lowercase_of(s: Seq<char>) -> Seq<char>;

/// `parts` joined by `sep`: the first `n` parts, with `sep` between neighbours.
pub open spec fn join_upto(parts: Seq<Seq<char>>, sep: Seq<char>, n: int) -> Seq<char>
    decreases n,
{
    if n <= 0 || n > parts.len() {
        Seq::empty()
    } else if n == 1 {
        parts[0]
    } else {
        join_upto(parts, sep, n - 1) + sep + parts[n - 1]
    }
}

/// All of `parts` joined by `sep`.
pub open spec fn join(parts: Seq<Seq<char>>, sep: Seq<char>) -> Seq<char> {
    join_upto(parts, sep, parts.len() as int)
}

/// The first `n` of `parts`, each followed by a line break.
pub open spec fn lines_upto(parts: Seq<Seq<char>>, n: int) -> Seq<char>
    decreases n,
{
    if n <= 0 || n > parts.len() {
        Seq::empty()
    } else {
        lines_upto(parts, n - 1) + parts[n - 1] + "\n"@
    }
}

/// The Lua operator or keyword for an operator.
pub open spec fn operator_text(op: Operator) -> Seq<char> {
    match op {
        Operator::Plus => "+"@,
        Operator::Minus => "-"@,
        Operator::Multiply => "*"@,
        Operator::Bang => "not"@,
        Operator::Or => "or"@,
        Operator::And => "and"@,
        Operator::LessThan => "<"@,
        Operator::GreaterThan => ">"@,
        Operator::LessThanOrEqual => "<="@,
        Operator::GreaterThanOrEqual => ">="@,
    }
}

/// The text of an identifier. A global-scope identifier reads the global
/// table; every other scope fails.
pub open spec fn gen_ident(id: IdentView) -> Result<Seq<char>, GenError>
    decreases id,
{
    match id {
        IdentView::Raw(name) => Ok(name),
        IdentView::Scoped(scope, accessor) => if scope == VimScope::Global {
            match gen_ident(*accessor) {
                Ok(a) => Ok("vim.g."@ + a),
                Err(e) => Err(e),
            }
        } else {
            Err(GenError::Scope(scope))
        },
    }
}

/// Where a call to `name` goes, given the name in lower case: a lower-case
/// name that begins with `nvim_` is a function of the native API, any other
/// lower-case name is a builtin function, and a name that is not all lower
/// case is a function the script defined itself.
pub open spec fn callee_text(name: Seq<char>, lowered: Seq<char>) -> Seq<char> {
    if lowered == name {
        if "nvim_"@.is_prefix_of(name) {
            "vim.api."@ + name
        } else {
            "vim.fn."@ + name
        }
    } else {
        name
    }
}

/// The callee of a call: a plain identifier, routed by [`callee_text`].
pub open spec fn gen_callee(callee: ExprView) -> Result<Seq<char>, GenError> {
    match callee {
        ExprView::Identifier(IdentView::Raw(name)) => Ok(callee_text(name, lowercase_of(name))),
        ExprView::Identifier(IdentView::Scoped(_, _)) => Err(GenError::ScopedCallee),
        _ => Err(GenError::ComputedCallee),
    }
}

/// The text of a string literal: its contents between the quotes it was
/// written with.
pub open spec fn string_text(quote: Quote, contents: Seq<char>) -> Seq<char> {
    match quote {
        Quote::Single => "'"@ + contents + "'"@,
        Quote::Double => "\""@ + contents + "\""@,
    }
}

/// The text of a boolean.
pub open spec fn boolean_text(value: bool) -> Seq<char> {
    if value {
        "true"@
    } else {
        "false"@
    }
}

/// The text of an option reference: a call that reads the option's value.
pub open spec fn option_text(name: Seq<char>) -> Seq<char> {
    "vim.api.nvim_get_option_value('"@ + name + "', {})"@
}

/// The text of a table constructor around the joined items.
pub open spec fn table_text(items: Seq<char>) -> Seq<char> {
    "{ "@ + items + " }"@
}

/// The text of an expression.
pub open spec fn gen_expr(e: ExprView) -> Result<Seq<char>, GenError>
    decreases e, 0int,
{
    match e {
        ExprView::Identifier(id) => gen_ident(id),
        ExprView::Number(value) => Ok(value),
        ExprView::Str(quote, contents) => Ok(string_text(quote, contents)),
        ExprView::Boolean(value) => Ok(boolean_text(value)),
        ExprView::Grouped(inner) => match gen_expr(*inner) {
            Ok(x) => Ok("("@ + x + ")"@),
            Err(e) => Err(e),
        },
        ExprView::Call(callee, args) => match gen_callee(*callee) {
            Ok(f) => match gen_exprs(args, args.len() as int) {
                Ok(parts) => Ok(f + "("@ + join(parts, ", "@) + ")"@),
                Err(e) => Err(e),
            },
            Err(e) => Err(e),
        },
        ExprView::Prefix(_, _) => Err(GenError::PrefixExpression),
        ExprView::Infix(left, op, right) => match gen_expr(*left) {
            Ok(l) => match gen_expr(*right) {
                Ok(r) => Ok("("@ + l + " "@ + operator_text(op) + " "@ + r + ")"@),
                Err(e) => Err(e),
            },
            Err(e) => Err(e),
        },
        ExprView::Array(elements) => match gen_exprs(elements, elements.len() as int) {
            Ok(parts) => Ok(table_text(join(parts, ", "@))),
            Err(e) => Err(e),
        },
        ExprView::Dict(entries) => match gen_entries(entries, entries.len() as int) {
            Ok(parts) => Ok(table_text(join(parts, ", "@))),
            Err(e) => Err(e),
        },
        ExprView::VimOption(option) => Ok(option_text(option.text)),
        ExprView::Empty => Ok(Seq::empty()),
    }
}

/// The texts of the first `n` expressions, in their order, or the failure of
/// the first one that fails.
pub open spec fn gen_exprs(es: Seq<ExprView>, n: int) -> Result<Seq<Seq<char>>, GenError>
    decreases es, n,
{
    if n <= 0 || n > es.len() {
        Ok(Seq::empty())
    } else {
        match gen_exprs(es, n - 1) {
            Ok(parts) => match gen_expr(es[n - 1]) {
                Ok(x) => Ok(parts.push(x)),
                Err(e) => Err(e),
            },
            Err(e) => Err(e),
        }
    }
}

/// The texts of the first `n` entries of a dictionary, each `key = value`, in
/// their order, or the failure of the first one that fails.
pub open spec fn gen_entries(entries: Seq<(TokenView, ExprView)>, n: int) -> Result<
    Seq<Seq<char>>,
    GenError,
>
    decreases entries, n,
{
    if n <= 0 || n > entries.len() {
        Ok(Seq::empty())
    } else {
        match gen_entries(entries, n - 1) {
            Ok(parts) => match gen_expr(entries[n - 1].1) {
                Ok(x) => Ok(parts.push(entries[n - 1].0.text + " = "@ + x)),
                Err(e) => Err(e),
            },
            Err(e) => Err(e),
        }
    }
}

/// The event names of an autocmd, each between single quotes.
pub open spec fn quoted_events(events: Seq<TokenView>) -> Seq<Seq<char>> {
    Seq::new(events.len(), |i: int| "'"@ + events[i].text + "'"@)
}

/// The registration option that names the enclosing augroup; empty outside
/// any augroup.
pub open spec fn group_option(group: Group) -> Seq<char> {
    match group {
        Some(g) => "group = '"@ + g.text + "',"@,
        None => Seq::empty(),
    }
}

/// The text of an autocmd registration.
pub open spec fn autocmd_text(events: Seq<char>, group: Seq<char>, body: Seq<char>) -> Seq<char> {
    "\nvim.api.nvim_create_autocmd({ "@ + events + " }, {\n    "@ + group
        + "\n    callback = function()\n"@ + body + "\nend,\n})\n"@
}

/// The text of an augroup: its declaration, which clears nothing, then its body.
pub open spec fn augroup_text(name: Seq<char>, body: Seq<char>) -> Seq<char> {
    "\n    vim.api.nvim_create_augroup(\""@ + name + "\", { clear = false })\n\n    "@ + body
        + "\n"@
}

/// The text of a function definition: a local binding of a function that
/// takes no parameters.
pub open spec fn def_text(name: Seq<char>, body: Seq<char>) -> Seq<char> {
    "\nlocal "@ + name + " = function()\n  "@ + body + "\nend"@
}

/// The text of a conditional.
pub open spec fn if_text(condition: Seq<char>, body: Seq<char>) -> Seq<char> {
    "if "@ + condition + " then\n  "@ + body + "\nend"@
}

/// The text of a command and the context after it, given the context before.
///
/// Only an augroup changes the context: its body sees the augroup's name,
/// and what follows it sees none.
pub open spec fn gen_command(c: CommandView, group: Group) -> Emitted
    decreases c, 0int,
{
    match c {
        CommandView::Vim9Script { .. } => Emitted { text: Ok("-- vim9script"@), group },
        CommandView::Var { name, expr, .. } => Emitted {
            text: match gen_ident(name) {
                Ok(n) => match gen_expr(expr) {
                    Ok(x) => Ok("local "@ + n + " = "@ + x),
                    Err(e) => Err(e),
                },
                Err(e) => Err(e),
            },
            group,
        },
        CommandView::Echo { expr } => Emitted {
            text: match gen_expr(expr) {
                Ok(x) => Ok("print("@ + x + ")"@),
                Err(e) => Err(e),
            },
            group,
        },
        CommandView::Assign { left, right } => Emitted {
            text: match gen_expr(left) {
                Ok(l) => match gen_expr(right) {
                    Ok(r) => Ok(l + " = "@ + r),
                    Err(e) => Err(e),
                },
                Err(e) => Err(e),
            },
            group,
        },
        CommandView::Return { expr } => Emitted {
            text: match expr {
                Some(x) => match gen_expr(x) {
                    Ok(t) => Ok("return "@ + t),
                    Err(e) => Err(e),
                },
                None => Ok("return"@),
            },
            group,
        },
        CommandView::Def { name, body, .. } => match gen_ident(name) {
            Ok(n) => {
                let b = gen_body(body, group);
                Emitted {
                    text: match b.text {
                        Ok(t) => Ok(def_text(n, t)),
                        Err(e) => Err(e),
                    },
                    group: b.group,
                }
            },
            Err(e) => Emitted { text: Err(e), group },
        },
        CommandView::If { condition, body } => match gen_expr(condition) {
            Ok(cond) => {
                let b = gen_body(body, group);
                Emitted {
                    text: match b.text {
                        Ok(t) => Ok(if_text(cond, t)),
                        Err(e) => Err(e),
                    },
                    group: b.group,
                }
            },
            Err(e) => Emitted { text: Err(e), group },
        },
        CommandView::Augroup { name, body } => Emitted {
            text: match gen_body(body, Some(name)).text {
                Ok(t) => Ok(augroup_text(name.text, t)),
                Err(e) => Err(e),
            },
            group: None,
        },
        CommandView::Autocmd { events, block, .. } => {
            let b = gen_block(block, group);
            Emitted {
                text: match b.text {
                    Ok(t) => Ok(
                        autocmd_text(join(quoted_events(events), ", "@), group_option(group), t),
                    ),
                    Err(e) => Err(e),
                },
                group: b.group,
            }
        },
        CommandView::Call { .. } => Emitted { text: Err(GenError::CallCommand), group },
        CommandView::Finish(_) => Emitted { text: Err(GenError::FinishCommand), group },
        CommandView::Comment(token) => Emitted { text: Ok("-- "@ + token.text), group },
        CommandView::NoOp(token) => Emitted { text: Ok("-- "@ + kind_name(token.kind)), group },
        CommandView::Skip => Emitted { text: Err(GenError::SkipCommand), group },
        CommandView::EndOfFile => Emitted { text: Err(GenError::EndOfFileCommand), group },
    }
}

/// The text of what an autocmd runs, and the context after it.
pub open spec fn gen_block(block: BlockView, group: Group) -> Emitted
    decreases block, 0int,
{
    match block {
        BlockView::Command(command) => gen_command(*command, group),
        BlockView::Block(body) => gen_body(body, group),
    }
}

/// What generating the first `n` commands yields: their texts in their
/// order, or the failure of the first one that fails, and the context after
/// the last command that was tried.
pub open spec fn gen_commands(cs: Seq<CommandView>, n: int, group: Group) -> (Result<
    Seq<Seq<char>>,
    GenError,
>, Group)
    decreases cs, n,
{
    if n <= 0 || n > cs.len() {
        (Ok(Seq::empty()), group)
    } else {
        let before = gen_commands(cs, n - 1, group);
        match before.0 {
            Ok(parts) => {
                let c = gen_command(cs[n - 1], before.1);
                match c.text {
                    Ok(t) => (Ok(parts.push(t)), c.group),
                    Err(e) => (Err(e), c.group),
                }
            },
            Err(e) => before,
        }
    }
}

/// The text of a run of commands, one per line, and the context after it.
pub open spec fn gen_body(body: Seq<CommandView>, group: Group) -> Emitted
    decreases body, body.len() + 1,
{
    let all = gen_commands(body, body.len() as int, group);
    Emitted {
        text: match all.0 {
            Ok(parts) => Ok(join(parts, "\n"@)),
            Err(e) => Err(e),
        },
        group: all.1,
    }
}

/// The text of a whole program, generated from a fresh context: the text of
/// each command followed by a line break.
pub open spec fn gen_program(program: Seq<CommandView>) -> Result<Seq<char>, GenError> {
    match gen_commands(program, program.len() as int, None).0 {
        Ok(parts) => Ok(lines_upto(parts, parts.len() as int)),
        Err(e) => Err(e),
    }
}

} // verus!
