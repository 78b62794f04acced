//! Where the text of a part is found in the text of the whole.
//!
//! Generation only ever puts texts side by side: the text of a node holds
//! the text of each node below it, unchanged.

use vstd::prelude::*;
use crate::token::TokenView;
use crate::ast::{BlockView, CommandView, ExprView};
use crate::target::{
    GenError, Group, gen_block, gen_body, gen_callee, gen_command, gen_commands, gen_entries,
    gen_expr, gen_exprs, gen_program, join, join_upto, lines_upto, lowercase_of,
};
use crate::laws::{commands_keep_order, entries_keep_order, lists_keep_order};
use crate::lexer::{
    CharClass, closing_quote, is_blank, is_digit, is_word_start, lemma_closing_quote_bounds,
    lemma_run_end_bounds, lemma_token_at_advances, lex_from, number_end, pair_kind, run_end,
    token_at,
};

verus! {

/// Whether `part` stands somewhere in `whole`, unbroken.
pub open spec fn occurs_in(part: Seq<char>, whole: Seq<char>) -> bool {
    exists|i: int|
        0 <= i && i + part.len() <= whole.len() && #[trigger] whole.subrange(i, i + part.len())
            == part
}

/// What stands between two texts occurs in the three put together.
pub proof fn lemma_occurs_between(before: Seq<char>, part: Seq<char>, after: Seq<char>)
    ensures
        occurs_in(part, before + part + after),
{
    let whole = before + part + after;
    let i = before.len() as int;
    assert(whole.subrange(i, i + part.len()) =~= part);
}

/// What occurs in a part of a text occurs in the text.
pub proof fn lemma_occurs_trans(inner: Seq<char>, middle: Seq<char>, outer: Seq<char>)
    requires
        occurs_in(inner, middle),
        occurs_in(middle, outer),
    ensures
        occurs_in(inner, outer),
{
    let i = choose|i: int|
        0 <= i && i + inner.len() <= middle.len() && #[trigger] middle.subrange(
            i,
            i + inner.len(),
        ) == inner;
    let j = choose|j: int|
        0 <= j && j + middle.len() <= outer.len() && #[trigger] outer.subrange(
            j,
            j + middle.len(),
        ) == middle;
    assert(outer.subrange(i + j, i + j + inner.len()) =~= outer.subrange(
        j,
        j + middle.len(),
    ).subrange(i, i + inner.len()));
}

/// What occurs in a text occurs in the text with more around it.
pub proof fn lemma_occurs_within(
    part: Seq<char>,
    before: Seq<char>,
    middle: Seq<char>,
    after: Seq<char>,
)
    requires
        occurs_in(part, middle),
    ensures
        occurs_in(part, before + middle + after),
{
    lemma_occurs_between(before, middle, after);
    lemma_occurs_trans(part, middle, before + middle + after);
}

/// Each of the parts that are joined occurs in the join.
pub proof fn lemma_occurs_in_join(parts: Seq<Seq<char>>, sep: Seq<char>, n: int, i: int)
    requires
        0 <= i < n <= parts.len(),
    ensures
        occurs_in(parts[i], join_upto(parts, sep, n)),
    decreases n,
{
    let whole = join_upto(parts, sep, n);
    if n == 1 {
        assert(whole =~= Seq::<char>::empty() + parts[0] + Seq::<char>::empty());
        lemma_occurs_between(Seq::empty(), parts[0], Seq::empty());
    } else if i == n - 1 {
        let before = join_upto(parts, sep, n - 1) + sep;
        assert(whole =~= before + parts[i] + Seq::<char>::empty());
        lemma_occurs_between(before, parts[i], Seq::empty());
    } else {
        lemma_occurs_in_join(parts, sep, n - 1, i);
        let shorter = join_upto(parts, sep, n - 1);
        assert(whole =~= Seq::<char>::empty() + shorter + (sep + parts[n - 1]));
        lemma_occurs_within(parts[i], Seq::empty(), shorter, sep + parts[n - 1]);
    }
}

/// Each of the lines occurs in the lines put one after the other.
pub proof fn lemma_occurs_in_lines(parts: Seq<Seq<char>>, n: int, i: int)
    requires
        0 <= i < n <= parts.len(),
    ensures
        occurs_in(parts[i], lines_upto(parts, n)),
    decreases n,
{
    let whole = lines_upto(parts, n);
    let shorter = lines_upto(parts, n - 1);
    if i == n - 1 {
        assert(whole == shorter + parts[i] + "\n"@);
        lemma_occurs_between(shorter, parts[i], "\n"@);
    } else {
        lemma_occurs_in_lines(parts, n - 1, i);
        assert(whole =~= Seq::<char>::empty() + shorter + (parts[n - 1] + "\n"@));
        lemma_occurs_within(parts[i], Seq::empty(), shorter, parts[n - 1] + "\n"@);
    }
}

/// Whether `part` is `e` or stands somewhere below it.
pub open spec fn expr_holds(e: ExprView, part: ExprView) -> bool
    decreases e, 0int,
{
    e == part || match e {
        ExprView::Grouped(inner) => expr_holds(*inner, part),
        ExprView::Call(callee, args) => *callee == part || exprs_hold(
            args,
            args.len() as int,
            part,
        ),
        ExprView::Infix(left, _, right) => expr_holds(*left, part) || expr_holds(*right, part),
        ExprView::Array(elements) => exprs_hold(elements, elements.len() as int, part),
        ExprView::Dict(entries) => entries_hold(entries, entries.len() as int, part),
        _ => false,
    }
}

/// Whether `part` stands in one of the first `n` expressions.
pub open spec fn exprs_hold(es: Seq<ExprView>, n: int, part: ExprView) -> bool
    decreases es, n,
{
    if n <= 0 || n > es.len() {
        false
    } else {
        exprs_hold(es, n - 1, part) || expr_holds(es[n - 1], part)
    }
}

/// Whether `part` stands in the value of one of the first `n` entries.
pub open spec fn entries_hold(entries: Seq<(TokenView, ExprView)>, n: int, part: ExprView) -> bool
    decreases entries, n,
{
    if n <= 0 || n > entries.len() {
        false
    } else {
        entries_hold(entries, n - 1, part) || expr_holds(entries[n - 1].1, part)
    }
}

/// The text of an expression holds the text of every expression in it.
pub proof fn expression_text_holds_its_parts(e: ExprView, part: ExprView)
    requires
        expr_holds(e, part),
        gen_expr(e) is Ok,
    ensures
        gen_expr(part) is Ok,
        occurs_in(gen_expr(part)->Ok_0, gen_expr(e)->Ok_0),
    decreases e, 0int,
{
    let whole = gen_expr(e)->Ok_0;
    if e == part {
        assert(whole =~= Seq::<char>::empty() + whole + Seq::<char>::empty());
        lemma_occurs_between(Seq::empty(), whole, Seq::empty());
    } else {
        match e {
            ExprView::Grouped(inner) => {
                expression_text_holds_its_parts(*inner, part);
                lemma_occurs_within(gen_expr(part)->Ok_0, "("@, gen_expr(*inner)->Ok_0, ")"@);
            },
            ExprView::Call(callee, args) => {
                let f = gen_callee(*callee)->Ok_0;
                let parts = gen_exprs(args, args.len() as int)->Ok_0;
                let joined = join(parts, ", "@);
                if *callee == part {
                    let name = callee->Identifier_0->Raw_0;
                    assert(gen_expr(part) == Ok::<Seq<char>, GenError>(name));
                    if lowercase_of(name) != name {
                        assert(whole =~= Seq::<char>::empty() + name + ("("@ + joined + ")"@));
                        lemma_occurs_between(Seq::empty(), name, "("@ + joined + ")"@);
                    } else if "nvim_"@.is_prefix_of(name) {
                        assert(whole =~= "vim.api."@ + name + ("("@ + joined + ")"@));
                        lemma_occurs_between("vim.api."@, name, "("@ + joined + ")"@);
                    } else {
                        assert(whole =~= "vim.fn."@ + name + ("("@ + joined + ")"@));
                        lemma_occurs_between("vim.fn."@, name, "("@ + joined + ")"@);
                    }
                } else {
                    list_text_holds_its_parts(args, args.len() as int, part);
                    assert(whole =~= (f + "("@) + joined + ")"@);
                    lemma_occurs_within(gen_expr(part)->Ok_0, f + "("@, joined, ")"@);
                }
            },
            ExprView::Infix(left, op, right) => {
                let l = gen_expr(*left)->Ok_0;
                let r = gen_expr(*right)->Ok_0;
                let o = crate::target::operator_text(op);
                if expr_holds(*left, part) {
                    expression_text_holds_its_parts(*left, part);
                    assert(whole =~= "("@ + l + (" "@ + o + " "@ + r + ")"@));
                    lemma_occurs_within(gen_expr(part)->Ok_0, "("@, l, " "@ + o + " "@ + r + ")"@);
                } else {
                    expression_text_holds_its_parts(*right, part);
                    assert(whole =~= ("("@ + l + " "@ + o + " "@) + r + ")"@);
                    lemma_occurs_within(gen_expr(part)->Ok_0, "("@ + l + " "@ + o + " "@, r, ")"@);
                }
            },
            ExprView::Array(elements) => {
                list_text_holds_its_parts(elements, elements.len() as int, part);
                let joined = join(gen_exprs(elements, elements.len() as int)->Ok_0, ", "@);
                lemma_occurs_within(gen_expr(part)->Ok_0, "{ "@, joined, " }"@);
            },
            ExprView::Dict(entries) => {
                dict_text_holds_its_parts(entries, entries.len() as int, part);
                let joined = join(gen_entries(entries, entries.len() as int)->Ok_0, ", "@);
                lemma_occurs_within(gen_expr(part)->Ok_0, "{ "@, joined, " }"@);
            },
            _ => {},
        }
    }
}

/// The joined text of a list holds the text of every expression in it.
pub proof fn list_text_holds_its_parts(es: Seq<ExprView>, n: int, part: ExprView)
    requires
        0 <= n <= es.len(),
        exprs_hold(es, n, part),
        gen_exprs(es, n) is Ok,
    ensures
        gen_expr(part) is Ok,
        gen_exprs(es, n)->Ok_0.len() == n,
        occurs_in(gen_expr(part)->Ok_0, join_upto(gen_exprs(es, n)->Ok_0, ", "@, n)),
    decreases es, n,
{
    let i = first_holder(es, n, part);
    lists_keep_order(es, n);
    let parts = gen_exprs(es, n)->Ok_0;
    assert(gen_expr(es[i]) == Ok::<Seq<char>, GenError>(parts[i]));
    expression_text_holds_its_parts(es[i], part);
    lemma_occurs_in_join(parts, ", "@, n, i);
    lemma_occurs_trans(gen_expr(part)->Ok_0, parts[i], join_upto(parts, ", "@, n));
}

/// One of the first `n` expressions that hold `part`, where one does.
pub proof fn first_holder(es: Seq<ExprView>, n: int, part: ExprView) -> (i: int)
    requires
        0 <= n <= es.len(),
        exprs_hold(es, n, part),
    ensures
        0 <= i < n,
        expr_holds(es[i], part),
    decreases n,
{
    if exprs_hold(es, n - 1, part) {
        first_holder(es, n - 1, part)
    } else {
        n - 1
    }
}

/// One of the first `n` entries whose value holds `part`, where one does.
pub proof fn first_entry_holder(entries: Seq<(TokenView, ExprView)>, n: int, part: ExprView) -> (i:
    int)
    requires
        0 <= n <= entries.len(),
        entries_hold(entries, n, part),
    ensures
        0 <= i < n,
        expr_holds(entries[i].1, part),
    decreases n,
{
    if entries_hold(entries, n - 1, part) {
        first_entry_holder(entries, n - 1, part)
    } else {
        n - 1
    }
}

/// The joined text of a dictionary's entries holds the text of every
/// expression in their values.
pub proof fn dict_text_holds_its_parts(
    entries: Seq<(TokenView, ExprView)>,
    n: int,
    part: ExprView,
)
    requires
        0 <= n <= entries.len(),
        entries_hold(entries, n, part),
        gen_entries(entries, n) is Ok,
    ensures
        gen_expr(part) is Ok,
        gen_entries(entries, n)->Ok_0.len() == n,
        occurs_in(gen_expr(part)->Ok_0, join_upto(gen_entries(entries, n)->Ok_0, ", "@, n)),
    decreases entries, n,
{
    let i = first_entry_holder(entries, n, part);
    entries_keep_order(entries, n);
    let parts = gen_entries(entries, n)->Ok_0;
    let value = gen_expr(entries[i].1)->Ok_0;
    assert(gen_expr(entries[i].1) is Ok);
    assert(parts[i] == entries[i].0.text + " = "@ + value);
    expression_text_holds_its_parts(entries[i].1, part);
    assert(parts[i] =~= (entries[i].0.text + " = "@) + value + Seq::<char>::empty());
    lemma_occurs_within(
        gen_expr(part)->Ok_0,
        entries[i].0.text + " = "@,
        value,
        Seq::<char>::empty(),
    );
    lemma_occurs_in_join(parts, ", "@, n, i);
    lemma_occurs_trans(gen_expr(part)->Ok_0, parts[i], join_upto(parts, ", "@, n));
}

/// Whether the expression `part` stands somewhere in the command `c`.
pub open spec fn command_holds(c: CommandView, part: ExprView) -> bool
    decreases c, 0int,
{
    match c {
        CommandView::Var { expr, .. } => expr_holds(expr, part),
        CommandView::Echo { expr } => expr_holds(expr, part),
        CommandView::Assign { left, right } => expr_holds(left, part) || expr_holds(right, part),
        CommandView::Return { expr: Some(x) } => expr_holds(x, part),
        CommandView::Def { body, .. } => commands_hold(body, body.len() as int, part),
        CommandView::If { condition, body } => expr_holds(condition, part) || commands_hold(
            body,
            body.len() as int,
            part,
        ),
        CommandView::Augroup { body, .. } => commands_hold(body, body.len() as int, part),
        CommandView::Autocmd { block, .. } => block_holds(block, part),
        _ => false,
    }
}

/// Whether the expression `part` stands somewhere in what an autocmd runs.
pub open spec fn block_holds(block: BlockView, part: ExprView) -> bool
    decreases block, 0int,
{
    match block {
        BlockView::Command(command) => command_holds(*command, part),
        BlockView::Block(body) => commands_hold(body, body.len() as int, part),
    }
}

/// Whether the expression `part` stands in one of the first `n` commands.
pub open spec fn commands_hold(cs: Seq<CommandView>, n: int, part: ExprView) -> bool
    decreases cs, n,
{
    if n <= 0 || n > cs.len() {
        false
    } else {
        commands_hold(cs, n - 1, part) || command_holds(cs[n - 1], part)
    }
}

/// One of the first `n` commands that hold `part`, where one does.
pub proof fn first_command_holder(cs: Seq<CommandView>, n: int, part: ExprView) -> (i: int)
    requires
        0 <= n <= cs.len(),
        commands_hold(cs, n, part),
    ensures
        0 <= i < n,
        command_holds(cs[i], part),
    decreases n,
{
    if commands_hold(cs, n - 1, part) {
        first_command_holder(cs, n - 1, part)
    } else {
        n - 1
    }
}

/// The text of a command holds the text of every expression in it, in
/// whatever context the command is generated.
pub proof fn command_text_holds_its_expressions(c: CommandView, part: ExprView, group: Group)
    requires
        command_holds(c, part),
        gen_command(c, group).text is Ok,
    ensures
        gen_expr(part) is Ok,
        occurs_in(gen_expr(part)->Ok_0, gen_command(c, group).text->Ok_0),
    decreases c, 0int,
{
    let whole = gen_command(c, group).text->Ok_0;
    let empty = Seq::<char>::empty();
    match c {
        CommandView::Var { name, expr, .. } => {
            let n = crate::target::gen_ident(name)->Ok_0;
            let x = gen_expr(expr)->Ok_0;
            expression_text_holds_its_parts(expr, part);
            assert(whole =~= ("local "@ + n + " = "@) + x + empty);
            lemma_occurs_within(gen_expr(part)->Ok_0, "local "@ + n + " = "@, x, empty);
        },
        CommandView::Echo { expr } => {
            expression_text_holds_its_parts(expr, part);
            lemma_occurs_within(gen_expr(part)->Ok_0, "print("@, gen_expr(expr)->Ok_0, ")"@);
        },
        CommandView::Assign { left, right } => {
            let l = gen_expr(left)->Ok_0;
            let r = gen_expr(right)->Ok_0;
            if expr_holds(left, part) {
                expression_text_holds_its_parts(left, part);
                assert(whole =~= empty + l + (" = "@ + r));
                lemma_occurs_within(gen_expr(part)->Ok_0, empty, l, " = "@ + r);
            } else {
                expression_text_holds_its_parts(right, part);
                assert(whole =~= (l + " = "@) + r + empty);
                lemma_occurs_within(gen_expr(part)->Ok_0, l + " = "@, r, empty);
            }
        },
        CommandView::Return { expr: Some(x) } => {
            let t = gen_expr(x)->Ok_0;
            expression_text_holds_its_parts(x, part);
            assert(whole =~= "return "@ + t + empty);
            lemma_occurs_within(gen_expr(part)->Ok_0, "return "@, t, empty);
        },
        CommandView::Def { name, body, .. } => {
            let n = crate::target::gen_ident(name)->Ok_0;
            let t = gen_body(body, group).text->Ok_0;
            body_text_holds_its_expressions(body, part, group);
            assert(whole =~= ("\nlocal "@ + n + " = function()\n  "@) + t + "\nend"@);
            lemma_occurs_within(
                gen_expr(part)->Ok_0,
                "\nlocal "@ + n + " = function()\n  "@,
                t,
                "\nend"@,
            );
        },
        CommandView::If { condition, body } => {
            let cond = gen_expr(condition)->Ok_0;
            let t = gen_body(body, group).text->Ok_0;
            if expr_holds(condition, part) {
                expression_text_holds_its_parts(condition, part);
                assert(whole =~= "if "@ + cond + (" then\n  "@ + t + "\nend"@));
                lemma_occurs_within(
                    gen_expr(part)->Ok_0,
                    "if "@,
                    cond,
                    " then\n  "@ + t + "\nend"@,
                );
            } else {
                body_text_holds_its_expressions(body, part, group);
                assert(whole =~= ("if "@ + cond + " then\n  "@) + t + "\nend"@);
                lemma_occurs_within(
                    gen_expr(part)->Ok_0,
                    "if "@ + cond + " then\n  "@,
                    t,
                    "\nend"@,
                );
            }
        },
        CommandView::Augroup { name, body } => {
            let t = gen_body(body, Some(name)).text->Ok_0;
            body_text_holds_its_expressions(body, part, Some(name));
            let before = "\n    vim.api.nvim_create_augroup(\""@ + name.text
                + "\", { clear = false })\n\n    "@;
            assert(whole =~= before + t + "\n"@);
            lemma_occurs_within(gen_expr(part)->Ok_0, before, t, "\n"@);
        },
        CommandView::Autocmd { events, block, .. } => {
            let t = gen_block(block, group).text->Ok_0;
            match block {
                BlockView::Command(command) => {
                    command_text_holds_its_expressions(*command, part, group);
                },
                BlockView::Block(body) => {
                    body_text_holds_its_expressions(body, part, group);
                },
            }
            let before = "\nvim.api.nvim_create_autocmd({ "@ + join(
                crate::target::quoted_events(events),
                ", "@,
            ) + " }, {\n    "@ + crate::target::group_option(group)
                + "\n    callback = function()\n"@;
            assert(whole =~= before + t + "\nend,\n})\n"@);
            lemma_occurs_within(gen_expr(part)->Ok_0, before, t, "\nend,\n})\n"@);
        },
        _ => {},
    }
}

/// The texts of a run of commands hold the text of every expression in the
/// run: the expression's text is found in the text of one of the commands.
pub proof fn run_texts_hold_its_expressions(
    cs: Seq<CommandView>,
    n: int,
    part: ExprView,
    group: Group,
) -> (i: int)
    requires
        0 <= n <= cs.len(),
        commands_hold(cs, n, part),
        gen_commands(cs, n, group).0 is Ok,
    ensures
        gen_expr(part) is Ok,
        gen_commands(cs, n, group).0->Ok_0.len() == n,
        0 <= i < n,
        occurs_in(gen_expr(part)->Ok_0, gen_commands(cs, n, group).0->Ok_0[i]),
    decreases cs, n,
{
    let i = first_command_holder(cs, n, part);
    commands_keep_order(cs, n, group);
    let parts = gen_commands(cs, n, group).0->Ok_0;
    let before = gen_commands(cs, i, group);
    assert(gen_command(cs[i], before.1).text == Ok::<Seq<char>, GenError>(parts[i]));
    command_text_holds_its_expressions(cs[i], part, before.1);
    i
}

/// The text of a body holds the text of every expression in it.
pub proof fn body_text_holds_its_expressions(body: Seq<CommandView>, part: ExprView, group: Group)
    requires
        commands_hold(body, body.len() as int, part),
        gen_body(body, group).text is Ok,
    ensures
        gen_expr(part) is Ok,
        occurs_in(gen_expr(part)->Ok_0, gen_body(body, group).text->Ok_0),
    decreases body, body.len() + 1,
{
    let n = body.len() as int;
    let i = run_texts_hold_its_expressions(body, n, part, group);
    let parts = gen_commands(body, n, group).0->Ok_0;
    lemma_occurs_in_join(parts, "\n"@, n, i);
    lemma_occurs_trans(gen_expr(part)->Ok_0, parts[i], join_upto(parts, "\n"@, n));
}

/// Every expression that stands in a program is found in the program's
/// text, as the text that the expression has by itself. With
/// [`crate::laws::literals_are_kept`]: every number, boolean and string of
/// the program is found in the output as it was written.
pub proof fn program_text_holds_its_expressions(program: Seq<CommandView>, part: ExprView)
    requires
        commands_hold(program, program.len() as int, part),
        gen_program(program) is Ok,
    ensures
        gen_expr(part) is Ok,
        occurs_in(gen_expr(part)->Ok_0, gen_program(program)->Ok_0),
{
    let n = program.len() as int;
    let i = run_texts_hold_its_expressions(program, n, part, None);
    let parts = gen_commands(program, n, None).0->Ok_0;
    lemma_occurs_in_lines(parts, n, i);
    lemma_occurs_trans(gen_expr(part)->Ok_0, parts[i], lines_upto(parts, n));
}

/// A stretch of a text occurs in the text.
pub proof fn lemma_stretch_occurs(s: Seq<char>, from: int, to: int)
    requires
        0 <= from <= to <= s.len(),
    ensures
        occurs_in(s.subrange(from, to), s),
{
    assert(s.subrange(from, from + s.subrange(from, to).len()) == s.subrange(from, to));
}

/// The text of the token at a place is a stretch of the source that starts
/// no earlier than the token.
pub proof fn lemma_token_is_cut_from_the_source(s: Seq<char>, i: int)
    requires
        0 <= i < s.len() <= usize::MAX,
        token_at(s, i) is Ok,
    ensures
        occurs_in(token_at(s, i)->Ok_0.0.text, s),
        token_at(s, i)->Ok_0.0.pos == i,
{
    lemma_token_at_advances(s, i);
    lemma_run_end_bounds(s, i, CharClass::Word);
    lemma_run_end_bounds(s, i, CharClass::Digit);
    lemma_run_end_bounds(s, i + 1, CharClass::InLine);
    lemma_run_end_bounds(s, i + 1, CharClass::InSingleQuotes);
    lemma_closing_quote_bounds(s, i + 1);
    let whole = run_end(s, i, CharClass::Digit);
    if whole + 1 < s.len() {
        lemma_run_end_bounds(s, whole + 1, CharClass::Digit);
    }
    let c = s[i];
    if c == '\n' {
        lemma_stretch_occurs(s, i, i + 1);
    } else if is_word_start(c) {
        lemma_stretch_occurs(s, i, run_end(s, i, CharClass::Word));
    } else if is_digit(c) {
        lemma_stretch_occurs(s, i, number_end(s, i));
    } else if c == '\'' {
        lemma_stretch_occurs(s, i + 1, run_end(s, i + 1, CharClass::InSingleQuotes));
    } else if c == '"' {
        lemma_stretch_occurs(s, i + 1, closing_quote(s, i + 1));
    } else if c == '#' {
        lemma_stretch_occurs(s, i + 1, run_end(s, i + 1, CharClass::InLine));
    } else if i + 1 < s.len() && pair_kind(c, s[i + 1]) is Some {
        lemma_stretch_occurs(s, i, i + 2);
    } else {
        lemma_stretch_occurs(s, i, i + 1);
    }
}

/// The tokens of a source follow the source: the text of every token is
/// found in the source, and the tokens stand in the order in which they
/// start in the source.
pub proof fn tokens_follow_the_source(s: Seq<char>, i: int)
    requires
        0 <= i <= s.len() <= usize::MAX,
        lex_from(s, i) is Ok,
    ensures
        forall|k: int|
            0 <= k < lex_from(s, i)->Ok_0.len() ==> occurs_in(
                (#[trigger] lex_from(s, i)->Ok_0[k]).text,
                s,
            ) && i <= lex_from(s, i)->Ok_0[k].pos <= s.len(),
        forall|k: int, m: int|
            0 <= k < m < lex_from(s, i)->Ok_0.len() ==> (#[trigger] lex_from(s, i)->Ok_0[k]).pos
                < (#[trigger] lex_from(s, i)->Ok_0[m]).pos,
    decreases s.len() - i,
{
    let tokens = lex_from(s, i)->Ok_0;
    if i >= s.len() {
        lemma_stretch_occurs(s, 0, 0);
        assert(s.subrange(0, 0) =~= Seq::<char>::empty());
    } else if is_blank(s[i]) {
        tokens_follow_the_source(s, i + 1);
    } else {
        lemma_token_at_advances(s, i);
        lemma_token_is_cut_from_the_source(s, i);
        let (token, end) = token_at(s, i)->Ok_0;
        tokens_follow_the_source(s, end);
        let rest = lex_from(s, end)->Ok_0;
        assert(tokens == seq![token] + rest);
        assert forall|k: int| 0 <= k < tokens.len() implies occurs_in(
            (#[trigger] tokens[k]).text,
            s,
        ) && i <= tokens[k].pos <= s.len() by {
            if k > 0 {
                assert(tokens[k] == rest[k - 1]);
            }
        }
        assert forall|k: int, m: int| 0 <= k < m < tokens.len() implies (#[trigger] tokens[k]).pos
            < (#[trigger] tokens[m]).pos by {
            assert(tokens[m] == rest[m - 1]);
            if k > 0 {
                assert(tokens[k] == rest[k - 1]);
            }
        }
    }
}

} // verus!
