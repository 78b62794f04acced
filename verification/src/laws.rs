//! What holds of every tree and every run of the generator.

use vstd::prelude::*;
use crate::token::TokenView;
use crate::ast::{BlockView, CommandView, ExprView, IdentView, Quote, VimScope};
use crate::target::{
    GenError, Group, augroup_text, autocmd_text, gen_block, gen_body, gen_callee, gen_command,
    gen_commands, gen_entries, gen_expr, gen_exprs, gen_ident, join, join_upto, lowercase_of,
    quoted_events,
};

verus! {

/// The character that a string literal of this kind is written between.
pub open spec fn quote_char(quote: Quote) -> char {
    match quote {
        Quote::Single => '\'',
        Quote::Double => '"',
    }
}

/// A literal is generated as it was written: a number is its digits, a
/// string is its contents between the quotes it was written with, and a
/// boolean is its word.
pub proof fn literals_are_kept(value: Seq<char>, quote: Quote, contents: Seq<char>, truth: bool)
    ensures
        gen_expr(ExprView::Number(value)) == Ok::<Seq<char>, GenError>(value),
        gen_expr(ExprView::Str(quote, contents)) == Ok::<Seq<char>, GenError>(
            seq![quote_char(quote)] + contents + seq![quote_char(quote)],
        ),
        gen_expr(ExprView::Boolean(truth)) == Ok::<Seq<char>, GenError>(
            if truth {
                seq!['t', 'r', 'u', 'e']
            } else {
                seq!['f', 'a', 'l', 's', 'e']
            },
        ),
{
    reveal_strlit("'");
    reveal_strlit("\"");
    reveal_strlit("true");
    reveal_strlit("false");
    assert("'"@ =~= seq!['\'']);
    assert("\""@ =~= seq!['"']);
    assert("true"@ =~= seq!['t', 'r', 'u', 'e']);
    assert("false"@ =~= seq!['f', 'a', 'l', 's', 'e']);
}

/// The texts of a list of expressions stand in the order of the
/// expressions: where the first `n` can be generated, there are `n` texts,
/// and each is the text of the expression at its place.
pub proof fn lists_keep_order(es: Seq<ExprView>, n: int)
    requires
        0 <= n <= es.len(),
        gen_exprs(es, n) is Ok,
    ensures
        gen_exprs(es, n)->Ok_0.len() == n,
        forall|i: int|
            0 <= i < n ==> gen_expr(es[i]) == Ok::<Seq<char>, GenError>(
                #[trigger] gen_exprs(es, n)->Ok_0[i],
            ),
    decreases n,
{
    if n > 0 {
        lists_keep_order(es, n - 1);
    }
}

/// The texts of the entries of a dictionary stand in the order of the
/// entries, each the entry's key, ` = `, and the text of the entry's value.
pub proof fn entries_keep_order(entries: Seq<(TokenView, ExprView)>, n: int)
    requires
        0 <= n <= entries.len(),
        gen_entries(entries, n) is Ok,
    ensures
        gen_entries(entries, n)->Ok_0.len() == n,
        forall|i: int| 0 <= i < n ==> gen_expr(#[trigger] entries[i].1) is Ok,
        forall|i: int|
            0 <= i < n ==> (#[trigger] gen_entries(entries, n)->Ok_0[i]) == entries[i].0.text
                + " = "@ + gen_expr(entries[i].1)->Ok_0,
    decreases n,
{
    if n > 0 {
        entries_keep_order(entries, n - 1);
        let shorter = gen_entries(entries, n - 1)->Ok_0;
        let longer = gen_entries(entries, n)->Ok_0;
        assert(longer == shorter.push(
            entries[n - 1].0.text + " = "@ + gen_expr(entries[n - 1].1)->Ok_0,
        ));
        assert forall|i: int| 0 <= i < n implies (#[trigger] longer[i]) == entries[i].0.text
            + " = "@ + gen_expr(entries[i].1)->Ok_0 by {
            if i < n - 1 {
                assert(longer[i] == shorter[i]);
            }
        }
    }
}

/// The texts of a run of commands stand in the order of the commands: where
/// the first `n` can be generated, there are `n` texts, and each is the text
/// of the command at its place, in the context that the commands before it
/// leave.
pub proof fn commands_keep_order(cs: Seq<CommandView>, n: int, group: Group)
    requires
        0 <= n <= cs.len(),
        gen_commands(cs, n, group).0 is Ok,
    ensures
        gen_commands(cs, n, group).0->Ok_0.len() == n,
        forall|i: int| 0 <= i < n ==> (#[trigger] gen_commands(cs, i, group)).0 is Ok,
        forall|i: int|
            0 <= i < n ==> gen_command(cs[i], gen_commands(cs, i, group).1).text == Ok::<
                Seq<char>,
                GenError,
            >(#[trigger] gen_commands(cs, n, group).0->Ok_0[i]),
    decreases n,
{
    if n > 0 {
        commands_keep_order(cs, n - 1, group);
        let shorter = gen_commands(cs, n - 1, group).0->Ok_0;
        let longer = gen_commands(cs, n, group).0->Ok_0;
        let last = gen_command(cs[n - 1], gen_commands(cs, n - 1, group).1);
        assert(longer == shorter.push(last.text->Ok_0));
        assert forall|i: int| 0 <= i < n implies gen_command(
            cs[i],
            gen_commands(cs, i, group).1,
        ).text == Ok::<Seq<char>, GenError>(#[trigger] longer[i]) by {
            if i < n - 1 {
                assert(longer[i] == shorter[i]);
            }
        }
    }
}

/// Joining goes from left to right: the join of the first `k` parts is the
/// start of the join of the first `n`, for every `k` up to `n`.
pub proof fn join_goes_left_to_right(parts: Seq<Seq<char>>, sep: Seq<char>, k: int, n: int)
    requires
        0 <= k <= n <= parts.len(),
    ensures
        join_upto(parts, sep, k).is_prefix_of(join_upto(parts, sep, n)),
    decreases n - k,
{
    if k < n {
        join_goes_left_to_right(parts, sep, k, n - 1);
        let shorter = join_upto(parts, sep, n - 1);
        let longer = join_upto(parts, sep, n);
        if n == 1 {
            assert(shorter =~= Seq::<char>::empty());
        } else {
            assert(longer == shorter + sep + parts[n - 1]);
            assert(shorter =~= longer.subrange(0, shorter.len() as int));
        }
        assert(join_upto(parts, sep, k) =~= longer.subrange(
            0,
            join_upto(parts, sep, k).len() as int,
        ));
    } else {
        assert(join_upto(parts, sep, k) =~= join_upto(parts, sep, n).subrange(
            0,
            join_upto(parts, sep, k).len() as int,
        ));
    }
}

/// A scoped identifier is generated if and only if its scope is the global
/// one and its accessor can be generated; it then reads the global table.
/// Every other scope fails, and the failure names the scope.
pub proof fn only_the_global_scope_is_generated(scope: VimScope, accessor: IdentView)
    ensures
        gen_ident(IdentView::Scoped(scope, Box::new(accessor))) is Ok <==> scope
            == VimScope::Global && gen_ident(accessor) is Ok,
        scope == VimScope::Global && gen_ident(accessor) is Ok ==> gen_ident(
            IdentView::Scoped(scope, Box::new(accessor)),
        ) == Ok::<Seq<char>, GenError>("vim.g."@ + gen_ident(accessor)->Ok_0),
        scope != VimScope::Global ==> gen_ident(IdentView::Scoped(scope, Box::new(accessor)))
            == Err::<Seq<char>, GenError>(GenError::Scope(scope)),
{
}

/// A call goes one of three ways, by the callee's name alone: to the native
/// API if the name is lower case and begins with `nvim_`, to the builtin
/// functions if it is lower case and does not, and to the function of that
/// name itself if it is not lower case.
pub proof fn calls_go_three_ways(name: Seq<char>)
    ensures
        gen_callee(ExprView::Identifier(IdentView::Raw(name))) == Ok::<Seq<char>, GenError>(
            if lowercase_of(name) != name {
                name
            } else if "nvim_"@.is_prefix_of(name) {
                "vim.api."@ + name
            } else {
                "vim.fn."@ + name
            },
        ),
{
}

/// An autocmd names the augroup of its context and no other: in the context
/// of an augroup its registration carries `group = '<name>',`, and outside
/// any augroup it carries no group at all.
pub proof fn autocmd_names_its_context(
    bang: bool,
    events: Seq<TokenView>,
    pattern: Seq<TokenView>,
    block: BlockView,
    group: Group,
)
    requires
        gen_block(block, group).text is Ok,
    ensures
        gen_command(CommandView::Autocmd { bang, events, pattern, block }, group).text == Ok::<
            Seq<char>,
            GenError,
        >(
            autocmd_text(
                join(quoted_events(events), ", "@),
                match group {
                    Some(g) => "group = '"@ + g.text + "',"@,
                    None => Seq::empty(),
                },
                gen_block(block, group).text->Ok_0,
            ),
        ),
{
}

/// The body of an augroup is generated in the context of that augroup,
/// whatever the context around it, and what follows the augroup is
/// generated in no augroup's context.
pub proof fn augroup_sets_and_clears_its_context(
    name: TokenView,
    body: Seq<CommandView>,
    group: Group,
)
    ensures
        gen_command(CommandView::Augroup { name, body }, group).group is None,
        gen_command(CommandView::Augroup { name, body }, group).text == match gen_body(
            body,
            Some(name),
        ).text {
            Ok(t) => Ok::<Seq<char>, GenError>(augroup_text(name.text, t)),
            Err(e) => Err(e),
        },
{
}

/// A command leaves the context as it found it, or leaves none.
pub proof fn context_is_kept_or_cleared(c: CommandView, group: Group)
    ensures
        gen_command(c, group).group == group || gen_command(c, group).group is None,
    decreases c, 0int,
{
    match c {
        CommandView::Def { body, .. } => {
            body_keeps_or_clears_context(body, group);
        },
        CommandView::If { body, .. } => {
            body_keeps_or_clears_context(body, group);
        },
        CommandView::Autocmd { block, .. } => {
            match block {
                BlockView::Command(command) => {
                    context_is_kept_or_cleared(*command, group);
                },
                BlockView::Block(body) => {
                    body_keeps_or_clears_context(body, group);
                },
            }
        },
        _ => {},
    }
}

/// A run of commands leaves the context as it found it, or leaves none.
pub proof fn run_keeps_or_clears_context(cs: Seq<CommandView>, n: int, group: Group)
    ensures
        gen_commands(cs, n, group).1 == group || gen_commands(cs, n, group).1 is None,
    decreases cs, n,
{
    if 0 < n <= cs.len() {
        run_keeps_or_clears_context(cs, n - 1, group);
        context_is_kept_or_cleared(cs[n - 1], gen_commands(cs, n - 1, group).1);
    }
}

/// A body leaves the context as it found it, or leaves none.
pub proof fn body_keeps_or_clears_context(body: Seq<CommandView>, group: Group)
    ensures
        gen_body(body, group).group == group || gen_body(body, group).group is None,
    decreases body, body.len() + 1,
{
    run_keeps_or_clears_context(body, body.len() as int, group);
}

/// A run that starts in no augroup's context ends in none, whether it
/// succeeds or fails.
pub proof fn run_ends_in_no_context(program: Seq<CommandView>)
    ensures
        gen_commands(program, program.len() as int, None).1 is None,
{
    run_keeps_or_clears_context(program, program.len() as int, None);
}

/// Whether a command is an augroup or holds one.
pub open spec fn has_augroup(c: CommandView) -> bool
    decreases c, 0int,
{
    match c {
        CommandView::Augroup { .. } => true,
        CommandView::Def { body, .. } => any_has_augroup(body, body.len() as int),
        CommandView::If { body, .. } => any_has_augroup(body, body.len() as int),
        CommandView::Autocmd { block, .. } => match block {
            BlockView::Command(command) => has_augroup(*command),
            BlockView::Block(body) => any_has_augroup(body, body.len() as int),
        },
        _ => false,
    }
}

/// Whether one of the first `n` commands is an augroup or holds one.
pub open spec fn any_has_augroup(cs: Seq<CommandView>, n: int) -> bool
    decreases cs, n,
{
    if n <= 0 || n > cs.len() {
        false
    } else {
        any_has_augroup(cs, n - 1) || has_augroup(cs[n - 1])
    }
}

/// Nothing but an augroup changes the context: a command that holds no
/// augroup leaves the context as it found it.
pub proof fn only_augroups_change_the_context(c: CommandView, group: Group)
    requires
        !has_augroup(c),
    ensures
        gen_command(c, group).group == group,
    decreases c, 0int,
{
    match c {
        CommandView::Def { body, .. } => {
            body_without_augroups_keeps_the_context(body, group);
        },
        CommandView::If { body, .. } => {
            body_without_augroups_keeps_the_context(body, group);
        },
        CommandView::Autocmd { block, .. } => {
            match block {
                BlockView::Command(command) => {
                    only_augroups_change_the_context(*command, group);
                },
                BlockView::Block(body) => {
                    body_without_augroups_keeps_the_context(body, group);
                },
            }
        },
        _ => {},
    }
}

/// A body whose commands hold no augroup leaves the context as it found it.
pub proof fn body_without_augroups_keeps_the_context(body: Seq<CommandView>, group: Group)
    requires
        !any_has_augroup(body, body.len() as int),
    ensures
        gen_body(body, group).group == group,
    decreases body, body.len() + 1,
{
    run_without_augroups_keeps_the_context(body, body.len() as int, group);
}

/// A run of commands that hold no augroup leaves the context as it found it.
pub proof fn run_without_augroups_keeps_the_context(cs: Seq<CommandView>, n: int, group: Group)
    requires
        !any_has_augroup(cs, n),
    ensures
        gen_commands(cs, n, group).1 == group,
    decreases cs, n,
{
    if 0 < n <= cs.len() {
        run_without_augroups_keeps_the_context(cs, n - 1, group);
        only_augroups_change_the_context(cs[n - 1], gen_commands(cs, n - 1, group).1);
    }
}

/// Inside an augroup, a command is generated in the context of that
/// augroup: the command at place `i` of the body sees the augroup's name,
/// provided that no command before it in the body holds an augroup of its
/// own.
pub proof fn inside_an_augroup_the_context_is_its_name(
    name: TokenView,
    body: Seq<CommandView>,
    i: int,
)
    requires
        0 <= i < body.len(),
        !any_has_augroup(body, i),
    ensures
        gen_commands(body, i, Some(name)).1 == Some(name),
{
    run_without_augroups_keeps_the_context(body, i, Some(name));
}

/// After an augroup, a command is generated in no augroup's context: where
/// the command at place `i` of a run is an augroup, the command after it
/// sees no group, whatever the context of the run was.
pub proof fn after_an_augroup_the_context_is_empty(cs: Seq<CommandView>, i: int, group: Group)
    requires
        0 <= i < cs.len(),
        cs[i] is Augroup,
        gen_commands(cs, i, group).0 is Ok,
    ensures
        gen_commands(cs, i + 1, group).1 is None,
{
    augroup_sets_and_clears_its_context(
        cs[i]->Augroup_name,
        cs[i]->Augroup_body,
        gen_commands(cs, i, group).1,
    );
}

/// Outside any augroup, a command is generated in no augroup's context:
/// in a run that starts in none, every command sees none.
pub proof fn outside_augroups_the_context_is_empty(program: Seq<CommandView>, i: int)
    requires
        0 <= i <= program.len(),
    ensures
        gen_commands(program, i, None).1 is None,
{
    run_keeps_or_clears_context(program, i, None);
}

} // verus!
