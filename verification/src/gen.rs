//! Generation from a whole program, with a record of the identifiers that a
//! program binds.
//!
//! The record is a stack of scopes, innermost last; each scope maps
//! identifiers to the expressions they were bound to.

use vstd::prelude::*;
use crate::ast::{ExCommand, ExprView, Expression, IdentView, Identifier, Program};
use crate::emit::{Failure, eval_commands, output_view, text_view, transpiled, Generate, State};
use crate::lexer::tokenize;
use crate::parser::parse;
use crate::target::{GenError, gen_command, gen_expr, gen_program};

verus! {

/// The bindings that the first `n` entries make: each entry binds its
/// identifier, and a later entry for the same identifier replaces an earlier
/// one.
pub open spec fn bindings_upto(entries: Seq<(&Identifier, &Expression)>, n: int) -> Map<
    IdentView,
    ExprView,
>
    decreases n,
{
    if n <= 0 || n > entries.len() {
        Map::empty()
    } else {
        bindings_upto(entries, n - 1).insert(entries[n - 1].0@, entries[n - 1].1@)
    }
}

proof fn lemma_bindings_push(
    entries: Seq<(&Identifier, &Expression)>,
    entry: (&Identifier, &Expression),
    n: int,
)
    requires
        0 <= n <= entries.len(),
    ensures
        bindings_upto(entries.push(entry), n) == bindings_upto(entries, n),
    decreases n,
{
    if n > 0 {
        lemma_bindings_push(entries, entry, n - 1);
        assert(entries.push(entry)[n - 1] == entries[n - 1]);
    }
}

/// One scope: the identifiers bound in it.
#[derive(Debug)]
pub struct Scope<'a> {
    lookup: Vec<(&'a Identifier, &'a Expression)>,
}

impl<'a> View for Scope<'a> {
    type V = Map<IdentView, ExprView>;

    closed spec fn view(&self) -> Map<IdentView, ExprView> {
        bindings_upto(self.lookup@, self.lookup@.len() as int)
    }
}

impl<'a> Default for Scope<'a> {
    /// A scope that binds nothing.
    fn default() -> (r: Self)
        ensures
            r@ == Map::<IdentView, ExprView>::empty(),
    {
        Scope { lookup: Vec::new() }
    }
}

impl<'a> Scope<'a> {
    /// Binds `identifier` to `expr` in this scope, in place of what it was
    /// bound to before.
    pub fn bind(&mut self, identifier: &'a Identifier, expr: &'a Expression)
        ensures
            final(self)@ == old(self)@.insert(identifier@, expr@),
    {
        proof {
            lemma_bindings_push(
                self.lookup@,
                (identifier, expr),
                self.lookup@.len() as int,
            );
        }
        self.lookup.push((identifier, expr));
    }
}

/// The identifiers known during generation: a stack of scopes, of which
/// there is always at least one.
#[derive(Debug)]
pub struct GenDB<'a> {
    scopes: Vec<Scope<'a>>,
}

impl<'a> View for GenDB<'a> {
    type V = Seq<Map<IdentView, ExprView>>;

    closed spec fn view(&self) -> Seq<Map<IdentView, ExprView>> {
        Seq::new(self.scopes@.len(), |i: int| self.scopes@[i]@)
    }
}

impl<'a> Default for GenDB<'a> {
    /// One scope, which binds nothing.
    fn default() -> (r: Self)
        ensures
            r@ == seq![Map::<IdentView, ExprView>::empty()],
    {
        let mut scopes = Vec::new();
        scopes.push(Scope::default());
        let db = GenDB { scopes };
        assert(db@ =~= seq![Map::<IdentView, ExprView>::empty()]);
        db
    }
}

/// Whether an expression means the same in the source language and in Lua,
/// so that it can be written out as it stands: a number or a plain name.
pub open spec fn shares_behavior(e: ExprView) -> bool {
    e is Number || e matches ExprView::Identifier(IdentView::Raw(_))
}

impl<'a> GenDB<'a> {
    /// Binds `identifier` to `expr` in the innermost scope.
    pub fn add_identifier(&mut self, identifier: &'a Identifier, expr: &'a Expression)
        requires
            old(self)@.len() > 0,
        ensures
            final(self)@ == old(self)@.update(
                old(self)@.len() - 1,
                old(self)@.last().insert(identifier@, expr@),
            ),
    {
        let ghost before = self@;
        let mut scope = match self.scopes.pop() {
            Some(scope) => scope,
            None => Scope::default(),
        };
        scope.bind(identifier, expr);
        self.scopes.push(scope);
        assert(self@ =~= before.update(
            before.len() - 1,
            before.last().insert(identifier@, expr@),
        ));
    }

    /// Looks `identifier` up. Bindings are kept for passes that run after
    /// generation and are not resolved during it: the answer is always
    /// none, and the record stays as it is.
    pub fn get_identifier_expr(&mut self, identifier: &Identifier) -> (r: Option<&Expression>)
        ensures
            r is None,
            final(self)@ == old(self)@,
    {
        None
    }

    /// Checks whether an expression behaves the same in the source language
    /// and in Lua.
    pub fn has_shared_behavior(&self, expr: &Expression) -> (r: bool)
        ensures
            r == shares_behavior(expr@),
    {
        match expr {
            Expression::Number(_) => true,
            Expression::Identifier(Identifier::Raw(_)) => true,
            _ => false,
        }
    }
}

/// A node that can be written out as Lua from a fresh context, with the
/// record of known identifiers at hand.
pub trait CodeGen: Sized {
    /// The node's text.
    spec fn generated(&self) -> Result<Seq<char>, GenError>;

    /// Generates the node's text. The record is left as it was.
    fn gen(&self, db: &mut GenDB) -> (r: Result<String, GenError>)
        ensures
            text_view(r) == self.generated(),
            final(db)@ == old(db)@,
    ;
}

impl CodeGen for Expression {
    open spec fn generated(&self) -> Result<Seq<char>, GenError> {
        gen_expr(self@)
    }

    fn gen(&self, db: &mut GenDB) -> (r: Result<String, GenError>) {
        let mut state = State::new();
        Generate::gen(self, &mut state)
    }
}

impl CodeGen for ExCommand {
    open spec fn generated(&self) -> Result<Seq<char>, GenError> {
        gen_command(self@, None).text
    }

    fn gen(&self, db: &mut GenDB) -> (r: Result<String, GenError>) {
        let mut state = State::new();
        Generate::gen(self, &mut state)
    }
}

impl CodeGen for Program {
    open spec fn generated(&self) -> Result<Seq<char>, GenError> {
        gen_program(self@)
    }

    fn gen(&self, db: &mut GenDB) -> (r: Result<String, GenError>) {
        eval_commands(&self.commands)
    }
}

/// Generates the Lua text of a program: the text of each command, in the
/// program's order, each followed by a line break; or the failure of the
/// first command that cannot be generated.
pub fn generate(prog: Program) -> (r: Result<String, GenError>)
    ensures
        text_view(r) == gen_program(prog@),
{
    let mut db = GenDB::default();
    prog.gen(&mut db)
}

/// Turns a fragment of source text into Lua text: the fragment is put after
/// the `vim9script` marker on a line of its own, cut into tokens, parsed and
/// generated. The first stage that fails decides the failure.
pub fn to_lua(s: &str) -> (r: Result<String, Failure>)
    ensures
        output_view(r) == transpiled("vim9script\n"@ + s@),
{
    let mut source = String::from_str("vim9script\n");
    source.append(s);
    let tokens = match tokenize(source.as_str()) {
        Ok(tokens) => tokens,
        Err(e) => {
            return Err(Failure::Lex(e));
        },
    };
    let parsed = match parse(tokens) {
        Ok(parsed) => parsed,
        Err(e) => {
            return Err(Failure::Parse(e));
        },
    };
    match generate(parsed) {
        Ok(lua) => Ok(lua),
        Err(e) => Err(Failure::Generate(e)),
    }
}

/// The text of a Lua chunk that runs `preamble` and then answers with the
/// value of the expression `result`.
pub open spec fn chunk_text(preamble: Seq<char>, result: Seq<char>) -> Seq<char> {
    "\n            return (function()\n                "@ + preamble
        + "\n                return "@ + result + "\n            end)()\n        "@
}

/// The Lua chunk to hand to a host that is to run `preamble` and answer
/// with the value of `result`.
pub fn lua_chunk(preamble: &str, result: &str) -> (r: String)
    ensures
        r@ == chunk_text(preamble@, result@),
{
    let mut out = String::from_str("\n            return (function()\n                ");
    out.append(preamble);
    out.append("\n                return ");
    out.append(result);
    out.append("\n            end)()\n        ");
    out
}

/// What is reported when the host fails to run a chunk: the chunk, then the
/// host's own words.
pub open spec fn host_error_text(chunk: Seq<char>, error: Seq<char>) -> Seq<char> {
    "Error executing Lua:\n\n"@ + chunk + "\n\n"@ + error
}

/// The report of a host that failed to run `chunk` and said `error`.
pub fn host_error(chunk: &str, error: &str) -> (r: String)
    ensures
        r@ == host_error_text(chunk@, error@),
{
    let mut out = String::from_str("Error executing Lua:\n\n");
    out.append(chunk);
    out.append("\n\n");
    out.append(error);
    out
}

} // verus!
