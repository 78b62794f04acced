use vim9jit::ast::{
    CallExpression, EchoCommand, ExCommand, Expression, Identifier, Program, RawIdentifier,
    ScopedIdentifier, VimNumber, VimScope, VimString,
};
use vim9jit::emit::Failure;
use vim9jit::gen::{generate, host_error, lua_chunk, to_lua, CodeGen, GenDB, Scope};
use vim9jit::lexer::{tokenize, LexError};
use vim9jit::parser::parse;
use vim9jit::target::GenError;

fn raw(name: &str) -> Identifier {
    Identifier::Raw(RawIdentifier { name: name.to_string() })
}

fn num(value: &str) -> Expression {
    Expression::Number(VimNumber { value: value.to_string() })
}

#[test]
fn to_lua_puts_the_marker_first() {
    assert_eq!(to_lua("var x = 1").unwrap(), "-- vim9script\nlocal x = 1\n");
    assert_eq!(to_lua("").unwrap(), "-- vim9script\n");
    assert_eq!(
        to_lua("var x = 1\nvar y = 2\nvar z = x + y").unwrap(),
        "-- vim9script\nlocal x = 1\nlocal y = 2\nlocal z = (x + y)\n"
    );
}

#[test]
fn to_lua_routes_builtin_calls() {
    assert_eq!(to_lua("var x = abs(1)").unwrap(), "-- vim9script\nlocal x = vim.fn.abs(1)\n");
    assert_eq!(
        to_lua("var x = abs(1 - 2)").unwrap(),
        "-- vim9script\nlocal x = vim.fn.abs((1 - 2))\n"
    );
    assert_eq!(
        to_lua("var x = abs(1 + 2)").unwrap(),
        "-- vim9script\nlocal x = vim.fn.abs((1 + 2))\n"
    );
}

#[test]
fn to_lua_reports_the_stage_that_failed() {
    assert_eq!(to_lua("var x = 'a"), Err(Failure::Lex(LexError::UnterminatedString { pos: 19 })));
    assert!(matches!(to_lua("var = 1"), Err(Failure::Parse(_))));
    assert_eq!(to_lua("var x = -1"), Err(Failure::Generate(GenError::PrefixExpression)));
}

#[test]
fn generate_writes_a_parsed_program() {
    let program = parse(tokenize("var x = 1\necho x\n").unwrap()).unwrap();
    assert_eq!(generate(program).unwrap(), "local x = 1\nprint(x)\n");
    assert_eq!(generate(Program { commands: vec![] }).unwrap(), "");
    assert_eq!(
        generate(Program { commands: vec![ExCommand::Skip] }),
        Err(GenError::SkipCommand)
    );
}

#[test]
fn code_gen_leaves_the_record_alone() {
    let mut db = GenDB::default();
    let program = Program { commands: vec![ExCommand::Echo(EchoCommand { expr: num("1") })] };
    assert_eq!(CodeGen::gen(&program, &mut db).unwrap(), "print(1)\n");
    assert_eq!(CodeGen::gen(&program.commands[0], &mut db).unwrap(), "print(1)");
    assert_eq!(CodeGen::gen(&num("7"), &mut db).unwrap(), "7");
    assert_eq!(CodeGen::gen(&ExCommand::Skip, &mut db), Err(GenError::SkipCommand));
}

#[test]
fn record_takes_bindings_and_resolves_none() {
    let x = raw("x");
    let one = num("1");
    let two = num("2");
    let mut db = GenDB::default();
    assert!(db.get_identifier_expr(&x).is_none());
    db.add_identifier(&x, &one);
    db.add_identifier(&x, &two);
    assert!(db.get_identifier_expr(&x).is_none());
}

#[test]
fn scope_takes_bindings() {
    let x = raw("x");
    let one = num("1");
    let mut scope = Scope::default();
    scope.bind(&x, &one);
    scope.bind(&x, &one);
    assert!(format!("{:?}", scope).contains("RawIdentifier"));
}

#[test]
fn numbers_and_plain_names_behave_the_same_in_lua() {
    let db = GenDB::default();
    assert!(db.has_shared_behavior(&num("1")));
    assert!(db.has_shared_behavior(&Expression::Identifier(raw("x"))));
    let scoped = Identifier::Scope(ScopedIdentifier {
        scope: VimScope::Global,
        accessor: Box::new(raw("x")),
    });
    assert!(!db.has_shared_behavior(&Expression::Identifier(scoped)));
    assert!(!db.has_shared_behavior(&Expression::String(VimString::SingleQuote("a".to_string()))));
    let call = Expression::Call(CallExpression { expr: Box::new(Expression::Identifier(raw("f"))), args: vec![] });
    assert!(!db.has_shared_behavior(&call));
    assert!(!db.has_shared_behavior(&Expression::Empty));
}

#[test]
fn chunk_runs_the_preamble_and_answers_with_the_result() {
    assert_eq!(
        lua_chunk("local x = 1", "x + 2"),
        "\n            return (function()\n                local x = 1\n                return x + 2\n            end)()\n        "
    );
    assert_eq!(
        lua_chunk("", "1"),
        "\n            return (function()\n                \n                return 1\n            end)()\n        "
    );
}

#[test]
fn host_error_shows_the_chunk_and_the_cause() {
    assert_eq!(
        host_error("return x", "x is nil"),
        "Error executing Lua:\n\nreturn x\n\nx is nil"
    );
}
