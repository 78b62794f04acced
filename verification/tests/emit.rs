use vim9jit::ast::{
    ArrayLiteral, AssignStatement, AugroupCommand, AutocmdBlock, AutocmdCommand, Block, Body,
    CallExpression, DefCommand, DictLiteral, EchoCommand, ExCommand, Expression,
    GroupedExpression, Identifier, IfCommand, InfixExpression, KeyValue, Operator,
    PrefixExpression, Program, RawIdentifier, ReturnCommand, ScopedIdentifier, StatementCommand,
    VarCommand, Vim9ScriptCommand, VimBoolean, VimKey, VimNumber, VimOption, VimScope, VimString,
};
use vim9jit::emit::{
    eval, eval_commands, formatted, generate, has_prefix, join, route_call, transpile, Failure,
    Generate, State,
};
use vim9jit::grammar::{Expected, ParseError};
use vim9jit::lexer::LexError;
use vim9jit::target::GenError;
use vim9jit::token::{Literal, Token, TokenKind};

fn literal(text: &str) -> Literal {
    Literal { token: Token::new(TokenKind::Identifier, text, 0) }
}

fn raw(name: &str) -> Identifier {
    Identifier::Raw(RawIdentifier { name: name.to_string() })
}

fn scoped(scope: VimScope, name: &str) -> Identifier {
    Identifier::Scope(ScopedIdentifier { scope, accessor: Box::new(raw(name)) })
}

fn name(text: &str) -> Expression {
    Expression::Identifier(raw(text))
}

fn num(value: &str) -> Expression {
    Expression::Number(VimNumber { value: value.to_string() })
}

fn single(text: &str) -> Expression {
    Expression::String(VimString::SingleQuote(text.to_string()))
}

fn double(text: &str) -> Expression {
    Expression::String(VimString::DoubleQuote(text.to_string()))
}

fn call(callee: Expression, args: Vec<Expression>) -> Expression {
    Expression::Call(CallExpression { expr: Box::new(callee), args })
}

fn infix(left: Expression, operator: Operator, right: Expression) -> Expression {
    Expression::Infix(InfixExpression { left: Box::new(left), operator, right: Box::new(right) })
}

fn echo(expr: Expression) -> ExCommand {
    ExCommand::Echo(EchoCommand { expr })
}

fn autocmd(events: &[&str], block: AutocmdBlock) -> ExCommand {
    ExCommand::Autocmd(AutocmdCommand {
        bang: false,
        events: events.iter().map(|e| literal(e)).collect(),
        pattern: vec![Literal { token: Token::new(TokenKind::Star, "*", 0) }],
        block,
    })
}

fn augroup(name: &str, commands: Vec<ExCommand>) -> ExCommand {
    ExCommand::Augroup(AugroupCommand { augroup_name: literal(name), body: Body { commands } })
}

fn text<T: Generate>(node: &T) -> Result<String, GenError> {
    let mut state = State::new();
    node.gen(&mut state)
}

#[test]
fn numbers_booleans_and_strings_are_written_as_they_are() {
    assert_eq!(text(&num("42")).unwrap(), "42");
    assert_eq!(text(&num("1.50")).unwrap(), "1.50");
    assert_eq!(text(&VimBoolean { value: true }).unwrap(), "true");
    assert_eq!(text(&VimBoolean { value: false }).unwrap(), "false");
    assert_eq!(text(&single("it's \"x\"")).unwrap(), "'it's \"x\"'");
    assert_eq!(text(&double("hello")).unwrap(), "\"hello\"");
    assert_eq!(text(&VimString::SingleQuote(String::new())).unwrap(), "''");
    assert_eq!(text(&VimNumber { value: "7".to_string() }).unwrap(), "7");
}

#[test]
fn literals_of_the_source_reach_the_output() {
    let lua = transpile("var a = 12.5\nvar b = 'single'\nvar c = \"double\"\nvar d = true\n").unwrap();
    assert_eq!(
        lua,
        "local a = 12.5\nlocal b = 'single'\nlocal c = \"double\"\nlocal d = true\n"
    );
}

#[test]
fn every_operator_has_its_lua_text() {
    for (operator, expected) in [
        (Operator::Plus, "+"),
        (Operator::Minus, "-"),
        (Operator::Multiply, "*"),
        (Operator::Bang, "not"),
        (Operator::Or, "or"),
        (Operator::And, "and"),
        (Operator::LessThan, "<"),
        (Operator::GreaterThan, ">"),
        (Operator::LessThanOrEqual, "<="),
        (Operator::GreaterThanOrEqual, ">="),
    ] {
        assert_eq!(text(&operator).unwrap(), expected);
        assert_eq!(
            text(&infix(name("a"), operator, name("b"))).unwrap(),
            format!("(a {} b)", expected)
        );
    }
}

#[test]
fn identifiers() {
    assert_eq!(text(&raw("x")).unwrap(), "x");
    assert_eq!(text(&RawIdentifier { name: "y".to_string() }).unwrap(), "y");
    assert_eq!(text(&scoped(VimScope::Global, "loaded")).unwrap(), "vim.g.loaded");
    assert_eq!(text(&literal("Name")).unwrap(), "Name");
    assert_eq!(text(&VimKey::Literal(literal("key"))).unwrap(), "key");
}

#[test]
fn only_the_global_scope_is_generated() {
    for scope in [
        VimScope::Tab,
        VimScope::Window,
        VimScope::Buffer,
        VimScope::Script,
        VimScope::Local,
        VimScope::Argument,
        VimScope::VimVar,
    ] {
        assert_eq!(text(&scoped(scope, "x")), Err(GenError::Scope(scope)));
        assert_eq!(
            text(&ScopedIdentifier { scope, accessor: Box::new(raw("x")) }),
            Err(GenError::Scope(scope))
        );
    }
    let nested = Identifier::Scope(ScopedIdentifier {
        scope: VimScope::Global,
        accessor: Box::new(scoped(VimScope::Buffer, "x")),
    });
    assert_eq!(text(&nested), Err(GenError::Scope(VimScope::Buffer)));
    assert_eq!(transpile("echo b:changedtick\n"), Err(Failure::Generate(GenError::Scope(VimScope::Buffer))));
    assert_eq!(transpile("echo g:loaded\n").unwrap(), "print(vim.g.loaded)\n");
}

#[test]
fn calls_go_three_ways() {
    assert_eq!(text(&call(name("nvim_get_autocmds"), vec![])).unwrap(), "vim.api.nvim_get_autocmds()");
    assert_eq!(text(&call(name("len"), vec![double("hello")])).unwrap(), "vim.fn.len(\"hello\")");
    assert_eq!(text(&call(name("MyCoolFunc"), vec![])).unwrap(), "MyCoolFunc()");
    assert_eq!(text(&call(name("Nvim_x"), vec![num("1"), num("2")])).unwrap(), "Nvim_x(1, 2)");
    assert_eq!(text(&call(name("nvim"), vec![])).unwrap(), "vim.fn.nvim()");
    assert_eq!(text(&call(name("abs2_"), vec![])).unwrap(), "vim.fn.abs2_()");
}

#[test]
fn route_call_follows_the_lower_case_name() {
    assert_eq!(route_call("nvim_exec", "nvim_exec"), "vim.api.nvim_exec");
    assert_eq!(route_call("len", "len"), "vim.fn.len");
    assert_eq!(route_call("Len", "len"), "Len");
    assert_eq!(route_call("NVIM_EXEC", "nvim_exec"), "NVIM_EXEC");
    assert_eq!(route_call("", ""), "vim.fn.");
}

#[test]
fn callee_must_be_a_plain_identifier() {
    assert_eq!(
        text(&call(Expression::Identifier(scoped(VimScope::Global, "F")), vec![])),
        Err(GenError::ScopedCallee)
    );
    assert_eq!(text(&call(single("f"), vec![])), Err(GenError::ComputedCallee));
    assert_eq!(
        text(&call(call(name("f"), vec![]), vec![])),
        Err(GenError::ComputedCallee)
    );
    assert_eq!(transpile("var x = f(1)(2)\n"), Err(Failure::Generate(GenError::ComputedCallee)));
    assert_eq!(transpile("var x = g:F(1)\n"), Err(Failure::Generate(GenError::ScopedCallee)));
}

#[test]
fn callee_is_judged_before_the_arguments() {
    let bad_argument = Expression::Prefix(PrefixExpression {
        operator: Operator::Bang,
        right: Box::new(name("x")),
    });
    assert_eq!(text(&call(single("f"), vec![bad_argument])), Err(GenError::ComputedCallee));
}

#[test]
fn prefix_expressions_are_refused() {
    for operator in [Operator::Bang, Operator::Minus, Operator::Plus] {
        let prefix = PrefixExpression { operator, right: Box::new(num("1")) };
        assert_eq!(text(&prefix), Err(GenError::PrefixExpression));
    }
    assert_eq!(
        text(&infix(num("1"), Operator::Plus, Expression::Prefix(PrefixExpression {
            operator: Operator::Minus,
            right: Box::new(num("2")),
        }))),
        Err(GenError::PrefixExpression)
    );
}

#[test]
fn grouped_array_dict_option_and_empty() {
    assert_eq!(text(&GroupedExpression { expr: Box::new(num("1")) }).unwrap(), "(1)");
    assert_eq!(
        text(&ArrayLiteral { elements: vec![num("3"), num("1"), num("2")] }).unwrap(),
        "{ 3, 1, 2 }"
    );
    assert_eq!(text(&ArrayLiteral { elements: vec![] }).unwrap(), "{  }");
    assert_eq!(text(&ArrayLiteral { elements: vec![num("1")] }).unwrap(), "{ 1 }");
    let dict = DictLiteral {
        elements: vec![
            KeyValue { key: VimKey::Literal(literal("b")), value: num("1") },
            KeyValue { key: VimKey::Literal(literal("a")), value: single("x") },
        ],
    };
    assert_eq!(text(&dict).unwrap(), "{ b = 1, a = 'x' }");
    assert_eq!(
        text(&VimOption { option: literal("shiftwidth") }).unwrap(),
        "vim.api.nvim_get_option_value('shiftwidth', {})"
    );
    assert_eq!(text(&Expression::Empty).unwrap(), "");
}

#[test]
fn first_failing_element_decides() {
    let elements = vec![
        num("1"),
        Expression::Identifier(scoped(VimScope::Tab, "x")),
        Expression::Prefix(PrefixExpression { operator: Operator::Bang, right: Box::new(num("1")) }),
    ];
    assert_eq!(text(&ArrayLiteral { elements }), Err(GenError::Scope(VimScope::Tab)));
    let dict = DictLiteral {
        elements: vec![
            KeyValue { key: VimKey::Literal(literal("a")), value: call(num("1"), vec![]) },
            KeyValue {
                key: VimKey::Literal(literal("b")),
                value: Expression::Identifier(scoped(VimScope::Tab, "x")),
            },
        ],
    };
    assert_eq!(text(&dict), Err(GenError::ComputedCallee));
}

#[test]
fn simple_commands() {
    assert_eq!(text(&Vim9ScriptCommand { noclear: false }).unwrap(), "-- vim9script");
    assert_eq!(
        text(&VarCommand { name: raw("x"), ty: None, expr: infix(num("1"), Operator::Plus, num("1")) }).unwrap(),
        "local x = (1 + 1)"
    );
    assert_eq!(text(&EchoCommand { expr: double("hi") }).unwrap(), "print(\"hi\")");
    assert_eq!(
        text(&AssignStatement { left: Expression::Identifier(scoped(VimScope::Global, "n")), right: num("2") }).unwrap(),
        "vim.g.n = 2"
    );
    assert_eq!(
        text(&StatementCommand::Assign(AssignStatement { left: name("a"), right: name("b") })).unwrap(),
        "a = b"
    );
    assert_eq!(text(&ReturnCommand { expr: Some(num("5")) }).unwrap(), "return 5");
    assert_eq!(text(&ReturnCommand { expr: None }).unwrap(), "return");
    assert_eq!(text(&ReturnCommand { expr: Some(Expression::Empty) }).unwrap(), "return ");
}

#[test]
fn comment_and_empty_line() {
    let comment = ExCommand::Comment(Token::new(TokenKind::Comment, " note", 0));
    assert_eq!(text(&comment).unwrap(), "--  note");
    let empty = ExCommand::NoOp(Token::new(TokenKind::EndOfLine, "\n", 0));
    assert_eq!(text(&empty).unwrap(), "-- EndOfLine");
}

#[test]
fn def_takes_no_parameters() {
    let def = DefCommand {
        name: raw("F"),
        params: vec![],
        ret: None,
        body: Body {
            commands: vec![
                echo(num("1")),
                ExCommand::Return(ReturnCommand { expr: Some(num("5")) }),
            ],
        },
    };
    assert_eq!(text(&def).unwrap(), "\nlocal F = function()\n  print(1)\nreturn 5\nend");
    assert_eq!(
        transpile("def Add(a: number, b: number): number\n  return a + b\nenddef\n").unwrap(),
        "\nlocal Add = function()\n  return (a + b)\nend\n"
    );
}

#[test]
fn if_has_no_space_around_it() {
    let cond = IfCommand {
        condition: infix(name("x"), Operator::LessThan, num("3")),
        body: Body { commands: vec![echo(name("x"))] },
    };
    assert_eq!(text(&cond).unwrap(), "if (x < 3) then\n  print(x)\nend");
    let empty = IfCommand { condition: name("x"), body: Body { commands: vec![] } };
    assert_eq!(text(&empty).unwrap(), "if x then\n  \nend");
}

#[test]
fn body_and_block_put_one_command_per_line() {
    let body = Body { commands: vec![echo(num("1")), echo(num("2")), echo(num("3"))] };
    assert_eq!(text(&body).unwrap(), "print(1)\nprint(2)\nprint(3)");
    let block = Block { body: Body { commands: vec![echo(num("2")), echo(num("1"))] } };
    assert_eq!(text(&block).unwrap(), "print(2)\nprint(1)");
    assert_eq!(text(&Body { commands: vec![] }).unwrap(), "");
}

#[test]
fn autocmd_outside_an_augroup_names_no_group() {
    let command = autocmd(&["WinLeave"], AutocmdBlock::Command(Box::new(echo(num("1")))));
    assert_eq!(
        text(&command).unwrap(),
        "\nvim.api.nvim_create_autocmd({ 'WinLeave' }, {\n    \n    callback = function()\nprint(1)\nend,\n})\n"
    );
}

#[test]
fn autocmd_inside_an_augroup_names_it() {
    let inner = autocmd(
        &["CursorMoved", "WinEnter"],
        AutocmdBlock::Block(Block { body: Body { commands: vec![echo(num("1")), echo(num("2"))] } }),
    );
    let group = augroup("X", vec![inner]);
    assert_eq!(
        text(&group).unwrap(),
        "\n    vim.api.nvim_create_augroup(\"X\", { clear = false })\n\n    \nvim.api.nvim_create_autocmd({ 'CursorMoved', 'WinEnter' }, {\n    group = 'X',\n    callback = function()\nprint(1)\nprint(2)\nend,\n})\n\n"
    );
}

#[test]
fn autocmd_reads_the_state_it_is_given() {
    let command = autocmd(&["WinLeave"], AutocmdBlock::Command(Box::new(echo(num("1")))));
    let mut state = State { augroup: Some(literal("Mine")) };
    let lua = command.gen(&mut state).unwrap();
    assert!(lua.contains("group = 'Mine',"));
    assert_eq!(state.augroup.as_ref().unwrap().token.text, "Mine");
}

#[test]
fn augroup_clears_the_state_when_it_is_done() {
    let mut state = State::new();
    assert!(state.augroup.is_none());
    augroup("X", vec![echo(num("1"))]).gen(&mut state).unwrap();
    assert!(state.augroup.is_none());

    let mut state = State { augroup: Some(literal("Outer")) };
    augroup("X", vec![]).gen(&mut state).unwrap();
    assert!(state.augroup.is_none());
}

#[test]
fn augroup_clears_the_state_when_its_body_fails() {
    let mut state = State::new();
    let failing = augroup("X", vec![ExCommand::Skip]);
    assert_eq!(failing.gen(&mut state), Err(GenError::SkipCommand));
    assert!(state.augroup.is_none());
}

#[test]
fn augroup_context_does_not_leak_to_what_follows() {
    let one = |event: &str| autocmd(&[event], AutocmdBlock::Command(Box::new(echo(num("1")))));
    let program = Program {
        commands: vec![one("Before"), augroup("X", vec![one("Inside")]), one("After")],
    };
    let lua = eval(program).unwrap();
    let registrations: Vec<&str> = lua.split("vim.api.nvim_create_autocmd").skip(1).collect();
    assert_eq!(registrations.len(), 3);
    assert!(registrations[0].starts_with("({ 'Before' }") && !registrations[0].contains("group ="));
    assert!(registrations[1].starts_with("({ 'Inside' }") && registrations[1].contains("group = 'X',"));
    assert!(registrations[2].starts_with("({ 'After' }") && !registrations[2].contains("group ="));
}

#[test]
fn expressions_leave_the_state_alone() {
    let mut state = State { augroup: Some(literal("G")) };
    assert_eq!(call(name("len"), vec![num("1")]).gen(&mut state).unwrap(), "vim.fn.len(1)");
    assert_eq!(state.augroup.as_ref().unwrap().token.text, "G");
}

#[test]
fn commands_without_a_rule_are_refused() {
    let bare_call = ExCommand::Call(CallExpression { expr: Box::new(name("F")), args: vec![] });
    assert_eq!(text(&bare_call), Err(GenError::CallCommand));
    let finish = ExCommand::Finish(Token::new(TokenKind::Identifier, "finish", 0));
    assert_eq!(text(&finish), Err(GenError::FinishCommand));
    assert_eq!(text(&ExCommand::Skip), Err(GenError::SkipCommand));
    assert_eq!(text(&ExCommand::EndOfFile), Err(GenError::EndOfFileCommand));
    assert_eq!(transpile("Foo(1)\n"), Err(Failure::Generate(GenError::CallCommand)));
    assert_eq!(transpile("finish\n"), Err(Failure::Generate(GenError::FinishCommand)));
}

#[test]
fn eval_ends_every_command_with_a_line_break() {
    let program = Program { commands: vec![echo(num("1")), echo(num("2"))] };
    assert_eq!(eval(program).unwrap(), "print(1)\nprint(2)\n");
    assert_eq!(eval(Program { commands: vec![] }).unwrap(), "");
    assert_eq!(eval_commands(&vec![echo(num("3"))]).unwrap(), "print(3)\n");
}

#[test]
fn eval_fails_with_the_first_failure() {
    let program = Program { commands: vec![echo(num("1")), ExCommand::EndOfFile, ExCommand::Skip] };
    assert_eq!(eval(program), Err(GenError::EndOfFileCommand));
}

#[test]
fn join_and_prefix() {
    let parts = vec!["a".to_string(), "b".to_string(), "c".to_string()];
    assert_eq!(join(&parts, ", "), "a, b, c");
    assert_eq!(join(&vec!["a".to_string()], ", "), "a");
    assert_eq!(join(&vec![], ", "), "");
    assert_eq!(join(&vec![String::new(), String::new()], "-"), "-");
    assert!(has_prefix("nvim_x", "nvim_"));
    assert!(has_prefix("nvim_", "nvim_"));
    assert!(!has_prefix("nvim", "nvim_"));
    assert!(!has_prefix("xnvim_", "nvim_"));
    assert!(has_prefix("anything", ""));
}

#[test]
fn every_stage_reports_its_own_failure() {
    assert_eq!(transpile("echo 'abc\n"), Err(Failure::Lex(LexError::UnterminatedString { pos: 5 })));
    assert_eq!(
        transpile("echo\n"),
        Err(Failure::Parse(ParseError {
            expected: Expected::Expression,
            found: TokenKind::EndOfLine,
            pos: 4
        }))
    );
    assert_eq!(transpile("echo -1\n"), Err(Failure::Generate(GenError::PrefixExpression)));
    assert_eq!(generate("echo 'abc\n"), Err(Failure::Lex(LexError::UnterminatedString { pos: 5 })));
    assert_eq!(generate("return 1\necho 2\n"), Err(Failure::Format));
}

#[test]
fn formatter_failure_becomes_a_failure_of_the_run() {
    assert_eq!(formatted(Ok("local x = 1\n".to_string())), Ok("local x = 1\n".to_string()));
    assert_eq!(formatted(Err(stylua_lib::Error::VerificationAstDifference)), Err(Failure::Format));
}

#[test]
fn generate_formats_what_transpile_writes() {
    let source = "def MyCoolFunc(): number\n  return 5\nenddef\nvar x = MyCoolFunc() + 1\n";
    assert_eq!(
        transpile(source).unwrap(),
        "\nlocal MyCoolFunc = function()\n  return 5\nend\nlocal x = (MyCoolFunc() + 1)\n"
    );
    assert_eq!(
        generate(source).unwrap(),
        "local MyCoolFunc = function()\n\treturn 5\nend\nlocal x = (MyCoolFunc() + 1)\n"
    );
}
