use vim9jit::ast::{
    AugroupCommand, AutocmdBlock, AutocmdCommand, ExCommand, Expression, Identifier, Operator,
    Program, StatementCommand, VimScope, VimString,
};
use vim9jit::emit::eval;
use vim9jit::grammar::{Expected, Keyword, ParseError, LOWEST};
use vim9jit::lexer::tokenize;
use vim9jit::parser::{parse, parse_command, parse_expression, Parser};
use vim9jit::token::TokenKind;

fn program(source: &str) -> Program {
    parse(tokenize(source).unwrap()).unwrap()
}

fn failure(source: &str) -> ParseError {
    parse(tokenize(source).unwrap()).err().unwrap()
}

fn expression(source: &str) -> Expression {
    let tokens = tokenize(source).unwrap();
    parse_expression(&tokens, 0, LOWEST).unwrap().0
}

fn lua(source: &str) -> String {
    eval(program(source)).unwrap()
}

#[test]
fn empty_program() {
    assert_eq!(program("").commands.len(), 0);
}

#[test]
fn one_command_per_line() {
    let p = program("vim9script\nvar x = 1\necho x\n");
    assert_eq!(p.commands.len(), 3);
    assert!(matches!(p.commands[0], ExCommand::Vim9Script(_)));
    assert!(matches!(p.commands[1], ExCommand::Var(_)));
    assert!(matches!(p.commands[2], ExCommand::Echo(_)));
}

#[test]
fn last_line_needs_no_line_break() {
    let p = program("var x = 1");
    assert_eq!(p.commands.len(), 1);
}

#[test]
fn blank_lines_and_comments_are_commands() {
    let p = program("\n# note\n");
    assert_eq!(p.commands.len(), 2);
    assert!(matches!(p.commands[0], ExCommand::NoOp(_)));
    match &p.commands[1] {
        ExCommand::Comment(token) => assert_eq!(token.text, " note"),
        other => panic!("{:?}", other),
    }
}

#[test]
fn vim9script_noclear() {
    match &program("vim9script noclear\n").commands[0] {
        ExCommand::Vim9Script(c) => assert!(c.noclear),
        other => panic!("{:?}", other),
    }
    match &program("vim9script\n").commands[0] {
        ExCommand::Vim9Script(c) => assert!(!c.noclear),
        other => panic!("{:?}", other),
    }
}

#[test]
fn var_with_type() {
    match &program("var count: number = 3\n").commands[0] {
        ExCommand::Var(c) => {
            assert!(matches!(&c.name, Identifier::Raw(r) if r.name == "count"));
            assert_eq!(c.ty.as_ref().unwrap().token.text, "number");
            assert!(matches!(&c.expr, Expression::Number(n) if n.value == "3"));
        }
        other => panic!("{:?}", other),
    }
}

#[test]
fn bare_return_has_no_expression() {
    match &program("return\n").commands[0] {
        ExCommand::Return(c) => assert!(c.expr.is_none()),
        other => panic!("{:?}", other),
    }
    match &program("return 5").commands[0] {
        ExCommand::Return(c) => assert!(matches!(c.expr, Some(Expression::Number(_)))),
        other => panic!("{:?}", other),
    }
}

#[test]
fn def_keeps_its_parameters() {
    match &program("def Add(a: number, b): number\n  return a + b\nenddef\n").commands[0] {
        ExCommand::Def(c) => {
            assert!(matches!(&c.name, Identifier::Raw(r) if r.name == "Add"));
            assert_eq!(c.params.len(), 2);
            assert_eq!(c.params[0].name.token.text, "a");
            assert_eq!(c.params[0].ty.as_ref().unwrap().token.text, "number");
            assert_eq!(c.params[1].name.token.text, "b");
            assert!(c.params[1].ty.is_none());
            assert_eq!(c.ret.as_ref().unwrap().token.text, "number");
            assert_eq!(c.body.commands.len(), 1);
        }
        other => panic!("{:?}", other),
    }
}

#[test]
fn if_with_body() {
    match &program("if x < 1\n  echo x\n  echo 2\nendif\n").commands[0] {
        ExCommand::If(c) => {
            assert!(matches!(&c.condition, Expression::Infix(i) if i.operator == Operator::LessThan));
            assert_eq!(c.body.commands.len(), 2);
        }
        other => panic!("{:?}", other),
    }
}

#[test]
fn assignment_and_call_statements() {
    let p = program("g:count = 1\nFoo(1)\n");
    assert!(matches!(p.commands[0], ExCommand::Statement(StatementCommand::Assign(_))));
    assert!(matches!(p.commands[1], ExCommand::Call(_)));
}

#[test]
fn finish_is_parsed() {
    assert!(matches!(program("finish\n").commands[0], ExCommand::Finish(_)));
}

#[test]
fn augroup_with_autocmds() {
    let source = "augroup matchparen\n  autocmd! CursorMoved,CursorMovedI,WinEnter * {\n      echo \"Block\"\n    }\n\n  autocmd WinLeave * echo \"Command\"\naugroup END\n";
    match &program(source).commands[0] {
        ExCommand::Augroup(group) => {
            assert_eq!(group.augroup_name.token.text, "matchparen");
            assert_eq!(group.body.commands.len(), 3);
            match &group.body.commands[0] {
                ExCommand::Autocmd(a) => {
                    assert!(a.bang);
                    let events: Vec<&str> =
                        a.events.iter().map(|e| e.token.text.as_str()).collect();
                    assert_eq!(events, vec!["CursorMoved", "CursorMovedI", "WinEnter"]);
                    assert_eq!(a.pattern.len(), 1);
                    assert_eq!(a.pattern[0].token.kind, TokenKind::Star);
                    match &a.block {
                        AutocmdBlock::Block(b) => assert_eq!(b.body.commands.len(), 1),
                        other => panic!("{:?}", other),
                    }
                }
                other => panic!("{:?}", other),
            }
            assert!(matches!(group.body.commands[1], ExCommand::NoOp(_)));
            match &group.body.commands[2] {
                ExCommand::Autocmd(a) => {
                    assert!(!a.bang);
                    assert_eq!(a.events.len(), 1);
                    assert!(matches!(&a.block, AutocmdBlock::Command(c) if matches!(**c, ExCommand::Echo(_))));
                }
                other => panic!("{:?}", other),
            }
        }
        other => panic!("{:?}", other),
    }
}

#[test]
fn augroup_parse_moves_the_parser_past_the_group() {
    let tokens = tokenize("augroup G\naugroup END\necho 1\n").unwrap();
    let mut parser = Parser::new(tokens);
    let command = AugroupCommand::parse(&mut parser).unwrap();
    assert!(matches!(command, ExCommand::Augroup(g) if g.augroup_name.token.text == "G" && g.body.commands.is_empty()));
    assert_eq!(parser.pos, 6);
    assert!(matches!(parser.parse_command().unwrap(), ExCommand::Echo(_)));
    assert_eq!(parser.pos, 9);
}

#[test]
fn augroup_parse_failure_leaves_the_parser_in_place() {
    let tokens = tokenize("augroup G\necho 1\naugroup DONE\n").unwrap();
    let mut parser = Parser::new(tokens);
    let error = AugroupCommand::parse(&mut parser).err().unwrap();
    assert_eq!(
        error,
        ParseError { expected: Expected::Word(Keyword::End), found: TokenKind::Identifier, pos: 25 }
    );
    assert_eq!(parser.pos, 0);
    assert_eq!(parser.tokens.len(), 10);
}

#[test]
fn augroup_parse_asks_for_the_keyword() {
    let mut parser = Parser::new(tokenize("echo 1\n").unwrap());
    assert_eq!(
        AugroupCommand::parse(&mut parser).err().unwrap(),
        ParseError { expected: Expected::Word(Keyword::Augroup), found: TokenKind::Identifier, pos: 0 }
    );
}

#[test]
fn augroup_without_end_is_refused() {
    assert_eq!(
        failure("augroup G\necho 1\n"),
        ParseError { expected: Expected::Word(Keyword::Augroup), found: TokenKind::EndOfFile, pos: 17 }
    );
}

#[test]
fn autocmd_parse_inline_command() {
    let mut parser = Parser::new(tokenize("autocmd WinLeave * echo 1\nvar x = 2\n").unwrap());
    match AutocmdCommand::parse(&mut parser).unwrap() {
        ExCommand::Autocmd(a) => {
            assert!(!a.bang);
            assert_eq!(a.events[0].token.text, "WinLeave");
            assert_eq!(a.pattern[0].token.text, "*");
            assert!(matches!(a.block, AutocmdBlock::Command(_)));
        }
        other => panic!("{:?}", other),
    }
    assert_eq!(parser.pos, 6);
}

#[test]
fn autocmd_parse_asks_for_an_event() {
    let mut parser = Parser::new(tokenize("autocmd ! , x\n").unwrap());
    assert_eq!(
        AutocmdCommand::parse(&mut parser).err().unwrap(),
        ParseError { expected: Expected::Literal, found: TokenKind::Comma, pos: 10 }
    );
    assert_eq!(parser.pos, 0);
}

#[test]
fn autocmd_block_parse_tells_block_from_command() {
    let mut parser = Parser::new(tokenize("{\n echo 1\n echo 2\n}\n").unwrap());
    match AutocmdBlock::parse(&mut parser).unwrap() {
        AutocmdBlock::Block(b) => assert_eq!(b.body.commands.len(), 2),
        other => panic!("{:?}", other),
    }
    assert_eq!(parser.pos, 10);
    let mut parser = Parser::new(tokenize("echo 1\n").unwrap());
    assert!(matches!(AutocmdBlock::parse(&mut parser).unwrap(), AutocmdBlock::Command(_)));
    assert_eq!(parser.pos, 3);
}

#[test]
fn autocmd_block_must_be_closed() {
    let mut parser = Parser::new(tokenize("{\n echo 1\n").unwrap());
    assert_eq!(
        AutocmdBlock::parse(&mut parser).err().unwrap(),
        ParseError { expected: Expected::Kind(TokenKind::RightBrace), found: TokenKind::EndOfFile, pos: 10 }
    );
}

#[test]
fn parser_parses_a_whole_program() {
    let mut parser = Parser::new(tokenize("var x = 1\nvar y = 2\n").unwrap());
    let program = parser.parse_program().unwrap();
    assert_eq!(program.commands.len(), 2);
    assert_eq!(parser.pos, 10);
}

#[test]
fn parse_command_gives_the_place_after_the_line() {
    let tokens = tokenize("echo 1\necho 2\n").unwrap();
    let (first, next) = parse_command(&tokens, 0).unwrap();
    assert!(matches!(first, ExCommand::Echo(_)));
    assert_eq!(next, 3);
    let (_, end) = parse_command(&tokens, next).unwrap();
    assert_eq!(end, 6);
    assert_eq!(
        parse_command(&tokens, 7).err().unwrap(),
        ParseError { expected: Expected::Command, found: TokenKind::EndOfFile, pos: 14 }
    );
}

#[test]
fn sums_bind_tighter_than_comparisons_and_those_tighter_than_and_or() {
    assert_eq!(lua("var x = 1 + 2 < 4 && a || b\n"), "local x = ((((1 + 2) < 4) and a) or b)\n");
    assert_eq!(lua("var x = a || b && c\n"), "local x = (a or (b and c))\n");
    assert_eq!(lua("var x = a >= b - 1\n"), "local x = (a >= (b - 1))\n");
    assert_eq!(lua("var x = 1 + 2 * 3\n"), "local x = (1 + (2 * 3))\n");
    assert_eq!(lua("var x = 1 * 2 + 3\n"), "local x = ((1 * 2) + 3)\n");
}

#[test]
fn operators_of_one_level_group_to_the_left() {
    assert_eq!(lua("var x = 1 - 2 - 3\n"), "local x = ((1 - 2) - 3)\n");
    assert_eq!(lua("var x = 1 - (2 - 3)\n"), "local x = (1 - ((2 - 3)))\n");
}

#[test]
fn calls_bind_tightest() {
    assert_eq!(lua("var x = F(1) + G(2, 3)\n"), "local x = (F(1) + G(2, 3))\n");
    match expression("f(1)(2)") {
        Expression::Call(outer) => assert!(matches!(*outer.expr, Expression::Call(_))),
        other => panic!("{:?}", other),
    }
}

#[test]
fn prefix_operators_are_parsed() {
    match expression("-x + 1") {
        Expression::Infix(i) => match *i.left {
            Expression::Prefix(p) => {
                assert_eq!(p.operator, Operator::Minus);
                assert!(matches!(*p.right, Expression::Identifier(_)));
            }
            other => panic!("{:?}", other),
        },
        other => panic!("{:?}", other),
    }
    assert!(matches!(expression("!done"), Expression::Prefix(p) if p.operator == Operator::Bang));
}

#[test]
fn scoped_identifiers() {
    match expression("g:name") {
        Expression::Identifier(Identifier::Scope(s)) => {
            assert_eq!(s.scope, VimScope::Global);
            assert!(matches!(*s.accessor, Identifier::Raw(r) if r.name == "name"));
        }
        other => panic!("{:?}", other),
    }
    for (source, scope) in [
        ("t:x", VimScope::Tab),
        ("w:x", VimScope::Window),
        ("b:x", VimScope::Buffer),
        ("s:x", VimScope::Script),
        ("l:x", VimScope::Local),
        ("a:x", VimScope::Argument),
        ("v:x", VimScope::VimVar),
    ] {
        assert!(matches!(expression(source), Expression::Identifier(Identifier::Scope(s)) if s.scope == scope));
    }
    assert!(matches!(expression("g"), Expression::Identifier(Identifier::Raw(r)) if r.name == "g"));
}

#[test]
fn literals() {
    assert!(matches!(expression("42"), Expression::Number(n) if n.value == "42"));
    assert!(matches!(expression("true"), Expression::Boolean(b) if b.value));
    assert!(matches!(expression("false"), Expression::Boolean(b) if !b.value));
    assert!(matches!(expression("'a'"), Expression::String(VimString::SingleQuote(s)) if s == "a"));
    assert!(matches!(expression("\"a\""), Expression::String(VimString::DoubleQuote(s)) if s == "a"));
    assert!(matches!(expression("&wrap"), Expression::VimOption(o) if o.option.token.text == "wrap"));
}

#[test]
fn arrays_and_dicts_keep_their_order() {
    match expression("[3, 1, 2]") {
        Expression::Array(a) => {
            let values: Vec<String> = a
                .elements
                .iter()
                .map(|e| match e {
                    Expression::Number(n) => n.value.clone(),
                    other => panic!("{:?}", other),
                })
                .collect();
            assert_eq!(values, vec!["3", "1", "2"]);
        }
        other => panic!("{:?}", other),
    }
    match expression("{b: 1, a: 2, 'c': 3}") {
        Expression::Dict(d) => {
            let keys: Vec<&str> = d
                .elements
                .iter()
                .map(|kv| match &kv.key {
                    vim9jit::ast::VimKey::Literal(l) => l.token.text.as_str(),
                })
                .collect();
            assert_eq!(keys, vec!["b", "a", "c"]);
        }
        other => panic!("{:?}", other),
    }
    assert!(matches!(expression("[]"), Expression::Array(a) if a.elements.is_empty()));
    assert!(matches!(expression("{}"), Expression::Dict(d) if d.elements.is_empty()));
    assert!(matches!(expression("[1, 2,]"), Expression::Array(a) if a.elements.len() == 2));
}

#[test]
fn grouped_expression() {
    assert!(matches!(expression("(1)"), Expression::Grouped(g) if matches!(*g.expr, Expression::Number(_))));
}

#[test]
fn missing_operand_is_refused() {
    assert_eq!(
        failure("var x = 1 +\n"),
        ParseError { expected: Expected::Expression, found: TokenKind::EndOfLine, pos: 11 }
    );
}

#[test]
fn missing_equals_is_refused() {
    assert_eq!(
        failure("var x 1\n"),
        ParseError { expected: Expected::Kind(TokenKind::Equal), found: TokenKind::Number, pos: 6 }
    );
}

#[test]
fn two_commands_on_one_line_are_refused() {
    assert_eq!(
        failure("echo 1 echo 2\n"),
        ParseError { expected: Expected::EndOfLine, found: TokenKind::Identifier, pos: 7 }
    );
}

#[test]
fn expression_alone_is_no_command() {
    assert_eq!(
        failure("foo\n"),
        ParseError { expected: Expected::Command, found: TokenKind::EndOfLine, pos: 3 }
    );
}

#[test]
fn unclosed_group_is_refused() {
    assert_eq!(
        failure("echo (1\n"),
        ParseError { expected: Expected::Kind(TokenKind::RightParen), found: TokenKind::EndOfLine, pos: 7 }
    );
    assert_eq!(
        failure("echo [1, 2\n"),
        ParseError { expected: Expected::Kind(TokenKind::RightBracket), found: TokenKind::EndOfLine, pos: 10 }
    );
}

#[test]
fn dict_key_must_be_a_name() {
    assert_eq!(
        failure("echo {[: 1}\n"),
        ParseError { expected: Expected::Literal, found: TokenKind::LeftBracket, pos: 6 }
    );
    assert_eq!(
        failure("echo {a 1}\n"),
        ParseError { expected: Expected::Kind(TokenKind::Colon), found: TokenKind::Number, pos: 8 }
    );
}

#[test]
fn mismatched_block_end_is_refused() {
    assert_eq!(
        failure("def F()\n return 1\nendif\n"),
        ParseError { expected: Expected::Command, found: TokenKind::EndOfLine, pos: 23 }
    );
    assert_eq!(
        failure("if x\n echo 1\n"),
        ParseError { expected: Expected::Word(Keyword::EndIf), found: TokenKind::EndOfFile, pos: 13 }
    );
    assert_eq!(
        failure("def F()\n return 1\n"),
        ParseError { expected: Expected::Word(Keyword::EndDef), found: TokenKind::EndOfFile, pos: 18 }
    );
}

#[test]
fn unknown_character_is_refused_with_its_place() {
    assert_eq!(
        failure("var x = @\n"),
        ParseError { expected: Expected::Expression, found: TokenKind::Other, pos: 8 }
    );
}

#[test]
fn parameters_must_be_names() {
    assert_eq!(
        failure("def F(1)\nenddef\n"),
        ParseError { expected: Expected::Kind(TokenKind::Identifier), found: TokenKind::Number, pos: 6 }
    );
}

#[test]
fn keyword_texts() {
    assert_eq!(Keyword::Augroup.text(), "augroup");
    assert_eq!(Keyword::End.text(), "END");
    assert_eq!(Keyword::Autocmd.text(), "autocmd");
    assert_eq!(Keyword::Def.text(), "def");
    assert_eq!(Keyword::EndDef.text(), "enddef");
    assert_eq!(Keyword::If.text(), "if");
    assert_eq!(Keyword::EndIf.text(), "endif");
}
