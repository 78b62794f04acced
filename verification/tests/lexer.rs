use vim9jit::lexer::{tokenize, CharClass, LexError};
use vim9jit::token::{Token, TokenKind};

fn shape(tokens: &[Token]) -> Vec<(TokenKind, String, usize)> {
    tokens.iter().map(|t| (t.kind, t.text.clone(), t.pos)).collect()
}

fn kinds(source: &str) -> Vec<TokenKind> {
    tokenize(source).unwrap().iter().map(|t| t.kind).collect()
}

fn tok(kind: TokenKind, text: &str, pos: usize) -> (TokenKind, String, usize) {
    (kind, text.to_string(), pos)
}

#[test]
fn empty_source_is_the_end_token_alone() {
    let tokens = tokenize("").unwrap();
    assert_eq!(shape(&tokens), vec![tok(TokenKind::EndOfFile, "", 0)]);
}

#[test]
fn declaration_is_cut_into_its_tokens() {
    let tokens = tokenize("var x = 1 + 1\n").unwrap();
    assert_eq!(
        shape(&tokens),
        vec![
            tok(TokenKind::Identifier, "var", 0),
            tok(TokenKind::Identifier, "x", 4),
            tok(TokenKind::Equal, "=", 6),
            tok(TokenKind::Number, "1", 8),
            tok(TokenKind::Plus, "+", 10),
            tok(TokenKind::Number, "1", 12),
            tok(TokenKind::EndOfLine, "\n", 13),
            tok(TokenKind::EndOfFile, "", 14),
        ]
    );
}

#[test]
fn keywords_are_plain_identifiers() {
    for word in [
        "augroup", "END", "vim9script", "autocmd", "def", "enddef", "if", "endif", "var",
        "return", "echo",
    ] {
        let tokens = tokenize(word).unwrap();
        assert_eq!(
            shape(&tokens),
            vec![tok(TokenKind::Identifier, word, 0), tok(TokenKind::EndOfFile, "", word.len())]
        );
    }
}

#[test]
fn strings_keep_their_contents_and_their_quote() {
    let tokens = tokenize("'it' \"is\"").unwrap();
    assert_eq!(
        shape(&tokens),
        vec![
            tok(TokenKind::SingleQuoteString, "it", 0),
            tok(TokenKind::DoubleQuoteString, "is", 5),
            tok(TokenKind::EndOfFile, "", 9),
        ]
    );
}

#[test]
fn backslash_keeps_a_double_quote_inside_its_string() {
    let tokens = tokenize(r#""b\"c" x"#).unwrap();
    assert_eq!(
        shape(&tokens),
        vec![
            tok(TokenKind::DoubleQuoteString, r#"b\"c"#, 0),
            tok(TokenKind::Identifier, "x", 7),
            tok(TokenKind::EndOfFile, "", 8),
        ]
    );
}

#[test]
fn double_quote_inside_single_quotes_is_text() {
    let tokens = tokenize(r#"'say "hi"'"#).unwrap();
    assert_eq!(tokens[0].kind, TokenKind::SingleQuoteString);
    assert_eq!(tokens[0].text, r#"say "hi""#);
}

#[test]
fn unterminated_single_quote_is_refused() {
    assert_eq!(
        tokenize("echo 'abc\n").err(),
        Some(LexError::UnterminatedString { pos: 5 })
    );
}

#[test]
fn unterminated_double_quote_is_refused() {
    assert_eq!(tokenize("\"abc").err(), Some(LexError::UnterminatedString { pos: 0 }));
    assert_eq!(tokenize("x = \"abc\\\"").err(), Some(LexError::UnterminatedString { pos: 4 }));
    assert_eq!(tokenize("\"abc\\").err(), Some(LexError::UnterminatedString { pos: 0 }));
}

#[test]
fn first_unterminated_string_is_reported() {
    assert_eq!(
        tokenize("'a' 'b \"c").err(),
        Some(LexError::UnterminatedString { pos: 4 })
    );
}

#[test]
fn numbers_take_a_fraction_only_before_a_digit() {
    let tokens = tokenize("1.5 2. 37").unwrap();
    assert_eq!(
        shape(&tokens),
        vec![
            tok(TokenKind::Number, "1.5", 0),
            tok(TokenKind::Number, "2", 4),
            tok(TokenKind::Other, ".", 5),
            tok(TokenKind::Number, "37", 7),
            tok(TokenKind::EndOfFile, "", 9),
        ]
    );
}

#[test]
fn operators_of_two_characters_are_one_token() {
    assert_eq!(
        kinds("<= >= == != && || < > = ! &"),
        vec![
            TokenKind::LessThanOrEqual,
            TokenKind::GreaterThanOrEqual,
            TokenKind::EqualTo,
            TokenKind::NotEqualTo,
            TokenKind::And,
            TokenKind::Or,
            TokenKind::LessThan,
            TokenKind::GreaterThan,
            TokenKind::Equal,
            TokenKind::Bang,
            TokenKind::Ampersand,
            TokenKind::EndOfFile,
        ]
    );
}

#[test]
fn punctuation_has_a_kind_each() {
    assert_eq!(
        kinds("()[]{},:+-*"),
        vec![
            TokenKind::LeftParen,
            TokenKind::RightParen,
            TokenKind::LeftBracket,
            TokenKind::RightBracket,
            TokenKind::LeftBrace,
            TokenKind::RightBrace,
            TokenKind::Comma,
            TokenKind::Colon,
            TokenKind::Plus,
            TokenKind::Minus,
            TokenKind::Star,
            TokenKind::EndOfFile,
        ]
    );
}

#[test]
fn unknown_characters_become_tokens_of_their_own() {
    let tokens = tokenize("a @ | é").unwrap();
    assert_eq!(
        shape(&tokens),
        vec![
            tok(TokenKind::Identifier, "a", 0),
            tok(TokenKind::Other, "@", 2),
            tok(TokenKind::Other, "|", 4),
            tok(TokenKind::Other, "é", 6),
            tok(TokenKind::EndOfFile, "", 7),
        ]
    );
}

#[test]
fn comment_runs_to_the_end_of_its_line() {
    let tokens = tokenize("# one two\nx").unwrap();
    assert_eq!(
        shape(&tokens),
        vec![
            tok(TokenKind::Comment, " one two", 0),
            tok(TokenKind::EndOfLine, "\n", 9),
            tok(TokenKind::Identifier, "x", 10),
            tok(TokenKind::EndOfFile, "", 11),
        ]
    );
}

#[test]
fn blanks_are_dropped_and_line_breaks_are_kept() {
    assert_eq!(
        kinds(" \t x \r\n\n y"),
        vec![
            TokenKind::Identifier,
            TokenKind::EndOfLine,
            TokenKind::EndOfLine,
            TokenKind::Identifier,
            TokenKind::EndOfFile,
        ]
    );
}

#[test]
fn identifiers_take_letters_digits_and_underscores() {
    let tokens = tokenize("nvim_get_autocmds2(x)").unwrap();
    assert_eq!(tokens[0].text, "nvim_get_autocmds2");
    assert_eq!(tokens[1].kind, TokenKind::LeftParen);
}

#[test]
fn positions_count_characters() {
    let tokens = tokenize("'é' x").unwrap();
    assert_eq!(tokens[1].pos, 4);
    assert_eq!(tokens[2].pos, 5);
}

#[test]
fn tokens_come_in_source_order() {
    let tokens = tokenize("a b c d").unwrap();
    let texts: Vec<&str> = tokens.iter().map(|t| t.text.as_str()).collect();
    assert_eq!(texts, vec!["a", "b", "c", "d", ""]);
}

#[test]
fn character_classes() {
    assert!(CharClass::Word.has('_'));
    assert!(CharClass::Word.has('7'));
    assert!(!CharClass::Word.has('-'));
    assert!(CharClass::Digit.has('0'));
    assert!(!CharClass::Digit.has('a'));
    assert!(!CharClass::InLine.has('\n'));
    assert!(!CharClass::InSingleQuotes.has('\''));
}

#[test]
fn token_helpers() {
    let token = Token::new(TokenKind::Identifier, "augroup", 3);
    assert!(token.is_word("augroup"));
    assert!(!token.is_word("END"));
    assert!(token.has_text("augroup"));
    let string = Token::new(TokenKind::SingleQuoteString, "augroup", 0);
    assert!(!string.is_word("augroup"));
    let copy = token.duplicate();
    assert_eq!((copy.kind, copy.text.as_str(), copy.pos), (TokenKind::Identifier, "augroup", 3));
    assert_eq!(TokenKind::EndOfLine.name(), "EndOfLine");
    assert_eq!(TokenKind::GreaterThanOrEqual.name(), "GreaterThanOrEqual");
}
