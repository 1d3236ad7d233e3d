use saba_js::{JsLexer, LexError, Token};

fn lex_all(input: &str) -> Vec<Token> {
    let mut lexer = JsLexer::new(input.to_string());
    let mut out = Vec::new();
    while let Ok(Some(t)) = lexer.next() {
        out.push(t);
    }
    out
}

#[test]
fn token_test_empty() {
    let input = "".to_string();
    let mut lexer = JsLexer::new(input);
    assert!(lexer.next().unwrap().is_none());
}

#[test]
fn token_test_num() {
    let input = "42".to_string();
    let mut lexer = JsLexer::new(input);
    let expected = [Token::Number(42)].to_vec();
    for e in expected.iter() {
        assert_eq!(Ok(Some(e.clone())), lexer.next());
    }
    assert!(lexer.next().unwrap().is_none());
}

#[test]
fn token_test_add_nums() {
    let input = "1 + 2".to_string();
    let mut lexer = JsLexer::new(input);
    let expected = [Token::Number(1), Token::Punctuator('+'), Token::Number(2)].to_vec();
    for e in expected.iter() {
        assert_eq!(Ok(Some(e.clone())), lexer.next());
    }
    assert!(lexer.next().unwrap().is_none());
}

#[test]
fn lexes_keywords_identifiers_and_strings() {
    let tokens = lex_all("var foo = \"bar\"; function f_1(a) { return 'x y'; }");
    assert_eq!(
        tokens,
        vec![
            Token::Keyword("var".to_string()),
            Token::Identifier("foo".to_string()),
            Token::Punctuator('='),
            Token::StringLiteral("bar".to_string()),
            Token::Punctuator(';'),
            Token::Keyword("function".to_string()),
            Token::Identifier("f_1".to_string()),
            Token::Punctuator('('),
            Token::Identifier("a".to_string()),
            Token::Punctuator(')'),
            Token::Punctuator('{'),
            Token::Keyword("return".to_string()),
            Token::StringLiteral("x y".to_string()),
            Token::Punctuator(';'),
            Token::Punctuator('}'),
        ]
    );
}

#[test]
fn keyword_prefix_is_an_identifier() {
    assert_eq!(
        lex_all("variable returns"),
        vec![
            Token::Identifier("variable".to_string()),
            Token::Identifier("returns".to_string())
        ]
    );
}

#[test]
fn skips_tabs_and_newlines() {
    assert_eq!(
        lex_all("\t1\n-\r\n2 . x"),
        vec![
            Token::Number(1),
            Token::Punctuator('-'),
            Token::Number(2),
            Token::Punctuator('.'),
            Token::Identifier("x".to_string())
        ]
    );
}

#[test]
fn whitespace_only_is_empty() {
    let mut lexer = JsLexer::new("  \n ".to_string());
    assert_eq!(lexer.next(), Ok(None));
}

#[test]
fn largest_number_is_one_token() {
    assert_eq!(lex_all("18446744073709551615"), vec![Token::Number(u64::MAX)]);
}

#[test]
fn number_stops_before_overflowing_digit() {
    assert_eq!(
        lex_all("18446744073709551616"),
        vec![Token::Number(1844674407370955161), Token::Number(6)]
    );
}

#[test]
fn unexpected_character_is_an_error_that_stays() {
    let mut lexer = JsLexer::new("1 @".to_string());
    assert_eq!(lexer.next(), Ok(Some(Token::Number(1))));
    assert_eq!(lexer.next(), Err(LexError::UnexpectedCharacter('@')));
    assert_eq!(lexer.next(), Err(LexError::UnexpectedCharacter('@')));
}

#[test]
fn unterminated_string_is_an_error() {
    let mut lexer = JsLexer::new("\"abc".to_string());
    assert_eq!(lexer.next(), Err(LexError::UnterminatedString));
}

#[test]
fn empty_string_literal() {
    assert_eq!(lex_all("''"), vec![Token::StringLiteral(String::new())]);
}

#[test]
fn lexing_twice_gives_the_same_tokens() {
    let text = "function foo(a, b) { return a+b; } var r = foo(1, 2);";
    let first = lex_all(text);
    let second = lex_all(text);
    assert_eq!(first, second);
    assert_eq!(first.len(), 24);
}
