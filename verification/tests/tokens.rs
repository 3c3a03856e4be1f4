use fluent_comparisons::error::ParseError;
use fluent_comparisons::input::ParseInput;
use fluent_comparisons::rust_syntax::{
    expression_list, is_binary_operator, is_expression, is_identifier, is_integer_literal,
};
use fluent_comparisons::token::{render, tokenize, Token, TokenKind};

fn pairs(tokens: &[Token]) -> Vec<(TokenKind, &str)> {
    tokens.iter().map(|token| (token.kind, token.text.as_str())).collect()
}

#[test]
fn a_text_is_divided_into_token_trees() {
    let tokens = tokenize("{1,2,3}.map(|x| x*x) <= 4").unwrap();
    assert_eq!(
        pairs(&tokens),
        vec![
            (TokenKind::Braced, "1 , 2 , 3"),
            (TokenKind::Alone, "."),
            (TokenKind::Ident, "map"),
            (TokenKind::Parenthesized, "| x | x * x"),
            (TokenKind::Joint, "<"),
            (TokenKind::Alone, "="),
            (TokenKind::Literal, "4"),
        ]
    );
}

#[test]
fn every_kind_of_token_is_told_apart() {
    let tokens = tokenize("[a] 'x' \"s\" 1.5 - b").unwrap();
    assert_eq!(
        pairs(&tokens),
        vec![
            (TokenKind::Bracketed, "a"),
            (TokenKind::Literal, "'x'"),
            (TokenKind::Literal, "\"s\""),
            (TokenKind::Literal, "1.5"),
            (TokenKind::Alone, "-"),
            (TokenKind::Ident, "b"),
        ]
    );
    assert!(tokenize("").unwrap().is_empty());
    assert!(TokenKind::Joint.is_punct());
    assert!(TokenKind::Alone.is_punct());
    assert!(!TokenKind::Ident.is_punct());
    assert!(!TokenKind::Braced.is_punct());
}

#[test]
fn comments_and_blanks_are_no_tokens() {
    let tokens = tokenize("  a /* b */ + // c\n d ").unwrap();
    assert_eq!(
        pairs(&tokens),
        vec![(TokenKind::Ident, "a"), (TokenKind::Alone, "+"), (TokenKind::Ident, "d")]
    );
}

#[test]
fn unbalanced_text_is_refused() {
    assert_eq!(tokenize("{1, 2").err(), Some(ParseError::InvalidTokens));
    assert_eq!(tokenize("1 )").err(), Some(ParseError::InvalidTokens));
    assert_eq!(tokenize("(1 ]").err(), Some(ParseError::InvalidTokens));
    assert_eq!(tokenize("\"open").err(), Some(ParseError::InvalidTokens));
    assert_eq!(ParseInput::from_source("{").err(), Some(ParseError::InvalidTokens));
}

#[test]
fn tokens_are_written_back_with_blanks_between_them() {
    let tokens = tokenize("a<='b'+c(d)[e]{f} && !g").unwrap();
    // a punctuation character is joined to the one that follows it
    assert_eq!(render(&tokens, 0), "a <='b' + c (d) [e] { f } && ! g");
    assert_eq!(render(&tokens, 1), "<='b' + c (d) [e] { f } && ! g");
    assert_eq!(render(&tokens, 3), "'b' + c (d) [e] { f } && ! g");
    assert_eq!(render(&tokens, tokens.len()), "");
    assert_eq!(tokens[6].spelled(), "(d)");
    assert_eq!(tokens[7].spelled(), "[e]");
    assert_eq!(tokens[8].spelled(), "{ f }");
    assert_eq!(tokens[0].spelled(), "a");
}

#[test]
fn what_is_written_back_reads_as_the_same_tokens() {
    for source in [
        "{1,2,3}.map(|x| x*x) <= 4",
        "a::<B>(c, &'d e) >>= f..=g",
        "x >=-2",
        "{ } ( ) [ ]",
        "-1.0e3 + 0x1f_u8 - b'a' * r#\"raw\"#",
    ] {
        let tokens = tokenize(source).unwrap();
        let again = tokenize(&render(&tokens, 0)).unwrap();
        assert_eq!(pairs(&tokens), pairs(&again), "{}", source);
    }
}

#[test]
fn a_token_is_compared_with_a_word() {
    let tokens = tokenize("map . satisfy").unwrap();
    assert!(tokens[0].is(TokenKind::Ident, "map"));
    assert!(!tokens[0].is(TokenKind::Ident, "satisfy"));
    assert!(!tokens[0].is(TokenKind::Literal, "map"));
    assert!(tokens[1].is(TokenKind::Alone, "."));
    assert!(!tokens[1].is(TokenKind::Joint, "."));
}

#[test]
fn the_input_is_read_token_by_token() {
    let mut input = ParseInput::from_source("a + b").unwrap();
    assert_eq!(input.position, 0);
    assert_eq!(input.remaining(), 3);
    assert!(!input.is_empty());
    assert_eq!(input.peek(0).text, "a");
    assert_eq!(input.peek(2).text, "b");
    assert_eq!(input.rest_text(), "a + b");
    input.advance(2);
    assert_eq!(input.position, 2);
    assert_eq!(input.remaining(), 1);
    assert_eq!(input.peek(0).text, "b");
    assert_eq!(input.rest_text(), "b");
    input.advance(1);
    assert!(input.is_empty());
    assert_eq!(input.rest_text(), "");

    let tokens = tokenize("x").unwrap();
    let input = ParseInput::new(tokens);
    assert_eq!(input.position, 0);
    assert_eq!(input.tokens.len(), 1);
}

#[test]
fn expressions_are_told_from_other_text() {
    assert!(is_expression("1"));
    assert!(is_expression("a + b * c"));
    assert!(is_expression("|x| x * x"));
    assert!(is_expression("v.len().pow(2)"));
    assert!(is_expression("- 2"));
    assert!(!is_expression(""));
    assert!(!is_expression("1 +"));
    assert!(!is_expression("1 2"));
    assert!(!is_expression("= 2"));
    assert!(!is_expression("let x = 1;"));
    assert!(!is_expression("(1"));
}

#[test]
fn a_list_of_expressions_is_divided_at_its_commas() {
    assert_eq!(
        expression_list("1, 2*v.len(), f(a, b)"),
        Some((
            vec!["1".to_string(), "2 * v . len ()".to_string(), "f (a , b)".to_string()],
            false
        ))
    );
    assert_eq!(
        expression_list("|a, b| a + b, c"),
        Some((vec!["| a , b | a + b".to_string(), "c".to_string()], false))
    );
    assert_eq!(expression_list("1, 2,"), Some((vec!["1".to_string(), "2".to_string()], true)));
    assert_eq!(expression_list(""), Some((vec![], false)));
    assert_eq!(expression_list("1 2"), None);
    assert_eq!(expression_list(","), None);
    assert_eq!(expression_list("1,,2"), None);
    assert_eq!(expression_list("(1"), None);
}

#[test]
fn integer_literals_are_told_from_other_text() {
    assert!(is_integer_literal("12"));
    assert!(is_integer_literal("0x1f"));
    assert!(is_integer_literal("7_u8"));
    assert!(is_integer_literal("-3"));
    assert!(!is_integer_literal("1.5"));
    assert!(!is_integer_literal("\"12\""));
    assert!(!is_integer_literal("n"));
    assert!(!is_integer_literal("1 2"));
    assert!(!is_integer_literal(""));
}

#[test]
fn identifiers_are_told_from_keywords_and_other_text() {
    assert!(is_identifier("n"));
    assert!(is_identifier("FOUR"));
    assert!(is_identifier("of"));
    assert!(!is_identifier("for"));
    assert!(!is_identifier("true"));
    assert!(!is_identifier("12"));
    assert!(!is_identifier("a b"));
    assert!(!is_identifier(""));
}

#[test]
fn binary_operators_are_told_from_other_text() {
    for operator in [
        "==", "!=", "<", "<=", ">", ">=", "&&", "||", "+", "-", "*", "/", "%", "^", "&", "|",
        "<<", ">>", "+=", "-=", "*=", "/=", "%=", "^=", "&=", "|=", "<<=", ">>=",
    ] {
        assert!(is_binary_operator(operator), "{}", operator);
    }
    for other in ["=", "!", "=>", "->", "<-", ">=-", "<>", "===", "< =", "..", "::", ".", "a", "1", ""] {
        assert!(!is_binary_operator(other), "{}", other);
    }
}

#[test]
fn a_literal_that_the_parser_does_not_know_is_taken_as_it_stands() {
    // a C string, and the mark that the compiler leaves for an expansion that failed
    for literal in ["c\"a\"", "cr#\"a\"#", "(/*ERROR*/)"] {
        let tokens = tokenize(literal).unwrap();
        assert_eq!(pairs(&tokens), vec![(TokenKind::Literal, literal)]);
        assert!(is_expression(literal), "{}", literal);
        assert!(!is_integer_literal(literal), "{}", literal);
        assert!(!is_identifier(literal), "{}", literal);
        assert!(!is_binary_operator(literal), "{}", literal);
        assert_eq!(expression_list(literal), Some((vec![literal.to_string()], false)));
        let negative = ["-", literal].concat();
        assert!(!is_integer_literal(&negative), "{}", negative);
    }
}
