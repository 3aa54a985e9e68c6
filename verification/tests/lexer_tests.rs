use steel::forms::ParseError;
use steel::lexer::tokenize;
use steel::reader::read;
use steel::tokens::{Span, SyntaxObject, TokenError, TokenType};

fn kinds(text: &str) -> Vec<TokenType> {
    tokenize(text).unwrap().into_iter().map(|t| t.ty).collect()
}

#[test]
fn tokens_carry_their_spans() {
    let toks = tokenize(" (ab 12)").unwrap();
    assert_eq!(
        toks,
        vec![
            SyntaxObject::new(TokenType::OpenParen, Span::new(1, 2)),
            SyntaxObject::new(TokenType::Identifier("ab".to_string()), Span::new(2, 4)),
            SyntaxObject::new(TokenType::IntegerLiteral(12), Span::new(5, 7)),
            SyntaxObject::new(TokenType::CloseParen, Span::new(7, 8)),
        ]
    );
}

#[test]
fn keywords_and_words() {
    assert_eq!(
        kinds("if let define define-syntax lambda set! return! panic! ... require x"),
        vec![
            TokenType::If,
            TokenType::Let,
            TokenType::Define,
            TokenType::DefineSyntax,
            TokenType::Lambda,
            TokenType::SetBang,
            TokenType::Return,
            TokenType::Panic,
            TokenType::Ellipses,
            TokenType::Require,
            TokenType::Identifier("x".to_string()),
        ]
    );
}

#[test]
fn numerals() {
    assert_eq!(kinds("-5 0 007"), vec![TokenType::IntegerLiteral(-5), TokenType::IntegerLiteral(0), TokenType::IntegerLiteral(7)]);
    assert_eq!(kinds("- 12a -x"), vec![
        TokenType::Identifier("-".to_string()),
        TokenType::Identifier("12a".to_string()),
        TokenType::Identifier("-x".to_string()),
    ]);
    assert_eq!(kinds("99999999999999999999999"), vec![TokenType::Identifier("99999999999999999999999".to_string())]);
    let min = isize::MIN.to_string();
    assert_eq!(kinds(&min), vec![TokenType::IntegerLiteral(isize::MIN)]);
    let max = isize::MAX.to_string();
    assert_eq!(kinds(&max), vec![TokenType::IntegerLiteral(isize::MAX)]);
}

#[test]
fn literals() {
    assert_eq!(
        kinds("#t #true #f #false #\\a \"h\\\"i\\n\""),
        vec![
            TokenType::BooleanLiteral(true),
            TokenType::BooleanLiteral(true),
            TokenType::BooleanLiteral(false),
            TokenType::BooleanLiteral(false),
            TokenType::CharacterLiteral('a'),
            TokenType::StringLiteral("h\"i\n".to_string()),
        ]
    );
    assert_eq!(kinds("'x"), vec![TokenType::QuoteTick, TokenType::Identifier("x".to_string())]);
}

#[test]
fn token_errors() {
    assert_eq!(tokenize("\"abc"), Err(TokenError::IncompleteString));
    assert_eq!(tokenize("\"ab\\"), Err(TokenError::IncompleteString));
    assert_eq!(tokenize("\"a\\q\""), Err(TokenError::InvalidEscape));
    assert_eq!(tokenize("#x"), Err(TokenError::UnexpectedChar('#')));
    assert_eq!(tokenize("#\\"), Err(TokenError::UnexpectedChar('#')));
    assert_eq!(tokenize("(a) #bad"), Err(TokenError::UnexpectedChar('#')));
}

#[test]
fn token_text() {
    assert_eq!(TokenType::IntegerLiteral(-42).to_string(), "-42");
    assert_eq!(TokenType::IntegerLiteral(0).to_string(), "0");
    assert_eq!(TokenType::IntegerLiteral(isize::MIN).to_string(), isize::MIN.to_string());
    assert_eq!(TokenType::BooleanLiteral(true).to_string(), "#true");
    assert_eq!(TokenType::BooleanLiteral(false).to_string(), "#false");
    assert_eq!(TokenType::CharacterLiteral('z').to_string(), "#\\z");
    assert_eq!(TokenType::StringLiteral("hi".to_string()).to_string(), "\"hi\"");
    assert_eq!(TokenType::SetBang.to_string(), "set!");
    assert_eq!(TokenType::CloseParen.to_string(), ")");
}

#[test]
fn reader_bracket_errors() {
    assert_eq!(read(")"), Err(ParseError::MismatchedParen(TokenType::CloseParen, Span::new(0, 1))));
    assert_eq!(read("(a"), Err(ParseError::UnexpectedEOF(TokenType::OpenParen)));
    assert_eq!(read("'"), Err(ParseError::UnexpectedEOF(TokenType::QuoteTick)));
    assert_eq!(read("(if 1) )"), Err(ParseError::MismatchedParen(TokenType::CloseParen, Span::new(7, 8))));
    assert_eq!(read("\"abc"), Err(ParseError::Lex(TokenError::IncompleteString)));
}

#[test]
fn reader_reads_in_order() {
    let exprs = read("a (b c) 'd").unwrap();
    let texts: Vec<String> = exprs.iter().map(|e| e.to_string()).collect();
    assert_eq!(texts, vec!["a", "(b c)", "(quote d)"]);
    assert_eq!(read("").unwrap().len(), 0);
    assert_eq!(read("  \n\t ").unwrap().len(), 0);
    // the first form in reading order decides the error
    match read("(if 1 2) (quote)") {
        Err(ParseError::SyntaxError(m, _)) => assert_eq!(m, "if expects an else condition, found none"),
        other => panic!("unexpected: {:?}", other),
    }
}

#[test]
fn quoted_lists_stay_plain() {
    let e = read("'(if 1 2)").unwrap().remove(0);
    assert_eq!(e.to_string(), "(quote (if 1 2))");
    let e = read("''a").unwrap().remove(0);
    assert_eq!(e.to_string(), "(quote (quote a))");
    match read("(quote (if 1 2))") {
        Err(ParseError::SyntaxError(m, _)) => assert_eq!(m, "if expects an else condition, found none"),
        other => panic!("unexpected: {:?}", other),
    }
}
