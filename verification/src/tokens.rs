//! Tokens of the reader: the error a token can fail with, the token types,
//! source spans and the syntax object (token type plus span) that every
//! node of the tree carries.
use vstd::prelude::*;

use crate::text::{int_text, push_char, push_nat};

verus! {

/// What can go wrong while cutting source text into tokens.
#[derive(Clone, Debug, PartialEq)]
pub enum TokenError {
    /// A character that begins no token.
    UnexpectedChar(char),
    /// A string literal without its closing quote.
    IncompleteString,
    /// A backslash in a string literal followed by a character that no
    /// escape sequence starts with.
    InvalidEscape,
}

/// A stretch of source text, as character offsets: `start` inclusive,
/// `end` exclusive.
#[derive(Clone, Copy, Debug, PartialEq, Eq)]
pub struct Span {
    pub start: usize,
    pub end: usize,
}

impl Span {
    pub fn new(start: usize, end: usize) -> (res: Span)
        ensures
            res == (Span { start, end }),
    {
        Span { start, end }
    }
}

/// The kinds of tokens. Keywords of the special forms have variants of
/// their own; everything else that is not a literal is an identifier.
#[derive(Debug, PartialEq)]
pub enum TokenType {
    OpenParen,
    CloseParen,
    QuoteTick,
    If,
    Let,
    Define,
    DefineSyntax,
    Lambda,
    Eval,
    Quote,
    Execute,
    Return,
    Begin,
    Panic,
    Transduce,
    Read,
    SyntaxRules,
    SetBang,
    Apply,
    Struct,
    Require,
    Ellipses,
    BooleanLiteral(bool),
    Identifier(String),
    IntegerLiteral(isize),
    StringLiteral(String),
    CharacterLiteral(char),
}

impl Clone for TokenType {
    fn clone(&self) -> (res: Self)
        ensures
            res == *self,
    {
        match self {
            TokenType::OpenParen => TokenType::OpenParen,
            TokenType::CloseParen => TokenType::CloseParen,
            TokenType::QuoteTick => TokenType::QuoteTick,
            TokenType::If => TokenType::If,
            TokenType::Let => TokenType::Let,
            TokenType::Define => TokenType::Define,
            TokenType::DefineSyntax => TokenType::DefineSyntax,
            TokenType::Lambda => TokenType::Lambda,
            TokenType::Eval => TokenType::Eval,
            TokenType::Quote => TokenType::Quote,
            TokenType::Execute => TokenType::Execute,
            TokenType::Return => TokenType::Return,
            TokenType::Begin => TokenType::Begin,
            TokenType::Panic => TokenType::Panic,
            TokenType::Transduce => TokenType::Transduce,
            TokenType::Read => TokenType::Read,
            TokenType::SyntaxRules => TokenType::SyntaxRules,
            TokenType::SetBang => TokenType::SetBang,
            TokenType::Apply => TokenType::Apply,
            TokenType::Struct => TokenType::Struct,
            TokenType::Require => TokenType::Require,
            TokenType::Ellipses => TokenType::Ellipses,
            TokenType::BooleanLiteral(b) => TokenType::BooleanLiteral(*b),
            TokenType::Identifier(s) => TokenType::Identifier(s.clone()),
            TokenType::IntegerLiteral(i) => TokenType::IntegerLiteral(*i),
            TokenType::StringLiteral(s) => TokenType::StringLiteral(s.clone()),
            TokenType::CharacterLiteral(c) => TokenType::CharacterLiteral(*c),
        }
    }
}

/// A token type together with the place in the source it came from.
#[derive(Debug, PartialEq)]
pub struct SyntaxObject {
    pub ty: TokenType,
    pub span: Span,
}

impl Clone for SyntaxObject {
    fn clone(&self) -> (res: Self)
        ensures
            res == *self,
    {
        SyntaxObject { ty: self.ty.clone(), span: self.span }
    }
}

impl SyntaxObject {
    pub fn new(ty: TokenType, span: Span) -> (res: SyntaxObject)
        ensures
            res == (SyntaxObject { ty, span }),
    {
        SyntaxObject { ty, span }
    }

    /// A syntax object for a token that stands at no place in the source:
    /// its span is empty and starts at offset 0.
    pub fn default(ty: TokenType) -> (res: SyntaxObject)
        ensures
            res == (SyntaxObject { ty, span: Span { start: 0, end: 0 } }),
    {
        SyntaxObject { ty, span: Span { start: 0, end: 0 } }
    }
}

/// How a token type is written: keywords as their source spelling,
/// booleans as `#true`/`#false`, integers in decimal, strings between
/// double quotes (their characters unescaped), characters after `#\`.
pub open spec fn token_text(t: TokenType) -> Seq<char> {
    match t {
        TokenType::OpenParen => "("@,
        TokenType::CloseParen => ")"@,
        TokenType::QuoteTick => "'"@,
        TokenType::If => "if"@,
        TokenType::Let => "let"@,
        TokenType::Define => "define"@,
        TokenType::DefineSyntax => "define-syntax"@,
        TokenType::Lambda => "lambda"@,
        TokenType::Eval => "eval"@,
        TokenType::Quote => "quote"@,
        TokenType::Execute => "execute"@,
        TokenType::Return => "return!"@,
        TokenType::Begin => "begin"@,
        TokenType::Panic => "panic!"@,
        TokenType::Transduce => "transduce"@,
        TokenType::Read => "read"@,
        TokenType::SyntaxRules => "syntax-rules"@,
        TokenType::SetBang => "set!"@,
        TokenType::Apply => "apply"@,
        TokenType::Struct => "struct"@,
        TokenType::Require => "require"@,
        TokenType::Ellipses => "..."@,
        TokenType::BooleanLiteral(b) => if b {
            "#true"@
        } else {
            "#false"@
        },
        TokenType::Identifier(s) => s@,
        TokenType::IntegerLiteral(i) => int_text(i as int),
        TokenType::StringLiteral(s) => seq!['"'] + s@ + seq!['"'],
        TokenType::CharacterLiteral(c) => seq!['#', '\\', c],
    }
}

impl TokenType {
    /// The written form of the token type (see `token_text`).
    pub fn to_string(&self) -> (res: String)
        ensures
            res@ == token_text(*self),
    {
        match self {
            TokenType::OpenParen => String::from_str("("),
            TokenType::CloseParen => String::from_str(")"),
            TokenType::QuoteTick => String::from_str("'"),
            TokenType::If => String::from_str("if"),
            TokenType::Let => String::from_str("let"),
            TokenType::Define => String::from_str("define"),
            TokenType::DefineSyntax => String::from_str("define-syntax"),
            TokenType::Lambda => String::from_str("lambda"),
            TokenType::Eval => String::from_str("eval"),
            TokenType::Quote => String::from_str("quote"),
            TokenType::Execute => String::from_str("execute"),
            TokenType::Return => String::from_str("return!"),
            TokenType::Begin => String::from_str("begin"),
            TokenType::Panic => String::from_str("panic!"),
            TokenType::Transduce => String::from_str("transduce"),
            TokenType::Read => String::from_str("read"),
            TokenType::SyntaxRules => String::from_str("syntax-rules"),
            TokenType::SetBang => String::from_str("set!"),
            TokenType::Apply => String::from_str("apply"),
            TokenType::Struct => String::from_str("struct"),
            TokenType::Require => String::from_str("require"),
            TokenType::Ellipses => String::from_str("..."),
            TokenType::BooleanLiteral(b) => if *b {
                String::from_str("#true")
            } else {
                String::from_str("#false")
            },
            TokenType::Identifier(s) => s.clone(),
            TokenType::IntegerLiteral(i) => {
                let mut res = String::new();
                if *i < 0 {
                    push_char(&mut res, '-');
                    let magnitude: u64 = (-(*i as i128)) as u64;
                    push_nat(&mut res, magnitude);
                } else {
                    push_nat(&mut res, *i as u64);
                }
                res
            },
            TokenType::StringLiteral(s) => {
                let mut res = String::new();
                push_char(&mut res, '"');
                res.append(s.as_str());
                push_char(&mut res, '"');
                res
            },
            TokenType::CharacterLiteral(c) => {
                let mut res = String::new();
                push_char(&mut res, '#');
                push_char(&mut res, '\\');
                push_char(&mut res, *c);
                res
            },
        }
    }
}

} // verus!
