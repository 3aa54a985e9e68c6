//! Cutting source text into tokens.
//!
//! Blanks (space, tab, newline, carriage return) separate tokens. `(`, `)`
//! and `'` are tokens of their own; `"` opens a string literal, in which a
//! backslash escapes `"`, `\`, `n`, `t` or `r`; `#\` and one character make
//! a character literal. Every other run of characters up to a blank, a
//! parenthesis, a quote tick or a double quote is a word: a keyword, a
//! boolean (`#t`, `#true`, `#f`, `#false`), a decimal integer that fits in
//! `isize` (an optional `-` and at least one digit), or else an identifier.
//! A word that begins with `#` and is no boolean is an error.
use vstd::prelude::*;

use crate::text::push_char;
use crate::tokens::{Span, SyntaxObject, TokenError, TokenType};

verus! {

pub open spec fn is_blank(c: char) -> bool {
    c == ' ' || c == '\t' || c == '\n' || c == '\r'
}

/// A character that ends a word.
pub open spec fn is_delimiter(c: char) -> bool {
    is_blank(c) || c == '(' || c == ')' || c == '\'' || c == '"'
}

/// The first position at or after `i` that holds no blank.
pub open spec fn skip_blank(s: Seq<char>, i: int) -> int
    decreases s.len() - i,
{
    if 0 <= i < s.len() && is_blank(s[i]) {
        skip_blank(s, i + 1)
    } else {
        i
    }
}

/// The first position at or after `i` that holds a delimiter, or the end.
pub open spec fn word_end(s: Seq<char>, i: int) -> int
    decreases s.len() - i,
{
    if 0 <= i < s.len() && !is_delimiter(s[i]) {
        word_end(s, i + 1)
    } else {
        i
    }
}

/// The character that a backslash followed by `c` stands for in a string.
pub open spec fn escaped(c: char) -> Option<char> {
    if c == '"' {
        Some('"')
    } else if c == '\\' {
        Some('\\')
    } else if c == 'n' {
        Some('\n')
    } else if c == 't' {
        Some('\t')
    } else if c == 'r' {
        Some('\r')
    } else {
        None
    }
}

/// `c` in front of the characters of a scanned string.
pub open spec fn prepend(c: char, r: Result<(Seq<char>, int), TokenError>) -> Result<
    (Seq<char>, int),
    TokenError,
> {
    match r {
        Ok((t, e)) => Ok((seq![c] + t, e)),
        Err(x) => Err(x),
    }
}

/// The characters of a string literal whose body starts at `i`, and the
/// position after its closing double quote.
pub open spec fn string_body(s: Seq<char>, i: int) -> Result<(Seq<char>, int), TokenError>
    decreases s.len() - i,
{
    if i < 0 || i >= s.len() {
        Err(TokenError::IncompleteString)
    } else if s[i] == '"' {
        Ok((seq![], i + 1))
    } else if s[i] == '\\' {
        if i + 1 >= s.len() {
            Err(TokenError::IncompleteString)
        } else {
            match escaped(s[i + 1]) {
                Some(c) => prepend(c, string_body(s, i + 2)),
                None => Err(TokenError::InvalidEscape),
            }
        }
    } else {
        prepend(s[i], string_body(s, i + 1))
    }
}

/// What a token is, before its characters are classified.
pub enum Lexeme {
    Open,
    Close,
    Tick,
    Word(Seq<char>),
    Str(Seq<char>),
    Char(char),
}

/// The words that spell booleans.
pub open spec fn bool_word(w: Seq<char>) -> Option<bool> {
    if w == "#t"@ || w == "#true"@ {
        Some(true)
    } else if w == "#f"@ || w == "#false"@ {
        Some(false)
    } else {
        None
    }
}

/// The lexeme that starts at the non-blank position `i`, and where it ends.
pub open spec fn next_lexeme(s: Seq<char>, i: int) -> Result<(Lexeme, int), TokenError> {
    let c = s[i];
    if c == '(' {
        Ok((Lexeme::Open, i + 1))
    } else if c == ')' {
        Ok((Lexeme::Close, i + 1))
    } else if c == '\'' {
        Ok((Lexeme::Tick, i + 1))
    } else if c == '"' {
        match string_body(s, i + 1) {
            Ok((t, e)) => Ok((Lexeme::Str(t), e)),
            Err(x) => Err(x),
        }
    } else if c == '#' && i + 1 < s.len() && s[i + 1] == '\\' {
        if i + 2 < s.len() {
            Ok((Lexeme::Char(s[i + 2]), i + 3))
        } else {
            Err(TokenError::UnexpectedChar('#'))
        }
    } else {
        let e = word_end(s, i);
        let w = s.subrange(i, e);
        if c == '#' && bool_word(w) is None {
            Err(TokenError::UnexpectedChar('#'))
        } else {
            Ok((Lexeme::Word(w), e))
        }
    }
}

/// The lexemes of `s` from position `i` on, each with its start and end.
pub open spec fn lex_from(s: Seq<char>, i: int) -> Result<Seq<(Lexeme, int, int)>, TokenError>
    decreases s.len() - i,
{
    let j = skip_blank(s, i);
    if i < 0 || j >= s.len() {
        Ok(seq![])
    } else {
        match next_lexeme(s, j) {
            Err(x) => Err(x),
            Ok((lx, e)) => if e <= i || e > s.len() {
                // never taken: every lexeme is at least one character long
                Ok(seq![])
            } else {
                match lex_from(s, e) {
                    Ok(rest) => Ok(seq![(lx, j, e)] + rest),
                    Err(x) => Err(x),
                }
            },
        }
    }
}

/// The keyword a word spells, if any.
pub open spec fn keyword(w: Seq<char>) -> Option<TokenType> {
    if w == "if"@ {
        Some(TokenType::If)
    } else if w == "let"@ {
        Some(TokenType::Let)
    } else if w == "define"@ {
        Some(TokenType::Define)
    } else if w == "define-syntax"@ {
        Some(TokenType::DefineSyntax)
    } else if w == "lambda"@ {
        Some(TokenType::Lambda)
    } else if w == "eval"@ {
        Some(TokenType::Eval)
    } else if w == "quote"@ {
        Some(TokenType::Quote)
    } else if w == "execute"@ {
        Some(TokenType::Execute)
    } else if w == "return!"@ {
        Some(TokenType::Return)
    } else if w == "begin"@ {
        Some(TokenType::Begin)
    } else if w == "panic!"@ {
        Some(TokenType::Panic)
    } else if w == "transduce"@ {
        Some(TokenType::Transduce)
    } else if w == "read"@ {
        Some(TokenType::Read)
    } else if w == "syntax-rules"@ {
        Some(TokenType::SyntaxRules)
    } else if w == "set!"@ {
        Some(TokenType::SetBang)
    } else if w == "apply"@ {
        Some(TokenType::Apply)
    } else if w == "struct"@ {
        Some(TokenType::Struct)
    } else if w == "require"@ {
        Some(TokenType::Require)
    } else if w == "..."@ {
        Some(TokenType::Ellipses)
    } else {
        None
    }
}

pub open spec fn is_digit(c: char) -> bool {
    '0' <= c <= '9'
}

/// The value of a decimal digit.
pub open spec fn digit_value(c: char) -> int {
    (c as int) - ('0' as int)
}

/// The value of a run of decimal digits.
pub open spec fn digits_value(d: Seq<char>) -> int
    decreases d.len(),
{
    if d.len() == 0 {
        0
    } else {
        digits_value(d.drop_last()) * 10 + digit_value(d.last())
    }
}

/// A run of at least one decimal digit.
pub open spec fn all_digits(d: Seq<char>) -> bool {
    d.len() > 0 && forall|k: int| 0 <= k < d.len() ==> #[trigger] is_digit(d[k])
}

/// The integer a word spells in decimal, if it spells one.
pub open spec fn numeral_value(w: Seq<char>) -> Option<int> {
    if all_digits(w) {
        Some(digits_value(w))
    } else if w.len() > 0 && w[0] == '-' && all_digits(w.drop_first()) {
        Some(-digits_value(w.drop_first()))
    } else {
        None
    }
}

/// `t` is the token type of the word `w`.
pub open spec fn word_token(w: Seq<char>, t: TokenType) -> bool {
    if keyword(w) is Some {
        t == keyword(w)->0
    } else if bool_word(w) is Some {
        t == TokenType::BooleanLiteral(bool_word(w)->0)
    } else if numeral_value(w) is Some && isize::MIN <= numeral_value(w)->0 <= isize::MAX {
        t == TokenType::IntegerLiteral(numeral_value(w)->0 as isize)
    } else {
        t matches TokenType::Identifier(x) && x@ == w
    }
}

/// `t` is the token type of the lexeme `lx`.
pub open spec fn lexeme_token(lx: Lexeme, t: TokenType) -> bool {
    match lx {
        Lexeme::Open => t == TokenType::OpenParen,
        Lexeme::Close => t == TokenType::CloseParen,
        Lexeme::Tick => t == TokenType::QuoteTick,
        Lexeme::Word(w) => word_token(w, t),
        Lexeme::Str(x) => t matches TokenType::StringLiteral(y) && y@ == x,
        Lexeme::Char(c) => t == TokenType::CharacterLiteral(c),
    }
}

/// The token `tok` is the lexeme `l` at its place.
pub open spec fn token_matches(tok: SyntaxObject, l: (Lexeme, int, int)) -> bool {
    &&& lexeme_token(l.0, tok.ty)
    &&& tok.span.start == l.1
    &&& tok.span.end == l.2
}

/// The tokens `toks` are the lexemes `ls`, one for one.
pub open spec fn tokens_match(toks: Seq<SyntaxObject>, ls: Seq<(Lexeme, int, int)>) -> bool {
    &&& toks.len() == ls.len()
    &&& forall|k: int| 0 <= k < toks.len() ==> #[trigger] token_matches(toks[k], ls[k])
}


/// The characters of `text`, in order.
pub fn chars_of(text: &str) -> (res: Vec<char>)
    ensures
        res@ == text@,
{
    broadcast use vstd::string::group_string_axioms;

    let mut res: Vec<char> = Vec::new();
    for c in it: text.chars()
        invariant
            res@ == it.seq().take(it.index() as int),
    {
        res.push(c);
    }
    res
}


fn is_blank_char(c: char) -> (res: bool)
    ensures
        res == is_blank(c),
{
    c == ' ' || c == '\t' || c == '\n' || c == '\r'
}

fn is_delimiter_char(c: char) -> (res: bool)
    ensures
        res == is_delimiter(c),
{
    is_blank_char(c) || c == '(' || c == ')' || c == '\'' || c == '"'
}

/// The first position at or after `i` that holds no blank.
fn skip_blanks(s: &Vec<char>, i: usize) -> (j: usize)
    requires
        i <= s@.len(),
    ensures
        j == skip_blank(s@, i as int),
        i <= j <= s@.len(),
        j < s@.len() ==> !is_blank(s@[j as int]),
{
    let mut j = i;
    while j < s.len() && is_blank_char(s[j])
        invariant
            i <= j <= s@.len(),
            skip_blank(s@, j as int) == skip_blank(s@, i as int),
        decreases s@.len() - j,
    {
        j = j + 1;
    }
    j
}

/// The first position at or after `i` that holds a delimiter, or the end.
fn find_word_end(s: &Vec<char>, i: usize) -> (j: usize)
    requires
        i <= s@.len(),
    ensures
        j == word_end(s@, i as int),
        i <= j <= s@.len(),
        forall|k: int| i <= k < j ==> !is_delimiter(#[trigger] s@[k]),
        i < s@.len() && !is_delimiter(s@[i as int]) ==> j > i,
{
    let mut j = i;
    while j < s.len() && !is_delimiter_char(s[j])
        invariant
            i <= j <= s@.len(),
            word_end(s@, j as int) == word_end(s@, i as int),
            forall|k: int| i <= k < j ==> !is_delimiter(#[trigger] s@[k]),
        decreases s@.len() - j,
    {
        j = j + 1;
    }
    j
}

/// `acc` in front of the characters of a scanned string.
pub open spec fn prefixed(acc: Seq<char>, r: Result<(Seq<char>, int), TokenError>) -> Result<
    (Seq<char>, int),
    TokenError,
> {
    match r {
        Ok((t, e)) => Ok((acc + t, e)),
        Err(x) => Err(x),
    }
}

fn escape_of(c: char) -> (res: Option<char>)
    ensures
        res == escaped(c),
{
    if c == '"' {
        Some('"')
    } else if c == '\\' {
        Some('\\')
    } else if c == 'n' {
        Some('\n')
    } else if c == 't' {
        Some('\t')
    } else if c == 'r' {
        Some('\r')
    } else {
        None
    }
}

/// Scans the body of a string literal that starts at `i`.
fn scan_string(s: &Vec<char>, i: usize) -> (res: Result<(String, usize), TokenError>)
    requires
        i <= s@.len(),
    ensures
        match string_body(s@, i as int) {
            Ok((t, e)) => res matches Ok((x, e2)) && x@ == t && e2 == e && i < e <= s@.len(),
            Err(x) => res == Err::<(String, usize), TokenError>(x),
        },
{
    let mut acc = String::new();
    let mut j = i;
    assert(acc@ + Seq::<char>::empty() == Seq::<char>::empty());
    loop
        invariant
            i <= j <= s@.len(),
            string_body(s@, i as int) == prefixed(acc@, string_body(s@, j as int)),
        decreases s@.len() - j,
    {
        if j >= s.len() {
            return Err(TokenError::IncompleteString);
        }
        let c = s[j];
        if c == '"' {
            assert(acc@ + Seq::<char>::empty() == acc@);
            return Ok((acc, j + 1));
        }
        if c == '\\' {
            if j + 1 >= s.len() {
                return Err(TokenError::IncompleteString);
            }
            match escape_of(s[j + 1]) {
                Some(e) => {
                    proof {
                        let r = string_body(s@, j + 2);
                        match r {
                            Ok((t, _)) => {
                                assert(acc@ + (seq![e] + t) == acc@.push(e) + t);
                            },
                            Err(_) => {},
                        }
                    }
                    push_char(&mut acc, e);
                    j = j + 2;
                },
                None => {
                    return Err(TokenError::InvalidEscape);
                },
            }
        } else {
            proof {
                let r = string_body(s@, j + 1);
                match r {
                    Ok((t, _)) => {
                        assert(acc@ + (seq![c] + t) == acc@.push(c) + t);
                    },
                    Err(_) => {},
                }
            }
            push_char(&mut acc, c);
            j = j + 1;
        }
    }
}


/// Whether `w` spells `lit`.
fn spells(w: &String, lit: &str) -> (res: bool)
    ensures
        res == (w@ == lit@),
{
    let l = String::from_str(lit);
    *w == l
}

/// The keyword `w` spells, if any.
fn keyword_of(w: &String) -> (res: Option<TokenType>)
    ensures
        res == keyword(w@),
{
    if spells(w, "if") {
        return Some(TokenType::If);
    }
    if spells(w, "let") {
        return Some(TokenType::Let);
    }
    if spells(w, "define") {
        return Some(TokenType::Define);
    }
    if spells(w, "define-syntax") {
        return Some(TokenType::DefineSyntax);
    }
    if spells(w, "lambda") {
        return Some(TokenType::Lambda);
    }
    if spells(w, "eval") {
        return Some(TokenType::Eval);
    }
    if spells(w, "quote") {
        return Some(TokenType::Quote);
    }
    if spells(w, "execute") {
        return Some(TokenType::Execute);
    }
    if spells(w, "return!") {
        return Some(TokenType::Return);
    }
    if spells(w, "begin") {
        return Some(TokenType::Begin);
    }
    if spells(w, "panic!") {
        return Some(TokenType::Panic);
    }
    if spells(w, "transduce") {
        return Some(TokenType::Transduce);
    }
    if spells(w, "read") {
        return Some(TokenType::Read);
    }
    if spells(w, "syntax-rules") {
        return Some(TokenType::SyntaxRules);
    }
    if spells(w, "set!") {
        return Some(TokenType::SetBang);
    }
    if spells(w, "apply") {
        return Some(TokenType::Apply);
    }
    if spells(w, "struct") {
        return Some(TokenType::Struct);
    }
    if spells(w, "require") {
        return Some(TokenType::Require);
    }
    if spells(w, "...") {
        return Some(TokenType::Ellipses);
    }
    None
}

/// The boolean `w` spells, if any.
fn bool_of(w: &String) -> (res: Option<bool>)
    ensures
        res == bool_word(w@),
{
    if spells(w, "#t") || spells(w, "#true") {
        Some(true)
    } else if spells(w, "#f") || spells(w, "#false") {
        Some(false)
    } else {
        None
    }
}

fn is_digit_char(c: char) -> (res: bool)
    ensures
        res == is_digit(c),
{
    '0' <= c && c <= '9'
}

/// The value of the digits from `start` to `e`, exact up to `bound` and
/// above `bound` when the value is.
fn digits_from(s: &Vec<char>, start: usize, e: usize) -> (res: Option<u128>)
    requires
        start < e <= s@.len(),
    ensures
        res is Some <==> all_digits(s@.subrange(start as int, e as int)),
        res matches Some(m) ==> {
            let v = digits_value(s@.subrange(start as int, e as int));
            (m == v && m <= isize::MAX + 1) || (m > isize::MAX + 1 && v > isize::MAX + 1)
        },
{
    let bound: u128 = isize::MAX as u128 + 1;
    let mut m: u128 = 0;
    let mut k = start;
    while k < e
        invariant
            start <= k <= e <= s@.len(),
            bound == isize::MAX + 1,
            forall|j: int| start <= j < k ==> #[trigger] is_digit(s@[j]),
            (m == digits_value(s@.subrange(start as int, k as int)) && m <= bound) || (m > bound
                && m <= 10 * bound + 9 && digits_value(s@.subrange(start as int, k as int)) > bound),
            digits_value(s@.subrange(start as int, k as int)) >= 0,
        decreases e - k,
    {
        let c = s[k];
        if !is_digit_char(c) {
            assert(!is_digit(s@.subrange(start as int, e as int)[k - start]));
            return None;
        }
        let d = (c as u32 - '0' as u32) as u128;
        let ghost before = s@.subrange(start as int, k as int);
        assert(s@.subrange(start as int, k + 1).drop_last() == before);
        if m <= bound {
            m = m * 10 + d;
        }
        k = k + 1;
    }
    assert forall|j: int| 0 <= j < s@.subrange(start as int, e as int).len() implies #[trigger] is_digit(
        s@.subrange(start as int, e as int)[j],
    ) by {
        assert(is_digit(s@[start + j]));
    }
    Some(m)
}

/// The integer the word from `i` to `e` spells, if it spells one that fits
/// in `isize`.
fn numeral(s: &Vec<char>, i: usize, e: usize) -> (res: Option<isize>)
    requires
        i < e <= s@.len(),
    ensures
        ({
            let w = s@.subrange(i as int, e as int);
            res == if numeral_value(w) is Some && isize::MIN <= numeral_value(w)->0 <= isize::MAX {
                Some(numeral_value(w)->0 as isize)
            } else {
                None::<isize>
            }
        }),
{
    let ghost w = s@.subrange(i as int, e as int);
    if s[i] == '-' {
        assert(w[0] == s@[i as int]);
        assert(!is_digit(w[0]));
        if i + 1 >= e {
            assert(!all_digits(w));
            assert(!all_digits(w.drop_first()));
            return None;
        }
        assert(w.drop_first() == s@.subrange(i + 1, e as int));
        assert(!all_digits(w)) by {
            assert(!is_digit(w[0]));
        }
        match digits_from(s, i + 1, e) {
            Some(m) => {
                if m <= isize::MAX as u128 + 1 {
                    Some((-(m as i128)) as isize)
                } else {
                    None
                }
            },
            None => None,
        }
    } else {
        match digits_from(s, i, e) {
            Some(m) => {
                if m <= isize::MAX as u128 {
                    Some(m as isize)
                } else {
                    None
                }
            },
            None => {
                assert(!(w.len() > 0 && w[0] == '-'));
                None
            },
        }
    }
}


/// The token type of the word from `i` to `e`.
fn classify_word(s: &Vec<char>, i: usize, e: usize) -> (res: TokenType)
    requires
        i < e <= s@.len(),
    ensures
        word_token(s@.subrange(i as int, e as int), res),
{
    let mut w = String::new();
    let mut k = i;
    while k < e
        invariant
            i <= k <= e <= s@.len(),
            w@ == s@.subrange(i as int, k as int),
        decreases e - k,
    {
        push_char(&mut w, s[k]);
        k = k + 1;
        assert(w@ == s@.subrange(i as int, k as int));
    }
    match keyword_of(&w) {
        Some(t) => {
            return t;
        },
        None => {},
    }
    match bool_of(&w) {
        Some(b) => {
            return TokenType::BooleanLiteral(b);
        },
        None => {},
    }
    match numeral(s, i, e) {
        Some(n) => {
            return TokenType::IntegerLiteral(n);
        },
        None => {},
    }
    TokenType::Identifier(w)
}

/// No keyword begins with `#`.
proof fn lemma_keyword_initial(w: Seq<char>)
    ensures
        keyword(w) is Some ==> w.len() > 0 && w[0] != '#',
{
    if keyword(w) is Some {
        reveal_strlit("if");
        reveal_strlit("let");
        reveal_strlit("define");
        reveal_strlit("define-syntax");
        reveal_strlit("lambda");
        reveal_strlit("eval");
        reveal_strlit("quote");
        reveal_strlit("execute");
        reveal_strlit("return!");
        reveal_strlit("begin");
        reveal_strlit("panic!");
        reveal_strlit("transduce");
        reveal_strlit("read");
        reveal_strlit("syntax-rules");
        reveal_strlit("set!");
        reveal_strlit("apply");
        reveal_strlit("struct");
        reveal_strlit("require");
        reveal_strlit("...");
    }
}

/// The token that starts at the non-blank position `j`, and where it ends.
fn next_token(s: &Vec<char>, j: usize) -> (res: Result<(SyntaxObject, usize), TokenError>)
    requires
        j < s@.len(),
        !is_blank(s@[j as int]),
    ensures
        match next_lexeme(s@, j as int) {
            Ok((lx, e)) => res matches Ok((tok, e2)) && e2 == e && j < e <= s@.len()
                && token_matches(tok, (lx, j as int, e)),
            Err(x) => res == Err::<(SyntaxObject, usize), TokenError>(x),
        },
{
    let len = s.len();
    let c = s[j];
    if c == '(' {
        return Ok((SyntaxObject::new(TokenType::OpenParen, Span::new(j, j + 1)), j + 1));
    }
    if c == ')' {
        return Ok((SyntaxObject::new(TokenType::CloseParen, Span::new(j, j + 1)), j + 1));
    }
    if c == '\'' {
        return Ok((SyntaxObject::new(TokenType::QuoteTick, Span::new(j, j + 1)), j + 1));
    }
    if c == '"' {
        let (body, e) = scan_string(s, j + 1)?;
        return Ok((SyntaxObject::new(TokenType::StringLiteral(body), Span::new(j, e)), e));
    }
    if c == '#' && j + 1 < s.len() && s[j + 1] == '\\' {
        if j + 2 < s.len() {
            return Ok(
                (SyntaxObject::new(TokenType::CharacterLiteral(s[j + 2]), Span::new(j, j + 3)), j
                    + 3),
            );
        } else {
            return Err(TokenError::UnexpectedChar('#'));
        }
    }
    let e = find_word_end(s, j);
    assert(!is_delimiter(s@[j as int]));
    assert(e > j);
    let ty = classify_word(s, j, e);
    proof {
        lemma_keyword_initial(s@.subrange(j as int, e as int));
    }
    if c == '#' {
        match &ty {
            TokenType::BooleanLiteral(_) => {},
            _ => {
                return Err(TokenError::UnexpectedChar('#'));
            },
        }
    }
    Ok((SyntaxObject::new(ty, Span::new(j, e)), e))
}

/// Cuts `text` into tokens, each with its span in character offsets.
pub fn tokenize(text: &str) -> (res: Result<Vec<SyntaxObject>, TokenError>)
    ensures
        match lex_from(text@, 0) {
            Ok(ls) => res matches Ok(toks) && tokens_match(toks@, ls),
            Err(x) => res == Err::<Vec<SyntaxObject>, TokenError>(x),
        },
{
    let s = chars_of(text);
    let mut toks: Vec<SyntaxObject> = Vec::new();
    let mut i: usize = 0;
    let ghost mut done: Seq<(Lexeme, int, int)> = seq![];
    loop
        invariant
            i <= s@.len(),
            s@ == text@,
            tokens_match(toks@, done),
            match lex_from(s@, i as int) {
                Ok(rest) => lex_from(s@, 0) == Ok::<Seq<(Lexeme, int, int)>, TokenError>(done + rest),
                Err(x) => lex_from(s@, 0) == Err::<Seq<(Lexeme, int, int)>, TokenError>(x),
            },
        decreases s@.len() - i,
    {
        let j = skip_blanks(&s, i);
        if j >= s.len() {
            assert(done + Seq::<(Lexeme, int, int)>::empty() == done);
            return Ok(toks);
        }
        let ghost step = next_lexeme(s@, j as int);
        match next_token(&s, j) {
            Err(x) => {
                return Err(x);
            },
            Ok((tok, e)) => {
                let ghost lx = step->Ok_0.0;
                proof {
                    match lex_from(s@, e as int) {
                        Ok(rest) => {
                            assert(done + (seq![(lx, j as int, e as int)] + rest) == done.push(
                                (lx, j as int, e as int),
                            ) + rest);
                        },
                        Err(_) => {},
                    }
                    done = done.push((lx, j as int, e as int));
                }
                toks.push(tok);
                i = e;
            },
        }
    }
}

} // verus!
