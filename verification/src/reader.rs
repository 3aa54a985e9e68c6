//! Reading tokens into expressions.
//!
//! A token stream is first checked to be well bracketed: every `(` has its
//! `)`, no `)` stands alone, and every quote tick is followed by a datum.
//! Then each datum is read in order: an atom token is an atom; `'datum` is
//! `(quote datum)`; a parenthesised list is turned into its special form by
//! `ExprKind::try_from`, except inside a quoted datum, where lists stay
//! plain lists. The first error met in reading order is the result.
use vstd::prelude::*;

use crate::ast::{Atom, ExprKind, List, Quote};
use crate::forms::{is_plain_list, list_form, ParseError};
use crate::lexer::{lex_from, tokenize, tokens_match};
use crate::tokens::{Span, SyntaxObject, TokenType};

verus! {

/// The bracket structure of a datum in a token stream.
pub enum Shape {
    /// The atom token at an index.
    Leaf(int),
    /// A parenthesised list of data.
    Node(Seq<Shape>),
    /// A quote tick at an index, and the datum it quotes.
    Tick(int, Box<Shape>),
}

/// The datum that starts at token `i`, and the index after it.
pub open spec fn shape_at(t: Seq<SyntaxObject>, i: int) -> Result<(Shape, int), ParseError>
    decreases t.len() - i, 0int,
{
    if i < 0 || i >= t.len() {
        Err(ParseError::UnexpectedEOF(TokenType::QuoteTick))
    } else {
        match t[i].ty {
            TokenType::OpenParen => match shapes_in_list(t, i + 1) {
                Ok((cs, c)) => Ok((Shape::Node(cs), c + 1)),
                Err(x) => Err(x),
            },
            TokenType::CloseParen => Err(ParseError::MismatchedParen(TokenType::CloseParen, t[i].span)),
            TokenType::QuoteTick => match shape_at(t, i + 1) {
                Ok((sh, n)) => Ok((Shape::Tick(i, Box::new(sh)), n)),
                Err(x) => Err(x),
            },
            _ => Ok((Shape::Leaf(i), i + 1)),
        }
    }
}

/// The data of a list from token `i` on, and the index of its closing
/// parenthesis.
pub open spec fn shapes_in_list(t: Seq<SyntaxObject>, i: int) -> Result<(Seq<Shape>, int), ParseError>
    decreases t.len() - i, 1int,
{
    if i < 0 || i >= t.len() {
        Err(ParseError::UnexpectedEOF(TokenType::OpenParen))
    } else if t[i].ty is CloseParen {
        Ok((seq![], i))
    } else {
        match shape_at(t, i) {
            Err(x) => Err(x),
            Ok((sh, n)) => if n <= i || n > t.len() {
                // never taken: every datum is at least one token long
                Err(ParseError::UnexpectedEOF(TokenType::OpenParen))
            } else {
                match shapes_in_list(t, n) {
                    Ok((rest, c)) => Ok((seq![sh] + rest, c)),
                    Err(x) => Err(x),
                }
            },
        }
    }
}

/// The data from token `i` to the end of the stream.
pub open spec fn shapes_to_end(t: Seq<SyntaxObject>, i: int) -> Result<Seq<Shape>, ParseError>
    decreases t.len() - i,
{
    if i < 0 || i >= t.len() {
        Ok(seq![])
    } else {
        match shape_at(t, i) {
            Err(x) => Err(x),
            Ok((sh, n)) => if n <= i || n > t.len() {
                // never taken: every datum is at least one token long
                Ok(seq![])
            } else {
                match shapes_to_end(t, n) {
                    Ok(rest) => Ok(seq![sh] + rest),
                    Err(x) => Err(x),
                }
            },
        }
    }
}

/// The syntax object of the `quote` that a quote tick at `span` stands for.
pub open spec fn quote_syntax(span: Span) -> SyntaxObject {
    SyntaxObject { ty: TokenType::Quote, span }
}

/// `r` is the quotation of the result `r0` of the quoted datum.
pub open spec fn quoted_result(span: Span, r0: Result<ExprKind, ParseError>, r: Result<ExprKind, ParseError>) -> bool {
    match r0 {
        Ok(e) => r == Ok::<ExprKind, ParseError>(
            ExprKind::Quote(Box::new(Quote { expr: e, location: quote_syntax(span) })),
        ),
        Err(x) => r == Err::<ExprKind, ParseError>(x),
    }
}

/// `rs` are the results of reading `n` data in order, stopping at the
/// first error: either all `n` results, none of them an error, or a prefix
/// whose only error is its last element.
pub open spec fn read_in_order(rs: Seq<Result<ExprKind, ParseError>>, n: int) -> bool {
    ||| rs.len() == n && forall|j: int| 0 <= j < rs.len() ==> #[trigger] rs[j] is Ok
    ||| {
        &&& 1 <= rs.len() <= n
        &&& rs.last() is Err
        &&& forall|j: int| 0 <= j < rs.len() - 1 ==> #[trigger] rs[j] is Ok
    }
}

/// The values of results that are all `Ok`.
pub open spec fn oks(rs: Seq<Result<ExprKind, ParseError>>) -> Seq<ExprKind> {
    rs.map_values(|r: Result<ExprKind, ParseError>| r->Ok_0)
}

/// What a list of data of shapes `cs` whose read results are `rs` reads
/// as.
pub open spec fn list_result(
    rs: Seq<Result<ExprKind, ParseError>>,
    cs: Seq<Shape>,
    quoted: bool,
    r: Result<ExprKind, ParseError>,
) -> bool {
    &&& read_in_order(rs, cs.len() as int)
    &&& if rs.len() == cs.len() && forall|j: int| 0 <= j < rs.len() ==> #[trigger] rs[j] is Ok {
        if quoted {
            is_plain_list(oks(rs), r)
        } else {
            list_form(oks(rs), r)
        }
    } else {
        r == rs.last()
    }
}

/// `r` is what the datum of shape `sh` in the tokens `t` reads as; inside
/// a quotation when `quoted`.
pub open spec fn denotes(t: Seq<SyntaxObject>, sh: Shape, quoted: bool, r: Result<ExprKind, ParseError>) -> bool
    decreases sh, 2int,
{
    match sh {
        Shape::Leaf(i) => 0 <= i < t.len() && r == Ok::<ExprKind, ParseError>(
            ExprKind::Atom(Atom { syn: t[i] }),
        ),
        Shape::Tick(i, inner) => 0 <= i < t.len() && exists|r0: Result<ExprKind, ParseError>|
            #[trigger] quoted_result(t[i].span, r0, r) && denotes(t, *inner, true, r0),
        Shape::Node(cs) => node_denotes(t, cs, quoted, r),
    }
}

/// `r` is what a list of data of shapes `cs` reads as: the results of its
/// data, read in order, make `r`.
pub open spec fn node_denotes(t: Seq<SyntaxObject>, cs: Seq<Shape>, quoted: bool, r: Result<ExprKind, ParseError>) -> bool
    decreases cs, 1int,
{
    exists|rs: Seq<Result<ExprKind, ParseError>>|
        #[trigger] list_result(rs, cs, quoted, r) && each_denotes(t, cs, quoted, rs)
}

/// `rs` are, one for one, what the first `rs.len()` data of shapes `cs`
/// read as.
pub open spec fn each_denotes(
    t: Seq<SyntaxObject>,
    cs: Seq<Shape>,
    quoted: bool,
    rs: Seq<Result<ExprKind, ParseError>>,
) -> bool
    decreases cs, 0int,
{
    if rs.len() == 0 {
        true
    } else if cs.len() == 0 {
        false
    } else {
        denotes(t, cs[0], quoted, rs[0]) && each_denotes(
            t,
            cs.subrange(1, cs.len() as int),
            quoted,
            rs.subrange(1, rs.len() as int),
        )
    }
}

/// `each_denotes` element by element.
pub proof fn lemma_each_denotes(
    t: Seq<SyntaxObject>,
    cs: Seq<Shape>,
    quoted: bool,
    rs: Seq<Result<ExprKind, ParseError>>,
)
    ensures
        each_denotes(t, cs, quoted, rs) <==> (rs.len() <= cs.len() && forall|j: int|
            0 <= j < rs.len() ==> denotes(t, cs[j], quoted, #[trigger] rs[j])),
    decreases rs.len(),
{
    if rs.len() > 0 && cs.len() > 0 {
        let cs1 = cs.subrange(1, cs.len() as int);
        let rs1 = rs.subrange(1, rs.len() as int);
        lemma_each_denotes(t, cs1, quoted, rs1);
        if rs.len() <= cs.len() && forall|j: int|
            0 <= j < rs.len() ==> denotes(t, cs[j], quoted, #[trigger] rs[j]) {
            assert forall|j: int| 0 <= j < rs1.len() implies denotes(t, cs1[j], quoted, #[trigger] rs1[j]) by {
                assert(rs1[j] == rs[j + 1]);
                assert(cs1[j] == cs[j + 1]);
            }
        }
        if each_denotes(t, cs, quoted, rs) {
            assert forall|j: int| 0 <= j < rs.len() implies denotes(t, cs[j], quoted, #[trigger] rs[j]) by {
                if j > 0 {
                    assert(rs1[j - 1] == rs[j]);
                    assert(cs1[j - 1] == cs[j]);
                }
            }
        }
    }
}

/// A list reads as `r` when its data read, one for one, as `rs`, and `rs`
/// make `r`.
pub proof fn lemma_node_denotes(
    t: Seq<SyntaxObject>,
    cs: Seq<Shape>,
    quoted: bool,
    rs: Seq<Result<ExprKind, ParseError>>,
    r: Result<ExprKind, ParseError>,
)
    requires
        list_result(rs, cs, quoted, r),
        rs.len() <= cs.len(),
        forall|j: int| 0 <= j < rs.len() ==> denotes(t, cs[j], quoted, #[trigger] rs[j]),
    ensures
        denotes(t, Shape::Node(cs), quoted, r),
{
    lemma_each_denotes(t, cs, quoted, rs);
    assert(each_denotes(t, cs, quoted, rs));
    assert(node_denotes(t, cs, quoted, r));
}

/// `r` is what the top-level data of shapes `shapes` read as: all of them,
/// or the first error.
pub open spec fn reads_all(t: Seq<SyntaxObject>, shapes: Seq<Shape>, r: Result<Vec<ExprKind>, ParseError>) -> bool {
    match r {
        Ok(es) => es@.len() == shapes.len() && forall|j: int|
            0 <= j < shapes.len() ==> denotes(t, shapes[j], false, Ok(#[trigger] es@[j])),
        Err(x) => exists|rs: Seq<Result<ExprKind, ParseError>>|
            #[trigger] read_in_order(rs, shapes.len() as int) && rs.len() > 0 && rs.last() == Err::<
                ExprKind,
                ParseError,
            >(x) && forall|j: int| 0 <= j < rs.len() ==> denotes(t, shapes[j], false, #[trigger] rs[j]),
    }
}

/// A datum spans at least one token and ends within the stream; a list's
/// closing parenthesis lies within the stream.
pub proof fn lemma_shape_bounds(t: Seq<SyntaxObject>, i: int)
    ensures
        shape_at(t, i) matches Ok((_, n)) ==> i < n <= t.len(),
        shapes_in_list(t, i) matches Ok((_, c)) ==> i <= c < t.len(),
    decreases t.len() - i,
{
    if 0 <= i < t.len() {
        lemma_shape_bounds(t, i + 1);
        if let Ok((_, n)) = shape_at(t, i) {
            if i < n <= t.len() {
                lemma_shape_bounds(t, n);
            }
        }
    }
}

/// The index after the datum that starts at token `i`, or its bracket
/// error.
#[verifier::loop_isolation(false)]
fn skip_datum(t: &Vec<SyntaxObject>, i: usize) -> (res: Result<usize, ParseError>)
    ensures
        match shape_at(t@, i as int) {
            Ok((_, n)) => res == Ok::<usize, ParseError>(n as usize) && i < n <= t@.len(),
            Err(x) => res == Err::<usize, ParseError>(x),
        },
    decreases t@.len() - i,
{
    let len = t.len();
    if i >= len {
        return Err(ParseError::UnexpectedEOF(TokenType::QuoteTick));
    }
    match &t[i].ty {
        TokenType::OpenParen => {
            let mut j = i + 1;
            loop
                invariant
                    i < j <= len,
                    len == t@.len(),
                    match shapes_in_list(t@, i + 1) {
                        Ok((_, c)) => shapes_in_list(t@, j as int) matches Ok((_, c2)) && c2 == c,
                        Err(x) => shapes_in_list(t@, j as int) == Err::<(Seq<Shape>, int), ParseError>(x),
                    },
                decreases len - j,
            {
                if j >= len {
                    return Err(ParseError::UnexpectedEOF(TokenType::OpenParen));
                }
                match &t[j].ty {
                    TokenType::CloseParen => {
                        return Ok(j + 1);
                    },
                    _ => {},
                }
                j = skip_datum(t, j)?;
            }
        },
        TokenType::CloseParen => Err(ParseError::MismatchedParen(TokenType::CloseParen, t[i].span)),
        TokenType::QuoteTick => skip_datum(t, i + 1),
        _ => Ok(i + 1),
    }
}


/// Whether the token stream is well bracketed, or its first bracket error.
fn check_brackets(t: &Vec<SyntaxObject>) -> (res: Result<(), ParseError>)
    ensures
        match shapes_to_end(t@, 0) {
            Ok(_) => res is Ok,
            Err(x) => res == Err::<(), ParseError>(x),
        },
{
    let len = t.len();
    let mut j: usize = 0;
    while j < len
        invariant
            j <= len,
            len == t@.len(),
            match shapes_to_end(t@, 0) {
                Ok(_) => shapes_to_end(t@, j as int) is Ok,
                Err(x) => shapes_to_end(t@, j as int) == Err::<Seq<Shape>, ParseError>(x),
            },
        decreases len - j,
    {
        j = skip_datum(t, j)?;
    }
    Ok(())
}

/// Reads the datum of shape `shape_at(t, i)`; inside a quotation when
/// `quoted`. On success the index after the datum comes with the result.
#[verifier::loop_isolation(false)]
fn read_datum(t: &Vec<SyntaxObject>, i: usize, quoted: bool) -> (res: (Result<ExprKind, ParseError>, usize))
    requires
        shape_at(t@, i as int) is Ok,
    ensures
        shape_at(t@, i as int) matches Ok((sh, n)) && denotes(t@, sh, quoted, res.0) && (res.0 is Ok
            ==> res.1 == n),
    decreases t@.len() - i,
{
    let len = t.len();
    match &t[i].ty {
        TokenType::OpenParen => {
            let ghost cs = shapes_in_list(t@, i + 1)->Ok_0.0;
            let ghost c = shapes_in_list(t@, i + 1)->Ok_0.1;
            let mut children: Vec<ExprKind> = Vec::new();
            let ghost mut rs: Seq<Result<ExprKind, ParseError>> = seq![];
            let mut j = i + 1;
            assert(cs.subrange(0, cs.len() as int) == cs);
            loop
                invariant
                    i < j <= len,
                    len == t@.len(),
                    children@.len() == rs.len(),
                    rs.len() <= cs.len(),
                    shapes_in_list(t@, j as int) == Ok::<(Seq<Shape>, int), ParseError>(
                        (cs.subrange(rs.len() as int, cs.len() as int), c),
                    ),
                    forall|m: int| 0 <= m < rs.len() ==> #[trigger] rs[m] == Ok::<ExprKind, ParseError>(children@[m]),
                    forall|m: int| 0 <= m < rs.len() ==> denotes(t@, cs[m], quoted, #[trigger] rs[m]),
                decreases len - j,
            {
                let ghost k = rs.len() as int;
                match &t[j].ty {
                    TokenType::CloseParen => {
                        break;
                    },
                    _ => {},
                }
                assert(shape_at(t@, j as int) is Ok);
                proof {
                    lemma_shape_bounds(t@, j as int);
                }
                let ghost n = shape_at(t@, j as int)->Ok_0.1;
                assert(shapes_in_list(t@, n) is Ok);
                assert(shapes_in_list(t@, j as int) == Ok::<(Seq<Shape>, int), ParseError>(
                    (seq![shape_at(t@, j as int)->Ok_0.0] + shapes_in_list(t@, n)->Ok_0.0, c),
                ));
                let ghost now = cs.subrange(k, cs.len() as int);
                assert(now == seq![shape_at(t@, j as int)->Ok_0.0] + shapes_in_list(t@, n)->Ok_0.0);
                assert(now.len() >= 1);
                assert(now.len() == cs.len() - k);
                assert(k < cs.len());
                assert(now.drop_first() == shapes_in_list(t@, n)->Ok_0.0);
                assert(now[0] == shape_at(t@, j as int)->Ok_0.0);
                assert(now[0] == cs[k]);
                assert(cs.subrange(k, cs.len() as int)[0] == cs[k]);
                assert(cs.subrange(k + 1, cs.len() as int) == cs.subrange(k, cs.len() as int).drop_first());
                let (r, next) = read_datum(t, j, quoted);
                match r {
                    Ok(e) => {
                        proof {
                            rs = rs.push(Ok(e));
                        }
                        children.push(e);
                        j = next;
                    },
                    Err(x) => {
                        proof {
                            let w = rs.push(Err(x));
                            assert(forall|m: int| 0 <= m < w.len() - 1 ==> #[trigger] w[m] is Ok);
                            assert(list_result(w, cs, quoted, Err::<ExprKind, ParseError>(x)));
                            assert(forall|m: int| 0 <= m < w.len() ==> denotes(t@, cs[m], quoted, #[trigger] w[m]));
                            assert(shape_at(t@, i as int) == Ok::<(Shape, int), ParseError>((Shape::Node(cs), c + 1)));
                            lemma_node_denotes(t@, cs, quoted, w, Err::<ExprKind, ParseError>(x));
                        }
                        return (Err(x), 0);
                    },
                }
            }
            let ghost k = rs.len() as int;
            assert(cs.subrange(k, cs.len() as int).len() == 0);
            assert(oks(rs) == children@);
            let res = if quoted {
                Ok(ExprKind::List(List::new(children)))
            } else {
                ExprKind::try_from(children)
            };
            proof {
                assert(list_result(rs, cs, quoted, res));
                assert(j == c);
                assert(shape_at(t@, i as int) == Ok::<(Shape, int), ParseError>((Shape::Node(cs), c + 1)));
                lemma_node_denotes(t@, cs, quoted, rs, res);
            }
            (res, j + 1)
        },
        TokenType::QuoteTick => {
            let (r, n) = read_datum(t, i + 1, true);
            let span = t[i].span;
            match r {
                Ok(e) => {
                    let q = ExprKind::Quote(Box::new(Quote::new(e, SyntaxObject::new(TokenType::Quote, span))));
                    proof {
                        assert(quoted_result(t@[i as int].span, Ok(e), Ok::<ExprKind, ParseError>(q)));
                    }
                    (Ok(q), n)
                },
                Err(x) => {
                    proof {
                        assert(quoted_result(t@[i as int].span, Err(x), Err::<ExprKind, ParseError>(x)));
                    }
                    (Err(x), n)
                },
            }
        },
        TokenType::CloseParen => {
            proof {
                assert(false);
            }
            (Err(ParseError::MismatchedParen(TokenType::CloseParen, t[i].span)), 0)
        },
        _ => (Ok(ExprKind::Atom(Atom::new(t[i].clone()))), i + 1),
    }
}

/// Reads the tokens `tokens` into the expressions they spell, in order.
#[verifier::loop_isolation(false)]
pub fn read_tokens(tokens: &Vec<SyntaxObject>) -> (res: Result<Vec<ExprKind>, ParseError>)
    ensures
        match shapes_to_end(tokens@, 0) {
            Err(x) => res == Err::<Vec<ExprKind>, ParseError>(x),
            Ok(shapes) => reads_all(tokens@, shapes, res),
        },
{
    check_brackets(tokens)?;
    let ghost shapes = shapes_to_end(tokens@, 0)->Ok_0;
    let len = tokens.len();
    let mut exprs: Vec<ExprKind> = Vec::new();
    let ghost mut rs: Seq<Result<ExprKind, ParseError>> = seq![];
    let mut j: usize = 0;
    assert(shapes.subrange(0, shapes.len() as int) == shapes);
    while j < len
        invariant
            j <= len,
            len == tokens@.len(),
            exprs@.len() == rs.len(),
            rs.len() <= shapes.len(),
            shapes_to_end(tokens@, j as int) == Ok::<Seq<Shape>, ParseError>(
                shapes.subrange(rs.len() as int, shapes.len() as int),
            ),
            forall|m: int| 0 <= m < rs.len() ==> #[trigger] rs[m] == Ok::<ExprKind, ParseError>(exprs@[m]),
            forall|m: int| 0 <= m < rs.len() ==> denotes(tokens@, shapes[m], false, #[trigger] rs[m]),
        decreases len - j,
    {
        let ghost k = rs.len() as int;
        assert(shape_at(tokens@, j as int) is Ok);
        proof {
            lemma_shape_bounds(tokens@, j as int);
        }
        let ghost n = shape_at(tokens@, j as int)->Ok_0.1;
        assert(shapes_to_end(tokens@, n) is Ok);
        assert(shapes_to_end(tokens@, j as int) == Ok::<Seq<Shape>, ParseError>(
            seq![shape_at(tokens@, j as int)->Ok_0.0] + shapes_to_end(tokens@, n)->Ok_0,
        ));
        let ghost now = shapes.subrange(k, shapes.len() as int);
        assert(now == seq![shape_at(tokens@, j as int)->Ok_0.0] + shapes_to_end(tokens@, n)->Ok_0);
        assert(now.len() >= 1);
        assert(now.len() == shapes.len() - k);
        assert(k < shapes.len());
        assert(now.drop_first() == shapes_to_end(tokens@, n)->Ok_0);
        assert(shapes.subrange(k, shapes.len() as int)[0] == shapes[k]);
        assert(shapes.subrange(k + 1, shapes.len() as int) == shapes.subrange(k, shapes.len() as int).drop_first());
        let (r, next) = read_datum(tokens, j, false);
        match r {
            Ok(e) => {
                proof {
                    rs = rs.push(Ok(e));
                }
                exprs.push(e);
                j = next;
            },
            Err(x) => {
                proof {
                    let w = rs.push(Err(x));
                    assert(forall|m: int| 0 <= m < w.len() - 1 ==> #[trigger] w[m] is Ok);
                    assert(read_in_order(w, shapes.len() as int));
                    assert(forall|m: int| 0 <= m < w.len() ==> denotes(tokens@, shapes[m], false, #[trigger] w[m]));
                }
                return Err(x);
            },
        }
    }
    let ghost k = rs.len() as int;
    assert(shapes.subrange(k, shapes.len() as int).len() == 0);
    assert forall|m: int| 0 <= m < shapes.len() implies denotes(tokens@, shapes[m], false, Ok(#[trigger] exprs@[m])) by {
        assert(rs[m] == Ok::<ExprKind, ParseError>(exprs@[m]));
    }
    Ok(exprs)
}

/// Reads source text into the expressions it spells, in order: cuts it
/// into tokens, then reads the tokens.
pub fn read(text: &str) -> (res: Result<Vec<ExprKind>, ParseError>)
    ensures
        match lex_from(text@, 0) {
            Err(x) => res == Err::<Vec<ExprKind>, ParseError>(ParseError::Lex(x)),
            Ok(ls) => exists|toks: Seq<SyntaxObject>|
                #[trigger] tokens_match(toks, ls) && match shapes_to_end(toks, 0) {
                    Err(x) => res == Err::<Vec<ExprKind>, ParseError>(x),
                    Ok(shapes) => reads_all(toks, shapes, res),
                },
        },
{
    let tokens = match tokenize(text) {
        Ok(toks) => toks,
        Err(x) => {
            return Err(ParseError::Lex(x));
        },
    };
    let res = read_tokens(&tokens);
    proof {
        let toks = tokens@;
        assert(tokens_match(toks, lex_from(text@, 0)->Ok_0));
    }
    res
}




} // verus!
