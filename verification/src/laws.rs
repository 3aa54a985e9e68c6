//! Properties that span several functions of the library.
use vstd::prelude::*;

use crate::ast::{ExprKind, List};
use crate::display::{begin_text, define_text, expr_text, exprs_text, lambda_text, list_text};
use crate::forms::{
    define_form, is_atom, is_datum_syntax, is_pair, lambda_form, let_form, list_form, pair_first,
    pair_second,
};
use crate::forms::ParseError;
use crate::lexer::{bool_word, numeral_value, word_token};
use crate::tokens::{token_text, Span, SyntaxObject, TokenType};

verus! {

/// A list is a fixed point of turning lists into expressions: whenever
/// `ExprKind::try_from` gives back a plain list, giving that list's elements
/// to it again gives back the same elements as a plain list.
pub proof fn law_list_fixed_point(
    v: Seq<ExprKind>,
    r: Result<ExprKind, crate::forms::ParseError>,
    r2: Result<ExprKind, crate::forms::ParseError>,
)
    requires
        list_form(v, r),
        r matches Ok(ExprKind::List(l)) && list_form(l.args@, r2),
    ensures
        r2 matches Ok(ExprKind::List(l2)) && r matches Ok(ExprKind::List(l)) && l2.args@ == l.args@,
{
}

/// The function form of `define` is sugar: `(define (f args ...) body)`
/// is written exactly as `(define f (lambda (args ...) body))`.
pub proof fn law_define_sugar(
    v: Seq<ExprKind>,
    w: Seq<ExprKind>,
    header: List,
    syn: SyntaxObject,
    r1: Result<ExprKind, crate::forms::ParseError>,
    r2: Result<ExprKind, crate::forms::ParseError>,
)
    requires
        v.len() == 3,
        w.len() == 3,
        v[1] == ExprKind::List(header),
        header.args@.len() > 0,
        !is_datum_syntax(header.args@[0]),
        is_atom(header.args@[0]),
        w[1] == header.args@[0],
        w[2] matches ExprKind::LambdaFunction(f) && f.args@ == header.args@.drop_first() && f.body
            == v[2],
        define_form(v, syn, r1),
        define_form(w, syn, r2),
    ensures
        r1 is Ok,
        r2 is Ok,
        expr_text(r1->Ok_0) == expr_text(r2->Ok_0),
{
    assert(v.subrange(2, 3) == seq![v[2]]);
    if let (Ok(ExprKind::Define(d1)), Ok(ExprKind::Define(d2))) = (r1, r2) {
        if let (ExprKind::LambdaFunction(f1), ExprKind::LambdaFunction(f2)) = (d1.body, d2.body) {
            assert(expr_text(d1.body) == lambda_text(*f1));
            assert(expr_text(d2.body) == lambda_text(*f2));
            assert(expr_text(ExprKind::Define(d1)) == define_text(*d1));
            assert(expr_text(ExprKind::Define(d2)) == define_text(*d2));
        }
    }
}

/// Two lists whose first elements are written alike are written alike.
proof fn lemma_same_head_text(a: ExprKind, b: ExprKind, rest: Seq<ExprKind>)
    requires
        expr_text(a) == expr_text(b),
    ensures
        exprs_text(seq![a] + rest) == exprs_text(seq![b] + rest),
    decreases rest.len(),
{
    if rest.len() == 0 {
        assert(seq![a] + rest == seq![a]);
        assert(seq![b] + rest == seq![b]);
    } else {
        let init = rest.subrange(0, rest.len() - 1);
        lemma_same_head_text(a, b, init);
        assert((seq![a] + rest).subrange(0, rest.len() as int) == seq![a] + init);
        assert((seq![b] + rest).subrange(0, rest.len() as int) == seq![b] + init);
    }
}

/// `let` is sugar for applying a lambda: `(let ((x e) ...) body ...)` is
/// written exactly as `((lambda (x ...) body ...) e ...)`, where the lambda
/// is what `(lambda (x ...) body ...)` turns into.
pub proof fn law_let_is_lambda_application(
    v: Seq<ExprKind>,
    u: Seq<ExprKind>,
    bindings: List,
    names: List,
    let_syn: SyntaxObject,
    lambda_syn: SyntaxObject,
    r_let: Result<ExprKind, crate::forms::ParseError>,
    r_lambda: Result<ExprKind, crate::forms::ParseError>,
)
    requires
        v.len() >= 3,
        v[1] == ExprKind::List(bindings),
        forall|i: int| 0 <= i < bindings.args@.len() ==> #[trigger] is_pair(bindings.args@[i]),
        names.args@ == bindings.args@.map_values(|p: ExprKind| pair_first(p)),
        forall|i: int| 0 <= i < names.args@.len() ==> #[trigger] is_atom(names.args@[i]),
        u.len() == v.len(),
        u[1] == ExprKind::List(names),
        u.subrange(2, u.len() as int) == v.subrange(2, v.len() as int),
        let_form(v, let_syn, r_let),
        lambda_form(u, lambda_syn, r_lambda),
    ensures
        r_let is Ok,
        r_lambda is Ok,
        expr_text(r_let->Ok_0) == "("@ + exprs_text(
            seq![r_lambda->Ok_0] + bindings.args@.map_values(|p: ExprKind| pair_second(p)),
        ) + ")"@,
{
    let out = r_let->Ok_0;
    let values = bindings.args@.map_values(|p: ExprKind| pair_second(p));
    if let ExprKind::List(o) = out {
        let head = o.args@[0];
        assert(o.args@ == seq![head] + values);
        if let (ExprKind::LambdaFunction(f1), ExprKind::LambdaFunction(f2)) = (head, r_lambda->Ok_0) {
            assert(f1.args@ == f2.args@);
            assert(u.subrange(2, u.len() as int) == v.subrange(2, v.len() as int));
            assert(expr_text(head) == lambda_text(*f1));
            assert(expr_text(r_lambda->Ok_0) == lambda_text(*f2));
            if v.len() == 3 {
                assert(v.subrange(2, 3) == seq![v[2]]);
            } else if let (ExprKind::Begin(b1), ExprKind::Begin(b2)) = (f1.body, f2.body) {
                assert(expr_text(f1.body) == begin_text(b1));
                assert(expr_text(f2.body) == begin_text(b2));
            }
        }
        lemma_same_head_text(head, r_lambda->Ok_0, values);
        assert(expr_text(out) == list_text(o));
    }
}


/// Where an error of a special form points: the span it carries.
pub open spec fn error_span(e: ParseError) -> Option<Span> {
    match e {
        ParseError::SyntaxError(_, s) => Some(s),
        ParseError::ArityMismatch(_, s) => Some(s),
        _ => None,
    }
}

/// Every error of turning a list into an expression comes from a special
/// form, and points at the keyword that names the form.
pub proof fn law_errors_at_keyword(v: Seq<ExprKind>, r: Result<ExprKind, ParseError>)
    requires
        list_form(v, r),
        r is Err,
    ensures
        v.len() > 0,
        v[0] matches ExprKind::Atom(a) && error_span(r->Err_0) == Some(a.syn.span),
{
}

/// A word that is no number and no boolean is written back as itself: the
/// token it is read as, a keyword or an identifier, is written as the word.
pub proof fn law_word_written_back(w: Seq<char>, t: TokenType)
    requires
        word_token(w, t),
        numeral_value(w) is None,
        bool_word(w) is None,
    ensures
        token_text(t) == w,
{
}

} // verus!
