//! Writing what was read: for the forms that keep their shape, the written
//! form of an expression is the text of the tokens it was read from, with
//! single spaces between data and a quote tick spelled out as `(quote ...)`.
use vstd::prelude::*;

use crate::ast::{Atom, ExprKind};
use crate::display::{
    apply_text, begin_text, define_text, eval_text, execute_text, expr_text, exprs_text, if_text,
    lambda_text, list_text, panic_text, quote_text, read_text, return_text, set_text, struct_text,
    transduce_text,
};
use crate::forms::{
    apply_form, begin_form, define_form, eval_form, execute_form, if_form, keyword_form, lambda_form,
    panic_form, quote_form, read_form, return_form, set_form, struct_form, transduce_form,
    ParseError,
};
use crate::reader::{
    denotes, each_denotes, lemma_each_denotes, list_result, node_denotes, oks, quoted_result, reads_all,
    Shape,
};
use crate::tokens::{token_text, SyntaxObject, TokenType};

verus! {

/// Written forms of several expressions joined by a space: the first, a
/// space, then the rest.
pub proof fn lemma_exprs_text_cons(a: ExprKind, rest: Seq<ExprKind>)
    requires
        rest.len() > 0,
    ensures
        exprs_text(seq![a] + rest) == expr_text(a) + " "@ + exprs_text(rest),
    decreases rest.len(),
{
    let s = seq![a] + rest;
    if rest.len() == 1 {
        assert(s.subrange(0, 1) == seq![a]);
        assert(s[1] == rest[0]);
        assert(exprs_text(seq![a]) == expr_text(a));
        assert(exprs_text(rest) == expr_text(rest[0]));
        assert(exprs_text(s) == exprs_text(s.subrange(0, 1)) + " "@ + expr_text(s[1]));
    } else {
        let init = rest.subrange(0, rest.len() - 1);
        lemma_exprs_text_cons(a, init);
        assert(s.subrange(0, s.len() - 1) == seq![a] + init);
        assert(s[s.len() - 1] == rest[rest.len() - 1]);
        let last = expr_text(rest[rest.len() - 1]);
        assert(exprs_text(rest) == exprs_text(init) + " "@ + last);
        assert(exprs_text(s) == exprs_text(seq![a] + init) + " "@ + last);
        assert(expr_text(a) + " "@ + exprs_text(init) + " "@ + last =~= expr_text(a) + " "@ + (
        exprs_text(init) + " "@ + last));
    }
}

/// `exprs_text` of a sequence of at least two expressions: the first, a
/// space, then the rest.
pub proof fn lemma_exprs_text_first(v: Seq<ExprKind>)
    requires
        v.len() > 1,
    ensures
        exprs_text(v) == expr_text(v[0]) + " "@ + exprs_text(v.drop_first()),
{
    assert(v == seq![v[0]] + v.drop_first());
    lemma_exprs_text_cons(v[0], v.drop_first());
}

/// The forms whose written form is the text they were read from: all but
/// `let`, `define-syntax` and `syntax-rules`, a `define` of a function, a
/// `lambda` with several body expressions, and an empty `begin`.
pub open spec fn keeps_its_text(v: Seq<ExprKind>, ty: TokenType) -> bool {
    match ty {
        TokenType::Let => false,
        TokenType::DefineSyntax => false,
        TokenType::SyntaxRules => false,
        TokenType::Define => v.len() == 3 && v[1] is Atom,
        TokenType::Lambda => v.len() == 3,
        TokenType::Begin => v.len() >= 2,
        _ => true,
    }
}



proof fn lemma_if_text(v: Seq<ExprKind>, syn: SyntaxObject, r: Result<ExprKind, ParseError>)
    requires
        v.len() > 0,
        v[0] == ExprKind::Atom(Atom { syn }),
        syn.ty == TokenType::If,
        if_form(v, syn, r),
        r is Ok,
    ensures
        expr_text(r->Ok_0) == "("@ + exprs_text(v) + ")"@,
{
    let e = r->Ok_0;
    lemma_exprs_text_first(v);
    lemma_exprs_text_first(v.drop_first());
    lemma_exprs_text_first(v.drop_first().drop_first());
    reveal_strlit("(if ");
    reveal_strlit("if");
    reveal_strlit("(");
    reveal_strlit(")");
    reveal_strlit(" ");
    assert(expr_text(v[0]) == "if"@);
    if let ExprKind::If(x) = e {
        assert(expr_text(e) == if_text(*x));
    }
    assert(exprs_text(v) == expr_text(v[0]) + " "@ + (expr_text(v[1]) + " "@ + (expr_text(v[2]) + " "@ + (expr_text(v[3])))));
    assert(expr_text(e) =~= "("@ + exprs_text(v) + ")"@);
}

proof fn lemma_setbang_text(v: Seq<ExprKind>, syn: SyntaxObject, r: Result<ExprKind, ParseError>)
    requires
        v.len() > 0,
        v[0] == ExprKind::Atom(Atom { syn }),
        syn.ty == TokenType::SetBang,
        set_form(v, syn, r),
        r is Ok,
    ensures
        expr_text(r->Ok_0) == "("@ + exprs_text(v) + ")"@,
{
    let e = r->Ok_0;
    lemma_exprs_text_first(v);
    lemma_exprs_text_first(v.drop_first());
    reveal_strlit("(set! ");
    reveal_strlit("set!");
    reveal_strlit("(");
    reveal_strlit(")");
    reveal_strlit(" ");
    assert(expr_text(v[0]) == "set!"@);
    if let ExprKind::SetBang(x) = e {
        assert(expr_text(e) == set_text(*x));
    }
    assert(exprs_text(v) == expr_text(v[0]) + " "@ + (expr_text(v[1]) + " "@ + (expr_text(v[2]))));
    assert(expr_text(e) =~= "("@ + exprs_text(v) + ")"@);
}

proof fn lemma_apply_text(v: Seq<ExprKind>, syn: SyntaxObject, r: Result<ExprKind, ParseError>)
    requires
        v.len() > 0,
        v[0] == ExprKind::Atom(Atom { syn }),
        syn.ty == TokenType::Apply,
        apply_form(v, syn, r),
        r is Ok,
    ensures
        expr_text(r->Ok_0) == "("@ + exprs_text(v) + ")"@,
{
    let e = r->Ok_0;
    lemma_exprs_text_first(v);
    lemma_exprs_text_first(v.drop_first());
    reveal_strlit("(apply ");
    reveal_strlit("apply");
    reveal_strlit("(");
    reveal_strlit(")");
    reveal_strlit(" ");
    assert(expr_text(v[0]) == "apply"@);
    if let ExprKind::Apply(x) = e {
        assert(expr_text(e) == apply_text(*x));
    }
    assert(exprs_text(v) == expr_text(v[0]) + " "@ + (expr_text(v[1]) + " "@ + (expr_text(v[2]))));
    assert(expr_text(e) =~= "("@ + exprs_text(v) + ")"@);
}

proof fn lemma_transduce_text(v: Seq<ExprKind>, syn: SyntaxObject, r: Result<ExprKind, ParseError>)
    requires
        v.len() > 0,
        v[0] == ExprKind::Atom(Atom { syn }),
        syn.ty == TokenType::Transduce,
        transduce_form(v, syn, r),
        r is Ok,
    ensures
        expr_text(r->Ok_0) == "("@ + exprs_text(v) + ")"@,
{
    let e = r->Ok_0;
    lemma_exprs_text_first(v);
    lemma_exprs_text_first(v.drop_first());
    lemma_exprs_text_first(v.drop_first().drop_first());
    lemma_exprs_text_first(v.drop_first().drop_first().drop_first());
    reveal_strlit("(transduce ");
    reveal_strlit("transduce");
    reveal_strlit("(");
    reveal_strlit(")");
    reveal_strlit(" ");
    assert(expr_text(v[0]) == "transduce"@);
    if let ExprKind::Transduce(x) = e {
        assert(expr_text(e) == transduce_text(*x));
    }
    assert(exprs_text(v) == expr_text(v[0]) + " "@ + (expr_text(v[1]) + " "@ + (expr_text(v[2]) + " "@ + (expr_text(v[3]) + " "@ + (expr_text(v[4]))))));
    assert(expr_text(e) =~= "("@ + exprs_text(v) + ")"@);
}

proof fn lemma_quote_text(v: Seq<ExprKind>, syn: SyntaxObject, r: Result<ExprKind, ParseError>)
    requires
        v.len() > 0,
        v[0] == ExprKind::Atom(Atom { syn }),
        syn.ty == TokenType::Quote,
        quote_form(v, syn, r),
        r is Ok,
    ensures
        expr_text(r->Ok_0) == "("@ + exprs_text(v) + ")"@,
{
    let e = r->Ok_0;
    lemma_exprs_text_first(v);
    reveal_strlit("(quote ");
    reveal_strlit("quote");
    reveal_strlit("(");
    reveal_strlit(")");
    reveal_strlit(" ");
    assert(expr_text(v[0]) == "quote"@);
    if let ExprKind::Quote(x) = e {
        assert(expr_text(e) == quote_text(*x));
    }
    assert(exprs_text(v) == expr_text(v[0]) + " "@ + (expr_text(v[1])));
    assert(expr_text(e) =~= "("@ + exprs_text(v) + ")"@);
}

proof fn lemma_return_text(v: Seq<ExprKind>, syn: SyntaxObject, r: Result<ExprKind, ParseError>)
    requires
        v.len() > 0,
        v[0] == ExprKind::Atom(Atom { syn }),
        syn.ty == TokenType::Return,
        return_form(v, syn, r),
        r is Ok,
    ensures
        expr_text(r->Ok_0) == "("@ + exprs_text(v) + ")"@,
{
    let e = r->Ok_0;
    lemma_exprs_text_first(v);
    reveal_strlit("(return! ");
    reveal_strlit("return!");
    reveal_strlit("(");
    reveal_strlit(")");
    reveal_strlit(" ");
    assert(expr_text(v[0]) == "return!"@);
    if let ExprKind::Return(x) = e {
        assert(expr_text(e) == return_text(*x));
    }
    assert(exprs_text(v) == expr_text(v[0]) + " "@ + (expr_text(v[1])));
    assert(expr_text(e) =~= "("@ + exprs_text(v) + ")"@);
}

proof fn lemma_panic_text(v: Seq<ExprKind>, syn: SyntaxObject, r: Result<ExprKind, ParseError>)
    requires
        v.len() > 0,
        v[0] == ExprKind::Atom(Atom { syn }),
        syn.ty == TokenType::Panic,
        panic_form(v, syn, r),
        r is Ok,
    ensures
        expr_text(r->Ok_0) == "("@ + exprs_text(v) + ")"@,
{
    let e = r->Ok_0;
    lemma_exprs_text_first(v);
    reveal_strlit("(panic! ");
    reveal_strlit("panic!");
    reveal_strlit("(");
    reveal_strlit(")");
    reveal_strlit(" ");
    assert(expr_text(v[0]) == "panic!"@);
    if let ExprKind::Panic(x) = e {
        assert(expr_text(e) == panic_text(*x));
    }
    assert(exprs_text(v) == expr_text(v[0]) + " "@ + (expr_text(v[1])));
    assert(expr_text(e) =~= "("@ + exprs_text(v) + ")"@);
}

proof fn lemma_eval_text(v: Seq<ExprKind>, syn: SyntaxObject, r: Result<ExprKind, ParseError>)
    requires
        v.len() > 0,
        v[0] == ExprKind::Atom(Atom { syn }),
        syn.ty == TokenType::Eval,
        eval_form(v, syn, r),
        r is Ok,
    ensures
        expr_text(r->Ok_0) == "("@ + exprs_text(v) + ")"@,
{
    let e = r->Ok_0;
    lemma_exprs_text_first(v);
    reveal_strlit("(eval ");
    reveal_strlit("eval");
    reveal_strlit("(");
    reveal_strlit(")");
    reveal_strlit(" ");
    assert(expr_text(v[0]) == "eval"@);
    if let ExprKind::Eval(x) = e {
        assert(expr_text(e) == eval_text(*x));
    }
    assert(exprs_text(v) == expr_text(v[0]) + " "@ + (expr_text(v[1])));
    assert(expr_text(e) =~= "("@ + exprs_text(v) + ")"@);
}

proof fn lemma_read_text(v: Seq<ExprKind>, syn: SyntaxObject, r: Result<ExprKind, ParseError>)
    requires
        v.len() > 0,
        v[0] == ExprKind::Atom(Atom { syn }),
        syn.ty == TokenType::Read,
        read_form(v, syn, r),
        r is Ok,
    ensures
        expr_text(r->Ok_0) == "("@ + exprs_text(v) + ")"@,
{
    let e = r->Ok_0;
    lemma_exprs_text_first(v);
    reveal_strlit("(read ");
    reveal_strlit("read");
    reveal_strlit("(");
    reveal_strlit(")");
    reveal_strlit(" ");
    assert(expr_text(v[0]) == "read"@);
    if let ExprKind::Read(x) = e {
        assert(expr_text(e) == read_text(*x));
    }
    assert(exprs_text(v) == expr_text(v[0]) + " "@ + (expr_text(v[1])));
    assert(expr_text(e) =~= "("@ + exprs_text(v) + ")"@);
}

proof fn lemma_define_text(v: Seq<ExprKind>, syn: SyntaxObject, r: Result<ExprKind, ParseError>)
    requires
        v.len() == 3,
        v[1] is Atom,
        v[0] == ExprKind::Atom(Atom { syn }),
        syn.ty == TokenType::Define,
        define_form(v, syn, r),
        r is Ok,
    ensures
        expr_text(r->Ok_0) == "("@ + exprs_text(v) + ")"@,
{
    let e = r->Ok_0;
    lemma_exprs_text_first(v);
    lemma_exprs_text_first(v.drop_first());
    reveal_strlit("(define ");
    reveal_strlit("define");
    reveal_strlit("(");
    reveal_strlit(")");
    reveal_strlit(" ");
    assert(expr_text(v[0]) == "define"@);
    if let ExprKind::Define(x) = e {
        assert(expr_text(e) == define_text(*x));
    }
    assert(exprs_text(v) == expr_text(v[0]) + " "@ + (expr_text(v[1]) + " "@ + expr_text(v[2])));
    assert(expr_text(e) =~= "("@ + exprs_text(v) + ")"@);
}

proof fn lemma_execute_text(v: Seq<ExprKind>, syn: SyntaxObject, r: Result<ExprKind, ParseError>)
    requires
        v.len() > 0,
        v[0] == ExprKind::Atom(Atom { syn }),
        syn.ty == TokenType::Execute,
        execute_form(v, syn, r),
        r is Ok,
    ensures
        expr_text(r->Ok_0) == "("@ + exprs_text(v) + ")"@,
{
    let e = r->Ok_0;
    lemma_exprs_text_first(v);
    lemma_exprs_text_first(v.drop_first());
    reveal_strlit("(execute ");
    reveal_strlit("execute");
    reveal_strlit("(");
    reveal_strlit(")");
    reveal_strlit(" ");
    assert(expr_text(v[0]) == "execute"@);
    if let ExprKind::Execute(x) = e {
        assert(expr_text(e) == execute_text(*x));
    }
    if v.len() == 4 {
        lemma_exprs_text_first(v.drop_first().drop_first());
        assert(exprs_text(v) == expr_text(v[0]) + " "@ + (expr_text(v[1]) + " "@ + (expr_text(v[2])
            + " "@ + expr_text(v[3]))));
    } else {
        assert(exprs_text(v) == expr_text(v[0]) + " "@ + (expr_text(v[1]) + " "@ + expr_text(v[2])));
    }
    assert(expr_text(e) =~= "("@ + exprs_text(v) + ")"@);
}

proof fn lemma_struct_text(v: Seq<ExprKind>, syn: SyntaxObject, r: Result<ExprKind, ParseError>)
    requires
        v.len() > 0,
        v[0] == ExprKind::Atom(Atom { syn }),
        syn.ty == TokenType::Struct,
        struct_form(v, syn, r),
        r is Ok,
    ensures
        expr_text(r->Ok_0) == "("@ + exprs_text(v) + ")"@,
{
    let e = r->Ok_0;
    lemma_exprs_text_first(v);
    lemma_exprs_text_first(v.drop_first());
    reveal_strlit("(struct ");
    reveal_strlit("struct");
    reveal_strlit(" (");
    reveal_strlit("))");
    reveal_strlit("(");
    reveal_strlit(")");
    reveal_strlit(" ");
    assert(expr_text(v[0]) == "struct"@);
    if let (ExprKind::Struct(x), ExprKind::List(l)) = (e, v[2]) {
        assert(expr_text(e) == struct_text(*x));
        assert(expr_text(v[2]) == list_text(l));
    }
    assert(exprs_text(v) == expr_text(v[0]) + " "@ + (expr_text(v[1]) + " "@ + expr_text(v[2])));
    assert(expr_text(e) =~= "("@ + exprs_text(v) + ")"@);
}

proof fn lemma_begin_text(v: Seq<ExprKind>, syn: SyntaxObject, r: Result<ExprKind, ParseError>)
    requires
        v.len() >= 2,
        v[0] == ExprKind::Atom(Atom { syn }),
        syn.ty == TokenType::Begin,
        begin_form(v, syn, r),
    ensures
        expr_text(r->Ok_0) == "("@ + exprs_text(v) + ")"@,
{
    let e = r->Ok_0;
    lemma_exprs_text_first(v);
    reveal_strlit("(begin ");
    reveal_strlit("begin");
    reveal_strlit("(");
    reveal_strlit(")");
    reveal_strlit(" ");
    assert(expr_text(v[0]) == "begin"@);
    if let ExprKind::Begin(x) = e {
        assert(expr_text(e) == begin_text(x));
    }
    assert(expr_text(e) =~= "("@ + exprs_text(v) + ")"@);
}

proof fn lemma_lambda_text(v: Seq<ExprKind>, syn: SyntaxObject, r: Result<ExprKind, ParseError>)
    requires
        v.len() == 3,
        v[0] == ExprKind::Atom(Atom { syn }),
        syn.ty == TokenType::Lambda,
        lambda_form(v, syn, r),
        r is Ok,
    ensures
        expr_text(r->Ok_0) == "("@ + exprs_text(v) + ")"@,
{
    let e = r->Ok_0;
    lemma_exprs_text_first(v);
    lemma_exprs_text_first(v.drop_first());
    reveal_strlit("(lambda (");
    reveal_strlit("lambda");
    reveal_strlit(") ");
    reveal_strlit("(");
    reveal_strlit(")");
    reveal_strlit(" ");
    assert(expr_text(v[0]) == "lambda"@);
    assert(v.subrange(2, 3) == seq![v[2]]);
    if let (ExprKind::LambdaFunction(x), ExprKind::List(l)) = (e, v[1]) {
        assert(expr_text(e) == lambda_text(*x));
        assert(expr_text(v[1]) == list_text(l));
    }
    assert(exprs_text(v) == expr_text(v[0]) + " "@ + (expr_text(v[1]) + " "@ + expr_text(v[2])));
    assert(expr_text(e) =~= "("@ + exprs_text(v) + ")"@);
}

/// The written form of a form that keeps its text is the written forms of
/// its parts, keyword first, between parentheses.
pub proof fn lemma_form_text(v: Seq<ExprKind>, syn: SyntaxObject, r: Result<ExprKind, ParseError>)
    requires
        v.len() > 0,
        v[0] == ExprKind::Atom(Atom { syn }),
        keyword_form(v, syn, r),
        r is Ok,
        keeps_its_text(v, syn.ty),
    ensures
        expr_text(r->Ok_0) == "("@ + exprs_text(v) + ")"@,
{
    match syn.ty {
        TokenType::If => lemma_if_text(v, syn, r),
        TokenType::SetBang => lemma_setbang_text(v, syn, r),
        TokenType::Apply => lemma_apply_text(v, syn, r),
        TokenType::Transduce => lemma_transduce_text(v, syn, r),
        TokenType::Quote => lemma_quote_text(v, syn, r),
        TokenType::Return => lemma_return_text(v, syn, r),
        TokenType::Panic => lemma_panic_text(v, syn, r),
        TokenType::Eval => lemma_eval_text(v, syn, r),
        TokenType::Read => lemma_read_text(v, syn, r),
        TokenType::Define => lemma_define_text(v, syn, r),
        TokenType::Execute => lemma_execute_text(v, syn, r),
        TokenType::Struct => lemma_struct_text(v, syn, r),
        TokenType::Begin => lemma_begin_text(v, syn, r),
        TokenType::Lambda => lemma_lambda_text(v, syn, r),
        TokenType::Let => {},
        TokenType::DefineSyntax => {},
        TokenType::SyntaxRules => {},
        _ => {
            let e = r->Ok_0;
            if let ExprKind::List(l) = e {
                assert(expr_text(e) == list_text(l));
            }
        },
    }
}


/// The text of the datum of shape `sh` in the tokens `t`: each token as it
/// is written, a single space between the data of a list, and a quote tick
/// spelled out as `(quote ...)`.
pub open spec fn shape_text(t: Seq<SyntaxObject>, sh: Shape) -> Seq<char>
    decreases sh, 1int,
{
    match sh {
        Shape::Leaf(i) => token_text(t[i].ty),
        Shape::Tick(_, inner) => "(quote "@ + shape_text(t, *inner) + ")"@,
        Shape::Node(cs) => "("@ + shapes_text(t, cs) + ")"@,
    }
}

/// The texts of the data of shapes `cs`, separated by single spaces.
pub open spec fn shapes_text(t: Seq<SyntaxObject>, cs: Seq<Shape>) -> Seq<char>
    decreases cs, 0int,
{
    if cs.len() == 0 {
        seq![]
    } else if cs.len() == 1 {
        shape_text(t, cs[0])
    } else {
        shapes_text(t, cs.subrange(0, cs.len() - 1)) + " "@ + shape_text(t, cs[cs.len() - 1])
    }
}

/// A list whose head keeps its text when it is read (see `keeps_its_text`):
/// it is headed by no keyword, or by one of a form that keeps its text.
pub open spec fn head_keeps_text(t: Seq<SyntaxObject>, cs: Seq<Shape>) -> bool {
    if cs.len() > 0 && cs[0] is Leaf && 0 <= cs[0]->Leaf_0 < t.len() {
        match t[cs[0]->Leaf_0].ty {
            TokenType::Let => false,
            TokenType::DefineSyntax => false,
            TokenType::SyntaxRules => false,
            TokenType::Define => cs.len() == 3 && cs[1] is Leaf,
            TokenType::Lambda => cs.len() == 3,
            TokenType::Begin => cs.len() >= 2,
            _ => true,
        }
    } else {
        true
    }
}

/// Every list in the datum of shape `sh` keeps its text when it is read;
/// inside a quotation every list does.
pub open spec fn written_as_read(t: Seq<SyntaxObject>, sh: Shape, quoted: bool) -> bool
    decreases sh, 1int,
{
    match sh {
        Shape::Leaf(_) => true,
        Shape::Tick(_, inner) => written_as_read(t, *inner, true),
        Shape::Node(cs) => all_written_as_read(t, cs, quoted) && (quoted || head_keeps_text(t, cs)),
    }
}

/// `written_as_read` for each of the data of shapes `cs`.
pub open spec fn all_written_as_read(t: Seq<SyntaxObject>, cs: Seq<Shape>, quoted: bool) -> bool
    decreases cs, 0int,
{
    if cs.len() == 0 {
        true
    } else {
        written_as_read(t, cs[0], quoted) && all_written_as_read(
            t,
            cs.subrange(1, cs.len() as int),
            quoted,
        )
    }
}

/// `all_written_as_read` element by element.
proof fn lemma_all_written_as_read(t: Seq<SyntaxObject>, cs: Seq<Shape>, quoted: bool)
    ensures
        all_written_as_read(t, cs, quoted) <==> forall|j: int|
            0 <= j < cs.len() ==> written_as_read(t, #[trigger] cs[j], quoted),
    decreases cs.len(),
{
    if cs.len() > 0 {
        let cs1 = cs.subrange(1, cs.len() as int);
        lemma_all_written_as_read(t, cs1, quoted);
        if forall|j: int| 0 <= j < cs.len() ==> written_as_read(t, #[trigger] cs[j], quoted) {
            assert forall|j: int| 0 <= j < cs1.len() implies written_as_read(t, #[trigger] cs1[j], quoted) by {
                assert(cs1[j] == cs[j + 1]);
            }
        }
        if all_written_as_read(t, cs, quoted) {
            assert forall|j: int| 0 <= j < cs.len() implies written_as_read(t, #[trigger] cs[j], quoted) by {
                if j > 0 {
                    assert(cs1[j - 1] == cs[j]);
                }
            }
        }
    }
}

/// No datum but an atom token reads as an atom.
proof fn lemma_only_leaves_are_atoms(t: Seq<SyntaxObject>, sh: Shape, quoted: bool, e: ExprKind)
    requires
        denotes(t, sh, quoted, Ok(e)),
        e is Atom,
    ensures
        sh is Leaf,
{
    match sh {
        Shape::Leaf(_) => {},
        Shape::Tick(i, inner) => {
            let r0 = choose|r0: Result<ExprKind, ParseError>|
                #[trigger] quoted_result(t[i].span, r0, Ok(e)) && denotes(t, *inner, true, r0);
        },
        Shape::Node(cs) => {
            assert(node_denotes(t, cs, quoted, Ok(e)));
            let rs = choose|rs: Seq<Result<ExprKind, ParseError>>|
                #[trigger] list_result(rs, cs, quoted, Ok(e)) && each_denotes(t, cs, quoted, rs);
            if rs.len() == cs.len() && forall|j: int| 0 <= j < rs.len() ==> #[trigger] rs[j] is Ok {
                let es = oks(rs);
                if !quoted && es.len() > 0 {
                    if let ExprKind::Atom(a) = es[0] {
                        lemma_forms_are_no_atoms(es, a.syn, Ok(e));
                    }
                }
            }
        },
    }
}

/// No special form reads as an atom.
proof fn lemma_forms_are_no_atoms(v: Seq<ExprKind>, syn: SyntaxObject, r: Result<ExprKind, ParseError>)
    requires
        keyword_form(v, syn, r),
        r is Ok,
    ensures
        !(r->Ok_0 is Atom),
{
}

/// The texts of data that each keep their text, read one for one as the
/// expressions `oks(rs)`, are the written forms of those expressions.
proof fn lemma_children_text(t: Seq<SyntaxObject>, cs: Seq<Shape>, quoted: bool, rs: Seq<Result<ExprKind, ParseError>>)
    requires
        rs.len() == cs.len(),
        forall|j: int| 0 <= j < rs.len() ==> #[trigger] rs[j] is Ok,
        forall|j: int| 0 <= j < rs.len() ==> denotes(t, cs[j], quoted, #[trigger] rs[j]),
        forall|j: int| 0 <= j < cs.len() ==> written_as_read(t, #[trigger] cs[j], quoted),
    ensures
        exprs_text(oks(rs)) == shapes_text(t, cs),
    decreases cs, 0int,
{
    let es = oks(rs);
    if cs.len() > 0 {
        let n = cs.len() - 1;
        assert(rs[n] is Ok);
        assert(denotes(t, cs[n], quoted, rs[n]));
        assert(written_as_read(t, cs[n], quoted));
        law_write_after_read(t, cs[n], quoted, es[n]);
        if cs.len() > 1 {
            let cs0 = cs.subrange(0, n);
            let rs0 = rs.subrange(0, n);
            assert forall|j: int| 0 <= j < rs0.len() implies #[trigger] rs0[j] is Ok by {
                assert(rs0[j] == rs[j]);
            }
            assert forall|j: int| 0 <= j < rs0.len() implies denotes(t, cs0[j], quoted, #[trigger] rs0[j]) by {
                assert(rs0[j] == rs[j]);
                assert(cs0[j] == cs[j]);
            }
            assert forall|j: int| 0 <= j < cs0.len() implies written_as_read(t, #[trigger] cs0[j], quoted) by {
                assert(cs0[j] == cs[j]);
            }
            lemma_children_text(t, cs0, quoted, rs0);
            assert(oks(rs0) == es.subrange(0, n));
        }
    }
}

/// Writing what was read gives back the text it was read from: when every
/// list of a datum keeps its text (it is headed by no keyword of a special
/// form, or by the keyword of a form other than `let`, `define-syntax` and
/// `syntax-rules`, a `define` of a name, a `lambda` with one body
/// expression, or a non-empty `begin`), or stands inside a quotation, and
/// the datum reads without error, the written form of what it reads as is
/// the text of its tokens, a single space between the data of a list and
/// each quote tick spelled out as `(quote ...)`.
pub proof fn law_write_after_read(t: Seq<SyntaxObject>, sh: Shape, quoted: bool, e: ExprKind)
    requires
        denotes(t, sh, quoted, Ok(e)),
        written_as_read(t, sh, quoted),
    ensures
        expr_text(e) == shape_text(t, sh),
    decreases sh, 1int,
{
    match sh {
        Shape::Leaf(i) => {},
        Shape::Tick(i, inner) => {
            let r0 = choose|r0: Result<ExprKind, ParseError>|
                #[trigger] quoted_result(t[i].span, r0, Ok(e)) && denotes(t, *inner, true, r0);
            if let Ok(e0) = r0 {
                law_write_after_read(t, *inner, true, e0);
                if let ExprKind::Quote(q) = e {
                    assert(expr_text(e) == quote_text(*q));
                }
            }
        },
        Shape::Node(cs) => {
            assert(node_denotes(t, cs, quoted, Ok(e)));
            let rs = choose|rs: Seq<Result<ExprKind, ParseError>>|
                #[trigger] list_result(rs, cs, quoted, Ok(e)) && each_denotes(t, cs, quoted, rs);
            lemma_each_denotes(t, cs, quoted, rs);
            lemma_all_written_as_read(t, cs, quoted);
            assert(rs.len() == cs.len() && forall|j: int| 0 <= j < rs.len() ==> #[trigger] rs[j] is Ok);
            lemma_children_text(t, cs, quoted, rs);
            let es = oks(rs);
            if quoted || es.len() == 0 {
                if let ExprKind::List(l) = e {
                    assert(expr_text(e) == list_text(l));
                }
            } else {
                match es[0] {
                    ExprKind::Atom(a) => {
                        assert(rs[0] is Ok);
                        lemma_only_leaves_are_atoms(t, cs[0], quoted, es[0]);
                        let i = cs[0]->Leaf_0;
                        assert(a.syn == t[i]);
                        if t[i].ty is Define {
                            assert(rs[1] is Ok);
                            assert(denotes(t, cs[1], quoted, rs[1]));
                        }
                        lemma_form_text(es, a.syn, Ok(e));
                    },
                    _ => {
                        if let ExprKind::List(l) = e {
                            assert(expr_text(e) == list_text(l));
                        }
                    },
                }
            }
        },
    }
}

/// Writing what `read_tokens` gave back: each expression read from
/// top-level data that keep their text is written as the text of its
/// tokens (see `law_write_after_read`).
pub proof fn law_read_then_write(t: Seq<SyntaxObject>, shapes: Seq<Shape>, es: Vec<ExprKind>)
    requires
        reads_all(t, shapes, Ok(es)),
        forall|j: int| 0 <= j < shapes.len() ==> written_as_read(t, #[trigger] shapes[j], false),
    ensures
        es@.len() == shapes.len(),
        forall|j: int| 0 <= j < shapes.len() ==> expr_text(#[trigger] es@[j]) == shape_text(t, shapes[j]),
{
    assert forall|j: int| 0 <= j < shapes.len() implies expr_text(#[trigger] es@[j]) == shape_text(t, shapes[j]) by {
        law_write_after_read(t, shapes[j], false, es@[j]);
    }
}

} // verus!
