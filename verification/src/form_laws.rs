//! What each special form is made of: for a list headed by a keyword, which
//! element of the list becomes which field of the node, and when the form
//! is accepted. Each law speaks of the list's elements and the node's
//! fields by name.
use vstd::prelude::*;

use crate::ast::{identifier_of, Atom, ExprKind, List};
use crate::forms::{list_form, ParseError, DATUM_SYNTAX};
use crate::tokens::{SyntaxObject, TokenType};

verus! {

/// Only an identifier token is an identifier: an expression has an
/// identifier exactly when it is an atom whose token is
/// `TokenType::Identifier(s)`, and the identifier is `s`.
pub proof fn law_identifier_is_identifier_token(e: ExprKind)
    ensures
        identifier_of(e) is Some <==> (e is Atom && e->Atom_0.syn.ty is Identifier),
        e is Atom && e->Atom_0.syn.ty is Identifier ==> identifier_of(e) == Some(
            e->Atom_0.syn.ty->Identifier_0@,
        ),
{
}

/// `(if test then else)`: accepted exactly with three parts; the test is
/// the second element, the consequent the third, the alternative the
/// fourth.
pub proof fn law_if_parts(v: Seq<ExprKind>, a: Atom, r: Result<ExprKind, ParseError>)
    requires
        v.len() > 0,
        v[0] == ExprKind::Atom(a),
        a.syn.ty == TokenType::If,
        list_form(v, r),
    ensures
        r is Ok <==> v.len() == 4,
        r is Ok ==> r->Ok_0 is If,
        v.len() == 4 ==> (r matches Ok(ExprKind::If(i)) && i.test_expr == v[1] && i.then_expr == v[2]
            && i.else_expr == v[3] && i.location == a.syn),
{
}

/// `(define name value)` with an atom for the name: the name is the second
/// element and the value the third.
pub proof fn law_define_value_parts(v: Seq<ExprKind>, a: Atom, r: Result<ExprKind, ParseError>)
    requires
        v.len() > 1,
        v[0] == ExprKind::Atom(a),
        a.syn.ty == TokenType::Define,
        v[1] is Atom,
        list_form(v, r),
    ensures
        r is Ok <==> v.len() == 3,
        v.len() == 3 ==> (r matches Ok(ExprKind::Define(d)) && d.name == v[1] && d.body == v[2]
            && d.location == a.syn),
{
}

/// `(define (f args ...) body ...)`: the defined name is the first element
/// of the header, and it is bound to a lambda over the rest of the header
/// whose body is the third element when there is just one body expression,
/// or a `begin` of all of them.
pub proof fn law_define_function_parts(
    v: Seq<ExprKind>,
    a: Atom,
    header: List,
    r: Result<ExprKind, ParseError>,
)
    requires
        v.len() > 1,
        v[0] == ExprKind::Atom(a),
        a.syn.ty == TokenType::Define,
        v[1] == ExprKind::List(header),
        header.args@.len() > 0,
        !(header.args@[0] is Atom && header.args@[0]->Atom_0.syn.ty is Identifier
            && header.args@[0]->Atom_0.syn.ty->Identifier_0@ == DATUM_SYNTAX@),
        list_form(v, r),
    ensures
        r is Ok,
        r->Ok_0 matches ExprKind::Define(d) && d.name == header.args@[0] && d.location == a.syn,
        r->Ok_0->Define_0.body matches ExprKind::LambdaFunction(f) && f.args@
            == header.args@.subrange(1, header.args@.len() as int) && f.location == (SyntaxObject {
            ty: TokenType::Lambda,
            span: a.syn.span,
        }),
        v.len() == 3 ==> r->Ok_0->Define_0.body->LambdaFunction_0.body == v[2],
        v.len() != 3 ==> (r->Ok_0->Define_0.body->LambdaFunction_0.body matches ExprKind::Begin(b)
            && b.exprs@ == v.subrange(2, v.len() as int)),
{
}

/// `(let ((x e) ...) body)`: a list whose head is a lambda over the first
/// elements of the bindings and whose tail is their second elements, in
/// order.
pub proof fn law_let_parts(
    v: Seq<ExprKind>,
    a: Atom,
    bindings: List,
    r: Result<ExprKind, ParseError>,
)
    requires
        v.len() == 3,
        v[0] == ExprKind::Atom(a),
        a.syn.ty == TokenType::Let,
        v[1] == ExprKind::List(bindings),
        forall|i: int|
            0 <= i < bindings.args@.len() ==> #[trigger] bindings.args@[i] is List
                && bindings.args@[i]->List_0.args@.len() == 2,
        list_form(v, r),
    ensures
        r matches Ok(ExprKind::List(out)) && out.args@.len() == bindings.args@.len() + 1,
        r->Ok_0->List_0.args@[0] matches ExprKind::LambdaFunction(f) && f.body == v[2] && f.location
            == a.syn && f.args@.len() == bindings.args@.len(),
        forall|i: int|
            0 <= i < bindings.args@.len() ==> r->Ok_0->List_0.args@[0]->LambdaFunction_0.args@[i]
                == (#[trigger] bindings.args@[i])->List_0.args@[0] && r->Ok_0->List_0.args@[i + 1]
                == bindings.args@[i]->List_0.args@[1],
{
    let l = bindings.args@;
    if let Ok(ExprKind::List(out)) = r {
        if let ExprKind::LambdaFunction(f) = out.args@[0] {
            assert(v.subrange(2, 3) == seq![v[2]]);
            assert forall|i: int| 0 <= i < l.len() implies f.args@[i] == (#[trigger] l[i])->List_0.args@[0]
                && out.args@[i + 1] == l[i]->List_0.args@[1] by {
                assert(out.args@.drop_first()[i] == out.args@[i + 1]);
            }
        }
    }
}

/// `(transduce transducer func initial-value iterable)`: accepted exactly
/// with four parts, taken in that order.
pub proof fn law_transduce_parts(v: Seq<ExprKind>, a: Atom, r: Result<ExprKind, ParseError>)
    requires
        v.len() > 0,
        v[0] == ExprKind::Atom(a),
        a.syn.ty == TokenType::Transduce,
        list_form(v, r),
    ensures
        r is Ok <==> v.len() == 5,
        v.len() == 5 ==> (r matches Ok(ExprKind::Transduce(t)) && t.transducer == v[1] && t.func
            == v[2] && t.initial_value == v[3] && t.iterable == v[4] && t.location == a.syn),
{
}

/// `(execute transducer collection [output-type])`: accepted with two or
/// three parts, taken in that order; the output type is absent with two.
pub proof fn law_execute_parts(v: Seq<ExprKind>, a: Atom, r: Result<ExprKind, ParseError>)
    requires
        v.len() > 0,
        v[0] == ExprKind::Atom(a),
        a.syn.ty == TokenType::Execute,
        list_form(v, r),
    ensures
        r is Ok <==> (v.len() == 3 || v.len() == 4),
        v.len() == 3 ==> (r matches Ok(ExprKind::Execute(x)) && x.transducer == v[1] && x.collection
            == v[2] && x.output_type is None && x.location == a.syn),
        v.len() == 4 ==> (r matches Ok(ExprKind::Execute(x)) && x.transducer == v[1] && x.collection
            == v[2] && x.output_type == Some(v[3]) && x.location == a.syn),
{
}

/// `(set! variable expr)`: accepted exactly with two parts; the assigned
/// variable is the second element and the value the third.
pub proof fn law_set_parts(v: Seq<ExprKind>, a: Atom, r: Result<ExprKind, ParseError>)
    requires
        v.len() > 0,
        v[0] == ExprKind::Atom(a),
        a.syn.ty == TokenType::SetBang,
        list_form(v, r),
    ensures
        r is Ok <==> v.len() == 3,
        v.len() == 3 ==> (r matches Ok(ExprKind::SetBang(s)) && s.variable == v[1] && s.expr == v[2]
            && s.location == a.syn),
{
}

/// `(apply func list)`: accepted exactly with two parts; the function is
/// the second element and the argument list the third.
pub proof fn law_apply_parts(v: Seq<ExprKind>, a: Atom, r: Result<ExprKind, ParseError>)
    requires
        v.len() > 0,
        v[0] == ExprKind::Atom(a),
        a.syn.ty == TokenType::Apply,
        list_form(v, r),
    ensures
        r is Ok <==> v.len() == 3,
        v.len() == 3 ==> (r matches Ok(ExprKind::Apply(x)) && x.func == v[1] && x.list == v[2]
            && x.location == a.syn),
{
}

/// `(struct name (fields ...))`: the name is the second element and the
/// fields are the elements of the third, which must be a list.
pub proof fn law_struct_parts(v: Seq<ExprKind>, a: Atom, r: Result<ExprKind, ParseError>)
    requires
        v.len() > 0,
        v[0] == ExprKind::Atom(a),
        a.syn.ty == TokenType::Struct,
        list_form(v, r),
    ensures
        r is Ok <==> (v.len() == 3 && v[2] is List),
        r matches Ok(ExprKind::Struct(s)) ==> s.name == v[1] && s.fields == v[2]->List_0.args
            && s.location == a.syn,
{
}

/// The forms of one argument (`quote`, `return!`, `panic!`, `eval`,
/// `read`): accepted exactly with one argument, which is the second
/// element.
pub proof fn law_one_argument_parts(v: Seq<ExprKind>, a: Atom, r: Result<ExprKind, ParseError>)
    requires
        v.len() > 0,
        v[0] == ExprKind::Atom(a),
        list_form(v, r),
    ensures
        a.syn.ty == TokenType::Quote ==> (r is Ok <==> v.len() == 2),
        a.syn.ty == TokenType::Quote && v.len() == 2 ==> (r matches Ok(ExprKind::Quote(q))
            && q.expr == v[1] && q.location == a.syn),
        a.syn.ty == TokenType::Return ==> (r is Ok <==> v.len() == 2),
        a.syn.ty == TokenType::Return && v.len() == 2 ==> (r matches Ok(ExprKind::Return(q))
            && q.expr == v[1] && q.location == a.syn),
        a.syn.ty == TokenType::Panic ==> (r is Ok <==> v.len() == 2),
        a.syn.ty == TokenType::Panic && v.len() == 2 ==> (r matches Ok(ExprKind::Panic(q))
            && q.message == v[1] && q.location == a.syn),
        a.syn.ty == TokenType::Eval ==> (r is Ok <==> v.len() == 2),
        a.syn.ty == TokenType::Eval && v.len() == 2 ==> (r matches Ok(ExprKind::Eval(q))
            && q.expr == v[1] && q.location == a.syn),
        a.syn.ty == TokenType::Read ==> (r is Ok <==> v.len() == 2),
        a.syn.ty == TokenType::Read && v.len() == 2 ==> (r matches Ok(ExprKind::Read(q))
            && q.expr == v[1] && q.location == a.syn),
{
}

/// `(begin exprs ...)`: always accepted; the block is every element after
/// the keyword, in order.
pub proof fn law_begin_parts(v: Seq<ExprKind>, a: Atom, r: Result<ExprKind, ParseError>)
    requires
        v.len() > 0,
        v[0] == ExprKind::Atom(a),
        a.syn.ty == TokenType::Begin,
        list_form(v, r),
    ensures
        r matches Ok(ExprKind::Begin(b)) && b.exprs@ == v.subrange(1, v.len() as int) && b.location
            == a.syn,
{
}

/// `(lambda (args ...) body)`: the parameters are the elements of the
/// second element and the body is the third when it is the only one.
pub proof fn law_lambda_parts(v: Seq<ExprKind>, a: Atom, params: List, r: Result<ExprKind, ParseError>)
    requires
        v.len() == 3,
        v[0] == ExprKind::Atom(a),
        a.syn.ty == TokenType::Lambda,
        v[1] == ExprKind::List(params),
        forall|i: int| 0 <= i < params.args@.len() ==> #[trigger] params.args@[i] is Atom,
        list_form(v, r),
    ensures
        r matches Ok(ExprKind::LambdaFunction(f)) && f.args == params.args && f.body == v[2]
            && f.location == a.syn,
{
    assert(v.subrange(2, 3) == seq![v[2]]);
}

/// `(syntax-rules (syntax ...) (pattern template) ...)`: accepted exactly
/// when the second element is a list and every further element is a list
/// of two; then the syntax forms are the elements of the second element,
/// and the i-th rule's pattern is the first element of the (i+3)-th list
/// element and its body the second.
pub proof fn law_syntax_rules_parts(v: Seq<ExprKind>, a: Atom, r: Result<ExprKind, ParseError>)
    requires
        v.len() > 0,
        v[0] == ExprKind::Atom(a),
        a.syn.ty == TokenType::SyntaxRules,
        list_form(v, r),
    ensures
        r is Ok <==> (v.len() >= 3 && v[1] is List && forall|i: int|
            2 <= i < v.len() ==> #[trigger] v[i] is List && v[i]->List_0.args@.len() == 2),
        r matches Ok(ExprKind::SyntaxRules(s)) ==> s.syntax == v[1]->List_0.args && s.location == a.syn
            && s.patterns@.len() == v.len() - 2 && forall|i: int|
            0 <= i < s.patterns@.len() ==> (#[trigger] s.patterns@[i]).pattern == v[i + 2]->List_0.args@[0]
                && s.patterns@[i].body == v[i + 2]->List_0.args@[1],
{
    if v.len() >= 3 && v[1] is List {
        let rules = v.subrange(2, v.len() as int);
        if forall|i: int| 2 <= i < v.len() ==> #[trigger] v[i] is List && v[i]->List_0.args@.len() == 2 {
            assert forall|i: int| 0 <= i < rules.len() implies #[trigger] crate::forms::is_pair(rules[i]) by {
                assert(rules[i] == v[i + 2]);
            }
            if let Ok(ExprKind::SyntaxRules(s)) = r {
                assert forall|i: int| 0 <= i < s.patterns@.len() implies (#[trigger] s.patterns@[i]).pattern
                    == v[i + 2]->List_0.args@[0] && s.patterns@[i].body == v[i + 2]->List_0.args@[1] by {
                    assert(rules[i] == v[i + 2]);
                }
            }
        } else {
            let k = choose|k: int| 2 <= k < v.len() && !(v[k] is List && v[k]->List_0.args@.len() == 2);
            assert(rules[k - 2] == v[k]);
            assert(!crate::forms::is_pair(rules[k - 2]));
        }
    }
}

/// `(define-syntax name rules)`: the macro's name is the second element
/// and its rules the `syntax-rules` node that is the third.
pub proof fn law_define_syntax_parts(v: Seq<ExprKind>, a: Atom, r: Result<ExprKind, ParseError>)
    requires
        v.len() > 0,
        v[0] == ExprKind::Atom(a),
        a.syn.ty == TokenType::DefineSyntax,
        list_form(v, r),
    ensures
        r is Ok <==> (v.len() >= 3 && v[2] is SyntaxRules),
        r matches Ok(ExprKind::Macro(m)) ==> *m.name == v[1] && m.syntax_rules == v[2]->SyntaxRules_0
            && m.location == a.syn,
{
}

} // verus!
