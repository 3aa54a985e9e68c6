//! How each node is written: the keyword of its form, then the written
//! forms of its fields in the order in which the form takes its parts.
use vstd::prelude::*;

use crate::ast::{ExprKind, PatternPair};
use crate::display::{expr_text, exprs_text, pair_text, pairs_text, syntax_rules_text};
use crate::tokens::token_text;

verus! {

/// Every node is written as its form: the keyword, then its fields in the
/// order the form takes them, each by its own written form. An atom is its
/// token; a list is its elements between parentheses.
pub proof fn law_written_form(e: ExprKind)
    ensures
        e matches ExprKind::Atom(a) ==> expr_text(e) == token_text(a.syn.ty),
        e matches ExprKind::List(l) ==> expr_text(e) == "("@ + exprs_text(l.args@) + ")"@,
        e matches ExprKind::If(i) ==> expr_text(e) == "(if "@ + expr_text(i.test_expr) + " "@
            + expr_text(i.then_expr) + " "@ + expr_text(i.else_expr) + ")"@,
        e matches ExprKind::Define(d) ==> expr_text(e) == "(define "@ + expr_text(d.name) + " "@
            + expr_text(d.body) + ")"@,
        e matches ExprKind::LambdaFunction(f) ==> expr_text(e) == "(lambda ("@ + exprs_text(f.args@)
            + ") "@ + expr_text(f.body) + ")"@,
        e matches ExprKind::Begin(b) ==> expr_text(e) == "(begin "@ + exprs_text(b.exprs@) + ")"@,
        e matches ExprKind::Return(r) ==> expr_text(e) == "(return! "@ + expr_text(r.expr) + ")"@,
        e matches ExprKind::Apply(a) ==> expr_text(e) == "(apply "@ + expr_text(a.func) + " "@
            + expr_text(a.list) + ")"@,
        e matches ExprKind::Panic(p) ==> expr_text(e) == "(panic! "@ + expr_text(p.message) + ")"@,
        e matches ExprKind::Transduce(t) ==> expr_text(e) == "(transduce "@ + expr_text(t.transducer)
            + " "@ + expr_text(t.func) + " "@ + expr_text(t.initial_value) + " "@ + expr_text(
            t.iterable,
        ) + ")"@,
        e matches ExprKind::Read(r) ==> expr_text(e) == "(read "@ + expr_text(r.expr) + ")"@,
        e matches ExprKind::Execute(x) ==> x.output_type is None ==> expr_text(e) == "(execute "@
            + expr_text(x.transducer) + " "@ + expr_text(x.collection) + ")"@,
        e matches ExprKind::Execute(x) ==> x.output_type is Some ==> expr_text(e) == "(execute "@
            + expr_text(x.transducer) + " "@ + expr_text(x.collection) + " "@ + expr_text(
            x.output_type->Some_0,
        ) + ")"@,
        e matches ExprKind::Quote(q) ==> expr_text(e) == "(quote "@ + expr_text(q.expr) + ")"@,
        e matches ExprKind::Struct(s) ==> expr_text(e) == "(struct "@ + expr_text(s.name) + " ("@
            + exprs_text(s.fields@) + "))"@,
        e matches ExprKind::Eval(x) ==> expr_text(e) == "(eval "@ + expr_text(x.expr) + ")"@,
        e matches ExprKind::SetBang(s) ==> expr_text(e) == "(set! "@ + expr_text(s.variable) + " "@
            + expr_text(s.expr) + ")"@,
        e matches ExprKind::SyntaxRules(s) ==> expr_text(e) == "(syntax-rules ("@ + exprs_text(
            s.syntax@,
        ) + ") "@ + pairs_text(s.patterns@) + ")"@,
        e matches ExprKind::Macro(m) ==> expr_text(e) == "(define-syntax "@ + expr_text(*m.name)
            + " "@ + ("(syntax-rules ("@ + exprs_text(m.syntax_rules.syntax@) + ") "@ + pairs_text(
            m.syntax_rules.patterns@,
        ) + ")"@),
{
    if let ExprKind::Macro(m) = e {
        assert(syntax_rules_text(m.syntax_rules) == "(syntax-rules ("@ + exprs_text(
            m.syntax_rules.syntax@,
        ) + ") "@ + pairs_text(m.syntax_rules.patterns@) + ")"@);
    }
}

/// The rules of a `syntax-rules` are written one per line, each as
/// `[pattern` newline `body]`: the pattern first, then the template.
pub proof fn law_rules_written(rules: Seq<PatternPair>)
    ensures
        rules.len() == 1 ==> pairs_text(rules) == "["@ + expr_text(rules[0].pattern) + "\n"@
            + expr_text(rules[0].body) + "]"@,
        rules.len() > 1 ==> pairs_text(rules) == pairs_text(rules.drop_last()) + "\n"@ + ("["@
            + expr_text(rules.last().pattern) + "\n"@ + expr_text(rules.last().body) + "]"@),
{
    if rules.len() == 1 {
        assert(pairs_text(rules) == pair_text(rules[0]));
    }
    if rules.len() > 1 {
        assert(rules.drop_last() == rules.subrange(0, rules.len() - 1));
        assert(pairs_text(rules) == pairs_text(rules.drop_last()) + "\n"@ + pair_text(rules.last()));
    }
}

} // verus!
