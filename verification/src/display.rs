//! The written form of expressions: every node is rendered as the
//! parenthesised form it was read from, with the sugar of `define`, `let`
//! and `'` expanded.
use vstd::prelude::*;

use crate::ast::{
    Apply, Begin, Define, Eval, Execute, ExprKind, If, LambdaFunction, List, Macro, Panic,
    PatternPair, Quote, Read, Return, SetBang, Struct, SyntaxRules, Transduce,
};
use crate::text::{join_strings, seq_join};
use crate::tokens::token_text;

verus! {

/// The written form of an expression.
pub open spec fn expr_text(e: ExprKind) -> Seq<char>
    decreases e,
{
    match e {
        ExprKind::Atom(a) => token_text(a.syn.ty),
        ExprKind::If(i) => if_text(*i),
        ExprKind::Define(d) => define_text(*d),
        ExprKind::LambdaFunction(l) => lambda_text(*l),
        ExprKind::Begin(b) => begin_text(b),
        ExprKind::Return(r) => return_text(*r),
        ExprKind::Apply(a) => apply_text(*a),
        ExprKind::Panic(p) => panic_text(*p),
        ExprKind::Transduce(t) => transduce_text(*t),
        ExprKind::Read(r) => read_text(*r),
        ExprKind::Execute(x) => execute_text(*x),
        ExprKind::Quote(q) => quote_text(*q),
        ExprKind::Struct(s) => struct_text(*s),
        ExprKind::Macro(m) => macro_text(m),
        ExprKind::SyntaxRules(s) => syntax_rules_text(s),
        ExprKind::Eval(x) => eval_text(*x),
        ExprKind::List(l) => list_text(l),
        ExprKind::SetBang(s) => set_text(*s),
    }
}

/// The written forms of `s`, separated by single spaces.
pub open spec fn exprs_text(s: Seq<ExprKind>) -> Seq<char>
    decreases s,
{
    if s.len() == 0 {
        seq![]
    } else if s.len() == 1 {
        expr_text(s[0])
    } else {
        exprs_text(s.subrange(0, s.len() - 1)) + " "@ + expr_text(s[s.len() - 1])
    }
}

/// `(if test then else)`
pub open spec fn if_text(i: If) -> Seq<char>
    decreases i,
{
    "(if "@ + expr_text(i.test_expr) + " "@ + expr_text(i.then_expr) + " "@ + expr_text(i.else_expr)
        + ")"@
}

/// `(define name body)`
pub open spec fn define_text(d: Define) -> Seq<char>
    decreases d,
{
    "(define "@ + expr_text(d.name) + " "@ + expr_text(d.body) + ")"@
}

/// `(lambda (args ...) body)`
pub open spec fn lambda_text(l: LambdaFunction) -> Seq<char>
    decreases l,
{
    "(lambda ("@ + exprs_text(l.args@) + ") "@ + expr_text(l.body) + ")"@
}

/// `(begin exprs ...)`
pub open spec fn begin_text(b: Begin) -> Seq<char>
    decreases b,
{
    "(begin "@ + exprs_text(b.exprs@) + ")"@
}

/// `(return! expr)`
pub open spec fn return_text(r: Return) -> Seq<char>
    decreases r,
{
    "(return! "@ + expr_text(r.expr) + ")"@
}

/// `(apply func list)`
pub open spec fn apply_text(a: Apply) -> Seq<char>
    decreases a,
{
    "(apply "@ + expr_text(a.func) + " "@ + expr_text(a.list) + ")"@
}

/// `(panic! message)`
pub open spec fn panic_text(p: Panic) -> Seq<char>
    decreases p,
{
    "(panic! "@ + expr_text(p.message) + ")"@
}

/// `(transduce transducer func initial-value iterable)`
pub open spec fn transduce_text(t: Transduce) -> Seq<char>
    decreases t,
{
    "(transduce "@ + expr_text(t.transducer) + " "@ + expr_text(t.func) + " "@ + expr_text(
        t.initial_value,
    ) + " "@ + expr_text(t.iterable) + ")"@
}

/// `(read expr)`
pub open spec fn read_text(r: Read) -> Seq<char>
    decreases r,
{
    "(read "@ + expr_text(r.expr) + ")"@
}

/// `(execute transducer collection)` or, with an output type,
/// `(execute transducer collection output-type)`
pub open spec fn execute_text(x: Execute) -> Seq<char>
    decreases x,
{
    match x.output_type {
        Some(o) => "(execute "@ + expr_text(x.transducer) + " "@ + expr_text(x.collection) + " "@
            + expr_text(o) + ")"@,
        None => "(execute "@ + expr_text(x.transducer) + " "@ + expr_text(x.collection) + ")"@,
    }
}

/// `(quote expr)`
pub open spec fn quote_text(q: Quote) -> Seq<char>
    decreases q,
{
    "(quote "@ + expr_text(q.expr) + ")"@
}

/// `(struct name (fields ...))`
pub open spec fn struct_text(s: Struct) -> Seq<char>
    decreases s,
{
    "(struct "@ + expr_text(s.name) + " ("@ + exprs_text(s.fields@) + "))"@
}

/// `(define-syntax name rules`: the closing parenthesis is not written.
pub open spec fn macro_text(m: Macro) -> Seq<char>
    decreases m,
{
    "(define-syntax "@ + expr_text(*m.name) + " "@ + syntax_rules_text(m.syntax_rules)
}

/// `(syntax-rules (syntax ...) rules)`, the rules separated by newlines.
pub open spec fn syntax_rules_text(s: SyntaxRules) -> Seq<char>
    decreases s,
{
    "(syntax-rules ("@ + exprs_text(s.syntax@) + ") "@ + pairs_text(s.patterns@) + ")"@
}

/// The written forms of the rules `s`, separated by newlines.
pub open spec fn pairs_text(s: Seq<PatternPair>) -> Seq<char>
    decreases s,
{
    if s.len() == 0 {
        seq![]
    } else if s.len() == 1 {
        pair_text(s[0])
    } else {
        pairs_text(s.subrange(0, s.len() - 1)) + "\n"@ + pair_text(s[s.len() - 1])
    }
}

/// `[pattern` newline `body]`
pub open spec fn pair_text(p: PatternPair) -> Seq<char>
    decreases p,
{
    "["@ + expr_text(p.pattern) + "\n"@ + expr_text(p.body) + "]"@
}

/// `(eval expr)`
pub open spec fn eval_text(x: Eval) -> Seq<char>
    decreases x,
{
    "(eval "@ + expr_text(x.expr) + ")"@
}

/// `(args ...)`
pub open spec fn list_text(l: List) -> Seq<char>
    decreases l,
{
    "("@ + exprs_text(l.args@) + ")"@
}

/// `(set! variable expr)`
pub open spec fn set_text(s: SetBang) -> Seq<char>
    decreases s,
{
    "(set! "@ + expr_text(s.variable) + " "@ + expr_text(s.expr) + ")"@
}


/// `seq_join` with a space of the written forms of `s` is `exprs_text(s)`.
pub proof fn lemma_exprs_join(s: Seq<ExprKind>, texts: Seq<Seq<char>>)
    requires
        texts.len() == s.len(),
        forall|i: int| 0 <= i < s.len() ==> #[trigger] texts[i] == expr_text(s[i]),
    ensures
        seq_join(texts, " "@) == exprs_text(s),
    decreases s.len(),
{
    if s.len() > 1 {
        lemma_exprs_join(s.subrange(0, s.len() - 1), texts.drop_last());
    }
}

/// `seq_join` with a newline of the written forms of `s` is `pairs_text(s)`.
pub proof fn lemma_pairs_join(s: Seq<PatternPair>, texts: Seq<Seq<char>>)
    requires
        texts.len() == s.len(),
        forall|i: int| 0 <= i < s.len() ==> #[trigger] texts[i] == pair_text(s[i]),
    ensures
        seq_join(texts, "\n"@) == pairs_text(s),
    decreases s.len(),
{
    if s.len() > 1 {
        lemma_pairs_join(s.subrange(0, s.len() - 1), texts.drop_last());
    }
}

/// The written forms of `args`, separated by single spaces.
pub fn exprs_to_string(args: &Vec<ExprKind>) -> (res: String)
    ensures
        res@ == exprs_text(args@),
    decreases args,
{
    let mut strings: Vec<String> = Vec::new();
    let mut i: usize = 0;
    while i < args.len()
        invariant
            i <= args@.len(),
            strings@.len() == i,
            forall|j: int| 0 <= j < i ==> #[trigger] strings@[j]@ == expr_text(args@[j]),
        decreases args@.len() - i,
    {
        let t = args[i].to_string();
        strings.push(t);
        i = i + 1;
    }
    let res = join_strings(&strings, " ");
    proof {
        let texts = strings@.map_values(|s: String| s@);
        lemma_exprs_join(args@, texts);
    }
    res
}

/// The written forms of the rules `pairs`, separated by newlines.
pub fn pairs_to_string(pairs: &Vec<PatternPair>) -> (res: String)
    ensures
        res@ == pairs_text(pairs@),
    decreases pairs,
{
    let mut strings: Vec<String> = Vec::new();
    let mut i: usize = 0;
    while i < pairs.len()
        invariant
            i <= pairs@.len(),
            strings@.len() == i,
            forall|j: int| 0 <= j < i ==> #[trigger] strings@[j]@ == pair_text(pairs@[j]),
        decreases pairs@.len() - i,
    {
        let t = pairs[i].to_string();
        strings.push(t);
        i = i + 1;
    }
    let res = join_strings(&strings, "\n");
    proof {
        let texts = strings@.map_values(|s: String| s@);
        lemma_pairs_join(pairs@, texts);
    }
    res
}

impl ExprKind {
    /// The written form of the expression (see `expr_text`).
    pub fn to_string(&self) -> (res: String)
        ensures
            res@ == expr_text(*self),
        decreases self,
    {
        match self {
            ExprKind::Atom(a) => a.to_string(),
            ExprKind::If(i) => i.to_string(),
            ExprKind::Define(d) => d.to_string(),
            ExprKind::LambdaFunction(l) => l.to_string(),
            ExprKind::Begin(b) => b.to_string(),
            ExprKind::Return(r) => r.to_string(),
            ExprKind::Apply(a) => a.to_string(),
            ExprKind::Panic(p) => p.to_string(),
            ExprKind::Transduce(t) => t.to_string(),
            ExprKind::Read(r) => r.to_string(),
            ExprKind::Execute(x) => x.to_string(),
            ExprKind::Quote(q) => q.to_string(),
            ExprKind::Struct(s) => s.to_string(),
            ExprKind::Macro(m) => m.to_string(),
            ExprKind::SyntaxRules(s) => s.to_string(),
            ExprKind::Eval(x) => x.to_string(),
            ExprKind::List(l) => l.to_string(),
            ExprKind::SetBang(s) => s.to_string(),
        }
    }
}

impl crate::ast::Atom {
    /// The written form of the atom's token.
    pub fn to_string(&self) -> (res: String)
        ensures
            res@ == token_text(self.syn.ty),
    {
        self.syn.ty.to_string()
    }
}

impl If {
    pub fn to_string(&self) -> (res: String)
        ensures
            res@ == if_text(*self),
            res@ == "(if "@ + expr_text(self.test_expr) + " "@ + expr_text(self.then_expr) + " "@
                + expr_text(self.else_expr) + ")"@,
        decreases self,
    {
        let mut res = String::from_str("(if ");
        res.append(self.test_expr.to_string().as_str());
        res.append(" ");
        res.append(self.then_expr.to_string().as_str());
        res.append(" ");
        res.append(self.else_expr.to_string().as_str());
        res.append(")");
        res
    }
}

impl Define {
    pub fn to_string(&self) -> (res: String)
        ensures
            res@ == define_text(*self),
            res@ == "(define "@ + expr_text(self.name) + " "@ + expr_text(self.body) + ")"@,
        decreases self,
    {
        let mut res = String::from_str("(define ");
        res.append(self.name.to_string().as_str());
        res.append(" ");
        res.append(self.body.to_string().as_str());
        res.append(")");
        res
    }
}

impl LambdaFunction {
    pub fn to_string(&self) -> (res: String)
        ensures
            res@ == lambda_text(*self),
        decreases self,
    {
        let mut res = String::from_str("(lambda (");
        res.append(exprs_to_string(&self.args).as_str());
        res.append(") ");
        res.append(self.body.to_string().as_str());
        res.append(")");
        res
    }
}

impl Begin {
    pub fn to_string(&self) -> (res: String)
        ensures
            res@ == begin_text(*self),
        decreases self,
    {
        let mut res = String::from_str("(begin ");
        res.append(exprs_to_string(&self.exprs).as_str());
        res.append(")");
        res
    }
}

impl Return {
    pub fn to_string(&self) -> (res: String)
        ensures
            res@ == return_text(*self),
        decreases self,
    {
        let mut res = String::from_str("(return! ");
        res.append(self.expr.to_string().as_str());
        res.append(")");
        res
    }
}

impl Apply {
    pub fn to_string(&self) -> (res: String)
        ensures
            res@ == apply_text(*self),
            res@ == "(apply "@ + expr_text(self.func) + " "@ + expr_text(self.list) + ")"@,
        decreases self,
    {
        let mut res = String::from_str("(apply ");
        res.append(self.func.to_string().as_str());
        res.append(" ");
        res.append(self.list.to_string().as_str());
        res.append(")");
        res
    }
}

impl Panic {
    pub fn to_string(&self) -> (res: String)
        ensures
            res@ == panic_text(*self),
        decreases self,
    {
        let mut res = String::from_str("(panic! ");
        res.append(self.message.to_string().as_str());
        res.append(")");
        res
    }
}

impl Transduce {
    pub fn to_string(&self) -> (res: String)
        ensures
            res@ == transduce_text(*self),
            res@ == "(transduce "@ + expr_text(self.transducer) + " "@ + expr_text(self.func) + " "@
                + expr_text(self.initial_value) + " "@ + expr_text(self.iterable) + ")"@,
        decreases self,
    {
        let mut res = String::from_str("(transduce ");
        res.append(self.transducer.to_string().as_str());
        res.append(" ");
        res.append(self.func.to_string().as_str());
        res.append(" ");
        res.append(self.initial_value.to_string().as_str());
        res.append(" ");
        res.append(self.iterable.to_string().as_str());
        res.append(")");
        res
    }
}

impl Read {
    pub fn to_string(&self) -> (res: String)
        ensures
            res@ == read_text(*self),
        decreases self,
    {
        let mut res = String::from_str("(read ");
        res.append(self.expr.to_string().as_str());
        res.append(")");
        res
    }
}

impl Execute {
    pub fn to_string(&self) -> (res: String)
        ensures
            res@ == execute_text(*self),
            self.output_type is None ==> res@ == "(execute "@ + expr_text(self.transducer) + " "@
                + expr_text(self.collection) + ")"@,
            self.output_type is Some ==> res@ == "(execute "@ + expr_text(self.transducer) + " "@
                + expr_text(self.collection) + " "@ + expr_text(self.output_type->Some_0) + ")"@,
        decreases self,
    {
        let mut res = String::from_str("(execute ");
        res.append(self.transducer.to_string().as_str());
        res.append(" ");
        res.append(self.collection.to_string().as_str());
        match &self.output_type {
            Some(o) => {
                res.append(" ");
                res.append(o.to_string().as_str());
            },
            None => {},
        }
        res.append(")");
        res
    }
}

impl Quote {
    pub fn to_string(&self) -> (res: String)
        ensures
            res@ == quote_text(*self),
        decreases self,
    {
        let mut res = String::from_str("(quote ");
        res.append(self.expr.to_string().as_str());
        res.append(")");
        res
    }
}

impl Struct {
    pub fn to_string(&self) -> (res: String)
        ensures
            res@ == struct_text(*self),
        decreases self,
    {
        let mut res = String::from_str("(struct ");
        res.append(self.name.to_string().as_str());
        res.append(" (");
        res.append(exprs_to_string(&self.fields).as_str());
        res.append("))");
        res
    }
}

impl Macro {
    pub fn to_string(&self) -> (res: String)
        ensures
            res@ == macro_text(*self),
        decreases self,
    {
        let mut res = String::from_str("(define-syntax ");
        res.append(self.name.to_string().as_str());
        res.append(" ");
        res.append(self.syntax_rules.to_string().as_str());
        res
    }
}

impl SyntaxRules {
    pub fn to_string(&self) -> (res: String)
        ensures
            res@ == syntax_rules_text(*self),
        decreases self,
    {
        let mut res = String::from_str("(syntax-rules (");
        res.append(exprs_to_string(&self.syntax).as_str());
        res.append(") ");
        res.append(pairs_to_string(&self.patterns).as_str());
        res.append(")");
        res
    }
}

impl PatternPair {
    pub fn to_string(&self) -> (res: String)
        ensures
            res@ == pair_text(*self),
            res@ == "["@ + expr_text(self.pattern) + "\n"@ + expr_text(self.body) + "]"@,
        decreases self,
    {
        let mut res = String::from_str("[");
        res.append(self.pattern.to_string().as_str());
        res.append("\n");
        res.append(self.body.to_string().as_str());
        res.append("]");
        res
    }
}

impl Eval {
    pub fn to_string(&self) -> (res: String)
        ensures
            res@ == eval_text(*self),
        decreases self,
    {
        let mut res = String::from_str("(eval ");
        res.append(self.expr.to_string().as_str());
        res.append(")");
        res
    }
}

impl List {
    pub fn to_string(&self) -> (res: String)
        ensures
            res@ == list_text(*self),
        decreases self,
    {
        let mut res = String::from_str("(");
        res.append(exprs_to_string(&self.args).as_str());
        res.append(")");
        res
    }
}

impl SetBang {
    pub fn to_string(&self) -> (res: String)
        ensures
            res@ == set_text(*self),
            res@ == "(set! "@ + expr_text(self.variable) + " "@ + expr_text(self.expr) + ")"@,
        decreases self,
    {
        let mut res = String::from_str("(set! ");
        res.append(self.variable.to_string().as_str());
        res.append(" ");
        res.append(self.expr.to_string().as_str());
        res.append(")");
        res
    }
}

} // verus!
