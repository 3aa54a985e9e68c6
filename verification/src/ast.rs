//! The expression tree: one node type per special form, the `ExprKind`
//! sum over them, their constructors, and the conversions of each node
//! into an `ExprKind`.
use vstd::prelude::*;

use crate::tokens::{SyntaxObject, TokenType};

verus! {

/// An expression: an atom, a plain list, or one of the special forms.
#[derive(Debug, PartialEq)]
pub enum ExprKind {
    Atom(Atom),
    If(Box<If>),
    Define(Box<Define>),
    LambdaFunction(Box<LambdaFunction>),
    Begin(Begin),
    Return(Box<Return>),
    Apply(Box<Apply>),
    Panic(Box<Panic>),
    Transduce(Box<Transduce>),
    Read(Box<Read>),
    Execute(Box<Execute>),
    Quote(Box<Quote>),
    Struct(Box<Struct>),
    Macro(Macro),
    SyntaxRules(SyntaxRules),
    Eval(Box<Eval>),
    List(List),
    SetBang(Box<SetBang>),
}

/// The identifier an expression is, if it is an identifier atom.
pub open spec fn identifier_of(e: ExprKind) -> Option<Seq<char>> {
    match e {
        ExprKind::Atom(a) => match a.syn.ty {
            TokenType::Identifier(s) => Some(s@),
            _ => None,
        },
        _ => None,
    }
}

impl ExprKind {
    /// The identifier this expression is, or the error that `err` makes
    /// when it is anything else.
    pub fn atom_identifier_or_else<E, F: FnOnce() -> E>(&self, err: F) -> (res: Result<&str, E>)
        requires
            err.requires(()),
        ensures
            match identifier_of(*self) {
                Some(s) => res matches Ok(r) && r@ == s,
                None => res matches Err(e) && err.ensures((), e),
            },
            match *self {
                ExprKind::Atom(a) => match a.syn.ty {
                    TokenType::Identifier(s) => res matches Ok(r) && r@ == s@,
                    _ => res matches Err(e) && err.ensures((), e),
                },
                _ => res matches Err(e) && err.ensures((), e),
            },
    {
        match self {
            ExprKind::Atom(a) => match &a.syn.ty {
                TokenType::Identifier(s) => Ok(s.as_str()),
                _ => Err(err()),
            },
            _ => Err(err()),
        }
    }

    /// The list this expression is, or the error that `err` makes when it
    /// is anything else.
    pub fn list_or_else<E, F: FnOnce() -> E>(&self, err: F) -> (res: Result<&List, E>)
        requires
            err.requires(()),
        ensures
            match *self {
                ExprKind::List(l) => res == Ok::<&List, E>(&l),
                _ => res matches Err(e) && err.ensures((), e),
            },
    {
        match self {
            ExprKind::List(l) => Ok(l),
            _ => Err(err()),
        }
    }
}

/// A single token: a literal, an identifier or a keyword.
#[derive(Debug, PartialEq)]
pub struct Atom {
    pub syn: SyntaxObject,
}

impl Atom {
    pub fn new(syn: SyntaxObject) -> (res: Self)
        ensures
            res == (Atom { syn }),
    {
        Atom { syn }
    }
}

/// `(set! variable expr)`
#[derive(Debug, PartialEq)]
pub struct SetBang {
    pub variable: ExprKind,
    pub expr: ExprKind,
    pub location: SyntaxObject,
}

impl SetBang {
    pub fn new(variable: ExprKind, expr: ExprKind, location: SyntaxObject) -> (res: Self)
        ensures
            res == (SetBang { variable, expr, location }),
    {
        SetBang { variable, expr, location }
    }
}

/// `(if test then else)`
#[derive(Debug, PartialEq)]
pub struct If {
    pub test_expr: ExprKind,
    pub then_expr: ExprKind,
    pub else_expr: ExprKind,
    pub location: SyntaxObject,
}

impl If {
    pub fn new(
        test_expr: ExprKind,
        then_expr: ExprKind,
        else_expr: ExprKind,
        location: SyntaxObject,
    ) -> (res: Self)
        ensures
            res == (If { test_expr, then_expr, else_expr, location }),
    {
        If { test_expr, then_expr, else_expr, location }
    }
}

/// `(define name body)`
#[derive(Debug, PartialEq)]
pub struct Define {
    pub name: ExprKind,
    pub body: ExprKind,
    pub location: SyntaxObject,
}

impl Define {
    pub fn new(name: ExprKind, body: ExprKind, location: SyntaxObject) -> (res: Self)
        ensures
            res == (Define { name, body, location }),
    {
        Define { name, body, location }
    }
}

/// `(lambda (args ...) body)`
#[derive(Debug, PartialEq)]
pub struct LambdaFunction {
    pub args: Vec<ExprKind>,
    pub body: ExprKind,
    pub location: SyntaxObject,
}

impl LambdaFunction {
    pub fn new(args: Vec<ExprKind>, body: ExprKind, location: SyntaxObject) -> (res: Self)
        ensures
            res == (LambdaFunction { args, body, location }),
    {
        LambdaFunction { args, body, location }
    }
}

/// `(begin exprs ...)`
#[derive(Debug, PartialEq)]
pub struct Begin {
    pub exprs: Vec<ExprKind>,
    pub location: SyntaxObject,
}

impl Begin {
    pub fn new(exprs: Vec<ExprKind>, location: SyntaxObject) -> (res: Self)
        ensures
            res == (Begin { exprs, location }),
    {
        Begin { exprs, location }
    }
}

/// `(return! expr)`
#[derive(Debug, PartialEq)]
pub struct Return {
    pub expr: ExprKind,
    pub location: SyntaxObject,
}

impl Return {
    pub fn new(expr: ExprKind, location: SyntaxObject) -> (res: Self)
        ensures
            res == (Return { expr, location }),
    {
        Return { expr, location }
    }
}

/// A parenthesised list that is no special form.
#[derive(Debug, PartialEq)]
pub struct List {
    pub args: Vec<ExprKind>,
}

impl List {
    pub fn new(args: Vec<ExprKind>) -> (res: Self)
        ensures
            res == (List { args }),
    {
        List { args }
    }

    pub fn is_empty(&self) -> (res: bool)
        ensures
            res == (self.args@.len() == 0),
    {
        self.args.is_empty()
    }

    /// The elements of the list, in order.
    pub fn as_slice(&self) -> (res: &[ExprKind])
        ensures
            res@ == self.args@,
    {
        self.args.as_slice()
    }

    /// The elements of the list, in order, taken out of it.
    pub fn into_vec(self) -> (res: Vec<ExprKind>)
        ensures
            res == self.args,
    {
        self.args
    }
}

impl core::ops::Deref for List {
    type Target = [ExprKind];

    fn deref(&self) -> (res: &[ExprKind])
        ensures
            res@ == self.args@,
    {
        self.args.as_slice()
    }
}

impl IntoIterator for List {
    type Item = ExprKind;
    type IntoIter = std::vec::IntoIter<ExprKind>;

    fn into_iter(self) -> (res: std::vec::IntoIter<ExprKind>)
        ensures
            res == vstd::std_specs::vec::spec_into_iter(self.args),
    {
        self.args.into_iter()
    }
}

/// `(apply func list)`
#[derive(Debug, PartialEq)]
pub struct Apply {
    pub func: ExprKind,
    pub list: ExprKind,
    pub location: SyntaxObject,
}

impl Apply {
    pub fn new(func: ExprKind, list: ExprKind, location: SyntaxObject) -> (res: Self)
        ensures
            res == (Apply { func, list, location }),
    {
        Apply { func, list, location }
    }
}

/// `(panic! message)`
#[derive(Debug, PartialEq)]
pub struct Panic {
    pub message: ExprKind,
    pub location: SyntaxObject,
}

impl Panic {
    pub fn new(message: ExprKind, location: SyntaxObject) -> (res: Self)
        ensures
            res == (Panic { message, location }),
    {
        Panic { message, location }
    }
}

/// `(transduce transducer func initial-value iterable)`
#[derive(Debug, PartialEq)]
pub struct Transduce {
    pub transducer: ExprKind,
    pub func: ExprKind,
    pub initial_value: ExprKind,
    pub iterable: ExprKind,
    pub location: SyntaxObject,
}

impl Transduce {
    pub fn new(
        transducer: ExprKind,
        func: ExprKind,
        initial_value: ExprKind,
        iterable: ExprKind,
        location: SyntaxObject,
    ) -> (res: Self)
        ensures
            res == (Transduce { transducer, func, initial_value, iterable, location }),
    {
        Transduce { transducer, func, initial_value, iterable, location }
    }
}

/// `(read expr)`
#[derive(Debug, PartialEq)]
pub struct Read {
    pub expr: ExprKind,
    pub location: SyntaxObject,
}

impl Read {
    pub fn new(expr: ExprKind, location: SyntaxObject) -> (res: Self)
        ensures
            res == (Read { expr, location }),
    {
        Read { expr, location }
    }
}

/// `(execute transducer collection [output-type])`
#[derive(Debug, PartialEq)]
pub struct Execute {
    pub transducer: ExprKind,
    pub collection: ExprKind,
    pub output_type: Option<ExprKind>,
    pub location: SyntaxObject,
}

impl Execute {
    pub fn new(
        transducer: ExprKind,
        collection: ExprKind,
        output_type: Option<ExprKind>,
        location: SyntaxObject,
    ) -> (res: Self)
        ensures
            res == (Execute { transducer, collection, output_type, location }),
    {
        Execute { transducer, collection, output_type, location }
    }
}

/// `(struct name (fields ...))`
#[derive(Debug, PartialEq)]
pub struct Struct {
    pub name: ExprKind,
    pub fields: Vec<ExprKind>,
    pub location: SyntaxObject,
}

impl Struct {
    pub fn new(name: ExprKind, fields: Vec<ExprKind>, location: SyntaxObject) -> (res: Self)
        ensures
            res == (Struct { name, fields, location }),
    {
        Struct { name, fields, location }
    }
}

/// `(quote expr)`, also written `'expr`
#[derive(Debug, PartialEq)]
pub struct Quote {
    pub expr: ExprKind,
    pub location: SyntaxObject,
}

impl Quote {
    pub fn new(expr: ExprKind, location: SyntaxObject) -> (res: Self)
        ensures
            res == (Quote { expr, location }),
    {
        Quote { expr, location }
    }
}

/// `(eval expr)`
#[derive(Debug, PartialEq)]
pub struct Eval {
    pub expr: ExprKind,
    pub location: SyntaxObject,
}

impl Eval {
    pub fn new(expr: ExprKind, location: SyntaxObject) -> (res: Self)
        ensures
            res == (Eval { expr, location }),
    {
        Eval { expr, location }
    }
}

/// `(define-syntax name (syntax-rules ...))`
#[derive(Debug, PartialEq)]
pub struct Macro {
    pub name: Box<ExprKind>,
    pub syntax_rules: SyntaxRules,
    pub location: SyntaxObject,
}

impl Macro {
    pub fn new(name: ExprKind, syntax_rules: SyntaxRules, location: SyntaxObject) -> (res: Self)
        ensures
            res == (Macro { name: Box::new(name), syntax_rules, location }),
    {
        Macro { name: Box::new(name), syntax_rules, location }
    }
}

/// `(syntax-rules (syntax ...) (pattern body) ...)`
#[derive(Debug, PartialEq)]
pub struct SyntaxRules {
    pub syntax: Vec<ExprKind>,
    pub patterns: Vec<PatternPair>,
    pub location: SyntaxObject,
}

impl SyntaxRules {
    pub fn new(syntax: Vec<ExprKind>, patterns: Vec<PatternPair>, location: SyntaxObject) -> (res:
        Self)
        ensures
            res == (SyntaxRules { syntax, patterns, location }),
    {
        SyntaxRules { syntax, patterns, location }
    }
}

/// One rule of a `syntax-rules`: a pattern and the body it expands to.
#[derive(Debug, PartialEq)]
pub struct PatternPair {
    pub pattern: ExprKind,
    pub body: ExprKind,
}

impl PatternPair {
    pub fn new(pattern: ExprKind, body: ExprKind) -> (res: Self)
        ensures
            res == (PatternPair { pattern, body }),
    {
        PatternPair { pattern, body }
    }
}


impl From<Atom> for ExprKind {
    fn from(v: Atom) -> (res: Self) {
        ExprKind::Atom(v)
    }
}

impl vstd::std_specs::convert::FromSpecImpl<Atom> for ExprKind {
    open spec fn obeys_from_spec() -> bool {
        true
    }

    open spec fn from_spec(v: Atom) -> Self {
        ExprKind::Atom(v)
    }
}

impl From<SetBang> for ExprKind {
    fn from(v: SetBang) -> (res: Self) {
        ExprKind::SetBang(Box::new(v))
    }
}

impl vstd::std_specs::convert::FromSpecImpl<SetBang> for ExprKind {
    open spec fn obeys_from_spec() -> bool {
        true
    }

    open spec fn from_spec(v: SetBang) -> Self {
        ExprKind::SetBang(Box::new(v))
    }
}

impl From<If> for ExprKind {
    fn from(v: If) -> (res: Self) {
        ExprKind::If(Box::new(v))
    }
}

impl vstd::std_specs::convert::FromSpecImpl<If> for ExprKind {
    open spec fn obeys_from_spec() -> bool {
        true
    }

    open spec fn from_spec(v: If) -> Self {
        ExprKind::If(Box::new(v))
    }
}

impl From<Define> for ExprKind {
    fn from(v: Define) -> (res: Self) {
        ExprKind::Define(Box::new(v))
    }
}

impl vstd::std_specs::convert::FromSpecImpl<Define> for ExprKind {
    open spec fn obeys_from_spec() -> bool {
        true
    }

    open spec fn from_spec(v: Define) -> Self {
        ExprKind::Define(Box::new(v))
    }
}

impl From<LambdaFunction> for ExprKind {
    fn from(v: LambdaFunction) -> (res: Self) {
        ExprKind::LambdaFunction(Box::new(v))
    }
}

impl vstd::std_specs::convert::FromSpecImpl<LambdaFunction> for ExprKind {
    open spec fn obeys_from_spec() -> bool {
        true
    }

    open spec fn from_spec(v: LambdaFunction) -> Self {
        ExprKind::LambdaFunction(Box::new(v))
    }
}

impl From<Begin> for ExprKind {
    fn from(v: Begin) -> (res: Self) {
        ExprKind::Begin(v)
    }
}

impl vstd::std_specs::convert::FromSpecImpl<Begin> for ExprKind {
    open spec fn obeys_from_spec() -> bool {
        true
    }

    open spec fn from_spec(v: Begin) -> Self {
        ExprKind::Begin(v)
    }
}

impl From<Return> for ExprKind {
    fn from(v: Return) -> (res: Self) {
        ExprKind::Return(Box::new(v))
    }
}

impl vstd::std_specs::convert::FromSpecImpl<Return> for ExprKind {
    open spec fn obeys_from_spec() -> bool {
        true
    }

    open spec fn from_spec(v: Return) -> Self {
        ExprKind::Return(Box::new(v))
    }
}

impl From<List> for ExprKind {
    fn from(v: List) -> (res: Self) {
        ExprKind::List(v)
    }
}

impl vstd::std_specs::convert::FromSpecImpl<List> for ExprKind {
    open spec fn obeys_from_spec() -> bool {
        true
    }

    open spec fn from_spec(v: List) -> Self {
        ExprKind::List(v)
    }
}

impl From<Apply> for ExprKind {
    fn from(v: Apply) -> (res: Self) {
        ExprKind::Apply(Box::new(v))
    }
}

impl vstd::std_specs::convert::FromSpecImpl<Apply> for ExprKind {
    open spec fn obeys_from_spec() -> bool {
        true
    }

    open spec fn from_spec(v: Apply) -> Self {
        ExprKind::Apply(Box::new(v))
    }
}

impl From<Panic> for ExprKind {
    fn from(v: Panic) -> (res: Self) {
        ExprKind::Panic(Box::new(v))
    }
}

impl vstd::std_specs::convert::FromSpecImpl<Panic> for ExprKind {
    open spec fn obeys_from_spec() -> bool {
        true
    }

    open spec fn from_spec(v: Panic) -> Self {
        ExprKind::Panic(Box::new(v))
    }
}

impl From<Transduce> for ExprKind {
    fn from(v: Transduce) -> (res: Self) {
        ExprKind::Transduce(Box::new(v))
    }
}

impl vstd::std_specs::convert::FromSpecImpl<Transduce> for ExprKind {
    open spec fn obeys_from_spec() -> bool {
        true
    }

    open spec fn from_spec(v: Transduce) -> Self {
        ExprKind::Transduce(Box::new(v))
    }
}

impl From<Read> for ExprKind {
    fn from(v: Read) -> (res: Self) {
        ExprKind::Read(Box::new(v))
    }
}

impl vstd::std_specs::convert::FromSpecImpl<Read> for ExprKind {
    open spec fn obeys_from_spec() -> bool {
        true
    }

    open spec fn from_spec(v: Read) -> Self {
        ExprKind::Read(Box::new(v))
    }
}

impl From<Execute> for ExprKind {
    fn from(v: Execute) -> (res: Self) {
        ExprKind::Execute(Box::new(v))
    }
}

impl vstd::std_specs::convert::FromSpecImpl<Execute> for ExprKind {
    open spec fn obeys_from_spec() -> bool {
        true
    }

    open spec fn from_spec(v: Execute) -> Self {
        ExprKind::Execute(Box::new(v))
    }
}

impl From<Struct> for ExprKind {
    fn from(v: Struct) -> (res: Self) {
        ExprKind::Struct(Box::new(v))
    }
}

impl vstd::std_specs::convert::FromSpecImpl<Struct> for ExprKind {
    open spec fn obeys_from_spec() -> bool {
        true
    }

    open spec fn from_spec(v: Struct) -> Self {
        ExprKind::Struct(Box::new(v))
    }
}

impl From<Quote> for ExprKind {
    fn from(v: Quote) -> (res: Self) {
        ExprKind::Quote(Box::new(v))
    }
}

impl vstd::std_specs::convert::FromSpecImpl<Quote> for ExprKind {
    open spec fn obeys_from_spec() -> bool {
        true
    }

    open spec fn from_spec(v: Quote) -> Self {
        ExprKind::Quote(Box::new(v))
    }
}

impl From<Eval> for ExprKind {
    fn from(v: Eval) -> (res: Self) {
        ExprKind::Eval(Box::new(v))
    }
}

impl vstd::std_specs::convert::FromSpecImpl<Eval> for ExprKind {
    open spec fn obeys_from_spec() -> bool {
        true
    }

    open spec fn from_spec(v: Eval) -> Self {
        ExprKind::Eval(Box::new(v))
    }
}

impl From<Macro> for ExprKind {
    fn from(v: Macro) -> (res: Self) {
        ExprKind::Macro(v)
    }
}

impl vstd::std_specs::convert::FromSpecImpl<Macro> for ExprKind {
    open spec fn obeys_from_spec() -> bool {
        true
    }

    open spec fn from_spec(v: Macro) -> Self {
        ExprKind::Macro(v)
    }
}

impl From<SyntaxRules> for ExprKind {
    fn from(v: SyntaxRules) -> (res: Self) {
        ExprKind::SyntaxRules(v)
    }
}

impl vstd::std_specs::convert::FromSpecImpl<SyntaxRules> for ExprKind {
    open spec fn obeys_from_spec() -> bool {
        true
    }

    open spec fn from_spec(v: SyntaxRules) -> Self {
        ExprKind::SyntaxRules(v)
    }
}

} // verus!
