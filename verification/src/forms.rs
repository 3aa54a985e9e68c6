//! The special forms: how a parenthesised list whose head is a keyword
//! becomes a typed node, and the errors for malformed forms.
use vstd::prelude::*;

use crate::ast::{
    identifier_of, Apply, Begin, Define, Eval, Execute, ExprKind, If, LambdaFunction, List, Macro,
    Panic, PatternPair, Quote, Read, Return, SetBang, Struct, SyntaxRules, Transduce,
};
use crate::text::{nat_text, push_nat};
use crate::tokens::{Span, SyntaxObject, TokenError, TokenType};

verus! {

/// Why source text or a list could not be turned into an expression.
#[derive(Clone, Debug, PartialEq)]
pub enum ParseError {
    /// A closing parenthesis with no open list, or one too few.
    MismatchedParen(TokenType, Span),
    /// The text ended inside a list or after a quote tick.
    UnexpectedEOF(TokenType),
    /// The text could not be cut into tokens.
    Lex(TokenError),
    /// A special form of the wrong shape.
    SyntaxError(String, Span),
    /// A special form with the wrong number of parts.
    ArityMismatch(String, Span),
}

pub const IF_NO_TEST: &'static str = "if expects a test condition, found none";
pub const IF_NO_THEN: &'static str = "if expects a then condition, found none";
pub const IF_NO_ELSE: &'static str = "if expects an else condition, found none";
pub const IF_TOO_MANY: &'static str = "if takes only 3 expressions";
pub const DEFINE_NO_NAME: &'static str = "define expects an identifier, found none";
pub const DEFINE_NO_FUNCTION_NAME: &'static str = "define expected a function name, found none";
pub const DEFINE_NO_BODY: &'static str = "define statement expected a body, found none";
pub const DEFINE_ONE_EXPR: &'static str = "Define expected only one expression after the identifier";
pub const DEFINE_BAD_NAME: &'static str =
    "Define expects either an identifier or a list with the function name and arguments";
pub const DATUM_SYNTAX: &'static str = "datum->syntax";
pub const LET_NO_BINDINGS: &'static str =
    "let expected a list of variable bindings pairs in the second position, found none";
pub const LET_BINDINGS_NOT_LIST: &'static str =
    "let expects a list of variable bindings pairs in the second position";
pub const LET_NO_BODY: &'static str = "let expects an expression, found none";
pub const LET_PAIR_LENGTH: &'static str =
    "let expected a list of variable binding pairs, found a pair with length ";
pub const LET_PAIR_NOT_LIST: &'static str = "let expected a list of variable binding pairs";
pub const TRANSDUCE_NO_TRANSDUCER: &'static str = "transducer expected a transducer, found none";
pub const TRANSDUCE_NO_FUNCTION: &'static str = "transducer expected a function, found none";
pub const TRANSDUCE_NO_INITIAL: &'static str = "transducer expected a initial value, found none";
pub const TRANSDUCE_NO_ITERABLE: &'static str = "transducer expected an iterable, found none";
pub const TRANSDUCE_ARITY: &'static str = "Transduce expected 4 arguments";
pub const QUOTE_NONE: &'static str = "quote expected one argument, found none";
pub const QUOTE_TOO_MANY: &'static str = "quote expects only one argument";
pub const EXECUTE_NO_TRANSDUCER: &'static str =
    "execute expects 2 (or possibly 3) arguments, and a transducer in the first position, found none";
pub const EXECUTE_NO_COLLECTION: &'static str =
    "execute expects 2 (or possibly 3) arguments, and a collection in the second position, found none";
pub const EXECUTE_TOO_MANY: &'static str = "execute takes at most 3 arguments";
pub const RETURN_NONE: &'static str = "return expected one argument, found none";
pub const RETURN_TOO_MANY: &'static str = "return expects only one argument";
pub const PANIC_NONE: &'static str = "panic expected one argument, found none";
pub const EVAL_ARITY: &'static str = "eval expected an expression";
pub const READ_ARITY: &'static str = "read expected an expression";
pub const SET_ARITY: &'static str = "set! expects an identifier and an expression";
pub const APPLY_ARITY: &'static str =
    "apply expects a symbol (for a function) and a list of fields, found ";
pub const STRUCT_ARITY: &'static str = "struct expects a name and a list of fields, found ";
pub const ARGUMENTS_INSTEAD: &'static str = " arguments instead";
pub const STRUCT_FIELDS: &'static str = "struct expected a list of field names";
pub const LAMBDA_ARITY: &'static str =
    "lambda expected at least 2 arguments - the bindings list and one or more expressions, found ";
pub const INSTEAD: &'static str = " instead";
pub const LAMBDA_ARG_NOT_ATOM: &'static str = "lambda function expects a list of identifiers";
pub const LAMBDA_ARGS_NOT_LIST: &'static str = "lambda function expected a list of identifiers";
pub const DEFINE_SYNTAX_ARITY: &'static str =
    "define-syntax expects 2 arguments - the name of the macro and the syntax-rules, found ";
pub const DEFINE_SYNTAX_RULES: &'static str = "define-syntax expected a syntax-rules object";
pub const SYNTAX_RULES_ARITY: &'static str =
    "syntax-rules expects a list of introduced syntax, and at least one pattern-body pair, found ";
pub const ARGUMENTS: &'static str = " arguments";
pub const SYNTAX_RULES_NOT_LIST: &'static str =
    "syntax-rules expects a list of new syntax forms used in the macro";
pub const SYNTAX_RULES_PAIR_LENGTH: &'static str =
    "syntax-rules requires only one pattern to one body";
pub const SYNTAX_RULES_PAIR_NOT_LIST: &'static str =
    "syntax-rules requires pattern to expressions to be in a list";
pub const PANIC_TOO_MANY: &'static str = "panic expects only one argument";

/// `r` is a syntax error with the message `msg` at `span`.
pub open spec fn is_syntax_error(r: Result<ExprKind, ParseError>, msg: Seq<char>, span: Span) -> bool {
    r matches Err(ParseError::SyntaxError(m, s)) && m@ == msg && s == span
}

/// `r` is an arity error with the message `msg` at `span`.
pub open spec fn is_arity_error(r: Result<ExprKind, ParseError>, msg: Seq<char>, span: Span) -> bool {
    r matches Err(ParseError::ArityMismatch(m, s)) && m@ == msg && s == span
}

/// The syntax object of a block that the forms wrap round a body of
/// several expressions: a `begin` token at no place in the source.
pub open spec fn implicit_begin() -> SyntaxObject {
    SyntaxObject { ty: TokenType::Begin, span: Span { start: 0, end: 0 } }
}

/// `b` is the body made of `exprs`: the expression itself when there is
/// exactly one, else a `begin` block of all of them.
pub open spec fn is_body_of(b: ExprKind, exprs: Seq<ExprKind>) -> bool {
    if exprs.len() == 1 {
        b == exprs[0]
    } else {
        b matches ExprKind::Begin(bg) && bg.exprs@ == exprs && bg.location == implicit_begin()
    }
}

/// `(if test then else)`: exactly three parts after the keyword.
pub open spec fn if_form(v: Seq<ExprKind>, syn: SyntaxObject, r: Result<ExprKind, ParseError>) -> bool {
    if v.len() < 2 {
        is_syntax_error(r, IF_NO_TEST@, syn.span)
    } else if v.len() < 3 {
        is_syntax_error(r, IF_NO_THEN@, syn.span)
    } else if v.len() < 4 {
        is_syntax_error(r, IF_NO_ELSE@, syn.span)
    } else if v.len() > 4 {
        is_syntax_error(r, IF_TOO_MANY@, syn.span)
    } else {
        r == Ok::<ExprKind, ParseError>(
            ExprKind::If(
                Box::new(If { test_expr: v[1], then_expr: v[2], else_expr: v[3], location: syn }),
            ),
        )
    }
}

/// The head of a `define` names the identifier `datum->syntax`.
pub open spec fn is_datum_syntax(e: ExprKind) -> bool {
    identifier_of(e) == Some(DATUM_SYNTAX@)
}

/// `(define name body)` with exactly one body expression, `name` given.
pub open spec fn define_value_form(
    v: Seq<ExprKind>,
    name: ExprKind,
    syn: SyntaxObject,
    r: Result<ExprKind, ParseError>,
) -> bool {
    if v.len() < 3 {
        is_syntax_error(r, DEFINE_NO_BODY@, syn.span)
    } else if v.len() > 3 {
        is_syntax_error(r, DEFINE_ONE_EXPR@, syn.span)
    } else {
        r == Ok::<ExprKind, ParseError>(
            ExprKind::Define(Box::new(Define { name, body: v[2], location: syn })),
        )
    }
}

/// `(define (name args ...) body ...)` is `(define name (lambda (args ...)
/// body ...))`, the lambda located at the `define`'s span.
pub open spec fn define_function_form(
    v: Seq<ExprKind>,
    header: Seq<ExprKind>,
    syn: SyntaxObject,
    r: Result<ExprKind, ParseError>,
) -> bool {
    &&& r matches Ok(ExprKind::Define(d))
    &&& d.name == header[0]
    &&& d.location == syn
    &&& d.body matches ExprKind::LambdaFunction(f)
    &&& f.args@ == header.drop_first()
    &&& is_body_of(f.body, v.subrange(2, v.len() as int))
    &&& f.location == (SyntaxObject { ty: TokenType::Lambda, span: syn.span })
}

/// `(define ...)`: a value definition when the second part is an atom, a
/// function definition when it is a list headed by the function's name.
pub open spec fn define_form(v: Seq<ExprKind>, syn: SyntaxObject, r: Result<ExprKind, ParseError>) -> bool {
    if v.len() < 2 {
        is_syntax_error(r, DEFINE_NO_NAME@, syn.span)
    } else {
        match v[1] {
            ExprKind::List(l) => if l.args@.len() == 0 {
                is_syntax_error(r, DEFINE_NO_FUNCTION_NAME@, syn.span)
            } else if is_datum_syntax(l.args@[0]) {
                define_value_form(v, v[1], syn, r)
            } else {
                define_function_form(v, l.args@, syn, r)
            },
            ExprKind::Atom(_) => define_value_form(v, v[1], syn, r),
            _ => is_syntax_error(r, DEFINE_BAD_NAME@, syn.span),
        }
    }
}

/// A binding of a `let`: a list of exactly two expressions.
pub open spec fn is_pair(p: ExprKind) -> bool {
    p matches ExprKind::List(l) && l.args@.len() == 2
}

/// The bound name of a binding.
pub open spec fn pair_first(p: ExprKind) -> ExprKind
    recommends
        is_pair(p),
{
    match p {
        ExprKind::List(l) => l.args@[0],
        _ => p,
    }
}

/// The bound value of a binding.
pub open spec fn pair_second(p: ExprKind) -> ExprKind
    recommends
        is_pair(p),
{
    match p {
        ExprKind::List(l) => l.args@[1],
        _ => p,
    }
}

/// The error for a malformed binding `p`.
pub open spec fn binding_error(p: ExprKind, span: Span, r: Result<ExprKind, ParseError>) -> bool {
    match p {
        ExprKind::List(l) => is_syntax_error(r, LET_PAIR_LENGTH@ + nat_text(l.args@.len()), span),
        _ => is_syntax_error(r, LET_PAIR_NOT_LIST@, span),
    }
}

/// `pairs[i]` is the first malformed binding.
pub open spec fn first_non_pair(pairs: Seq<ExprKind>, i: int) -> bool {
    &&& 0 <= i < pairs.len()
    &&& !is_pair(pairs[i])
    &&& forall|j: int| 0 <= j < i ==> #[trigger] is_pair(pairs[j])
}

/// `(let ((name value) ...) body ...)` is `((lambda (name ...) body ...)
/// value ...)`: a list whose head is the lambda and whose tail is the bound
/// values, in order.
pub open spec fn let_form(v: Seq<ExprKind>, syn: SyntaxObject, r: Result<ExprKind, ParseError>) -> bool {
    if v.len() < 2 {
        is_syntax_error(r, LET_NO_BINDINGS@, syn.span)
    } else {
        match v[1] {
            ExprKind::List(l) => if v.len() < 3 {
                is_syntax_error(r, LET_NO_BODY@, syn.span)
            } else if forall|i: int| 0 <= i < l.args@.len() ==> #[trigger] is_pair(l.args@[i]) {
                &&& r matches Ok(ExprKind::List(out))
                &&& out.args@.len() == l.args@.len() + 1
                &&& out.args@[0] matches ExprKind::LambdaFunction(f)
                &&& f.args@ == l.args@.map_values(|p: ExprKind| pair_first(p))
                &&& is_body_of(f.body, v.subrange(2, v.len() as int))
                &&& f.location == syn
                &&& out.args@.drop_first() == l.args@.map_values(|p: ExprKind| pair_second(p))
            } else {
                exists|i: int| first_non_pair(l.args@, i) && binding_error(l.args@[i], syn.span, r)
            },
            _ => is_syntax_error(r, LET_BINDINGS_NOT_LIST@, syn.span),
        }
    }
}

/// `(transduce transducer func initial iterable)`: exactly four parts.
pub open spec fn transduce_form(v: Seq<ExprKind>, syn: SyntaxObject, r: Result<ExprKind, ParseError>) -> bool {
    if v.len() < 2 {
        is_syntax_error(r, TRANSDUCE_NO_TRANSDUCER@, syn.span)
    } else if v.len() < 3 {
        is_syntax_error(r, TRANSDUCE_NO_FUNCTION@, syn.span)
    } else if v.len() < 4 {
        is_syntax_error(r, TRANSDUCE_NO_INITIAL@, syn.span)
    } else if v.len() < 5 {
        is_syntax_error(r, TRANSDUCE_NO_ITERABLE@, syn.span)
    } else if v.len() > 5 {
        is_arity_error(r, TRANSDUCE_ARITY@, syn.span)
    } else {
        r == Ok::<ExprKind, ParseError>(
            ExprKind::Transduce(
                Box::new(
                    Transduce {
                        transducer: v[1],
                        func: v[2],
                        initial_value: v[3],
                        iterable: v[4],
                        location: syn,
                    },
                ),
            ),
        )
    }
}

/// A form of exactly one argument: `none` when it is missing (an arity
/// error), `too_many` when there are more (a syntax error).
pub open spec fn one_argument(
    v: Seq<ExprKind>,
    syn: SyntaxObject,
    r: Result<ExprKind, ParseError>,
    none: Seq<char>,
    too_many: Seq<char>,
    node: ExprKind,
) -> bool {
    if v.len() < 2 {
        is_arity_error(r, none, syn.span)
    } else if v.len() > 2 {
        is_syntax_error(r, too_many, syn.span)
    } else {
        r == Ok::<ExprKind, ParseError>(node)
    }
}

/// `(quote expr)`
pub open spec fn quote_form(v: Seq<ExprKind>, syn: SyntaxObject, r: Result<ExprKind, ParseError>) -> bool {
    one_argument(
        v,
        syn,
        r,
        QUOTE_NONE@,
        QUOTE_TOO_MANY@,
        ExprKind::Quote(Box::new(Quote { expr: v[1], location: syn })),
    )
}

/// `(return! expr)`
pub open spec fn return_form(v: Seq<ExprKind>, syn: SyntaxObject, r: Result<ExprKind, ParseError>) -> bool {
    one_argument(
        v,
        syn,
        r,
        RETURN_NONE@,
        RETURN_TOO_MANY@,
        ExprKind::Return(Box::new(Return { expr: v[1], location: syn })),
    )
}

/// `(panic! message)`
pub open spec fn panic_form(v: Seq<ExprKind>, syn: SyntaxObject, r: Result<ExprKind, ParseError>) -> bool {
    one_argument(
        v,
        syn,
        r,
        PANIC_NONE@,
        PANIC_TOO_MANY@,
        ExprKind::Panic(Box::new(Panic { message: v[1], location: syn })),
    )
}

/// `(execute transducer collection [output-type])`
pub open spec fn execute_form(v: Seq<ExprKind>, syn: SyntaxObject, r: Result<ExprKind, ParseError>) -> bool {
    if v.len() < 2 {
        is_arity_error(r, EXECUTE_NO_TRANSDUCER@, syn.span)
    } else if v.len() < 3 {
        is_arity_error(r, EXECUTE_NO_COLLECTION@, syn.span)
    } else if v.len() > 4 {
        is_syntax_error(r, EXECUTE_TOO_MANY@, syn.span)
    } else {
        r == Ok::<ExprKind, ParseError>(
            ExprKind::Execute(
                Box::new(
                    Execute {
                        transducer: v[1],
                        collection: v[2],
                        output_type: if v.len() == 4 {
                            Some(v[3])
                        } else {
                            None
                        },
                        location: syn,
                    },
                ),
            ),
        )
    }
}

/// `(eval expr)`: exactly one argument.
pub open spec fn eval_form(v: Seq<ExprKind>, syn: SyntaxObject, r: Result<ExprKind, ParseError>) -> bool {
    if v.len() != 2 {
        is_arity_error(r, EVAL_ARITY@, syn.span)
    } else {
        r == Ok::<ExprKind, ParseError>(ExprKind::Eval(Box::new(Eval { expr: v[1], location: syn })))
    }
}

/// `(read expr)`: exactly one argument.
pub open spec fn read_form(v: Seq<ExprKind>, syn: SyntaxObject, r: Result<ExprKind, ParseError>) -> bool {
    if v.len() != 2 {
        is_arity_error(r, READ_ARITY@, syn.span)
    } else {
        r == Ok::<ExprKind, ParseError>(ExprKind::Read(Box::new(Read { expr: v[1], location: syn })))
    }
}

/// `(set! variable expr)`: exactly two arguments.
pub open spec fn set_form(v: Seq<ExprKind>, syn: SyntaxObject, r: Result<ExprKind, ParseError>) -> bool {
    if v.len() != 3 {
        is_arity_error(r, SET_ARITY@, syn.span)
    } else {
        r == Ok::<ExprKind, ParseError>(
            ExprKind::SetBang(Box::new(SetBang { variable: v[1], expr: v[2], location: syn })),
        )
    }
}

/// `(apply func list)`: exactly two arguments.
pub open spec fn apply_form(v: Seq<ExprKind>, syn: SyntaxObject, r: Result<ExprKind, ParseError>) -> bool {
    if v.len() != 3 {
        is_arity_error(r, APPLY_ARITY@ + nat_text(v.len()) + ARGUMENTS_INSTEAD@, syn.span)
    } else {
        r == Ok::<ExprKind, ParseError>(
            ExprKind::Apply(Box::new(Apply { func: v[1], list: v[2], location: syn })),
        )
    }
}

/// `(struct name (fields ...))`: a name and a list of fields.
pub open spec fn struct_form(v: Seq<ExprKind>, syn: SyntaxObject, r: Result<ExprKind, ParseError>) -> bool {
    if v.len() != 3 {
        is_arity_error(r, STRUCT_ARITY@ + nat_text(v.len()) + ARGUMENTS_INSTEAD@, syn.span)
    } else {
        match v[2] {
            ExprKind::List(l) => r == Ok::<ExprKind, ParseError>(
                ExprKind::Struct(Box::new(Struct { name: v[1], fields: l.args, location: syn })),
            ),
            _ => is_syntax_error(r, STRUCT_FIELDS@, syn.span),
        }
    }
}

/// `(begin exprs ...)`: any number of expressions.
pub open spec fn begin_form(v: Seq<ExprKind>, syn: SyntaxObject, r: Result<ExprKind, ParseError>) -> bool {
    &&& r matches Ok(ExprKind::Begin(b))
    &&& b.exprs@ == v.drop_first()
    &&& b.location == syn
}

/// An expression is an atom.
pub open spec fn is_atom(e: ExprKind) -> bool {
    e is Atom
}

/// `(lambda (args ...) body ...)`: a list of atoms and at least one body
/// expression.
pub open spec fn lambda_form(v: Seq<ExprKind>, syn: SyntaxObject, r: Result<ExprKind, ParseError>) -> bool {
    if v.len() < 3 {
        is_syntax_error(r, LAMBDA_ARITY@ + nat_text(v.len()) + INSTEAD@, syn.span)
    } else {
        match v[1] {
            ExprKind::List(l) => if forall|i: int| 0 <= i < l.args@.len() ==> #[trigger] is_atom(l.args@[i]) {
                &&& r matches Ok(ExprKind::LambdaFunction(f))
                &&& f.args == l.args
                &&& is_body_of(f.body, v.subrange(2, v.len() as int))
                &&& f.location == syn
            } else {
                is_syntax_error(r, LAMBDA_ARG_NOT_ATOM@, syn.span)
            },
            _ => is_syntax_error(r, LAMBDA_ARGS_NOT_LIST@, syn.span),
        }
    }
}

/// `(define-syntax name rules)`: at least two arguments, the second a
/// `syntax-rules` node; further arguments are ignored.
pub open spec fn define_syntax_form(v: Seq<ExprKind>, syn: SyntaxObject, r: Result<ExprKind, ParseError>) -> bool {
    if v.len() < 3 {
        is_syntax_error(r, DEFINE_SYNTAX_ARITY@ + nat_text(v.len()), syn.span)
    } else {
        match v[2] {
            ExprKind::SyntaxRules(s) => r == Ok::<ExprKind, ParseError>(
                ExprKind::Macro(Macro { name: Box::new(v[1]), syntax_rules: s, location: syn }),
            ),
            _ => is_syntax_error(r, DEFINE_SYNTAX_RULES@, syn.span),
        }
    }
}

/// The pattern pair that a two-element list stands for.
pub open spec fn pattern_pair_of(p: ExprKind) -> PatternPair {
    PatternPair { pattern: pair_first(p), body: pair_second(p) }
}

/// The error for a malformed rule `p` of a `syntax-rules`.
pub open spec fn rule_error(p: ExprKind, span: Span, r: Result<ExprKind, ParseError>) -> bool {
    match p {
        ExprKind::List(_) => is_syntax_error(r, SYNTAX_RULES_PAIR_LENGTH@, span),
        _ => is_syntax_error(r, SYNTAX_RULES_PAIR_NOT_LIST@, span),
    }
}

/// `(syntax-rules (syntax ...) (pattern body) ...)`: a list of syntax
/// forms and at least one rule, each a two-element list.
pub open spec fn syntax_rules_form(v: Seq<ExprKind>, syn: SyntaxObject, r: Result<ExprKind, ParseError>) -> bool {
    if v.len() < 3 {
        is_syntax_error(r, SYNTAX_RULES_ARITY@ + nat_text(v.len()) + ARGUMENTS@, syn.span)
    } else {
        let rules = v.subrange(2, v.len() as int);
        match v[1] {
            ExprKind::List(l) => if forall|i: int| 0 <= i < rules.len() ==> #[trigger] is_pair(rules[i]) {
                &&& r matches Ok(ExprKind::SyntaxRules(s))
                &&& s.syntax == l.args
                &&& s.patterns@ == rules.map_values(|p: ExprKind| pattern_pair_of(p))
                &&& s.location == syn
            } else {
                exists|i: int| first_non_pair(rules, i) && rule_error(rules[i], syn.span, r)
            },
            _ => is_syntax_error(r, SYNTAX_RULES_NOT_LIST@, syn.span),
        }
    }
}

/// `r` is the plain list of the expressions `v`.
pub open spec fn is_plain_list(v: Seq<ExprKind>, r: Result<ExprKind, ParseError>) -> bool {
    r matches Ok(ExprKind::List(l)) && l.args@ == v
}

/// The form that the keyword of `syn` introduces; a list whose head is no
/// keyword of a special form stays a plain list.
pub open spec fn keyword_form(v: Seq<ExprKind>, syn: SyntaxObject, r: Result<ExprKind, ParseError>) -> bool {
    match syn.ty {
        TokenType::If => if_form(v, syn, r),
        TokenType::Define => define_form(v, syn, r),
        TokenType::Let => let_form(v, syn, r),
        TokenType::Transduce => transduce_form(v, syn, r),
        TokenType::Quote => quote_form(v, syn, r),
        TokenType::Execute => execute_form(v, syn, r),
        TokenType::Return => return_form(v, syn, r),
        TokenType::Eval => eval_form(v, syn, r),
        TokenType::Read => read_form(v, syn, r),
        TokenType::SetBang => set_form(v, syn, r),
        TokenType::Apply => apply_form(v, syn, r),
        TokenType::Struct => struct_form(v, syn, r),
        TokenType::Begin => begin_form(v, syn, r),
        TokenType::Panic => panic_form(v, syn, r),
        TokenType::Lambda => lambda_form(v, syn, r),
        TokenType::DefineSyntax => define_syntax_form(v, syn, r),
        TokenType::SyntaxRules => syntax_rules_form(v, syn, r),
        _ => is_plain_list(v, r),
    }
}

/// What a parenthesised list of expressions `v` turns into: the special
/// form of its head keyword, or else the plain list.
pub open spec fn list_form(v: Seq<ExprKind>, r: Result<ExprKind, ParseError>) -> bool {
    if v.len() == 0 {
        is_plain_list(v, r)
    } else {
        match v[0] {
            ExprKind::Atom(a) => keyword_form(v, a.syn, r),
            _ => is_plain_list(v, r),
        }
    }
}

/// A syntax error with message `msg` at `span`.
pub fn syntax_error(msg: &str, span: Span) -> (e: ParseError)
    ensures
        e matches ParseError::SyntaxError(m, s) && m@ == msg@ && s == span,
{
    ParseError::SyntaxError(String::from_str(msg), span)
}

/// An arity error with message `msg` at `span`.
pub fn arity_error(msg: &str, span: Span) -> (e: ParseError)
    ensures
        e matches ParseError::ArityMismatch(m, s) && m@ == msg@ && s == span,
{
    ParseError::ArityMismatch(String::from_str(msg), span)
}

/// `prefix` followed by the decimal notation of `n`.
pub fn counted_message(prefix: &str, n: usize) -> (res: String)
    ensures
        res@ == prefix@ + nat_text(n as nat),
{
    let mut res = String::from_str(prefix);
    push_nat(&mut res, n as u64);
    res
}

/// The body made of `exprs` (see `is_body_of`).
fn body_of(exprs: Vec<ExprKind>) -> (res: ExprKind)
    ensures
        is_body_of(res, exprs@),
{
    if exprs.len() == 1 {
        let mut exprs = exprs;
        exprs.remove(0)
    } else {
        ExprKind::Begin(Begin::new(exprs, SyntaxObject::default(TokenType::Begin)))
    }
}

/// Parses `(if test then else)`; `value` is the whole list, keyword first.
pub fn parse_if(value: Vec<ExprKind>, syn: SyntaxObject) -> (res: Result<ExprKind, ParseError>)
    ensures
        if_form(value@, syn, res),
{
    let n = value.len();
    if n < 2 {
        return Err(syntax_error(IF_NO_TEST, syn.span));
    }
    if n < 3 {
        return Err(syntax_error(IF_NO_THEN, syn.span));
    }
    if n < 4 {
        return Err(syntax_error(IF_NO_ELSE, syn.span));
    }
    if n > 4 {
        return Err(syntax_error(IF_TOO_MANY, syn.span));
    }
    let mut value = value;
    let test_expr = value.remove(1);
    let then_expr = value.remove(1);
    let else_expr = value.remove(1);
    Ok(ExprKind::If(Box::new(If::new(test_expr, then_expr, else_expr, syn))))
}

/// A value definition: `rest` holds what follows the name.
fn define_value(name: ExprKind, rest: Vec<ExprKind>, syn: SyntaxObject) -> (res: Result<
    ExprKind,
    ParseError,
>)
    ensures
        rest@.len() == 0 ==> is_syntax_error(res, DEFINE_NO_BODY@, syn.span),
        rest@.len() > 1 ==> is_syntax_error(res, DEFINE_ONE_EXPR@, syn.span),
        rest@.len() == 1 ==> res == Ok::<ExprKind, ParseError>(
            ExprKind::Define(Box::new(Define { name, body: rest@[0], location: syn })),
        ),
{
    if rest.len() == 0 {
        return Err(syntax_error(DEFINE_NO_BODY, syn.span));
    }
    if rest.len() > 1 {
        return Err(syntax_error(DEFINE_ONE_EXPR, syn.span));
    }
    let mut rest = rest;
    let body = rest.remove(0);
    Ok(ExprKind::Define(Box::new(Define::new(name, body, syn))))
}

/// Whether `e` is the identifier `datum->syntax`.
fn names_datum_syntax(e: &ExprKind) -> (res: bool)
    ensures
        res == is_datum_syntax(*e),
        res == match *e {
            ExprKind::Atom(a) => match a.syn.ty {
                TokenType::Identifier(s) => s@ == DATUM_SYNTAX@,
                _ => false,
            },
            _ => false,
        },
{
    match e {
        ExprKind::Atom(a) => match &a.syn.ty {
            TokenType::Identifier(s) => {
                let datum = String::from_str(DATUM_SYNTAX);
                *s == datum
            },
            _ => false,
        },
        _ => false,
    }
}

/// Parses `(define name value)` and `(define (name args ...) body ...)`.
pub fn parse_define(value: Vec<ExprKind>, syn: SyntaxObject) -> (res: Result<ExprKind, ParseError>)
    ensures
        define_form(value@, syn, res),
{
    if value.len() < 2 {
        return Err(syntax_error(DEFINE_NO_NAME, syn.span));
    }
    let ghost v = value@;
    let mut rest = value;
    rest.remove(0);
    let second = rest.remove(0);
    assert(rest@ == v.subrange(2, v.len() as int));
    match second {
        ExprKind::List(l) => {
            if l.args.len() == 0 {
                return Err(syntax_error(DEFINE_NO_FUNCTION_NAME, syn.span));
            }
            if names_datum_syntax(&l.args[0]) {
                return define_value(ExprKind::List(List::new(l.args)), rest, syn);
            }
            let mut args = l.args;
            let name = args.remove(0);
            let body = body_of(rest);
            let span = syn.span;
            let lambda = ExprKind::LambdaFunction(
                Box::new(LambdaFunction::new(args, body, SyntaxObject::new(TokenType::Lambda, span))),
            );
            Ok(ExprKind::Define(Box::new(Define::new(name, lambda, syn))))
        },
        ExprKind::Atom(a) => define_value(ExprKind::Atom(a), rest, syn),
        _ => Err(syntax_error(DEFINE_BAD_NAME, syn.span)),
    }
}


/// Parses `(let ((name value) ...) body ...)` into the application of a
/// lambda over the names to the values.
#[verifier::loop_isolation(false)]
pub fn parse_let(value: Vec<ExprKind>, syn: SyntaxObject) -> (res: Result<ExprKind, ParseError>)
    ensures
        let_form(value@, syn, res),
{
    if value.len() < 2 {
        return Err(syntax_error(LET_NO_BINDINGS, syn.span));
    }
    let ghost v = value@;
    let mut rest = value;
    rest.remove(0);
    let second = rest.remove(0);
    assert(rest@ == v.subrange(2, v.len() as int));
    let mut pairs = match second {
        ExprKind::List(l) => l.args,
        _ => {
            return Err(syntax_error(LET_BINDINGS_NOT_LIST, syn.span));
        },
    };
    if rest.len() == 0 {
        return Err(syntax_error(LET_NO_BODY, syn.span));
    }
    let body = body_of(rest);
    let ghost all = pairs@;
    let total = pairs.len();
    let mut arguments: Vec<ExprKind> = Vec::new();
    let mut application_args: Vec<ExprKind> = Vec::new();
    let mut k: usize = 0;
    while pairs.len() > 0
        invariant
            k + pairs@.len() == all.len(),
            all.len() == total,
            pairs@ == all.subrange(k as int, all.len() as int),
            forall|j: int| 0 <= j < k ==> #[trigger] is_pair(all[j]),
            arguments@ == all.subrange(0, k as int).map_values(|p: ExprKind| pair_first(p)),
            application_args@ == all.subrange(0, k as int).map_values(
                |p: ExprKind| pair_second(p),
            ),
        decreases pairs@.len(),
    {
        let ghost before = pairs@;
        let pair = pairs.remove(0);
        assert(pair == all[k as int]);
        match pair {
            ExprKind::List(l) => {
                if l.args.len() != 2 {
                    let e = ParseError::SyntaxError(
                        counted_message(LET_PAIR_LENGTH, l.args.len()),
                        syn.span,
                    );
                    proof {
                        assert(first_non_pair(all, k as int));
                        assert(binding_error(all[k as int], syn.span, Err::<ExprKind, ParseError>(e)));
                    }
                    return Err(e);
                }
                let mut two = l.args;
                let name = two.remove(0);
                let val = two.remove(0);
                arguments.push(name);
                application_args.push(val);
            },
            _ => {
                proof {
                    assert(first_non_pair(all, k as int));
                }
                return Err(syntax_error(LET_PAIR_NOT_LIST, syn.span));
            },
        }
        proof {
            assert(all.subrange(0, k + 1) == all.subrange(0, k as int).push(all[k as int]));
        }
        k = k + 1;
        assert(pairs@ == all.subrange(k as int, all.len() as int));
    }
    assert(all.subrange(0, k as int) == all);
    let mut function: Vec<ExprKind> = Vec::new();
    function.push(ExprKind::LambdaFunction(Box::new(LambdaFunction::new(arguments, body, syn))));
    let ghost head = function@;
    function.append(&mut application_args);
    assert(function@.drop_first() == head.drop_first() + all.map_values(|p: ExprKind| pair_second(p)));
    Ok(ExprKind::List(List::new(function)))
}

/// Parses `(transduce transducer func initial-value iterable)`.
pub fn parse_transduce(value: Vec<ExprKind>, syn: SyntaxObject) -> (res: Result<
    ExprKind,
    ParseError,
>)
    ensures
        transduce_form(value@, syn, res),
        value@.len() == 5 ==> (res matches Ok(ExprKind::Transduce(t)) && t.transducer == value@[1]
            && t.func == value@[2] && t.initial_value == value@[3] && t.iterable == value@[4]),
{
    let n = value.len();
    if n < 2 {
        return Err(syntax_error(TRANSDUCE_NO_TRANSDUCER, syn.span));
    }
    if n < 3 {
        return Err(syntax_error(TRANSDUCE_NO_FUNCTION, syn.span));
    }
    if n < 4 {
        return Err(syntax_error(TRANSDUCE_NO_INITIAL, syn.span));
    }
    if n < 5 {
        return Err(syntax_error(TRANSDUCE_NO_ITERABLE, syn.span));
    }
    if n > 5 {
        return Err(arity_error(TRANSDUCE_ARITY, syn.span));
    }
    let mut value = value;
    let transducer = value.remove(1);
    let func = value.remove(1);
    let initial_value = value.remove(1);
    let iterable = value.remove(1);
    Ok(ExprKind::Transduce(Box::new(Transduce::new(transducer, func, initial_value, iterable, syn))))
}

/// The single argument of a one-argument form, or the error for a missing
/// or a surplus argument.
fn single_argument(value: Vec<ExprKind>, span: Span, none: &str, too_many: &str) -> (res: Result<
    ExprKind,
    ParseError,
>)
    ensures
        value@.len() < 2 ==> is_arity_error(res, none@, span),
        value@.len() > 2 ==> is_syntax_error(res, too_many@, span),
        value@.len() == 2 ==> res == Ok::<ExprKind, ParseError>(value@[1]),
{
    if value.len() < 2 {
        return Err(arity_error(none, span));
    }
    if value.len() > 2 {
        return Err(syntax_error(too_many, span));
    }
    let mut value = value;
    Ok(value.remove(1))
}

/// Parses `(quote expr)`.
pub fn parse_quote(value: Vec<ExprKind>, syn: SyntaxObject) -> (res: Result<ExprKind, ParseError>)
    ensures
        quote_form(value@, syn, res),
{
    let expr = single_argument(value, syn.span, QUOTE_NONE, QUOTE_TOO_MANY)?;
    Ok(ExprKind::Quote(Box::new(Quote::new(expr, syn))))
}

/// Parses `(return! expr)`.
pub fn parse_return(value: Vec<ExprKind>, syn: SyntaxObject) -> (res: Result<ExprKind, ParseError>)
    ensures
        return_form(value@, syn, res),
{
    let expr = single_argument(value, syn.span, RETURN_NONE, RETURN_TOO_MANY)?;
    Ok(ExprKind::Return(Box::new(Return::new(expr, syn))))
}

/// Parses `(panic! message)`.
pub fn parse_panic(value: Vec<ExprKind>, syn: SyntaxObject) -> (res: Result<ExprKind, ParseError>)
    ensures
        panic_form(value@, syn, res),
{
    let message = single_argument(value, syn.span, PANIC_NONE, PANIC_TOO_MANY)?;
    Ok(ExprKind::Panic(Box::new(Panic::new(message, syn))))
}

/// Parses `(execute transducer collection [output-type])`.
pub fn parse_execute(value: Vec<ExprKind>, syn: SyntaxObject) -> (res: Result<ExprKind, ParseError>)
    ensures
        execute_form(value@, syn, res),
        3 <= value@.len() <= 4 ==> (res matches Ok(ExprKind::Execute(x)) && x.transducer
            == value@[1] && x.collection == value@[2]),
{
    let n = value.len();
    if n < 2 {
        return Err(arity_error(EXECUTE_NO_TRANSDUCER, syn.span));
    }
    if n < 3 {
        return Err(arity_error(EXECUTE_NO_COLLECTION, syn.span));
    }
    if n > 4 {
        return Err(syntax_error(EXECUTE_TOO_MANY, syn.span));
    }
    let mut value = value;
    let transducer = value.remove(1);
    let collection = value.remove(1);
    let output_type = if n == 4 {
        Some(value.remove(1))
    } else {
        None
    };
    Ok(ExprKind::Execute(Box::new(Execute::new(transducer, collection, output_type, syn))))
}


/// Parses `(eval expr)`.
fn parse_eval(value: Vec<ExprKind>, syn: SyntaxObject) -> (res: Result<ExprKind, ParseError>)
    ensures
        eval_form(value@, syn, res),
{
    if value.len() != 2 {
        return Err(arity_error(EVAL_ARITY, syn.span));
    }
    let mut value = value;
    let expr = value.remove(1);
    Ok(ExprKind::Eval(Box::new(Eval::new(expr, syn))))
}

/// Parses `(read expr)`.
fn parse_read(value: Vec<ExprKind>, syn: SyntaxObject) -> (res: Result<ExprKind, ParseError>)
    ensures
        read_form(value@, syn, res),
{
    if value.len() != 2 {
        return Err(arity_error(READ_ARITY, syn.span));
    }
    let mut value = value;
    let expr = value.remove(1);
    Ok(ExprKind::Read(Box::new(Read::new(expr, syn))))
}

/// Parses `(set! variable expr)`.
fn parse_set(value: Vec<ExprKind>, syn: SyntaxObject) -> (res: Result<ExprKind, ParseError>)
    ensures
        set_form(value@, syn, res),
        value@.len() == 3 ==> (res matches Ok(ExprKind::SetBang(s)) && s.variable == value@[1]
            && s.expr == value@[2]),
{
    if value.len() != 3 {
        return Err(arity_error(SET_ARITY, syn.span));
    }
    let mut value = value;
    let variable = value.remove(1);
    let expr = value.remove(1);
    Ok(ExprKind::SetBang(Box::new(SetBang::new(variable, expr, syn))))
}

/// The arity error `prefix`, the count `n`, then `suffix`.
fn counted_arity_error(prefix: &str, n: usize, suffix: &str, span: Span) -> (e: ParseError)
    ensures
        e matches ParseError::ArityMismatch(m, s) && m@ == prefix@ + nat_text(n as nat) + suffix@
            && s == span,
{
    let mut msg = counted_message(prefix, n);
    msg.append(suffix);
    ParseError::ArityMismatch(msg, span)
}

/// The syntax error `prefix`, the count `n`, then `suffix`.
fn counted_syntax_error(prefix: &str, n: usize, suffix: &str, span: Span) -> (e: ParseError)
    ensures
        e matches ParseError::SyntaxError(m, s) && m@ == prefix@ + nat_text(n as nat) + suffix@
            && s == span,
{
    let mut msg = counted_message(prefix, n);
    msg.append(suffix);
    ParseError::SyntaxError(msg, span)
}

/// Parses `(apply func list)`.
fn parse_apply(value: Vec<ExprKind>, syn: SyntaxObject) -> (res: Result<ExprKind, ParseError>)
    ensures
        apply_form(value@, syn, res),
{
    if value.len() != 3 {
        return Err(counted_arity_error(APPLY_ARITY, value.len(), ARGUMENTS_INSTEAD, syn.span));
    }
    let mut value = value;
    let func = value.remove(1);
    let list = value.remove(1);
    Ok(ExprKind::Apply(Box::new(Apply::new(func, list, syn))))
}

/// Parses `(struct name (fields ...))`.
fn parse_struct(value: Vec<ExprKind>, syn: SyntaxObject) -> (res: Result<ExprKind, ParseError>)
    ensures
        struct_form(value@, syn, res),
{
    if value.len() != 3 {
        return Err(counted_arity_error(STRUCT_ARITY, value.len(), ARGUMENTS_INSTEAD, syn.span));
    }
    let mut value = value;
    let name = value.remove(1);
    let fields = value.remove(1);
    match fields {
        ExprKind::List(l) => Ok(ExprKind::Struct(Box::new(Struct::new(name, l.args, syn)))),
        _ => Err(syntax_error(STRUCT_FIELDS, syn.span)),
    }
}

/// Parses `(begin exprs ...)`.
fn parse_begin(value: Vec<ExprKind>, syn: SyntaxObject) -> (res: Result<ExprKind, ParseError>)
    requires
        value@.len() > 0,
    ensures
        begin_form(value@, syn, res),
{
    let mut value = value;
    value.remove(0);
    Ok(ExprKind::Begin(Begin::new(value, syn)))
}

/// Whether every expression of `args` is an atom.
fn all_atoms(args: &Vec<ExprKind>) -> (res: bool)
    ensures
        res == forall|i: int| 0 <= i < args@.len() ==> #[trigger] is_atom(args@[i]),
{
    let mut i: usize = 0;
    while i < args.len()
        invariant
            i <= args@.len(),
            forall|j: int| 0 <= j < i ==> #[trigger] is_atom(args@[j]),
        decreases args@.len() - i,
    {
        match &args[i] {
            ExprKind::Atom(_) => {},
            _ => {
                assert(!is_atom(args@[i as int]));
                return false;
            },
        }
        i = i + 1;
    }
    true
}

/// Parses `(lambda (args ...) body ...)`.
fn parse_lambda(value: Vec<ExprKind>, syn: SyntaxObject) -> (res: Result<ExprKind, ParseError>)
    ensures
        lambda_form(value@, syn, res),
{
    if value.len() < 3 {
        return Err(counted_syntax_error(LAMBDA_ARITY, value.len(), INSTEAD, syn.span));
    }
    let ghost v = value@;
    let mut rest = value;
    rest.remove(0);
    let arguments = rest.remove(0);
    assert(rest@ == v.subrange(2, v.len() as int));
    match arguments {
        ExprKind::List(l) => {
            if !all_atoms(&l.args) {
                return Err(syntax_error(LAMBDA_ARG_NOT_ATOM, syn.span));
            }
            let body = body_of(rest);
            Ok(ExprKind::LambdaFunction(Box::new(LambdaFunction::new(l.args, body, syn))))
        },
        _ => Err(syntax_error(LAMBDA_ARGS_NOT_LIST, syn.span)),
    }
}

/// Parses `(define-syntax name rules)`.
fn parse_define_syntax(value: Vec<ExprKind>, syn: SyntaxObject) -> (res: Result<
    ExprKind,
    ParseError,
>)
    ensures
        define_syntax_form(value@, syn, res),
{
    if value.len() < 3 {
        let msg = counted_message(DEFINE_SYNTAX_ARITY, value.len());
        return Err(ParseError::SyntaxError(msg, syn.span));
    }
    let mut value = value;
    let name = value.remove(1);
    let rules = value.remove(1);
    match rules {
        ExprKind::SyntaxRules(s) => Ok(ExprKind::Macro(Macro::new(name, s, syn))),
        _ => Err(syntax_error(DEFINE_SYNTAX_RULES, syn.span)),
    }
}

/// Parses `(syntax-rules (syntax ...) (pattern body) ...)`.
#[verifier::loop_isolation(false)]
fn parse_syntax_rules(value: Vec<ExprKind>, syn: SyntaxObject) -> (res: Result<
    ExprKind,
    ParseError,
>)
    ensures
        syntax_rules_form(value@, syn, res),
        res matches Ok(ExprKind::SyntaxRules(s)) ==> s.patterns@.len() == value@.len() - 2
            && forall|i: int|
            0 <= i < s.patterns@.len() ==> (#[trigger] s.patterns@[i]).pattern
                == value@[i + 2]->List_0.args@[0] && s.patterns@[i].body == value@[i
                + 2]->List_0.args@[1],
{
    if value.len() < 3 {
        return Err(counted_syntax_error(SYNTAX_RULES_ARITY, value.len(), ARGUMENTS, syn.span));
    }
    let ghost v = value@;
    let mut rules = value;
    rules.remove(0);
    let second = rules.remove(0);
    let ghost all = rules@;
    assert(all == v.subrange(2, v.len() as int));
    let syntax = match second {
        ExprKind::List(l) => l.args,
        _ => {
            return Err(syntax_error(SYNTAX_RULES_NOT_LIST, syn.span));
        },
    };
    let total = rules.len();
    let mut pairs: Vec<PatternPair> = Vec::new();
    let mut k: usize = 0;
    while rules.len() > 0
        invariant
            k + rules@.len() == all.len(),
            all.len() == total,
            rules@ == all.subrange(k as int, all.len() as int),
            forall|j: int| 0 <= j < k ==> #[trigger] is_pair(all[j]),
            pairs@ == all.subrange(0, k as int).map_values(|p: ExprKind| pattern_pair_of(p)),
        decreases rules@.len(),
    {
        let rule = rules.remove(0);
        assert(rule == all[k as int]);
        match rule {
            ExprKind::List(l) => {
                if l.args.len() != 2 {
                    proof {
                        assert(first_non_pair(all, k as int));
                    }
                    return Err(syntax_error(SYNTAX_RULES_PAIR_LENGTH, syn.span));
                }
                let mut two = l.args;
                let pattern = two.remove(0);
                let body = two.remove(0);
                pairs.push(PatternPair::new(pattern, body));
            },
            _ => {
                proof {
                    assert(first_non_pair(all, k as int));
                }
                return Err(syntax_error(SYNTAX_RULES_PAIR_NOT_LIST, syn.span));
            },
        }
        proof {
            assert(all.subrange(0, k + 1) == all.subrange(0, k as int).push(all[k as int]));
        }
        k = k + 1;
        assert(rules@ == all.subrange(k as int, all.len() as int));
    }
    assert(all.subrange(0, k as int) == all);
    assert forall|i: int| 0 <= i < pairs@.len() implies (#[trigger] pairs@[i]).pattern
        == v[i + 2]->List_0.args@[0] && pairs@[i].body == v[i + 2]->List_0.args@[1] by {
        assert(all[i] == v[i + 2]);
        assert(is_pair(all[i]));
        assert(pairs@[i] == pattern_pair_of(all[i]));
    }
    Ok(ExprKind::SyntaxRules(SyntaxRules::new(syntax, pairs, syn)))
}

impl ExprKind {
    /// Turns a parenthesised list of expressions into an expression: the
    /// special form named by its head keyword, or, when the head is no such
    /// keyword, the plain list itself.
    pub fn try_from(value: Vec<ExprKind>) -> (res: Result<ExprKind, ParseError>)
        ensures
            list_form(value@, res),
    {
        if value.len() == 0 {
            return Ok(ExprKind::List(List::new(value)));
        }
        let syn = match &value[0] {
            ExprKind::Atom(a) => a.syn.clone(),
            _ => {
                return Ok(ExprKind::List(List::new(value)));
            },
        };
        match &syn.ty {
            TokenType::If => parse_if(value, syn),
            TokenType::Define => parse_define(value, syn),
            TokenType::Let => parse_let(value, syn),
            TokenType::Transduce => parse_transduce(value, syn),
            TokenType::Quote => parse_quote(value, syn),
            TokenType::Execute => parse_execute(value, syn),
            TokenType::Return => parse_return(value, syn),
            TokenType::Eval => parse_eval(value, syn),
            TokenType::Read => parse_read(value, syn),
            TokenType::SetBang => parse_set(value, syn),
            TokenType::Apply => parse_apply(value, syn),
            TokenType::Struct => parse_struct(value, syn),
            TokenType::Begin => parse_begin(value, syn),
            TokenType::Panic => parse_panic(value, syn),
            TokenType::Lambda => parse_lambda(value, syn),
            TokenType::DefineSyntax => parse_define_syntax(value, syn),
            TokenType::SyntaxRules => parse_syntax_rules(value, syn),
            _ => Ok(ExprKind::List(List::new(value))),
        }
    }
}

} // verus!
