use steel::ast::{Atom, ExprKind, List};
use steel::forms::ParseError;
use steel::reader::read;
use steel::tokens::{Span, SyntaxObject, TokenType};

fn read_one(text: &str) -> Result<ExprKind, ParseError> {
    read(text).map(|mut v| v.remove(0))
}

fn shown(text: &str) -> String {
    read_one(text).unwrap().to_string()
}

fn syntax_error(text: &str) -> (String, Span) {
    match read_one(text) {
        Err(ParseError::SyntaxError(m, s)) => (m, s),
        other => panic!("expected a syntax error, got {:?}", other),
    }
}

fn arity_error(text: &str) -> (String, Span) {
    match read_one(text) {
        Err(ParseError::ArityMismatch(m, s)) => (m, s),
        other => panic!("expected an arity error, got {:?}", other),
    }
}

fn ident(name: &str) -> ExprKind {
    ExprKind::Atom(Atom::new(SyntaxObject::default(TokenType::Identifier(name.to_string()))))
}

fn num(i: isize) -> ExprKind {
    ExprKind::Atom(Atom::new(SyntaxObject::default(TokenType::IntegerLiteral(i))))
}

fn keyword(ty: TokenType) -> ExprKind {
    ExprKind::Atom(Atom::new(SyntaxObject::new(ty, Span::new(1, 3))))
}

#[test]
fn if_errors_name_the_missing_part() {
    assert_eq!(syntax_error("(if)"), ("if expects a test condition, found none".to_string(), Span::new(1, 3)));
    assert_eq!(syntax_error("(if 1)").0, "if expects a then condition, found none");
    assert_eq!(syntax_error("(if 1 2)").0, "if expects an else condition, found none");
    assert_eq!(syntax_error("(if 1 2 3 4)").0, "if takes only 3 expressions");
}

#[test]
fn if_node_holds_its_parts() {
    match read_one("(if a b c)").unwrap() {
        ExprKind::If(i) => {
            assert_eq!(i.test_expr.to_string(), "a");
            assert_eq!(i.then_expr.to_string(), "b");
            assert_eq!(i.else_expr.to_string(), "c");
            assert_eq!(i.location.ty, TokenType::If);
            assert_eq!(i.location.span, Span::new(1, 3));
        }
        other => panic!("not an if: {:?}", other),
    }
}

#[test]
fn define_errors() {
    assert_eq!(syntax_error("(define)").0, "define expects an identifier, found none");
    assert_eq!(syntax_error("(define () 1)").0, "define expected a function name, found none");
    assert_eq!(syntax_error("(define a)").0, "define statement expected a body, found none");
    assert_eq!(syntax_error("(define a 1 2)").0, "Define expected only one expression after the identifier");
    assert_eq!(
        syntax_error("(define 'a 2)").0,
        "Define expects either an identifier or a list with the function name and arguments"
    );
    // any atom is accepted as the defined name
    assert_eq!(shown("(define 1 2)"), "(define 1 2)");
}

#[test]
fn define_function_bodies() {
    assert_eq!(shown("(define (f x) 1 2)"), "(define f (lambda (x) (begin 1 2)))");
    assert_eq!(shown("(define (f x))"), "(define f (lambda (x) (begin )))");
    assert_eq!(shown("(define (f) 1)"), "(define f (lambda () 1))");
}

#[test]
fn define_lambda_is_located_at_define() {
    match read_one("(define (f x) x)").unwrap() {
        ExprKind::Define(d) => match d.body {
            ExprKind::LambdaFunction(l) => {
                assert_eq!(l.location, SyntaxObject::new(TokenType::Lambda, Span::new(1, 7)));
                assert_eq!(l.args.len(), 1);
            }
            other => panic!("not a lambda: {:?}", other),
        },
        other => panic!("not a define: {:?}", other),
    }
}

#[test]
fn define_datum_syntax_keeps_the_header() {
    assert_eq!(shown("(define (datum->syntax x) y)"), "(define (datum->syntax x) y)");
    assert_eq!(syntax_error("(define (datum->syntax x))").0, "define statement expected a body, found none");
    assert_eq!(
        syntax_error("(define (datum->syntax x) 1 2)").0,
        "Define expected only one expression after the identifier"
    );
}

#[test]
fn let_errors() {
    assert_eq!(
        syntax_error("(let)").0,
        "let expected a list of variable bindings pairs in the second position, found none"
    );
    assert_eq!(syntax_error("(let x 1)").0, "let expects a list of variable bindings pairs in the second position");
    assert_eq!(syntax_error("(let ((x 1)))").0, "let expects an expression, found none");
    assert_eq!(
        syntax_error("(let ((x 1 2)) x)").0,
        "let expected a list of variable binding pairs, found a pair with length 3"
    );
    assert_eq!(syntax_error("(let (x) x)").0, "let expected a list of variable binding pairs");
    assert_eq!(
        syntax_error("(let ((a 1) (b) c) x)").0,
        "let expected a list of variable binding pairs, found a pair with length 1"
    );
}

#[test]
fn let_with_several_bindings_and_bodies() {
    assert_eq!(shown("(let ((x 1) (y 2)) x y)"), "((lambda (x y) (begin x y)) 1 2)");
    assert_eq!(shown("(let () 5)"), "((lambda () 5))");
}

#[test]
fn transduce_errors() {
    assert_eq!(syntax_error("(transduce)").0, "transducer expected a transducer, found none");
    assert_eq!(syntax_error("(transduce 1)").0, "transducer expected a function, found none");
    assert_eq!(syntax_error("(transduce 1 2)").0, "transducer expected a initial value, found none");
    assert_eq!(syntax_error("(transduce 1 2 3)").0, "transducer expected an iterable, found none");
    assert_eq!(arity_error("(transduce 1 2 3 4 5)").0, "Transduce expected 4 arguments");
}

#[test]
fn one_argument_forms() {
    assert_eq!(arity_error("(quote)").0, "quote expected one argument, found none");
    assert_eq!(syntax_error("(quote 1 2)").0, "quote expects only one argument");
    assert_eq!(arity_error("(return!)").0, "return expected one argument, found none");
    assert_eq!(syntax_error("(return! 1 2)").0, "return expects only one argument");
    assert_eq!(arity_error("(panic!)").0, "panic expected one argument, found none");
    assert_eq!(syntax_error("(panic! 1 2)").0, "panic expects only one argument");
    assert_eq!(shown("(quote x)"), "(quote x)");
}

#[test]
fn execute_errors() {
    assert_eq!(
        arity_error("(execute)").0,
        "execute expects 2 (or possibly 3) arguments, and a transducer in the first position, found none"
    );
    assert_eq!(
        arity_error("(execute 1)").0,
        "execute expects 2 (or possibly 3) arguments, and a collection in the second position, found none"
    );
    assert_eq!(syntax_error("(execute 1 2 3 4)").0, "execute takes at most 3 arguments");
}

#[test]
fn fixed_arity_forms() {
    assert_eq!(arity_error("(eval)").0, "eval expected an expression");
    assert_eq!(arity_error("(eval 1 2)").0, "eval expected an expression");
    assert_eq!(arity_error("(read)").0, "read expected an expression");
    assert_eq!(arity_error("(set! x)").0, "set! expects an identifier and an expression");
    assert_eq!(
        arity_error("(apply f)").0,
        "apply expects a symbol (for a function) and a list of fields, found 2 arguments instead"
    );
    assert_eq!(
        arity_error("(struct A)").0,
        "struct expects a name and a list of fields, found 2 arguments instead"
    );
    assert_eq!(syntax_error("(struct A b)").0, "struct expected a list of field names");
}

#[test]
fn lambda_forms() {
    assert_eq!(
        syntax_error("(lambda (x))").0,
        "lambda expected at least 2 arguments - the bindings list and one or more expressions, found 2 instead"
    );
    assert_eq!(syntax_error("(lambda ((x)) x)").0, "lambda function expects a list of identifiers");
    assert_eq!(syntax_error("(lambda x x)").0, "lambda function expected a list of identifiers");
    assert_eq!(shown("(lambda (x) 1 2)"), "(lambda (x) (begin 1 2))");
    assert_eq!(shown("(lambda () 1)"), "(lambda () 1)");
}

#[test]
fn macro_forms() {
    assert_eq!(
        shown("(define-syntax foo (syntax-rules () ((_ x) x)))"),
        "(define-syntax foo (syntax-rules () [(_ x)\nx])"
    );
    assert_eq!(
        shown("(syntax-rules (else) (a b) (c d))"),
        "(syntax-rules (else) [a\nb]\n[c\nd])"
    );
    assert_eq!(
        syntax_error("(define-syntax foo)").0,
        "define-syntax expects 2 arguments - the name of the macro and the syntax-rules, found 2"
    );
    assert_eq!(syntax_error("(define-syntax foo bar)").0, "define-syntax expected a syntax-rules object");
    assert_eq!(
        syntax_error("(syntax-rules ())").0,
        "syntax-rules expects a list of introduced syntax, and at least one pattern-body pair, found 2 arguments"
    );
    assert_eq!(
        syntax_error("(syntax-rules x (a b))").0,
        "syntax-rules expects a list of new syntax forms used in the macro"
    );
    assert_eq!(syntax_error("(syntax-rules () (a))").0, "syntax-rules requires only one pattern to one body");
    assert_eq!(
        syntax_error("(syntax-rules () a)").0,
        "syntax-rules requires pattern to expressions to be in a list"
    );
}

#[test]
fn plain_lists() {
    assert_eq!(shown("()"), "()");
    assert_eq!(shown("(begin)"), "(begin )");
    assert_eq!(shown("((f) 1)"), "((f) 1)");
    assert_eq!(shown("(require x)"), "(require x)");
    assert_eq!(shown("(1 2)"), "(1 2)");
}

#[test]
fn try_from_direct() {
    let r = ExprKind::try_from(vec![keyword(TokenType::If), num(1), num(2), num(3)]).unwrap();
    assert_eq!(r.to_string(), "(if 1 2 3)");
    let r = ExprKind::try_from(vec![ident("f"), num(1)]).unwrap();
    match r {
        ExprKind::List(l) => assert_eq!(l.args.len(), 2),
        other => panic!("not a list: {:?}", other),
    }
    let r = ExprKind::try_from(vec![]).unwrap();
    match r {
        ExprKind::List(l) => assert!(l.is_empty()),
        other => panic!("not a list: {:?}", other),
    }
    let r = ExprKind::try_from(vec![keyword(TokenType::Eval)]);
    assert_eq!(r, Err(ParseError::ArityMismatch("eval expected an expression".to_string(), Span::new(1, 3))));
}

#[test]
fn identifier_and_list_accessors() {
    let a = ident("abc");
    assert_eq!(a.atom_identifier_or_else(|| "no"), Ok("abc"));
    assert!(a.list_or_else(|| 7).is_err());
    let n = num(3);
    assert_eq!(n.atom_identifier_or_else(|| "no"), Err("no"));
    let l = ExprKind::List(List::new(vec![num(1)]));
    assert_eq!(l.atom_identifier_or_else(|| 1), Err(1));
    let got = l.list_or_else(|| 0).unwrap();
    assert!(!got.is_empty());
    assert_eq!(got.as_slice().len(), 1);
}

#[test]
fn conversions_into_expr() {
    let e: ExprKind = List::new(vec![num(1), num(2)]).into();
    assert_eq!(e.to_string(), "(1 2)");
    let e: ExprKind = steel::ast::Quote::new(num(1), SyntaxObject::default(TokenType::Quote)).into();
    assert_eq!(e.to_string(), "(quote 1)");
}
