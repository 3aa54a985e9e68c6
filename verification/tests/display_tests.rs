use steel::ast::ExprKind;
use steel::reader::read;

fn parse(expr: &str) -> ExprKind {
    let mut exprs = read(expr).unwrap();
    exprs.remove(0)
}

#[test]
fn display_list() {
    let expression = "(list 1 2 3 4)";
    let parsed_expr = parse(expression);
    let expected = "(list 1 2 3 4)";
    assert_eq!(parsed_expr.to_string(), expected);
}

#[test]
fn display_lambda() {
    let expression = "(lambda (x) (+ x 10))";
    let parsed_expr = parse(expression);
    let expected = "(lambda (x) (+ x 10))";
    assert_eq!(parsed_expr.to_string(), expected);
}

#[test]
fn display_set() {
    let expression = "(set! x 10)";
    let parsed_expr = parse(expression);
    let expected = "(set! x 10)";
    assert_eq!(parsed_expr.to_string(), expected);
}

#[test]
fn display_panic() {
    let expression = "(panic! 12345)";
    let parsed_expr = parse(expression);
    let expected = "(panic! 12345)";
    assert_eq!(parsed_expr.to_string(), expected);
}

#[test]
fn display_begin() {
    let expression = "(begin 1 2 3 4 5)";
    let parsed_expr = parse(expression);
    let expected = "(begin 1 2 3 4 5)";
    assert_eq!(parsed_expr.to_string(), expected);
}

#[test]
fn display_define_normal() {
    let expression = "(define a 10)";
    let parsed_expr = parse(expression);
    let expected = "(define a 10)";
    assert_eq!(parsed_expr.to_string(), expected);
}

#[test]
fn display_define_function() {
    let expression = "(define (applesauce x y z) (+ x y z))";
    let parsed_expr = parse(expression);
    let expected = "(define applesauce (lambda (x y z) (+ x y z)))";
    assert_eq!(parsed_expr.to_string(), expected);
}

#[test]
fn display_let() {
    let expression = "(let ((x 10)) (+ x 10))";
    let parsed_expr = parse(expression);
    let expected = "((lambda (x) (+ x 10)) 10)";
    assert_eq!(parsed_expr.to_string(), expected);
}

#[test]
fn display_apply() {
    let expression = "(apply + (list 1 2 3 4))";
    let parsed_expr = parse(expression);
    let expected = "(apply + (list 1 2 3 4))";
    assert_eq!(parsed_expr.to_string(), expected);
}

#[test]
fn display_transduce() {
    let expression = "(transduce 1 2 3 4)";
    let parsed_expr = parse(expression);
    let expected = "(transduce 1 2 3 4)";
    assert_eq!(parsed_expr.to_string(), expected);
}

#[test]
fn display_execute_two_args() {
    let expression = "(execute 1 2)";
    let parsed_expr = parse(expression);
    let expected = "(execute 1 2)";
    assert_eq!(parsed_expr.to_string(), expected);
}

#[test]
fn display_execute_three_args() {
    let expression = "(execute 1 2 3)";
    let parsed_expr = parse(expression);
    let expected = "(execute 1 2 3)";
    assert_eq!(parsed_expr.to_string(), expected);
}

#[test]
fn display_if() {
    let expression = "(if 1 2 3)";
    let parsed_expr = parse(expression);
    let expected = "(if 1 2 3)";
    assert_eq!(parsed_expr.to_string(), expected);
}

#[test]
fn display_quote() {
    let expression = "'(1 2 3 4)";
    let parsed_expr = parse(expression);
    let expected = "(quote (1 2 3 4))";
    assert_eq!(parsed_expr.to_string(), expected);
}

#[test]
fn display_read() {
    let expression = "(read '(1 2 3 4))";
    let parsed_expr = parse(expression);
    let expected = "(read (quote (1 2 3 4)))";
    assert_eq!(parsed_expr.to_string(), expected);
}

#[test]
fn display_return() {
    let expression = "(return! 10)";
    let parsed_expr = parse(expression);
    let expected = "(return! 10)";
    assert_eq!(parsed_expr.to_string(), expected);
}

#[test]
fn display_struct() {
    let expression = "(struct Apple (a b c))";
    let parsed_expr = parse(expression);
    let expected = "(struct Apple (a b c))";
    assert_eq!(parsed_expr.to_string(), expected);
}

#[test]
fn display_eval() {
    let expression = "(eval 'a)";
    let parsed_expr = parse(expression);
    let expected = "(eval (quote a))";
    assert_eq!(parsed_expr.to_string(), expected);
}
