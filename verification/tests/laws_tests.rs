use steel::ast::ExprKind;
use steel::reader::read;

fn read_one(text: &str) -> ExprKind {
    read(text).unwrap().remove(0)
}

#[test]
fn list_is_a_fixed_point() {
    for text in ["(let ((x 1)) x)", "(f 1 2)", "()", "((lambda (x) x) 3)"] {
        let e = read_one(text);
        match e {
            ExprKind::List(l) => {
                let before = ExprKind::List(steel::ast::List::new(vec![])).to_string();
                assert_eq!(before, "()");
                let shown = l.to_string();
                let again = ExprKind::try_from(l.into_vec()).unwrap();
                match &again {
                    ExprKind::List(_) => {}
                    other => panic!("not a list: {:?}", other),
                }
                assert_eq!(again.to_string(), shown);
            }
            other => panic!("not a list: {:?}", other),
        }
    }
}

#[test]
fn define_function_is_sugar_for_lambda() {
    assert_eq!(
        read_one("(define (f a b) (+ a b))").to_string(),
        read_one("(define f (lambda (a b) (+ a b)))").to_string()
    );
}

#[test]
fn let_is_a_lambda_application() {
    assert_eq!(
        read_one("(let ((x 1) (y 2)) (+ x y))").to_string(),
        read_one("((lambda (x y) (+ x y)) 1 2)").to_string()
    );
    assert_eq!(
        read_one("(let ((x 1)) a b)").to_string(),
        read_one("((lambda (x) a b) 1)").to_string()
    );
}
