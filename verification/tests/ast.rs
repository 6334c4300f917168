use cas::ast::Expression;
use cas::fmt::ToLatex;
use cas::symbol::Symbol;

#[test]
fn ast_add_works() {
    let x = Expression::Variable(Symbol::try_from("x".to_string()).unwrap());
    let y = Expression::Variable(Symbol::try_from("y".to_string()).unwrap());
    let expected = Expression::Add(Box::new(x.clone()), Box::new(y.clone()));
    assert_eq!(x + y, expected);
}

#[test]
fn binary_tree_keeps_grouping() {
    let x = Expression::Variable(Symbol::try_from("x").unwrap());
    let y = Expression::Variable(Symbol::try_from("y").unwrap());
    let n = Expression::Integer((-7).into());
    let left = (x.clone() + y.clone()) + n.clone();
    let right = x.clone() + (y.clone() + n.clone());
    assert_ne!(left, right);
    assert_eq!(left.to_string(), "((x + y) + -7)");
    assert_eq!(right.to_string(), "(x + (y + -7))");
    assert_eq!(left.to_latex(), r"\left(\left(x + y\right) + -7\right)");
    assert_eq!(right.to_latex(), r"\left(x + \left(y + -7\right)\right)");
    assert_eq!(n.to_string(), "-7");
    assert_eq!(n.to_latex(), "-7");
    assert_eq!(left.clone(), left);
    assert_ne!(x, y);
    assert_ne!(x, n);
}
