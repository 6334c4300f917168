use cas::fmt::ToLatex;
use cas::rs::ast::Expression;

#[test]
fn expression_display() {
    let expr = Expression::Add(
        Box::new(Expression::Symbol("x".to_string())),
        Box::new(Expression::Symbol("y".to_string())),
    );
    assert_eq!(expr.to_string(), "(x + y)",);
}

#[test]
fn symbol_tree_renders_latex_and_compares() {
    let x = Expression::Symbol("x".to_string());
    let y = Expression::Symbol("y".to_string());
    let sum = Expression::Add(Box::new(x.clone()), Box::new(y.clone()));
    let nested = Expression::Add(Box::new(sum.clone()), Box::new(x.clone()));
    assert_eq!(x.to_string(), "x");
    assert_eq!(x.to_latex(), "x");
    assert_eq!(sum.to_latex(), r"\left(x + y\right)");
    assert_eq!(nested.to_string(), "((x + y) + x)");
    assert_eq!(nested.to_latex(), r"\left(\left(x + y\right) + x\right)");
    assert_eq!(sum, sum.clone());
    assert_ne!(sum, Expression::Add(Box::new(y), Box::new(x)));
    assert_ne!(sum, nested);
}
