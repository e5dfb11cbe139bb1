use easy_prog::scope::Scope;
use easy_prog::types::{AstNode, ConstIntNode, Function, Int, Str, VariableNode, Variant};

#[test]
fn test_scope_from_scope() {
    let mut scope = Scope::with_stdlib();
    let root = scope.root();
    assert!(!scope.has_function(root, ",test_func"));
    assert!(!scope.has_function(root, ",test_func2"));
    let other_scope = scope.from_scope(root);
    assert!(!scope.has_function(other_scope, ",test_func"));
    assert!(!scope.has_function(other_scope, ",test_func2"));

    scope.set_function(root, ",test_func", Function { native: None, body: None });
    assert!(scope.has_function(root, ",test_func"));
    assert!(scope.has_function(other_scope, ",test_func"));

    scope.set_function(other_scope, ",test_func2", Function { native: None, body: None });
    assert!(!scope.has_function(root, ",test_func2"));
    assert!(scope.has_function(other_scope, ",test_func2"));
}

#[test]
fn types_test_scope_from_scope() {
    let mut scope = Scope::with_stdlib();
    let root = scope.root();
    assert!(!scope.has_function(root, ",test_func"));
    assert!(!scope.has_function(root, ",test_func2"));
    let other_scope = scope.from_scope(root);
    assert!(!scope.has_function(other_scope, ",test_func"));
    assert!(!scope.has_function(other_scope, ",test_func2"));

    scope.set_function(root, ",test_func", Function { native: None, body: None });
    assert!(scope.has_function(root, ",test_func"));
    assert!(scope.has_function(other_scope, ",test_func"));

    scope.set_function(other_scope, ",test_func2", Function { native: None, body: None });
    assert!(!scope.has_function(root, ",test_func2"));
    assert!(scope.has_function(other_scope, ",test_func2"));
}

#[test]
fn test_child_sees_parent_variables() {
    let mut scope = Scope::empty();
    let root = scope.root();
    let child = scope.from_scope(root);
    scope.set_variable(root, "shared", Variant::Int(Int::new(7)));
    assert!(scope.has_variable(child, "shared"));
    let got = scope.get_variable(child, "shared").unwrap();
    assert!(got.equals(&Variant::Int(Int::new(7))));
}

#[test]
fn test_child_shadows_without_touching_parent() {
    let mut scope = Scope::empty();
    let root = scope.root();
    let child = scope.from_scope(root);
    scope.set_variable(root, "x", Variant::Int(Int::new(1)));
    scope.set_variable(child, "x", Variant::Int(Int::new(2)));
    let in_child = scope.get_variable(child, "x").unwrap();
    let in_parent = scope.get_variable(root, "x").unwrap();
    assert!(in_child.equals(&Variant::Int(Int::new(2))));
    assert!(in_parent.equals(&Variant::Int(Int::new(1))));
}

#[test]
fn test_value_equality_is_kind_aware() {
    let one = Variant::Int(Int::new(1));
    let one_text = Variant::Str(Str::new("1"));
    assert!(!one.equals(&one_text));
    assert!(one.equals(&Variant::Int(Int::new(1))));
    assert!(Variant::Str(Str::new("a")).equals(&Variant::Str(Str::new("a"))));
    assert!(!Variant::Str(Str::new("a")).equals(&Variant::Str(Str::new("b"))));
}

fn int_node_at(line: u32, column: u32) -> AstNode {
    AstNode::ConstInt(ConstIntNode::new(line, column, Int::new(5)))
}

#[test]
fn test_node_equality_ignores_positions() {
    let a = int_node_at(1, 1);
    let b = int_node_at(9, 9);
    assert!(a.equals(&b));
    let v1 = AstNode::Variable(VariableNode::new(1, 1, "x"));
    let v2 = AstNode::Variable(VariableNode::new(3, 4, "x"));
    let v3 = AstNode::Variable(VariableNode::new(3, 4, "y"));
    assert!(v1.equals(&v2));
    assert!(!v1.equals(&v3));
}
