use easy_prog::scope::Scope;
use easy_prog::stdlib::native_set;
use easy_prog::types::{AstNode, CallFuncNode, ConstStrNode, Int, NativeFn, Str, Variant};

#[test]
pub fn test_iter() {
    let string: &str = "Hello, World!";
    assert_eq!(*string.as_bytes().iter().next().unwrap() as char, 'H');
    assert_eq!(*string.as_bytes().iter().next().unwrap() as char, 'H');
    let mut iter = string.as_bytes().iter();
    assert_eq!(*iter.next().unwrap() as char, 'H');
    assert_eq!(*iter.next().unwrap() as char, 'e');
    assert_eq!(string, "Hello, World!");
}

#[test]
pub fn test_vec_iter() {
    let vec: Vec<u8> = vec![5, 3, 93, 123];
    assert_eq!(*vec.iter().next().unwrap(), 5);
    assert_eq!(*vec.iter().next().unwrap(), 5);
    let mut iter = vec.iter();
    assert_eq!(*iter.next().unwrap(), 5);
    assert_eq!(*iter.next().unwrap(), 3);
    assert_eq!(vec, vec![5, 3, 93, 123]);
}

struct AStruct {
    a: AstNode,
}

#[test]
pub fn test_type_erased_ptr() {
    let node = AstNode::ConstStr(ConstStrNode::new(0, 0, Str::new("Hi")));
    let a_struct = AStruct { a: node };
    assert_eq!(a_struct.a.as_str_const().value.text, "Hi");
}

fn get_node() -> AstNode {
    let node = AstNode::CallFunc(CallFuncNode::new(
        0,
        0,
        "print".to_string(),
        vec![AstNode::ConstStr(ConstStrNode::new(0, 0, Str::new("Hello, World!")))],
    ));
    node
}

#[test]
pub fn test_type_erased_ptr_return() {
    assert_eq!(
        get_node().as_call_func().args[0].as_str_const().value.text,
        "Hello, World!"
    );
}

fn set_scope_var(scope: &mut Scope, name: &str, value: Variant) {
    let root = scope.root();
    scope.set_variable(root, name, value);
}

#[test]
pub fn test_set_var() {
    let mut scope: Scope = Scope::with_stdlib();
    let root = scope.root();
    assert!(!scope.has_variable(root, ",test_var"));
    set_scope_var(&mut scope, ",test_var", Variant::Int(Int::new(123)));
    assert!(scope.has_variable(root, ",test_var"));
}

#[test]
pub fn test_set_var2() {
    let mut scope: Scope = Scope::with_stdlib();
    let root = scope.root();
    assert!(!scope.has_variable(root, ",test_var"));
    assert!(!scope.has_variable(root, ",test_var2"));
    let set_fn = scope.get_function(root, "set").unwrap();
    assert_eq!(set_fn.native, Some(NativeFn::SetVar));
    native_set(
        &mut scope,
        root,
        0,
        0,
        &vec![
            Variant::Str(Str::new(",test_var")),
            Variant::Int(Int::new(123)),
        ],
    )
    .unwrap();
    assert!(scope.has_variable(root, ",test_var"));
    assert!(!scope.has_variable(root, ",test_var2"));
}
