use easy_prog::fs::{FileSystem, MemFileSystem};
use easy_prog::runner::{run_code, run_code_scope, run_line, run_line_scope, EvalError, RunOutcome};
use easy_prog::scope::Scope;
use easy_prog::types::{Int, Type, Variant};

#[test]
fn test_hello_world_evaluates_to_void() {
    let value = run_line("print(\"Hello, World!\")").unwrap();
    assert_eq!(value.get_type(), Type::Void);
}

#[test]
fn test_set_binds_in_root_scope() {
    let mut scope = Scope::with_stdlib();
    let mut fs = MemFileSystem::new();
    let root = scope.root();
    let outcome = run_code_scope(&mut fs, "set(\"x\", 5), print(x)", &mut scope, root);
    assert_eq!(outcome, RunOutcome::Done);
    let value = scope.get_variable(root, "x").unwrap();
    assert!(value.equals(&Variant::Int(Int::new(5))));
}

#[test]
fn test_line_echo_value() {
    let value = run_line("add(2, 3)").unwrap();
    assert!(value.equals(&Variant::Int(Int::new(5))));
    assert_eq!(value.echo_string(), "5");
}

#[test]
fn test_division_by_zero_is_an_exception() {
    let error = run_line("idiv(4, 0)").unwrap_err();
    match error {
        EvalError::Native(e) => {
            assert_eq!(e.description, "Division by zero");
        },
        _ => panic!("expected a native exception"),
    }
}

#[test]
fn test_missing_function_is_a_runtime_error() {
    let error = run_line("no_such_function()").unwrap_err();
    match error {
        EvalError::Runner(e) => {
            assert_eq!(e.description, "No function 'no_such_function' in the current scope");
            assert_eq!((e.line, e.column), (1, 1));
        },
        _ => panic!("expected a structural error"),
    }
}

#[test]
fn test_missing_variable_is_a_runtime_error() {
    let error = run_line("print(nowhere)").unwrap_err();
    match error {
        EvalError::Runner(e) => {
            assert_eq!(e.description, "No variable 'nowhere' in the current scope");
        },
        _ => panic!("expected a structural error"),
    }
}

#[test]
fn test_declfunc_runs_in_caller_scope() {
    let mut scope = Scope::with_stdlib();
    let mut fs = MemFileSystem::new();
    let root = scope.root();
    let outcome = run_code_scope(
        &mut fs,
        "declfunc(\"remember\", {set(\"y\", 7)}), remember()",
        &mut scope,
        root,
    );
    assert_eq!(outcome, RunOutcome::Done);
    let value = scope.get_variable(root, "y").unwrap();
    assert!(value.equals(&Variant::Int(Int::new(7))));
}

#[test]
fn test_if_else_picks_one_branch() {
    let mut scope = Scope::with_stdlib();
    let mut fs = MemFileSystem::new();
    let root = scope.root();
    let outcome = run_code_scope(
        &mut fs,
        "if_else(false, {set(\"r\", 1)}, {set(\"r\", 2)})",
        &mut scope,
        root,
    );
    assert_eq!(outcome, RunOutcome::Done);
    let value = scope.get_variable(root, "r").unwrap();
    assert!(value.equals(&Variant::Int(Int::new(2))));
}

#[test]
fn test_exit_request_propagates() {
    let error = run_line("exit(3)").unwrap_err();
    match error {
        EvalError::Exit(code) => assert_eq!(code, 3),
        _ => panic!("expected a termination request"),
    }
}

#[test]
fn test_arithmetic_natives() {
    assert!(run_line("subt(10, 4)").unwrap().equals(&Variant::Int(Int::new(6))));
    assert!(run_line("mult(6, 7)").unwrap().equals(&Variant::Int(Int::new(42))));
    assert!(run_line("idiv(-7, 2)").unwrap().equals(&Variant::Int(Int::new(-3))));
    assert!(run_line("and(true, false)").unwrap().equals(&Variant::Int(Int::new(0))));
    assert!(run_line("or(true, false)").unwrap().equals(&Variant::Int(Int::new(1))));
    assert!(run_line("eq(2, 2)").unwrap().equals(&Variant::Int(Int::new(1))));
    assert!(run_line("eq(2, \"2\")").unwrap().equals(&Variant::Int(Int::new(0))));
    assert!(run_line("neq(2, 3)").unwrap().equals(&Variant::Int(Int::new(1))));
}

#[test]
fn test_addition_wraps() {
    let value = run_line("add(9223372036854775807, 1)").unwrap();
    assert!(value.equals(&Variant::Int(Int::new(i64::MIN))));
}

#[test]
fn test_parse_int_native() {
    assert!(run_line("parse_int(\"42\")").unwrap().equals(&Variant::Int(Int::new(42))));
    let error = run_line("parse_int(\"4x2\")").unwrap_err();
    match error {
        EvalError::Native(e) => assert_eq!(e.description, "Invalid number string"),
        _ => panic!("expected a native exception"),
    }
}

#[test]
fn test_wrong_arity_message() {
    let error = run_line("add(1)").unwrap_err();
    match error {
        EvalError::Native(e) => {
            assert_eq!(e.description, "This function takes 2 arguments, 1 given");
        },
        _ => panic!("expected a native exception"),
    }
}

#[test]
fn test_file_round_trip_through_memory() {
    let mut scope = Scope::with_stdlib();
    let mut fs = MemFileSystem::new();
    fs.add_file("data.txt", "hi there");
    let root = scope.root();
    let value = run_line_scope(&mut fs, "fread(fopen(\"data.txt\", \"r\"))", &mut scope, root)
        .unwrap();
    assert_eq!(value.as_str().text, "hi there");
}

#[test]
fn test_file_write_then_read() {
    let mut scope = Scope::with_stdlib();
    let mut fs = MemFileSystem::new();
    let root = scope.root();
    let outcome = run_code_scope(
        &mut fs,
        "set(\"f\", fopen(\"out.txt\", \"w\")), fwrite(f, \"abc\"), fclose(f)",
        &mut scope,
        root,
    );
    assert_eq!(outcome, RunOutcome::Done);
    assert_eq!(fs.latest_contents("out.txt").unwrap(), "abc");
}

#[test]
fn test_missing_file_is_an_exception() {
    let error = run_line("fopen(\"absent.txt\", \"r\")").unwrap_err();
    match error {
        EvalError::Native(e) => assert_eq!(e.description, "I/O error"),
        _ => panic!("expected a native exception"),
    }
}

#[test]
fn test_run_code_reports_success() {
    assert!(run_code("print(\"ok\")"));
    assert!(!run_code("no_such_function()"));
    assert!(!run_code("pri nt()"));
}

#[test]
fn test_null_resets_by_kind() {
    let mut scope = Scope::with_stdlib();
    let mut fs = MemFileSystem::new();
    let root = scope.root();
    let outcome = run_code_scope(
        &mut fs,
        "set(\"n\", 9), null(\"n\"), set(\"s\", \"abc\"), null(\"s\")",
        &mut scope,
        root,
    );
    assert_eq!(outcome, RunOutcome::Done);
    assert!(scope.get_variable(root, "n").unwrap().equals(&Variant::Int(Int::new(0))));
    assert_eq!(scope.get_variable(root, "s").unwrap().as_str().text, "");
}

#[test]
fn test_lf_and_cr() {
    assert_eq!(run_line("lf()").unwrap().as_str().text, "\n");
    assert_eq!(run_line("cr()").unwrap().as_str().text, "\r");
}

#[test]
fn test_top_level_statement_must_be_a_call() {
    assert!(!run_code("x,f()"));
    let multi = run_line("x,f(),g()").unwrap();
    assert_eq!(multi.get_type(), Type::Void);
}

#[test]
fn test_runaway_recursion_hits_the_depth_limit() {
    let mut scope = Scope::with_stdlib();
    let mut fs = MemFileSystem::new();
    let root = scope.root();
    let outcome = run_code_scope(&mut fs, "declfunc(\"r\", {r()}), r()", &mut scope, root);
    assert_eq!(outcome, RunOutcome::Failed);
}

#[test]
fn test_add_stdlib_matches_with_stdlib() {
    let mut built = Scope::empty();
    easy_prog::stdlib::add_stdlib(&mut built, 0);
    let seeded = Scope::with_stdlib();
    for name in ["print", "flush_stdout", "fopen", "parse_int", "set", "if_else", "exit",
        "inspect_scope", "no_such_native"] {
        assert_eq!(built.has_function(0, name), seeded.has_function(0, name));
    }
    for name in ["true", "false", "no_such_var"] {
        assert_eq!(built.has_variable(0, name), seeded.has_variable(0, name));
    }
}

#[test]
fn test_cleanup_closes_files_even_after_failure() {
    let mut scope = Scope::with_stdlib();
    let mut fs = MemFileSystem::new();
    let root = scope.root();
    let outcome = run_code_scope(
        &mut fs,
        "set(\"f\", fopen(\"left.txt\", \"w\")), boom()",
        &mut scope,
        root,
    );
    assert_eq!(outcome, RunOutcome::Failed);
    assert!(fs.is_closed(0));
}
