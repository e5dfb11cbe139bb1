use easy_prog::numbers::{i64_to_string, parse_i64, u64_to_string};
use easy_prog::repl::{line_status, repl_prompt, LineStatus, VarFuncHelper};
use easy_prog::scope::Scope;
use easy_prog::types::{Custom, Int, Str, Variant};

#[test]
fn test_line_status() {
    assert_eq!(line_status("print()"), LineStatus::Ready);
    assert_eq!(line_status("print("), LineStatus::Incomplete);
    assert_eq!(line_status("if(1, {"), LineStatus::Incomplete);
    assert_eq!(line_status("if(1, {print()})"), LineStatus::Ready);
    assert_eq!(line_status("pri nt("), LineStatus::Ready);
    assert_eq!(line_status(""), LineStatus::Ready);
}

#[test]
fn test_default_prompt() {
    let scope = Scope::with_stdlib();
    let root = scope.root();
    assert_eq!(repl_prompt(&scope, root), ">>> ");
}

#[test]
fn test_prompt_follows_variable() {
    let mut scope = Scope::with_stdlib();
    let root = scope.root();
    scope.set_variable(root, "__prompt", Variant::Str(Str::new("ep> ")));
    assert_eq!(repl_prompt(&scope, root), "ep> ");
    scope.set_variable(root, "__prompt", Variant::Int(Int::new(3)));
    assert_eq!(repl_prompt(&scope, root), ">>> ");
}

#[test]
fn test_completion_candidates() {
    let scope = Scope::with_stdlib();
    let root = scope.root();
    let helper = VarFuncHelper::new(&scope, root);
    let (start, list) = helper.get_completion_list("pri", 3);
    assert_eq!(start, 0);
    let texts: Vec<&str> = list.iter().map(|c| c.text.as_str()).collect();
    assert_eq!(texts, vec!["print", "printerr"]);
    assert_eq!(list[0].hint, " # print");
}

#[test]
fn test_completion_skips_exact_word() {
    let scope = Scope::with_stdlib();
    let root = scope.root();
    let helper = VarFuncHelper::new(&scope, root);
    let (_, list) = helper.get_completion_list("lf", 2);
    assert!(list.iter().all(|c| c.text != "lf"));
}

#[test]
fn test_completion_finds_word_start() {
    let scope = Scope::with_stdlib();
    let root = scope.root();
    let helper = VarFuncHelper::new(&scope, root);
    let (start, list) = helper.get_completion_list("print(tr", 8);
    assert_eq!(start, 6);
    let texts: Vec<&str> = list.iter().map(|c| c.text.as_str()).collect();
    assert_eq!(texts, vec!["true"]);
}

#[test]
fn test_hint_shared_prefix() {
    let scope = Scope::with_stdlib();
    let root = scope.root();
    let helper = VarFuncHelper::new(&scope, root);
    let hint = helper.hint("pri", 3).unwrap();
    assert_eq!(hint.text, "nt");
    let hint2 = helper.hint("printe", 6).unwrap();
    assert_eq!(hint2.text, "rr");
    assert!(helper.hint("zzz", 3).is_none());
}

#[test]
fn test_highlight_kinds() {
    let mut scope = Scope::with_stdlib();
    let root = scope.root();
    scope.set_variable(root, "__secret", Variant::Int(Int::new(1)));
    let helper = VarFuncHelper::new(&scope, root);
    assert_eq!(helper.highlight_candidate("true"), "\x1b[36mtrue\x1b[0m");
    assert_eq!(helper.highlight_candidate("__secret"), "\x1b[37m__secret\x1b[0m");
    assert_eq!(helper.highlight_candidate("print"), "\x1b[32mprint\x1b[0m");
    assert_eq!(helper.highlight_candidate("unknown"), "unknown");
}

#[test]
fn test_decimal_rendering() {
    assert_eq!(u64_to_string(0), "0");
    assert_eq!(u64_to_string(90210), "90210");
    assert_eq!(i64_to_string(-1), "-1");
    assert_eq!(i64_to_string(i64::MIN), "-9223372036854775808");
    assert_eq!(i64_to_string(i64::MAX), "9223372036854775807");
}

#[test]
fn test_integer_parsing() {
    assert_eq!(parse_i64("42"), Some(42));
    assert_eq!(parse_i64("+42"), Some(42));
    assert_eq!(parse_i64("-42"), Some(-42));
    assert_eq!(parse_i64("-9223372036854775808"), Some(i64::MIN));
    assert_eq!(parse_i64("9223372036854775808"), None);
    assert_eq!(parse_i64(""), None);
    assert_eq!(parse_i64("-"), None);
    assert_eq!(parse_i64("12a"), None);
    assert_eq!(parse_i64(" 12"), None);
    assert_eq!(parse_i64("99999999999999999999999999"), None);
}

#[test]
fn test_value_renderings() {
    assert_eq!(Variant::Int(Int::new(-5)).print_string(), "-5");
    assert_eq!(Variant::Str(Str::new("hi")).print_string(), "hi");
    assert_eq!(Variant::Str(Str::new("hi")).echo_string(), "\"hi\"");
    assert_eq!(Variant::Void(easy_prog::types::Void::new()).print_string(), "<null>");
    assert_eq!(Variant::Void(easy_prog::types::Void::new()).echo_string(), "");
    assert_eq!(Variant::Custom(Custom::new(1, 7)).echo_string(), "<Custom id=1>");
    assert_eq!(Variant::Custom(Custom::new(1, 7)).print_string(), "<custom type 1>");
}
