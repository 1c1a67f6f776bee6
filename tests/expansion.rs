use safe::{
    compile_assertion, expand, fresh_name, marked_body, safe, text_contains, Clause, ConfigError,
    RawOption, Style,
};

fn text(k: &str, v: &str) -> RawOption {
    RawOption::Text(k.to_string(), v.to_string())
}

#[test]
fn reason_alone_wraps_without_checks() {
    let out = safe(&vec![text("reason", "only ref")], "unsafe { x_ptr.write(7); }").unwrap();
    assert_eq!(out, "unsafe { let __safe_result = { x_ptr . write (7) ; }; __safe_result }");
}

#[test]
fn requires_becomes_check_before_body() {
    let opts = vec![text("reason", "only ref"), text("requires", "!p.is_null()")];
    let out = safe(&opts, "unsafe { *p = 7; }").unwrap();
    assert_eq!(
        out,
        "unsafe { debug_assert!(!p.is_null(), \"\\\"{}\\\" is invalid because the required \
         condition failed\", \"only ref\"); let __safe_result = { * p = 7 ; }; __safe_result }"
    );
}

#[test]
fn ensures_becomes_check_after_body() {
    let opts = vec![
        text("reason", "Malloc returns non-null"),
        text("ensures", "!allocated.is_null()"),
    ];
    let out = safe(&opts, "unsafe { allocated = alloc(4); }").unwrap();
    assert_eq!(
        out,
        "unsafe { let __safe_result = { allocated = alloc (4) ; }; debug_assert!(!allocated.\
         is_null(), \"\\\"{}\\\" is invalid because the ensured condition failed\", \"Malloc \
         returns non-null\"); __safe_result }"
    );
}

#[test]
fn guard_wraps_plain_expression() {
    let opts = vec![text("reason", "r"), text("precondition", "x > 0")];
    let out = safe(&opts, "x + 1").unwrap();
    assert_eq!(
        out,
        "{ debug_assert!(x > 0, \"\\\"{}\\\" is invalid because the required condition \
         failed\", \"r\"); x + 1 }"
    );
}

#[test]
fn reason_is_escaped_as_literal() {
    let opts = vec![text("reason", "say \"hi\""), text("requires", "ok")];
    let out = safe(&opts, "unsafe {}").unwrap();
    assert_eq!(
        out,
        "unsafe { debug_assert!(ok, \"\\\"{}\\\" is invalid because the required condition \
         failed\", \"say \\\"hi\\\"\"); let __safe_result = { }; __safe_result }"
    );
}

#[test]
fn result_name_avoids_postcondition() {
    let opts = vec![text("reason", "r"), text("ensures", "__safe_result == 0")];
    let e = expand(&opts, "unsafe { 1 }").unwrap();
    assert_eq!(e.result_name, "__safe_result_");
    assert_eq!(e.body, "{ 1 }");
    assert_eq!(e.style, Style::Contract);
    assert!(e.pre.is_none());
    assert_eq!(e.post.unwrap().clause, Clause::Ensures);
}

#[test]
fn malformed_condition_is_refused() {
    let opts = vec![text("reason", "r"), text("requires", "a, b")];
    let r = safe(&opts, "unsafe {}");
    assert!(matches!(r, Err(ConfigError::MalformedCondition(Clause::Requires))));
    let opts = vec![text("reason", "r"), text("ensures", "x +")];
    let r = safe(&opts, "unsafe {}");
    assert!(matches!(r, Err(ConfigError::MalformedCondition(Clause::Ensures))));
}

#[test]
fn contract_needs_unsafe_block() {
    let r = safe(&vec![text("reason", "r")], "{ x }");
    assert!(matches!(r, Err(ConfigError::NotUnsafeBlock)));
}

#[test]
fn guard_needs_expression() {
    let opts = vec![text("reason", "r"), text("precondition", "true")];
    let r = safe(&opts, "let x = 1;");
    assert!(matches!(r, Err(ConfigError::NotExpression)));
}

#[test]
fn config_errors_come_first() {
    let r = safe(&vec![text("requires", "a, b")], "not code (");
    assert!(matches!(r, Err(ConfigError::MissingReason)));
}

#[test]
fn compile_assertion_keeps_text() {
    let c = compile_assertion(Clause::Requires, &"!p.is_null()".to_string(), &"why".to_string())
        .unwrap();
    assert_eq!(c.condition, "!p.is_null()");
    assert_eq!(c.reason, "why");
    assert_eq!(c.clause, Clause::Requires);
    assert!(compile_assertion(Clause::Ensures, &"(".to_string(), &"why".to_string()).is_err());
}

#[test]
fn marked_body_takes_block_of_unsafe() {
    assert_eq!(marked_body(Style::Contract, "unsafe { f(); g() }").unwrap(), "{ f () ; g () }");
    assert_eq!(marked_body(Style::Guard, "f(x)").unwrap(), "f(x)");
}

#[test]
fn reason_text_does_not_change_code_shape() {
    let a = expand(&vec![text("reason", "one"), text("requires", "p")], "unsafe { 1 }").unwrap();
    let b = expand(&vec![text("reason", "two"), text("requires", "p")], "unsafe { 1 }").unwrap();
    assert_eq!(a.body, b.body);
    assert_eq!(a.result_name, b.result_name);
    assert_eq!(a.pre.as_ref().unwrap().condition, b.pre.as_ref().unwrap().condition);
    assert_ne!(a.pre.unwrap().reason, b.pre.unwrap().reason);
}

#[test]
fn fresh_name_grows_until_unused() {
    assert_eq!(fresh_name(""), "__safe_result");
    assert_eq!(fresh_name("x == 1"), "__safe_result");
    assert_eq!(fresh_name("__safe_result + __safe_result_"), "__safe_result__");
}

#[test]
fn text_contains_finds_runs() {
    assert!(text_contains("abcde", "cd"));
    assert!(text_contains("abc", ""));
    assert!(!text_contains("abc", "abcd"));
    assert!(!text_contains("abc", "ac"));
}

#[test]
fn c_string_literal_parses() {
    let c = compile_assertion(Clause::Requires, &"c\"x\".is_empty()".to_string(), &"r".to_string());
    assert!(c.is_ok());
    let out = safe(&vec![text("reason", "r")], "unsafe { c\"x\" }").unwrap();
    assert_eq!(out, "unsafe { let __safe_result = { c\"x\" }; __safe_result }");
}

#[test]
fn literal_escaping_follows_fallback() {
    let opts = vec![text("reason", "it's\u{0}1"), text("requires", "ok")];
    let out = safe(&opts, "unsafe {}").unwrap();
    assert!(out.contains(", \"it's\\x001\"); "));
}
