use safe::{first_faulty_entry, parse_config, ConfigError, RawOption, Style};

fn text(k: &str, v: &str) -> RawOption {
    RawOption::Text(k.to_string(), v.to_string())
}

#[test]
fn reason_alone_gives_contract_style() {
    let c = parse_config(&vec![text("reason", "only ref")]).unwrap();
    assert_eq!(c.reason, "only ref");
    assert_eq!(c.style, Style::Contract);
    assert_eq!(c.precondition, None);
    assert_eq!(c.postcondition, None);
}

#[test]
fn requires_and_ensures_are_kept() {
    let opts = vec![
        text("requires", "!p.is_null()"),
        text("reason", "r"),
        text("ensures", "p.is_null()"),
    ];
    let c = parse_config(&opts).unwrap();
    assert_eq!(c.style, Style::Contract);
    assert_eq!(c.precondition.as_deref(), Some("!p.is_null()"));
    assert_eq!(c.postcondition.as_deref(), Some("p.is_null()"));
}

#[test]
fn precondition_gives_guard_style() {
    let c = parse_config(&vec![text("reason", "r"), text("precondition", "x > 0")]).unwrap();
    assert_eq!(c.style, Style::Guard);
    assert_eq!(c.precondition.as_deref(), Some("x > 0"));
    assert_eq!(c.postcondition, None);
}

#[test]
fn missing_reason_is_refused() {
    let r = parse_config(&vec![text("requires", "true")]);
    assert!(matches!(r, Err(ConfigError::MissingReason)));
    assert!(matches!(parse_config(&vec![]), Err(ConfigError::MissingReason)));
}

#[test]
fn empty_reason_is_refused() {
    assert!(matches!(parse_config(&vec![text("reason", "")]), Err(ConfigError::EmptyReason)));
}

#[test]
fn unknown_key_is_named() {
    let r = parse_config(&vec![text("reason", "r"), text("because", "x")]);
    match r {
        Err(ConfigError::UnknownOption(k)) => assert_eq!(k, "because"),
        other => panic!("unexpected {:?}", other),
    }
}

#[test]
fn duplicate_key_is_named() {
    let r = parse_config(&vec![text("reason", "a"), text("reason", "b")]);
    match r {
        Err(ConfigError::DuplicateOption(k)) => assert_eq!(k, "reason"),
        other => panic!("unexpected {:?}", other),
    }
}

#[test]
fn value_that_is_not_text_is_refused() {
    let r = parse_config(&vec![text("reason", "a"), RawOption::NotText("ensures".to_string())]);
    match r {
        Err(ConfigError::NotText(k)) => assert_eq!(k, "ensures"),
        other => panic!("unexpected {:?}", other),
    }
}

#[test]
fn unnamed_entry_is_refused() {
    let r = parse_config(&vec![RawOption::Unnamed, text("reason", "a")]);
    assert!(matches!(r, Err(ConfigError::Unnamed)));
}

#[test]
fn first_faulty_entry_wins() {
    let r = parse_config(&vec![text("other", "a"), RawOption::Unnamed]);
    assert!(matches!(r, Err(ConfigError::UnknownOption(_))));
}

#[test]
fn styles_cannot_mix() {
    let r = parse_config(&vec![
        text("reason", "a"),
        text("precondition", "x"),
        text("ensures", "y"),
    ]);
    assert!(matches!(r, Err(ConfigError::MixedStyles)));
}

#[test]
fn first_faulty_entry_points_at_problem() {
    let opts = vec![text("reason", "a"), text("ensures", "x"), text("ensures", "y")];
    assert_eq!(first_faulty_entry(&opts), Some(2));
    assert_eq!(first_faulty_entry(&vec![text("reason", "a")]), None);
    assert_eq!(first_faulty_entry(&vec![RawOption::Unnamed]), Some(0));
}
