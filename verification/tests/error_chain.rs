use cheatsheet_dispatch::error::Error;

#[test]
fn new_error_has_no_context() {
    let e = Error::new("disk full".to_string());
    assert_eq!(e.depth(), 0);
    assert_eq!(e.root_cause(), "disk full");
    assert_eq!(e.chain(), vec!["disk full".to_string()]);
}

#[test]
fn context_becomes_outermost_layer() {
    let e = Error::new("disk full".to_string()).context("writing cache".to_string());
    assert_eq!(e.depth(), 1);
    assert_eq!(e.context_at(0), "writing cache");
    assert_eq!(e.root_cause(), "disk full");
}

#[test]
fn chain_lists_contexts_outermost_first_then_root() {
    let e = Error::new("disk full".to_string())
        .context("writing cache".to_string())
        .context("importing cheatsheets".to_string());
    assert_eq!(e.depth(), 2);
    assert_eq!(e.context_at(0), "importing cheatsheets");
    assert_eq!(e.context_at(1), "writing cache");
    assert_eq!(e.root_cause(), "disk full");
    assert_eq!(
        e.chain(),
        vec![
            "importing cheatsheets".to_string(),
            "writing cache".to_string(),
            "disk full".to_string(),
        ]
    );
}

#[test]
fn context_preserves_the_cause() {
    let plain = Error::new("root".to_string());
    let wrapped = plain.clone().context("layer".to_string());
    assert_eq!(wrapped.root_cause(), plain.root_cause());
    assert_ne!(wrapped, plain);
}
