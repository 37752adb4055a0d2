use glr::callback::CallbackRegistry;

#[test]
fn tokens_are_dense_and_fire_at_most_once() {
    let mut reg = CallbackRegistry::new();
    let t0 = reg.register();
    let t1 = reg.register();
    assert_eq!(t0, 0);
    assert_eq!(t1, 1);
    assert_eq!(reg.len(), 2);

    // In command order, each embedded token fires exactly once.
    assert!(reg.claim(t0));
    assert!(!reg.claim(t0));
    assert!(reg.claim(t1));
    assert!(!reg.claim(t1));
}

#[test]
fn unknown_tokens_never_fire() {
    let mut reg = CallbackRegistry::new();
    reg.register();
    assert!(!reg.claim(5));
}

#[test]
fn reset_invalidates_all_tokens() {
    let mut reg = CallbackRegistry::new();
    let t = reg.register();
    assert!(reg.claim(t));
    reg.reset();
    assert_eq!(reg.len(), 0);
    // The old token names nothing now.
    assert!(!reg.claim(t));
    // A fresh frame hands tokens out from zero again.
    let t2 = reg.register();
    assert_eq!(t2, 0);
    assert!(reg.claim(t2));
}
