use zenohex::error::Error;
use zenohex::keyexpr::{keyexpr_autocanonize, keyexpr_includes, keyexpr_intersects, keyexpr_valid};

#[test]
fn valid_accepts_plain_and_wild() {
    assert!(keyexpr_valid("demo/ex"));
    assert!(keyexpr_valid("a/*"));
    assert!(keyexpr_valid("a/**"));
}

#[test]
fn valid_rejects_malformed() {
    assert!(!keyexpr_valid(""));
    assert!(!keyexpr_valid("a//b"));
    assert!(!keyexpr_valid("/a"));
    assert!(!keyexpr_valid("a/"));
    assert!(!keyexpr_valid("a?b"));
}

#[test]
fn intersects_examples() {
    assert!(keyexpr_intersects("a/*", "a/b"));
    assert!(!keyexpr_intersects("a/*", "b/*"));
    assert!(keyexpr_intersects("a/**", "a/b/c"));
}

#[test]
fn intersects_is_symmetric_on_samples() {
    let pairs = [("a/*", "a/b"), ("a/*", "b/*"), ("a/**", "a/b/c"), ("a/*", "*/a")];
    for (a, b) in pairs {
        assert_eq!(keyexpr_intersects(a, b), keyexpr_intersects(b, a));
    }
}

#[test]
fn intersects_false_on_invalid_operand() {
    assert!(!keyexpr_intersects("a//b", "a"));
    assert!(!keyexpr_intersects("a", "a//b"));
}

#[test]
fn includes_reflexive_and_examples() {
    assert!(keyexpr_includes("a/**", "a/**"));
    assert!(keyexpr_includes("demo/ex", "demo/ex"));
    assert!(keyexpr_includes("a/*/**", "a/b/**"));
    assert!(!keyexpr_includes("a/b/**", "a/*/**"));
    assert!(!keyexpr_includes("a//b", "a//b"));
}

#[test]
fn autocanonize_rewrites_and_rejects() {
    assert_eq!(keyexpr_autocanonize("a/**/**").unwrap(), "a/**".to_string());
    assert_eq!(keyexpr_autocanonize("demo/ex").unwrap(), "demo/ex".to_string());
    assert_eq!(
        keyexpr_autocanonize("hello/foo$*$*/bar").unwrap(),
        "hello/foo$*/bar".to_string()
    );
    assert!(matches!(keyexpr_autocanonize(""), Err(Error::KeyExprInvalid)));
    assert!(matches!(keyexpr_autocanonize("a//b"), Err(Error::KeyExprInvalid)));
}

#[test]
fn autocanonize_is_idempotent() {
    for s in ["a/**/**", "demo/ex", "hello/foo$*$*/bar", "hello/$*$*/bye"] {
        let once = keyexpr_autocanonize(s).unwrap();
        let twice = keyexpr_autocanonize(once.as_str()).unwrap();
        assert_eq!(twice, once);
    }
}

#[test]
fn autocanonize_rejects_trailing_dollar_star_pairs() {
    // The native canonizer cannot scan a `$*$*` this close to the end of
    // the string; such inputs are rejected without reaching it.
    for s in ["a$*$*", "a/b$*$*", "a$*$*b", "$*$*$*"] {
        assert!(matches!(keyexpr_autocanonize(s), Err(Error::KeyExprInvalid)), "accepted {:?}", s);
    }
}
