use zenohex::config::{config_from_json5, Locator, WhatAmI};
use zenohex::error::Error;
use zenohex::handles::{LivelinessTokenSlot, ScoutSlot};
use zenohex::opts::{OptTag, OptValue};
use zenohex::qos::Priority;
use zenohex::registry::{EntityKind, SessionMap};
use zenohex::scouting::ZenohexScoutingHello;
use zenohex::session::{session_declare_prepare, session_get_prepare, session_put_prepare};

#[test]
fn put_prepare_carries_command() {
    let mut reg = SessionMap::new();
    reg.insert_session(1, 77).unwrap();
    let cmd = session_put_prepare(
        &reg,
        1,
        "demo/ex".to_string(),
        b"Hello".to_vec(),
        vec![(OptTag::Priority, OptValue::Priority(Priority::Data))],
    )
    .unwrap();
    assert_eq!(cmd.native, 77);
    assert_eq!(cmd.key_expr, "demo/ex".to_string());
    assert_eq!(cmd.payload, b"Hello".to_vec());
    assert_eq!(cmd.cfg.priority, Some(Priority::Data));
}

#[test]
fn put_prepare_rejects_bad_options() {
    let mut reg = SessionMap::new();
    reg.insert_session(1, 77).unwrap();
    let r = session_put_prepare(
        &reg,
        1,
        "demo/ex".to_string(),
        Vec::new(),
        vec![(OptTag::Express, OptValue::Text("yes".to_string()))],
    );
    assert!(matches!(r, Err(Error::InvalidArgument)));
}

#[test]
fn put_prepare_ignores_unknown_tag() {
    let mut reg = SessionMap::new();
    reg.insert_session(1, 77).unwrap();
    let cmd = session_put_prepare(
        &reg,
        1,
        "demo/ex".to_string(),
        Vec::new(),
        vec![(OptTag::Unknown, OptValue::Int(1))],
    );
    assert!(cmd.is_ok());
}

#[test]
fn get_prepare_reports_missing_session_first() {
    let reg = SessionMap::new();
    let r = session_get_prepare(
        &reg,
        9,
        "demo/q".to_string(),
        vec![(OptTag::Express, OptValue::Int(1))],
    );
    assert!(matches!(r, Err(Error::NotFound)));
}

#[test]
fn declare_prepare_uses_the_builder_table() {
    let mut reg = SessionMap::new();
    reg.insert_session(2, 50).unwrap();
    let cmd = session_declare_prepare(
        &reg,
        EntityKind::Queryable,
        2,
        "demo/q".to_string(),
        vec![(OptTag::Complete, OptValue::Bool(true))],
    )
    .unwrap();
    assert_eq!(cmd.cfg.complete, Some(true));
    let r = session_declare_prepare(
        &reg,
        EntityKind::Queryable,
        2,
        "demo/q".to_string(),
        vec![(OptTag::Complete, OptValue::Int(1))],
    );
    assert!(matches!(r, Err(Error::InvalidArgument)));
}

#[test]
fn config_accepts_empty_document() {
    let rendered = config_from_json5("{}").unwrap();
    assert!(!rendered.is_empty());
    assert_ne!(rendered, "{}".to_string());
}

#[test]
fn config_rejects_malformed_document() {
    assert!(matches!(config_from_json5("{"), Err(Error::ConfigInvalid)));
    assert!(matches!(config_from_json5("not json"), Err(Error::ConfigInvalid)));
}

#[test]
fn liveliness_token_undeclares_once() {
    let mut t = LivelinessTokenSlot::new(5);
    assert_eq!(t.undeclare().unwrap(), 5);
    assert!(matches!(t.undeclare(), Err(Error::NotFound)));
    assert_eq!(t.drop_cleanup(), None);
}

#[test]
fn scout_stops_once() {
    let mut s = ScoutSlot::new(6);
    assert_eq!(s.stop().unwrap(), 6);
    assert!(matches!(s.stop(), Err(Error::NotFound)));
    let mut s2 = ScoutSlot::new(7);
    assert_eq!(s2.drop_cleanup(), Some(7));
    assert_eq!(s2.drop_cleanup(), None);
}

#[test]
fn hello_holds_its_parts() {
    let hello = ZenohexScoutingHello::new(
        vec!["tcp/127.0.0.1:7447".to_string()],
        WhatAmI::Peer,
        "abc123".to_string(),
    );
    assert_eq!(hello.locators.len(), 1);
    assert!(matches!(hello.whatami, WhatAmI::Peer));
    assert_eq!(hello.zid, "abc123".to_string());
}

#[test]
fn locator_exposes_its_text() {
    let l = Locator::new("tcp/127.0.0.1:7447".to_string());
    assert_eq!(l.as_str(), "tcp/127.0.0.1:7447");
}
