use zenohex::error::Error;
use zenohex::registry::{Entity, EntityId, EntityKind, SessionMap};
use zenohex::session::{
    entity_drop_cleanup, entity_native_handle, entity_undeclare, session_drop_cleanup,
    session_native_handle, session_put_prepare,
};

fn entity(zid: u128, eid: u32, kind: EntityKind, native: u64) -> Entity {
    Entity { id: EntityId { zid, eid }, kind, native }
}

#[test]
fn session_insert_get_remove() {
    let mut reg = SessionMap::new();
    assert!(reg.insert_session(7, 100).is_ok());
    assert_eq!(reg.get_session(7).unwrap().native, 100);
    assert!(matches!(reg.insert_session(7, 101), Err(Error::AlreadyExists)));
    let rec = reg.remove_session(7).unwrap();
    assert_eq!(rec.id, 7);
    assert!(matches!(reg.remove_session(7), Err(Error::NotFound)));
}

#[test]
fn closed_session_reports_not_found() {
    let mut reg = SessionMap::new();
    reg.insert_session(7, 100).unwrap();
    reg.remove_session(7).unwrap();
    assert!(matches!(reg.get_session(7), Err(Error::NotFound)));
    assert!(matches!(session_native_handle(&reg, 7), Err(Error::NotFound)));
    let r = session_put_prepare(&reg, 7, "demo/ex".to_string(), b"x".to_vec(), Vec::new());
    assert!(matches!(r, Err(Error::NotFound)));
}

#[test]
fn entity_insert_get_remove() {
    let mut reg = SessionMap::new();
    reg.insert_session(7, 100).unwrap();
    let e = entity(7, 1, EntityKind::Publisher, 500);
    assert!(reg.insert_entity(e).is_ok());
    assert!(matches!(reg.insert_entity(e), Err(Error::AlreadyExists)));
    let got = reg.get_entity(EntityId { zid: 7, eid: 1 }).unwrap();
    assert_eq!(got.native, 500);
    let removed = reg.remove_entity(EntityId { zid: 7, eid: 1 }).unwrap();
    assert_eq!(removed.native, 500);
    assert!(matches!(
        reg.get_entity(EntityId { zid: 7, eid: 1 }),
        Err(Error::NotFound)
    ));
}

#[test]
fn entity_needs_live_session() {
    let mut reg = SessionMap::new();
    let e = entity(9, 1, EntityKind::Subscriber, 500);
    assert!(matches!(reg.insert_entity(e), Err(Error::NotFound)));
    reg.insert_session(9, 100).unwrap();
    reg.insert_entity(e).unwrap();
    reg.remove_session(9).unwrap();
    assert!(matches!(
        reg.get_entity(EntityId { zid: 9, eid: 1 }),
        Err(Error::NotFound)
    ));
}

#[test]
fn dropped_entity_handle_cleans_up_once() {
    let mut reg = SessionMap::new();
    reg.insert_session(3, 100).unwrap();
    let e = entity(3, 4, EntityKind::Publisher, 42);
    reg.insert_entity(e).unwrap();
    let first = entity_drop_cleanup(&mut reg, EntityId { zid: 3, eid: 4 });
    assert_eq!(first.map(|x| x.native), Some(42));
    let second = entity_drop_cleanup(&mut reg, EntityId { zid: 3, eid: 4 });
    assert!(second.is_none());
    let r = entity_native_handle(&reg, EntityId { zid: 3, eid: 4 }, EntityKind::Publisher);
    assert!(matches!(r, Err(Error::NotFound)));
}

#[test]
fn dropped_session_handle_cleans_up_once() {
    let mut reg = SessionMap::new();
    reg.insert_session(3, 100).unwrap();
    let first = session_drop_cleanup(&mut reg, 3);
    assert_eq!(first.map(|s| s.native), Some(100));
    let second = session_drop_cleanup(&mut reg, 3);
    assert!(second.is_none());
}

#[test]
fn undeclare_returns_native_handle_then_not_found() {
    let mut reg = SessionMap::new();
    reg.insert_session(5, 100).unwrap();
    let e = entity(5, 2, EntityKind::Queryable, 77);
    reg.insert_entity(e).unwrap();
    let h = entity_undeclare(&mut reg, EntityId { zid: 5, eid: 2 }, EntityKind::Queryable);
    assert_eq!(h.unwrap(), 77);
    let again = entity_undeclare(&mut reg, EntityId { zid: 5, eid: 2 }, EntityKind::Queryable);
    assert!(matches!(again, Err(Error::NotFound)));
}
