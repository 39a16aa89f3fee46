use zenohex::error::Error;
use zenohex::query::{QueryToken, ZenohexQuery};

#[test]
fn final_reply_consumes_token() {
    let mut t = QueryToken::new(11);
    let (h, fin) = t.begin_reply(Some(true)).unwrap();
    assert_eq!(h, 11);
    assert!(fin);
    assert!(matches!(t.begin_reply(Some(true)), Err(Error::QueryAlreadyFinal)));
    assert!(matches!(t.begin_reply(Some(false)), Err(Error::QueryAlreadyFinal)));
}

#[test]
fn absent_final_flag_defaults_to_final() {
    let mut t = QueryToken::new(11);
    let (_, fin) = t.begin_reply(None).unwrap();
    assert!(fin);
    assert!(matches!(t.begin_reply(None), Err(Error::QueryAlreadyFinal)));
}

#[test]
fn partial_replies_keep_token_alive() {
    let mut t = QueryToken::new(11);
    for _ in 0..3 {
        let (h, fin) = t.begin_reply(Some(false)).unwrap();
        assert_eq!(h, 11);
        assert!(!fin);
    }
    let (_, fin) = t.begin_reply(Some(true)).unwrap();
    assert!(fin);
    assert!(matches!(t.begin_reply(Some(false)), Err(Error::QueryAlreadyFinal)));
}

#[test]
fn finish_reply_consumes_token() {
    let mut t = QueryToken::new(8);
    assert_eq!(t.finish_reply().unwrap(), 8);
    assert!(matches!(t.finish_reply(), Err(Error::QueryAlreadyFinal)));
    assert!(matches!(t.begin_reply(None), Err(Error::QueryAlreadyFinal)));
}

#[test]
fn query_envelope_carries_its_token() {
    let mut q = ZenohexQuery {
        attachment: None,
        encoding: Some("text/plain".to_string()),
        key_expr: "demo/q".to_string(),
        parameters: "".to_string(),
        payload: Some(b"42".to_vec()),
        selector: "demo/q".to_string(),
        zenoh_query: QueryToken::new(9),
    };
    assert_eq!(q.key_expr, "demo/q");
    let (h, fin) = q.zenoh_query.begin_reply(None).unwrap();
    assert_eq!(h, 9);
    assert!(fin);
    assert!(matches!(
        q.zenoh_query.begin_reply(None),
        Err(Error::QueryAlreadyFinal)
    ));
}

#[test]
fn token_drop_cleanup_is_idempotent() {
    let mut t = QueryToken::new(8);
    assert_eq!(t.drop_cleanup(), Some(8));
    assert_eq!(t.drop_cleanup(), None);
}
