use zenohex::error::Error;
use zenohex::opts::{decode_opts, get_value, BuilderCfg, OptContext, OptTag, OptValue};
use zenohex::qos::{CongestionControl, Priority, QueryConsolidation, QueryTarget};

fn decode_put(opts: Vec<(OptTag, OptValue)>) -> Result<BuilderCfg, Error> {
    decode_opts(OptContext::Put, opts)
}

#[test]
fn put_recognizes_express() {
    let cfg = decode_put(vec![(OptTag::Express, OptValue::Bool(true))]).unwrap();
    assert_eq!(cfg.express, Some(true));
    assert_eq!(cfg.priority, None);
}

#[test]
fn put_rejects_ill_typed_express() {
    let r = decode_put(vec![(OptTag::Express, OptValue::Text("yes".to_string()))]);
    assert!(matches!(r, Err(Error::InvalidArgument)));
}

#[test]
fn unknown_tag_is_ignored() {
    let cfg = decode_put(vec![(OptTag::Unknown, OptValue::Int(1))]).unwrap();
    assert_eq!(cfg.attachment, None);
    assert_eq!(cfg.express, None);
}

#[test]
fn mismatch_aborts_even_after_good_pairs() {
    let r = decode_put(vec![
        (OptTag::Priority, OptValue::Priority(Priority::RealTime)),
        (OptTag::Express, OptValue::Int(3)),
    ]);
    assert!(matches!(r, Err(Error::InvalidArgument)));
}

#[test]
fn later_pair_overrides_earlier() {
    let cfg = decode_put(vec![
        (OptTag::Priority, OptValue::Priority(Priority::RealTime)),
        (OptTag::Priority, OptValue::Priority(Priority::Background)),
    ])
    .unwrap();
    assert_eq!(cfg.priority, Some(Priority::Background));
}

#[test]
fn put_full_bag_decodes() {
    let cfg = decode_put(vec![
        (OptTag::Attachment, OptValue::Binary(vec![1, 2])),
        (OptTag::CongestionControl, OptValue::CongestionControl(CongestionControl::Block)),
        (OptTag::Encoding, OptValue::Text("text/plain".to_string())),
        (OptTag::Express, OptValue::Bool(false)),
        (OptTag::Priority, OptValue::Priority(Priority::DataHigh)),
        (OptTag::Timestamp, OptValue::Text("2024-01-01T00:00:00Z".to_string())),
    ])
    .unwrap();
    assert_eq!(cfg.attachment, Some(vec![1, 2]));
    assert_eq!(cfg.congestion_control, Some(CongestionControl::Block));
    assert_eq!(cfg.encoding, Some("text/plain".to_string()));
    assert_eq!(cfg.express, Some(false));
    assert_eq!(cfg.priority, Some(Priority::DataHigh));
    assert_eq!(cfg.timestamp, Some("2024-01-01T00:00:00Z".to_string()));
}

#[test]
fn absent_attachment_is_skipped() {
    let cfg = decode_put(vec![(OptTag::Attachment, OptValue::Absent)]).unwrap();
    assert_eq!(cfg.attachment, None);
}

#[test]
fn delete_recognizes_encoding() {
    let cfg = decode_opts(
        OptContext::Delete,
        vec![(OptTag::Encoding, OptValue::Text("text/plain".to_string()))],
    )
    .unwrap();
    assert_eq!(cfg.encoding, Some("text/plain".to_string()));
    let r = decode_opts(
        OptContext::Delete,
        vec![(OptTag::Encoding, OptValue::Int(1))],
    );
    assert!(matches!(r, Err(Error::InvalidArgument)));
}

#[test]
fn get_context_recognizes_query_options() {
    let cfg = decode_opts(
        OptContext::Get,
        vec![
            (OptTag::Target, OptValue::Target(QueryTarget::BestMatching)),
            (OptTag::Consolidation, OptValue::Consolidation(QueryConsolidation::Latest)),
            (OptTag::Payload, OptValue::Binary(vec![9])),
        ],
    )
    .unwrap();
    assert_eq!(cfg.target, Some(QueryTarget::BestMatching));
    assert_eq!(cfg.consolidation, Some(QueryConsolidation::Latest));
    assert_eq!(cfg.payload, Some(vec![9]));
}

#[test]
fn put_ignores_get_only_tags() {
    let cfg = decode_put(vec![(OptTag::Target, OptValue::Int(3))]).unwrap();
    assert_eq!(cfg.target, None);
}

#[test]
fn queryable_recognizes_only_complete() {
    let cfg = decode_opts(
        OptContext::Queryable,
        vec![
            (OptTag::Complete, OptValue::Bool(true)),
            (OptTag::Express, OptValue::Int(1)),
        ],
    )
    .unwrap();
    assert_eq!(cfg.complete, Some(true));
    assert_eq!(cfg.express, None);
}

#[test]
fn subscriber_ignores_everything() {
    let cfg = decode_opts(
        OptContext::Subscriber,
        vec![(OptTag::Express, OptValue::Int(1))],
    )
    .unwrap();
    assert_eq!(cfg.express, None);
}

#[test]
fn reply_recognizes_final_flag() {
    let cfg = decode_opts(
        OptContext::Reply,
        vec![(OptTag::IsFinal, OptValue::Bool(false))],
    )
    .unwrap();
    assert_eq!(cfg.is_final, Some(false));
}

#[test]
fn get_value_returns_first_match() {
    let opts = vec![
        (OptTag::Priority, OptValue::Int(1)),
        (OptTag::Express, OptValue::Bool(true)),
        (OptTag::Priority, OptValue::Int(2)),
    ];
    match get_value(&opts, OptTag::Priority) {
        Some(OptValue::Int(v)) => assert_eq!(*v, 1),
        other => panic!("unexpected {:?}", other),
    }
    assert!(get_value(&opts, OptTag::Complete).is_none());
}
