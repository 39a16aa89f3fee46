use zenohex::collect::{collect_step, recv_once, CollectStep, RecvOutcome};
use zenohex::error::Error;

#[test]
fn item_is_appended_and_loop_goes_on() {
    let mut items: Vec<u32> = Vec::new();
    let step = collect_step(&mut items, RecvOutcome::Item(5));
    assert!(matches!(step, CollectStep::Continue));
    assert_eq!(items, vec![5]);
}

#[test]
fn expired_with_nothing_collected_times_out() {
    let mut items: Vec<u32> = Vec::new();
    let step = collect_step(&mut items, RecvOutcome::Expired);
    assert!(matches!(step, CollectStep::Abort(Error::Timeout)));
    assert!(items.is_empty());
}

#[test]
fn expired_with_items_returns_them() {
    let mut items: Vec<u32> = vec![1, 2];
    let step = collect_step(&mut items, RecvOutcome::Expired);
    assert!(matches!(step, CollectStep::Finish));
    assert_eq!(items, vec![1, 2]);
}

#[test]
fn disconnect_with_nothing_collected_fails() {
    let mut items: Vec<u32> = Vec::new();
    let step = collect_step(&mut items, RecvOutcome::Disconnected);
    assert!(matches!(step, CollectStep::Abort(Error::ChannelDisconnected)));
}

#[test]
fn disconnect_with_items_returns_them() {
    let mut items: Vec<u32> = vec![9];
    let step = collect_step(&mut items, RecvOutcome::Disconnected);
    assert!(matches!(step, CollectStep::Finish));
    assert_eq!(items, vec![9]);
}

#[test]
fn pull_receive_maps_outcomes() {
    assert_eq!(recv_once(RecvOutcome::Item(3u8)).unwrap(), 3);
    assert!(matches!(recv_once::<u8>(RecvOutcome::Expired), Err(Error::Timeout)));
    assert!(matches!(
        recv_once::<u8>(RecvOutcome::Disconnected),
        Err(Error::ChannelDisconnected)
    ));
}
