use vstd::prelude::*;

use crate::error::Error;

verus! {

/// What one wait on a native reply channel produced: an item, an expired
/// deadline, or a closed channel.
#[derive(Debug)]
pub enum RecvOutcome<T> {
    Item(T),
    Expired,
    Disconnected,
}

/// What the aggregation loop does after one wait.
#[derive(Debug)]
pub enum CollectStep {
    /// Keep waiting for more items.
    Continue,
    /// Stop and return what was collected.
    Finish,
    /// Stop and fail with the given error.
    Abort(Error),
}

/// One step of deadline-based partial-success aggregation, as `get`,
/// `liveliness_get` and `scout` use it.
///
/// An item is appended and the loop goes on. When the deadline expires the
/// collected items are returned if there are any; with nothing collected
/// the call fails with `Timeout`. A closed channel is handled the same
/// way, failing with `ChannelDisconnected` only when nothing arrived.
pub fn collect_step<T>(items: &mut Vec<T>, outcome: RecvOutcome<T>) -> (r: CollectStep)
    ensures
        outcome matches RecvOutcome::Item(x) ==> final(items)@ == old(items)@.push(x)
            && r is Continue,
        outcome is Expired ==> final(items)@ == old(items)@ && (if old(items)@.len() == 0 {
            r matches CollectStep::Abort(e) && e == Error::Timeout
        } else {
            r is Finish
        }),
        outcome is Disconnected ==> final(items)@ == old(items)@ && (if old(items)@.len() == 0 {
            r matches CollectStep::Abort(e) && e == Error::ChannelDisconnected
        } else {
            r is Finish
        }),
{
    match outcome {
        RecvOutcome::Item(x) => {
            items.push(x);
            CollectStep::Continue
        },
        RecvOutcome::Expired => {
            if items.len() == 0 {
                CollectStep::Abort(Error::Timeout)
            } else {
                CollectStep::Finish
            }
        },
        RecvOutcome::Disconnected => {
            if items.len() == 0 {
                CollectStep::Abort(Error::ChannelDisconnected)
            } else {
                CollectStep::Finish
            }
        },
    }
}

/// The pull-style receive of a subscriber: one wait, one result. A timeout
/// or a closed channel surfaces as the matching error.
pub fn recv_once<T>(outcome: RecvOutcome<T>) -> (r: Result<T, Error>)
    ensures
        outcome matches RecvOutcome::Item(x) ==> (r matches Ok(y) && y == x),
        outcome is Expired ==> (r matches Err(e) && e == Error::Timeout),
        outcome is Disconnected ==> (r matches Err(e) && e == Error::ChannelDisconnected),
{
    match outcome {
        RecvOutcome::Item(x) => Ok(x),
        RecvOutcome::Expired => Err(Error::Timeout),
        RecvOutcome::Disconnected => Err(Error::ChannelDisconnected),
    }
}

} // verus!
