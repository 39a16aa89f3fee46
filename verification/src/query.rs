use vstd::prelude::*;

use crate::error::Error;

verus! {

/// A pending inbound query, held as a consume-once slot.
///
/// The native query object sends its terminating response when dropped, so
/// the slot holds the handle under which the host layer keeps that object:
/// `Some(handle)` while replies may still be produced, `None` once the
/// final reply has been sent. The transition from `Some` to `None` happens
/// at most once; every reply attempt on `None` fails with
/// `QueryAlreadyFinal`.
#[derive(Debug)]
pub struct QueryToken {
    pub inner: Option<u64>,
}

/// What the `final?` option asks for; absent means final — a reply closes
/// the query unless the host explicitly asks for a multi-reply sequence.
pub open spec fn reply_is_final(opt: Option<bool>) -> bool {
    match opt {
        Some(b) => b,
        None => true,
    }
}

impl QueryToken {
    /// A fresh token for a query the host layer keeps under `handle`.
    pub fn new(handle: u64) -> (r: QueryToken)
        ensures
            r.inner == Some(handle),
    {
        QueryToken { inner: Some(handle) }
    }

    /// Start one reply (`reply`, `reply_error` or `reply_delete` alike).
    ///
    /// Returns the native handle to reply through and whether this reply is
    /// final. A final reply consumes the slot, so any later attempt fails
    /// with `QueryAlreadyFinal`; a non-final reply leaves the slot as it
    /// was, so more replies may follow.
    pub fn begin_reply(&mut self, is_final_opt: Option<bool>) -> (r: Result<(u64, bool), Error>)
        ensures
            old(self).inner is None ==> (r matches Err(e) && e == Error::QueryAlreadyFinal
                && final(self).inner is None),
            old(self).inner matches Some(h) ==> (r matches Ok(p) && p.0 == h && p.1
                == reply_is_final(is_final_opt) && final(self).inner == (
            if reply_is_final(is_final_opt) {
                Option::<u64>::None
            } else {
                Some(h)
            })),
    {
        let is_final = match is_final_opt {
            Some(b) => b,
            None => true,
        };
        match self.inner {
            Some(h) => {
                if is_final {
                    self.inner = None;
                }
                Ok((h, is_final))
            },
            None => Err(Error::QueryAlreadyFinal),
        }
    }

    /// Consume the slot without sending a payload, so that dropping the
    /// native query sends the terminating response. Fails with
    /// `QueryAlreadyFinal` when the slot is already consumed.
    pub fn finish_reply(&mut self) -> (r: Result<u64, Error>)
        ensures
            final(self).inner is None,
            old(self).inner matches Some(h) ==> (r matches Ok(g) && g == h),
            old(self).inner is None ==> (r matches Err(e) && e == Error::QueryAlreadyFinal),
    {
        match self.inner {
            Some(h) => {
                self.inner = None;
                Ok(h)
            },
            None => Err(Error::QueryAlreadyFinal),
        }
    }

    /// The drop cleanup of the token: consume the slot if it still holds
    /// the query, reporting the handle so the native query can be dropped.
    /// Idempotent; never errors.
    pub fn drop_cleanup(&mut self) -> (r: Option<u64>)
        ensures
            final(self).inner is None,
            r == old(self).inner,
    {
        let r = self.inner;
        self.inner = None;
        r
    }
}

/// An inbound query as it is posted to the owning host process: the data
/// of the request and the token to reply through.
#[derive(Debug)]
pub struct ZenohexQuery {
    pub attachment: Option<Vec<u8>>,
    pub encoding: Option<String>,
    pub key_expr: String,
    pub parameters: String,
    pub payload: Option<Vec<u8>>,
    pub selector: String,
    pub zenoh_query: QueryToken,
}

/// An error reply to a `get`, as it is handed back to the caller.
#[derive(Debug)]
pub struct ZenohexQueryReplyError {
    pub payload: Vec<u8>,
    pub encoding: String,
}

} // verus!
