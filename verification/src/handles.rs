use vstd::prelude::*;

use crate::error::Error;

verus! {

/// A declared liveliness token, held as a consume-once slot: `Some(handle)`
/// while the presence assertion is declared, `None` once it has been
/// undeclared. A token can never be redeclared from the same slot.
#[derive(Debug)]
pub struct LivelinessTokenSlot {
    pub inner: Option<u64>,
}

impl LivelinessTokenSlot {
    /// A fresh slot for a token the host layer keeps under `handle`.
    pub fn new(handle: u64) -> (r: LivelinessTokenSlot)
        ensures
            r.inner == Some(handle),
    {
        LivelinessTokenSlot { inner: Some(handle) }
    }

    /// Explicit undeclare: consume the slot and hand back the native
    /// handle. Fails with `NotFound` when the token was already
    /// undeclared.
    pub fn undeclare(&mut self) -> (r: Result<u64, Error>)
        ensures
            final(self).inner is None,
            old(self).inner matches Some(h) ==> (r matches Ok(g) && g == h),
            old(self).inner is None ==> (r matches Err(e) && e == Error::NotFound),
    {
        match self.inner {
            Some(h) => {
                self.inner = None;
                Ok(h)
            },
            None => Err(Error::NotFound),
        }
    }

    /// The drop cleanup: consume the slot if the token is still declared,
    /// reporting the handle to undeclare. Idempotent; never errors.
    pub fn drop_cleanup(&mut self) -> (r: Option<u64>)
        ensures
            final(self).inner is None,
            r == old(self).inner,
    {
        let r = self.inner;
        self.inner = None;
        r
    }
}

/// A running scout, held as a consume-once slot: `Some(handle)` while it is
/// producing hellos, `None` once stopped.
#[derive(Debug)]
pub struct ScoutSlot {
    pub inner: Option<u64>,
}

impl ScoutSlot {
    /// A fresh slot for a scout the host layer keeps under `handle`.
    pub fn new(handle: u64) -> (r: ScoutSlot)
        ensures
            r.inner == Some(handle),
    {
        ScoutSlot { inner: Some(handle) }
    }

    /// Explicit stop: consume the slot and hand back the native handle.
    /// Fails with `NotFound` when the scout was already stopped.
    pub fn stop(&mut self) -> (r: Result<u64, Error>)
        ensures
            final(self).inner is None,
            old(self).inner matches Some(h) ==> (r matches Ok(g) && g == h),
            old(self).inner is None ==> (r matches Err(e) && e == Error::NotFound),
    {
        match self.inner {
            Some(h) => {
                self.inner = None;
                Ok(h)
            },
            None => Err(Error::NotFound),
        }
    }

    /// The drop cleanup: stop the scout if it is still running, reporting
    /// the handle to stop. Idempotent; never errors.
    pub fn drop_cleanup(&mut self) -> (r: Option<u64>)
        ensures
            final(self).inner is None,
            r == old(self).inner,
    {
        let r = self.inner;
        self.inner = None;
        r
    }
}

} // verus!
