//! The bridge between the logging facade and a foreign callback.
//!
//! An [`FfiLogger`] holds an address-sized callback slot and an opaque,
//! address-sized user-data token. While the slot is live, every log record
//! becomes exactly one [`LogCall`]: the callback address, the token, the
//! record's severity, and the message in its null-terminated transport form.
//! Once detached, the slot is null forever and every record is silently
//! dropped.
//!
//! Both addresses are carried as plain `usize` values and never
//! dereferenced here: the unverified foreign-function shell around the
//! library turns a [`LogCall`] into the actual callback invocation, and
//! turns real pointers into these address tokens. The slot's one-way
//! transition to null is what makes it safe for the owner to reclaim the
//! token: after [`LogHandle::deinit`] returns, no later record can reach
//! the callback.

use crate::encode::{c_encoded, encode_message};
use crate::severity::Severity;
use vstd::prelude::*;

verus! {

/// One decided invocation of the foreign callback: which callback to call,
/// with which data token, severity, and null-terminated message bytes.
pub struct LogCall {
    /// The address of the foreign callback to invoke. Never null.
    pub callback: usize,
    /// The opaque user-data token, passed through verbatim.
    pub data: Option<usize>,
    /// The record's severity, passed through verbatim.
    pub level: Severity,
    /// The message in transport form: sanitized and null-terminated.
    pub message: Vec<u8>,
}

/// The bridge: an opaque data token, fixed at construction, and a callback
/// slot that moves from a live address to null exactly once.
pub struct FfiLogger {
    data: Option<usize>,
    callback: usize,
}

/// The bridge state right after construction with `callback` and `data`.
pub closed spec fn constructed(callback: usize, data: Option<usize>) -> FfiLogger {
    FfiLogger { data, callback }
}

/// The bridge state after a detach: the slot is null, the token unchanged.
pub closed spec fn detached(b: FfiLogger) -> FfiLogger {
    FfiLogger { callback: 0, ..b }
}

/// What a detach hands back: the data token if the slot was still live,
/// and nothing once the bridge is already detached.
pub open spec fn detach_result(b: FfiLogger) -> Option<usize> {
    if b.live() {
        b.token()
    } else {
        None
    }
}

impl FfiLogger {
    /// The address held in the callback slot; `0` stands for null.
    pub closed spec fn callback_addr(&self) -> usize {
        self.callback
    }

    /// The opaque data token fixed at construction.
    pub closed spec fn token(&self) -> Option<usize> {
        self.data
    }

    /// Whether the callback slot still holds a live callback address.
    pub open spec fn live(&self) -> bool {
        self.callback_addr() != 0
    }

    /// Creates a bridge holding `callback` in its slot and `data` as its
    /// token.
    ///
    /// `callback` must be the address of a real foreign callback, and a
    /// function address is never null. The caller on the foreign side must
    /// keep `callback` and `data` safe to use from any thread, and must not
    /// free or reuse whatever `data` designates until the token is handed
    /// back by [`LogHandle::deinit`]; neither obligation can be checked
    /// here.
    pub fn new(callback: usize, data: Option<usize>) -> (r: FfiLogger)
        requires
            callback != 0,
        ensures
            r == constructed(callback, data),
            r.callback_addr() == callback,
            r.token() == data,
            r.live(),
    {
        FfiLogger { data, callback }
    }

    /// The bridge reports itself enabled for every severity: filtering is
    /// the logging facade's business, not the bridge's.
    pub fn enabled(&self, _level: Severity) -> (r: bool)
        ensures
            r,
    {
        true
    }

    /// Decides what a log record becomes: while the bridge is live, exactly
    /// one invocation carrying the callback address, the data token, the
    /// severity verbatim, and the message in transport form; once detached,
    /// nothing at all.
    pub fn log(&self, level: Severity, message: &[u8]) -> (r: Option<LogCall>)
        ensures
            r is Some <==> self.live(),
            r matches Some(call) ==> {
                &&& call.callback == self.callback_addr()
                &&& call.data == self.token()
                &&& call.level == level
                &&& call.message@ == c_encoded(message@)
            },
    {
        if self.callback == 0 {
            return None;
        }
        Some(LogCall {
            callback: self.callback,
            data: self.data,
            level,
            message: encode_message(message),
        })
    }

    /// Flushing is a no-op at the bridge: the callback contract obliges the
    /// foreign side to flush before returning.
    pub fn flush(&self) {
    }
}

/// The capability to detach a bridge's callback exactly once.
///
/// The handle owns the bridge and is the only way to clear its callback
/// slot, so holding the handle is holding the exclusive right to detach.
pub struct LogHandle {
    logger: FfiLogger,
}

impl LogHandle {
    /// The bridge this handle guards.
    pub closed spec fn bridge_spec(&self) -> FfiLogger {
        self.logger
    }

    /// Wraps a bridge into the handle that will detach it.
    pub fn new(logger: FfiLogger) -> (r: LogHandle)
        ensures
            r.bridge_spec() == logger,
    {
        LogHandle { logger }
    }

    /// The bridge, for routing log records while the handle is held.
    pub fn bridge(&self) -> (r: &FfiLogger)
        ensures
            *r == self.bridge_spec(),
    {
        &self.logger
    }

    /// Detaches the bridge's callback: nulls the slot and hands the data
    /// token back to its owner.
    ///
    /// The first call returns the token given at construction; any later
    /// call observes the null slot, changes nothing, and returns `None`.
    /// After this returns, no record routed through the bridge produces an
    /// invocation.
    pub fn deinit(&mut self) -> (r: Option<usize>)
        ensures
            final(self).bridge_spec() == detached(old(self).bridge_spec()),
            !final(self).bridge_spec().live(),
            final(self).bridge_spec().token() == old(self).bridge_spec().token(),
            r == detach_result(old(self).bridge_spec()),
    {
        let r = if self.logger.callback != 0 {
            self.logger.data
        } else {
            None
        };
        self.logger.callback = 0;
        r
    }
}

/// A bridge constructed with a data token hands exactly that token back
/// when it is first detached.
pub proof fn lemma_construct_detach_round_trip(callback: usize, data: Option<usize>)
    requires
        callback != 0,
    ensures
        detach_result(constructed(callback, data)) == data,
{
}

/// A detached bridge is never live, so by [`FfiLogger::log`]'s contract no
/// record routed through it after a detach produces an invocation.
pub proof fn lemma_detached_never_invokes(b: FfiLogger)
    ensures
        !detached(b).live(),
{
}

/// Detaching is idempotent: a second detach of an already detached bridge
/// returns nothing and leaves the bridge as it was.
pub proof fn lemma_detach_idempotent(b: FfiLogger)
    ensures
        detach_result(detached(b)) is None,
        detached(detached(b)) == detached(b),
{
}

} // verus!
