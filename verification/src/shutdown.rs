//! Cooperative shutdown for event loops.
//!
//! The shutdown flag is shared between the [`World`](crate::world::World)
//! and every [`ShutdownHandle`]: any holder may trigger it, and the event
//! loop checks it once per iteration. Loads and stores are relaxed; the
//! value read depends on what other holders did, so nothing is promised of
//! it beyond the type.
use vstd::prelude::*;
use std::sync::Arc;
use std::sync::atomic::{AtomicBool, Ordering};

verus! {

/// Handler parameter for cooperative shutdown, borrowing the world's flag.
pub struct Shutdown<'w>(pub &'w AtomicBool);

impl<'w> Shutdown<'w> {
    /// Returns `true` if shutdown has been triggered.
    pub fn is_shutdown(&self) -> (r: bool) {
        self.0.load(Ordering::Relaxed)
    }

    /// Trigger shutdown; the event loop exits after the current dispatch.
    pub fn trigger(&self) {
        self.0.store(true, Ordering::Relaxed);
    }
}

/// External handle for the event loop, sharing the world's flag.
pub struct ShutdownHandle {
    flag: Arc<AtomicBool>,
}

impl ShutdownHandle {
    /// The shared flag the handle holds.
    pub closed spec fn flag_spec(&self) -> Arc<AtomicBool> {
        self.flag
    }

    /// Wrap a shared flag.
    pub fn new(flag: Arc<AtomicBool>) -> (r: ShutdownHandle)
        ensures r.flag_spec() == flag,
    {
        ShutdownHandle { flag }
    }

    /// Returns `true` if shutdown has been triggered.
    pub fn is_shutdown(&self) -> (r: bool) {
        self.flag.load(Ordering::Relaxed)
    }

    /// Trigger shutdown from outside the event loop.
    pub fn shutdown(&self) {
        self.flag.store(true, Ordering::Relaxed);
    }

    /// The shared flag, for registering signal handlers on it.
    pub fn flag(&self) -> (r: Arc<AtomicBool>)
        ensures r == self.flag_spec(),
    {
        self.flag.clone()
    }
}

} // verus!
