//! The handle that keeps a danmaku connection alive and stops it when asked
//! or when dropped.

use std::sync::atomic::{AtomicBool, Ordering};
use std::sync::Arc;

use vstd::prelude::*;

verus! {

/// `AtomicBool::store(true, SeqCst)`: sets the flag. The store neither
/// unwinds nor opens an invariant; what the flag holds afterwards is not
/// modelled, since other threads read and write it.
#[verifier::external_body]
fn raise_flag(flag: &Arc<AtomicBool>)
    opens_invariants none
    no_unwind
{
    flag.store(true, Ordering::SeqCst)
}

/// Handle to a running danmaku connection. Stops its threads on drop.
pub struct DanmakuHandle {
    stop: Arc<AtomicBool>,
}

impl DanmakuHandle {
    /// A handle whose stop flag is not yet raised.
    pub fn new() -> Self {
        DanmakuHandle { stop: Arc::new(AtomicBool::new(false)) }
    }

    /// The flag that this handle raises.
    pub closed spec fn flag(&self) -> Arc<AtomicBool> {
        self.stop
    }

    /// The flag the connection's threads poll to learn that they must stop.
    pub fn stop_flag(&self) -> (f: &Arc<AtomicBool>)
        ensures
            *f == self.flag(),
    {
        &self.stop
    }

    /// Asks the connection's threads to stop.
    pub fn stop(&self) {
        raise_flag(&self.stop);
    }
}

impl Drop for DanmakuHandle {
    fn drop(&mut self)
        opens_invariants none
        no_unwind
    {
        raise_flag(&self.stop);
    }
}

} // verus!
