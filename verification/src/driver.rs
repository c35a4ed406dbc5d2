//! The rebuild driver: the single consumer of the watch event queue.
//!
//! Events are applied strictly one at a time, in arrival order, so the
//! output tree never sees interleaved writes. After every event —
//! handled successfully or not — the driver notifies the reload
//! broadcaster, so the browser reflects whatever state the event left.

use vstd::prelude::*;

use crate::builder::{spec_process_event, BuildError, PageBuilder, SourceSnapshot};
use crate::events::WatchEvent;
use crate::sse::SeeEventManager;

verus! {

/// The rebuild driver: a page builder together with the reload
/// broadcaster it notifies after every event.
pub struct RebuildDriver {
    /// The builder that owns the output tree.
    pub builder: PageBuilder,
    /// The broadcaster of the live-reload signal.
    pub sse: SeeEventManager,
}

impl RebuildDriver {
    /// Handles one watch event: the builder steps as
    /// [`spec_process_event`] says, and then — whether the step
    /// succeeded or failed — one reload notification fans out to
    /// every subscriber.
    pub fn handle_event(&mut self, event: &WatchEvent, snapshot: &SourceSnapshot) -> (r: Result<
        (),
        BuildError,
    >)
        ensures
            spec_process_event(old(self).builder, final(self).builder, r, *event, *snapshot),
            SeeEventManager::spec_reload_step(old(self).sse, final(self).sse),
    {
        let r = self.builder.process_event(event, snapshot);
        self.sse.reload();
        r
    }
}

} // verus!
