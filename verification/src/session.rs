//! The session state: the configuration snapshot, the sending side of the
//! commands queue, and the busy flag that admits one update lifecycle at a
//! time. The embedding application owns one session, shares it between its
//! UI thread and its shutdown path, and keeps every critical section short.

use vstd::prelude::*;

use crate::bus::{bus_capacity, bus_view, CommandBus, PatcherCommand};
use crate::config::PatcherConfiguration;

verus! {

/// The state behind the UI surface: configuration, the commands queue, and
/// whether an update lifecycle is in flight.
pub struct WebViewUserData {
    pub patcher_config: PatcherConfiguration,
    pub patching_thread_tx: CommandBus,
    pub patching_in_progress: bool,
}

/// Whether a dispatch left the session as it found it: same configuration,
/// same busy flag, same queued commands.
pub open spec fn session_unchanged(pre: WebViewUserData, post: WebViewUserData) -> bool {
    &&& post.patcher_config == pre.patcher_config
    &&& post.patching_in_progress == pre.patching_in_progress
    &&& bus_view(post.patching_thread_tx) == bus_view(pre.patching_thread_tx)
    &&& bus_capacity(post.patching_thread_tx) == bus_capacity(pre.patching_thread_tx)
}

impl WebViewUserData {
    /// A fresh session around a configuration snapshot and a commands
    /// queue; no update is in flight yet.
    pub fn new(patcher_config: PatcherConfiguration, patching_thread_tx: CommandBus) -> (r:
        WebViewUserData)
        ensures
            r.patcher_config == patcher_config,
            r.patching_thread_tx == patching_thread_tx,
            !r.patching_in_progress,
    {
        WebViewUserData { patcher_config, patching_thread_tx, patching_in_progress: false }
    }

    /// Records whether an update lifecycle is in flight. The transition
    /// back to idle belongs to the worker's completion event: the
    /// dispatcher itself never clears the flag.
    pub fn set_patching_in_progress(&mut self, value: bool)
        ensures
            final(self).patching_in_progress == value,
            final(self).patcher_config == old(self).patcher_config,
            bus_view(final(self).patching_thread_tx) == bus_view(old(self).patching_thread_tx),
            bus_capacity(final(self).patching_thread_tx) == bus_capacity(
                old(self).patching_thread_tx,
            ),
    {
        self.patching_in_progress = value;
    }

    /// Best-effort shutdown notice: queues `Quit` for the worker if the
    /// commands queue has room, and otherwise leaves things be. Meant to be
    /// called on every orderly exit path.
    pub fn shutdown(&mut self)
        ensures
            final(self).patcher_config == old(self).patcher_config,
            final(self).patching_in_progress == old(self).patching_in_progress,
            bus_capacity(final(self).patching_thread_tx) == bus_capacity(
                old(self).patching_thread_tx,
            ),
            bus_view(old(self).patching_thread_tx).len() < bus_capacity(
                old(self).patching_thread_tx,
            ) ==> bus_view(final(self).patching_thread_tx) == bus_view(
                old(self).patching_thread_tx,
            ).push(PatcherCommand::Quit),
            bus_view(old(self).patching_thread_tx).len() >= bus_capacity(
                old(self).patching_thread_tx,
            ) ==> bus_view(final(self).patching_thread_tx) == bus_view(
                old(self).patching_thread_tx,
            ),
    {
        let _ = self.patching_thread_tx.try_submit(PatcherCommand::Quit);
    }
}

} // verus!
