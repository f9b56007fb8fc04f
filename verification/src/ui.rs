//! Status events and the script-call expressions they turn into.
//!
//! Each patching status maps one-to-one onto a fixed script-call expression
//! whose arguments are interpolated positionally. The interpolation is
//! deliberately naive: message text is spliced between quotes unescaped, so
//! an embedded quote or newline in an error message corrupts the generated
//! expression. That gap is part of the interface contract here and is pinned
//! down, not repaired.

use vstd::prelude::*;

use crate::bus::{ui_view, UiBus};
use crate::strutil::{spec_dec, u64_dec};

verus! {

/// A request handed to the UI thread, drained once per tick.
pub enum UiCommand {
    /// Run a script expression on the UI surface.
    EvaluateScript(String),
}

/// The script expression a UI command carries.
pub open spec fn ui_command_script(u: UiCommand) -> Seq<char> {
    match u {
        UiCommand::EvaluateScript(s) => s@,
    }
}

/// A progress report from the patching worker.
pub enum PatchingStatus {
    /// The worker is idle and up to date.
    Ready,
    /// The worker failed; the message is shown to the user.
    Error(String),
    /// Download progress: files done, files total, bytes per second.
    DownloadInProgress(usize, usize, u64),
    /// Installation progress: files done, files total.
    InstallationInProgress(usize, usize),
    /// A manually selected patch was applied; carries its name.
    ManualPatchApplied(String),
}

/// The script-call expression generated for a status, with its fields
/// interpolated positionally and text fields spliced in unescaped.
pub open spec fn spec_status_script(status: PatchingStatus) -> Seq<char> {
    match status {
        PatchingStatus::Ready => "patchingStatusReady()"@,
        PatchingStatus::Error(msg) => "patchingStatusError(\""@ + msg@ + "\")"@,
        PatchingStatus::DownloadInProgress(done, total, rate) => "patchingStatusDownloading("@
            + spec_dec(done as int) + ", "@ + spec_dec(total as int) + ", "@ + spec_dec(rate as int)
            + ")"@,
        PatchingStatus::InstallationInProgress(done, total) => "patchingStatusInstalling("@
            + spec_dec(done as int) + ", "@ + spec_dec(total as int) + ")"@,
        PatchingStatus::ManualPatchApplied(name) => "patchingStatusPatchApplied(\""@ + name@
            + "\")"@,
    }
}

/// Renders the script-call expression for a status.
pub fn status_script(status: &PatchingStatus) -> (r: String)
    ensures
        r@ == spec_status_script(*status),
{
    match status {
        PatchingStatus::Ready => String::from_str("patchingStatusReady()"),
        PatchingStatus::Error(msg) => {
            let mut r = String::from_str("patchingStatusError(\"");
            r.append(msg.as_str());
            r.append("\")");
            r
        },
        PatchingStatus::DownloadInProgress(done, total, rate) => {
            let mut r = String::from_str("patchingStatusDownloading(");
            r.append(u64_dec(*done as u64).as_str());
            r.append(", ");
            r.append(u64_dec(*total as u64).as_str());
            r.append(", ");
            r.append(u64_dec(*rate).as_str());
            r.append(")");
            r
        },
        PatchingStatus::InstallationInProgress(done, total) => {
            let mut r = String::from_str("patchingStatusInstalling(");
            r.append(u64_dec(*done as u64).as_str());
            r.append(", ");
            r.append(u64_dec(*total as u64).as_str());
            r.append(")");
            r
        },
        PatchingStatus::ManualPatchApplied(name) => {
            let mut r = String::from_str("patchingStatusPatchApplied(\"");
            r.append(name.as_str());
            r.append("\")");
            r
        },
    }
}

/// Translates status events into script-injection requests on the
/// UI-updates queue.
pub struct UiController {
    pub ui_tx: UiBus,
}

impl UiController {
    /// A controller that enqueues onto the given UI-updates queue.
    pub fn new(ui_tx: UiBus) -> (r: UiController)
        ensures
            r.ui_tx == ui_tx,
    {
        UiController { ui_tx }
    }

    /// Appends the status's script-call expression to the UI-updates
    /// queue; the producer is never blocked.
    pub fn dispatch_patching_status(&mut self, status: PatchingStatus)
        ensures
            ui_view(final(self).ui_tx) == ui_view(old(self).ui_tx).push(
                spec_status_script(status),
            ),
    {
        let script = status_script(&status);
        self.ui_tx.push(UiCommand::EvaluateScript(script));
    }

    /// Housekeeping hook for progress transitions. The busy flag lives in
    /// the session and only the session's owner clears it on a completion
    /// event, so there is nothing for the controller to record here.
    pub fn set_patch_in_progress(&self, _value: bool) {
    }
}

} // verus!
