use rpatchur::bus::UiBus;
use rpatchur::ui::{status_script, PatchingStatus, UiCommand, UiController};

#[test]
fn ready_status_script_is_exact() {
    assert_eq!(status_script(&PatchingStatus::Ready), "patchingStatusReady()");
}

#[test]
fn download_status_interpolates_positionally() {
    let status = PatchingStatus::DownloadInProgress(3, 10, 1024);
    assert_eq!(status_script(&status), "patchingStatusDownloading(3, 10, 1024)");
}

#[test]
fn installation_status_interpolates_positionally() {
    let status = PatchingStatus::InstallationInProgress(2, 5);
    assert_eq!(status_script(&status), "patchingStatusInstalling(2, 5)");
}

#[test]
fn manual_patch_status_quotes_name() {
    let status = PatchingStatus::ManualPatchApplied("fix.thor".to_string());
    assert_eq!(status_script(&status), "patchingStatusPatchApplied(\"fix.thor\")");
}

#[test]
fn error_status_quotes_message() {
    let status = PatchingStatus::Error("boom".to_string());
    assert_eq!(status_script(&status), "patchingStatusError(\"boom\")");
}

#[test]
fn error_message_is_not_escaped() {
    // An embedded quote corrupts the generated expression; the naive
    // interpolation is part of the interface and stays observable.
    let status = PatchingStatus::Error("a\"b".to_string());
    assert_eq!(status_script(&status), "patchingStatusError(\"a\"b\")");
}

#[test]
fn zero_values_render_as_single_digits() {
    let status = PatchingStatus::DownloadInProgress(0, 0, 0);
    assert_eq!(status_script(&status), "patchingStatusDownloading(0, 0, 0)");
}

#[test]
fn large_values_render_in_full() {
    let status = PatchingStatus::DownloadInProgress(65535, 100000, u64::MAX);
    assert_eq!(
        status_script(&status),
        "patchingStatusDownloading(65535, 100000, 18446744073709551615)"
    );
}

#[test]
fn controller_enqueues_scripts_in_order() {
    let mut controller = UiController::new(UiBus::new());
    controller.dispatch_patching_status(PatchingStatus::Ready);
    controller.dispatch_patching_status(PatchingStatus::InstallationInProgress(1, 2));
    let drained = controller.ui_tx.drain_all();
    let scripts: Vec<String> = drained
        .into_iter()
        .map(|u| match u {
            UiCommand::EvaluateScript(s) => s,
        })
        .collect();
    assert_eq!(
        scripts,
        vec!["patchingStatusReady()".to_string(), "patchingStatusInstalling(1, 2)".to_string()]
    );
}
