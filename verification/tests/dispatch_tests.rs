use rpatchur::bus::{CommandBus, PatcherCommand};
use rpatchur::config::{ClientConfig, PatcherConfiguration, WebConfig, WindowConfig};
use rpatchur::dispatch::{
    apply_manual_patch, cache_file_name, extract_request, handle_message, reset_cache_succeeded,
    Action, CacheRemoval, JsonRequest,
};
use rpatchur::session::WebViewUserData;

fn test_config(play_arguments: Vec<String>) -> PatcherConfiguration {
    PatcherConfiguration {
        window: WindowConfig {
            title: "patcher".to_string(),
            width: 400,
            height: 300,
            resizable: false,
        },
        web: WebConfig { index_url: "http://localhost/index.html".to_string() },
        play: ClientConfig {
            path: "client.exe".to_string(),
            arguments: play_arguments,
            exit_on_success: None,
        },
        setup: ClientConfig {
            path: "setup.exe".to_string(),
            arguments: vec!["-s".to_string()],
            exit_on_success: None,
        },
        repair: None,
    }
}

fn test_session(play_arguments: Vec<String>) -> WebViewUserData {
    WebViewUserData::new(test_config(play_arguments), CommandBus::new(32))
}

#[test]
fn play_launches_configured_client() {
    let mut session = test_session(vec!["-x".to_string()]);
    let action = handle_message(&mut session, "play");
    match action {
        Some(Action::Launch { path, arguments, exit_on_success }) => {
            assert_eq!(path, "client.exe");
            assert_eq!(arguments, vec!["-x".to_string()]);
            assert!(exit_on_success);
        },
        other => panic!("expected a launch action, got {:?}", other),
    }
    assert_eq!(session.patching_thread_tx.len(), 0);
    assert!(!session.patching_in_progress);
}

#[test]
fn setup_defaults_to_staying_alive() {
    let mut session = test_session(vec![]);
    let action = handle_message(&mut session, "setup");
    match action {
        Some(Action::Launch { path, arguments, exit_on_success }) => {
            assert_eq!(path, "setup.exe");
            assert_eq!(arguments, vec!["-s".to_string()]);
            assert!(!exit_on_success);
        },
        other => panic!("expected a launch action, got {:?}", other),
    }
}

#[test]
fn setup_honors_configured_exit_flag() {
    let mut session = test_session(vec![]);
    session.patcher_config.setup.exit_on_success = Some(true);
    match handle_message(&mut session, "setup") {
        Some(Action::Launch { exit_on_success, .. }) => assert!(exit_on_success),
        other => panic!("expected a launch action, got {:?}", other),
    }
}

#[test]
fn repair_without_configuration_is_a_no_op() {
    let mut session = test_session(vec![]);
    assert_eq!(handle_message(&mut session, "repair"), None);
    assert_eq!(session.patching_thread_tx.len(), 0);
}

#[test]
fn repair_with_configuration_launches_tool() {
    let mut session = test_session(vec![]);
    session.patcher_config.repair = Some(ClientConfig {
        path: "repair.exe".to_string(),
        arguments: vec!["-r".to_string()],
        exit_on_success: None,
    });
    match handle_message(&mut session, "repair") {
        Some(Action::Launch { path, arguments, exit_on_success }) => {
            assert_eq!(path, "repair.exe");
            assert_eq!(arguments, vec!["-r".to_string()]);
            assert!(!exit_on_success);
        },
        other => panic!("expected a launch action, got {:?}", other),
    }
}

#[test]
fn exit_requests_immediate_termination() {
    let mut session = test_session(vec![]);
    assert_eq!(handle_message(&mut session, "exit"), Some(Action::ExitProcess));
    // The immediate exit path sends no shutdown notice to the worker.
    assert_eq!(session.patching_thread_tx.len(), 0);
}

#[test]
fn busy_guard_yields_single_submission() {
    let mut session = test_session(vec![]);
    assert_eq!(handle_message(&mut session, "start_update"), None);
    assert!(session.patching_in_progress);
    assert_eq!(handle_message(&mut session, "start_update"), None);
    let observed = session.patching_thread_tx.drain();
    assert_eq!(observed, vec![PatcherCommand::StartUpdate]);
    assert!(session.patching_in_progress);
}

#[test]
fn cancel_update_submits_even_while_busy() {
    let mut session = test_session(vec![]);
    session.set_patching_in_progress(true);
    assert_eq!(handle_message(&mut session, "cancel_update"), None);
    assert_eq!(session.patching_thread_tx.drain(), vec![PatcherCommand::CancelUpdate]);
    assert!(session.patching_in_progress);
}

#[test]
fn reset_cache_requests_file_removal() {
    let mut session = test_session(vec![]);
    assert_eq!(handle_message(&mut session, "reset_cache"), Some(Action::ResetCache));
}

#[test]
fn cache_file_name_appends_extension() {
    assert_eq!(cache_file_name("rpatchur"), "rpatchur.dat");
}

#[test]
fn reset_cache_missing_file_is_success() {
    assert!(reset_cache_succeeded(&CacheRemoval::Missing));
    assert!(reset_cache_succeeded(&CacheRemoval::Removed));
    assert!(!reset_cache_succeeded(&CacheRemoval::Failed));
}

#[test]
fn manual_patch_prompts_when_idle() {
    let mut session = test_session(vec![]);
    assert_eq!(handle_message(&mut session, "manual_patch"), Some(Action::PromptManualPatch));
}

#[test]
fn manual_patch_refused_while_busy() {
    let mut session = test_session(vec![]);
    session.set_patching_in_progress(true);
    assert_eq!(handle_message(&mut session, "manual_patch"), None);
    assert_eq!(session.patching_thread_tx.len(), 0);
}

#[test]
fn chosen_patch_file_is_submitted() {
    let mut session = test_session(vec![]);
    apply_manual_patch(&mut session, Some("fix.thor".to_string()));
    assert_eq!(
        session.patching_thread_tx.drain(),
        vec![PatcherCommand::ApplyPatch("fix.thor".to_string())]
    );
}

#[test]
fn cancelled_prompt_submits_nothing() {
    let mut session = test_session(vec![]);
    apply_manual_patch(&mut session, None);
    assert_eq!(session.patching_thread_tx.len(), 0);
}

#[test]
fn login_builds_exact_argument_list() {
    let mut session = test_session(vec!["-w".to_string()]);
    let message = r#"{"function":"login","parameters":{"login":"alice","password":"secret"}}"#;
    match handle_message(&mut session, message) {
        Some(Action::Launch { path, arguments, exit_on_success }) => {
            assert_eq!(path, "client.exe");
            assert_eq!(
                arguments,
                vec![
                    "-t:secret".to_string(),
                    "alice".to_string(),
                    "server".to_string(),
                    "-w".to_string()
                ]
            );
            assert!(exit_on_success);
        },
        other => panic!("expected a launch action, got {:?}", other),
    }
}

#[test]
fn open_url_delegates_to_default_handler() {
    let mut session = test_session(vec![]);
    let message = r#"{"function":"open_url","parameters":{"url":"https://example.org"}}"#;
    assert_eq!(
        handle_message(&mut session, message),
        Some(Action::OpenUrl { url: "https://example.org".to_string() })
    );
}

#[test]
fn malformed_json_is_dropped_without_mutation() {
    let mut session = test_session(vec![]);
    assert_eq!(handle_message(&mut session, "{not json"), None);
    assert!(!session.patching_in_progress);
    assert_eq!(session.patching_thread_tx.len(), 0);
}

#[test]
fn unknown_function_is_dropped() {
    let mut session = test_session(vec![]);
    assert_eq!(handle_message(&mut session, r#"{"function":"frobnicate"}"#), None);
}

#[test]
fn json_without_function_is_dropped() {
    let mut session = test_session(vec![]);
    assert_eq!(handle_message(&mut session, r#"{"parameters":{}}"#), None);
}

#[test]
fn login_with_missing_parameters_is_dropped() {
    let mut session = test_session(vec![]);
    assert_eq!(handle_message(&mut session, r#"{"function":"login"}"#), None);
    assert_eq!(session.patching_thread_tx.len(), 0);
}

#[test]
fn login_with_wrongly_typed_parameters_is_dropped() {
    let mut session = test_session(vec![]);
    let message = r#"{"function":"login","parameters":{"login":7,"password":"secret"}}"#;
    assert_eq!(handle_message(&mut session, message), None);
}

#[test]
fn shutdown_sends_quit_best_effort() {
    let mut session = test_session(vec![]);
    session.shutdown();
    assert_eq!(session.patching_thread_tx.drain(), vec![PatcherCommand::Quit]);
}

#[test]
fn completion_event_reopens_the_busy_guard() {
    let mut session = test_session(vec![]);
    assert_eq!(handle_message(&mut session, "start_update"), None);
    assert_eq!(handle_message(&mut session, "start_update"), None);
    // Only the worker's completion event ends the update lifecycle.
    session.set_patching_in_progress(false);
    assert_eq!(handle_message(&mut session, "start_update"), None);
    assert_eq!(
        session.patching_thread_tx.drain(),
        vec![PatcherCommand::StartUpdate, PatcherCommand::StartUpdate]
    );
}

#[test]
fn extract_request_decodes_login() {
    let message = r#"{"function":"login","parameters":{"login":"alice","password":"secret"}}"#;
    assert_eq!(
        extract_request(message),
        JsonRequest::Login { login: "alice".to_string(), password: "secret".to_string() }
    );
}

#[test]
fn extract_request_decodes_open_url() {
    let message = r#"{"function":"open_url","parameters":{"url":"https://example.org"}}"#;
    assert_eq!(
        extract_request(message),
        JsonRequest::OpenUrl { url: "https://example.org".to_string() }
    );
}

#[test]
fn extract_request_rejects_the_rest() {
    assert_eq!(extract_request("{not json"), JsonRequest::Invalid);
    assert_eq!(extract_request(r#"{"function":7}"#), JsonRequest::Invalid);
    assert_eq!(extract_request(r#"{"function":"login","parameters":{"login":"a"}}"#), JsonRequest::Invalid);
    assert_eq!(extract_request(r#"{"function":"open_url","parameters":{}}"#), JsonRequest::Invalid);
}
