//! The one-way request dispatcher.
//!
//! Each message from the UI surface is either one of a fixed vocabulary of
//! bare tokens or a JSON object naming a function and its parameters. A
//! message is handled at most once, produces at most one outward action,
//! and on any decode failure is dropped: no panic, no change to the
//! session. The outward actions (launching a program, exiting, deleting
//! the cache file, prompting for a patch file, opening a URL) are returned
//! as data for the embedding application to perform, with every decision
//! already taken here.

use vstd::prelude::*;

use crate::bus::{bus_capacity, bus_view, CommandBus, PatcherCommand};
use crate::config::{
    clone_arguments, exit_on_success_or, spec_exit_on_success, ClientConfig, PatcherConfiguration,
};
use crate::json::{
    json_function_of, json_string_param, json_wellformed, parse_function_name,
    parse_string_parameter,
};
use crate::session::{session_unchanged, WebViewUserData};
use crate::strutil::str_eq;

verus! {

/// An outward effect the embedding application performs on the
/// dispatcher's behalf.
#[derive(Debug, PartialEq, Eq)]
pub enum Action {
    /// Start an external program.
    Launch { path: String, arguments: Vec<String>, exit_on_success: bool },
    /// Terminate the launcher process immediately. This path deliberately
    /// skips the shutdown notice that the window-close path sends.
    ExitProcess,
    /// Delete the launcher's cache file.
    ResetCache,
    /// Ask the user for a patch archive, then report the choice through
    /// [`apply_manual_patch`].
    PromptManualPatch,
    /// Hand a URL to the operating system's default handler.
    OpenUrl { url: String },
}

/// The file-name pattern offered when prompting for a patch archive.
pub const MANUAL_PATCH_PATTERN: &'static str = "*.thor";

/// The pattern description offered when prompting for a patch archive.
pub const MANUAL_PATCH_DESCRIPTION: &'static str = "Patch Files (*.thor)";

/// The fixed vocabulary of bare-token messages.
pub open spec fn is_known_token(s: Seq<char>) -> bool {
    ||| s == "play"@
    ||| s == "setup"@
    ||| s == "repair"@
    ||| s == "exit"@
    ||| s == "start_update"@
    ||| s == "cancel_update"@
    ||| s == "reset_cache"@
    ||| s == "manual_patch"@
}

/// Whether `a` launches the target described by `cfg` with the argument
/// list `args`, defaulting the exit flag to `default_exit`.
pub open spec fn spec_launches(cfg: ClientConfig, args: Seq<String>, default_exit: bool, a: Action) -> bool {
    a matches Action::Launch { path, arguments, exit_on_success } && path@ == cfg.path@
        && arguments@ == args && exit_on_success == spec_exit_on_success(
        cfg.exit_on_success,
        default_exit,
    )
}

/// The busy-guarded submission step: a `start_update` request submits
/// `StartUpdate` and raises the busy flag only when no update is in flight
/// and the queue has room; otherwise it changes nothing.
pub open spec fn spec_start_update(busy: bool, q: Seq<PatcherCommand>, cap: nat) -> (bool, Seq<
    PatcherCommand,
>) {
    if busy {
        (true, q)
    } else if q.len() < cap {
        (true, q.push(PatcherCommand::StartUpdate))
    } else {
        (false, q)
    }
}

/// Idempotence of the busy guard: with no intervening completion event, a
/// second `start_update` step changes nothing, so two dispatches yield at
/// most one `StartUpdate` submission.
pub proof fn lemma_start_update_idempotent(busy: bool, q: Seq<PatcherCommand>, cap: nat)
    ensures
        ({
            let first = spec_start_update(busy, q, cap);
            spec_start_update(first.0, first.1, cap) == first
        }),
{
}

/// The launch request for the configured client with the given argument
/// list; the exit flag defaults to set.
pub fn start_game_client(user_data: &WebViewUserData, client_arguments: Vec<String>) -> (a: Action)
    ensures
        spec_launches(
            user_data.patcher_config.play,
            client_arguments@,
            true,
            a,
        ),
{
    Action::Launch {
        path: user_data.patcher_config.play.path.clone(),
        arguments: client_arguments,
        exit_on_success: exit_on_success_or(&user_data.patcher_config.play.exit_on_success, true),
    }
}

/// `play`: launch the configured client with its configured arguments.
pub fn handle_play(user_data: &WebViewUserData) -> (a: Action)
    ensures
        spec_launches(
            user_data.patcher_config.play,
            user_data.patcher_config.play.arguments@,
            true,
            a,
        ),
{
    let client_arguments = clone_arguments(&user_data.patcher_config.play.arguments);
    start_game_client(user_data, client_arguments)
}

/// `setup`: launch the configured setup tool; the exit flag defaults to
/// clear.
pub fn handle_setup(user_data: &WebViewUserData) -> (a: Action)
    ensures
        spec_launches(
            user_data.patcher_config.setup,
            user_data.patcher_config.setup.arguments@,
            false,
            a,
        ),
{
    Action::Launch {
        path: user_data.patcher_config.setup.path.clone(),
        arguments: clone_arguments(&user_data.patcher_config.setup.arguments),
        exit_on_success: exit_on_success_or(&user_data.patcher_config.setup.exit_on_success, false),
    }
}

/// `repair`: launch the configured repair tool, or do nothing when the
/// optional repair section is absent; the exit flag defaults to clear.
pub fn handle_repair(user_data: &WebViewUserData) -> (r: Option<Action>)
    ensures
        user_data.patcher_config.repair matches Some(rc) ==> r matches Some(a) && spec_launches(
            rc,
            rc.arguments@,
            false,
            a,
        ),
        user_data.patcher_config.repair is None ==> r is None,
{
    match &user_data.patcher_config.repair {
        Some(repair) => Some(
            Action::Launch {
                path: repair.path.clone(),
                arguments: clone_arguments(&repair.arguments),
                exit_on_success: exit_on_success_or(&repair.exit_on_success, false),
            },
        ),
        None => None,
    }
}

/// `start_update`: under the session's exclusive access, submit
/// `StartUpdate` and raise the busy flag unless an update is already in
/// flight. The flag is not cleared here; only the worker's completion
/// event does that.
pub fn handle_start_update(user_data: &mut WebViewUserData)
    ensures
        final(user_data).patcher_config == old(user_data).patcher_config,
        bus_capacity(final(user_data).patching_thread_tx) == bus_capacity(
            old(user_data).patching_thread_tx,
        ),
        ({
            let step = spec_start_update(
                old(user_data).patching_in_progress,
                bus_view(old(user_data).patching_thread_tx),
                bus_capacity(old(user_data).patching_thread_tx),
            );
            final(user_data).patching_in_progress == step.0 && bus_view(
                final(user_data).patching_thread_tx,
            ) == step.1
        }),
{
    if user_data.patching_in_progress {
        return ;
    }
    let accepted = user_data.patching_thread_tx.try_submit(PatcherCommand::StartUpdate);
    if accepted {
        user_data.patching_in_progress = true;
    }
}

/// `cancel_update`: submit `CancelUpdate` unconditionally, busy or not;
/// the worker decides whether to honor it.
pub fn handle_cancel_update(user_data: &mut WebViewUserData)
    ensures
        final(user_data).patcher_config == old(user_data).patcher_config,
        final(user_data).patching_in_progress == old(user_data).patching_in_progress,
        bus_capacity(final(user_data).patching_thread_tx) == bus_capacity(
            old(user_data).patching_thread_tx,
        ),
        bus_view(old(user_data).patching_thread_tx).len() < bus_capacity(
            old(user_data).patching_thread_tx,
        ) ==> bus_view(final(user_data).patching_thread_tx) == bus_view(
            old(user_data).patching_thread_tx,
        ).push(PatcherCommand::CancelUpdate),
        bus_view(old(user_data).patching_thread_tx).len() >= bus_capacity(
            old(user_data).patching_thread_tx,
        ) ==> bus_view(final(user_data).patching_thread_tx) == bus_view(
            old(user_data).patching_thread_tx,
        ),
{
    let _ = user_data.patching_thread_tx.try_submit(PatcherCommand::CancelUpdate);
}

/// `reset_cache`: ask the embedding application to delete the cache file.
pub fn handle_reset_cache() -> (a: Action)
    ensures
        a == Action::ResetCache,
{
    Action::ResetCache
}

/// The cache file's name: the launcher's identity with the `.dat`
/// extension.
pub fn cache_file_name(patcher_name: &str) -> (r: String)
    ensures
        r@ == patcher_name@ + ".dat"@,
{
    let mut r = patcher_name.to_owned();
    r.append(".dat");
    r
}

/// What became of the cache file's removal, as the embedding application
/// observed it.
#[derive(Debug, PartialEq, Eq)]
pub enum CacheRemoval {
    /// The file existed and was deleted.
    Removed,
    /// There was no cache file to delete.
    Missing,
    /// The file could not be deleted.
    Failed,
}

/// Whether a cache reset counts as a success: deleting the file succeeded,
/// or there was nothing to delete.
pub fn reset_cache_succeeded(outcome: &CacheRemoval) -> (r: bool)
    ensures
        r == !(*outcome is Failed),
{
    match outcome {
        CacheRemoval::Removed => true,
        CacheRemoval::Missing => true,
        CacheRemoval::Failed => false,
    }
}

/// `manual_patch`: with an update in flight the request is refused;
/// otherwise the user is asked for a patch archive, and the choice comes
/// back through [`apply_manual_patch`].
pub fn handle_manual_patch(user_data: &WebViewUserData) -> (r: Option<Action>)
    ensures
        user_data.patching_in_progress ==> r is None,
        !user_data.patching_in_progress ==> r == Some(Action::PromptManualPatch),
{
    if user_data.patching_in_progress {
        None
    } else {
        Some(Action::PromptManualPatch)
    }
}

/// Reports the patch file the user chose, if any, submitting `ApplyPatch`
/// for it when the queue has room.
pub fn apply_manual_patch(user_data: &mut WebViewUserData, chosen: Option<String>)
    ensures
        final(user_data).patcher_config == old(user_data).patcher_config,
        final(user_data).patching_in_progress == old(user_data).patching_in_progress,
        bus_capacity(final(user_data).patching_thread_tx) == bus_capacity(
            old(user_data).patching_thread_tx,
        ),
        chosen is None ==> bus_view(final(user_data).patching_thread_tx) == bus_view(
            old(user_data).patching_thread_tx,
        ),
        chosen matches Some(p) ==> (bus_view(old(user_data).patching_thread_tx).len()
            < bus_capacity(old(user_data).patching_thread_tx) ==> bus_view(
            final(user_data).patching_thread_tx,
        ) == bus_view(old(user_data).patching_thread_tx).push(PatcherCommand::ApplyPatch(p))) && (
        bus_view(old(user_data).patching_thread_tx).len() >= bus_capacity(
            old(user_data).patching_thread_tx,
        ) ==> bus_view(final(user_data).patching_thread_tx) == bus_view(
            old(user_data).patching_thread_tx,
        )),
{
    match chosen {
        Some(path) => {
            let _ = user_data.patching_thread_tx.try_submit(PatcherCommand::ApplyPatch(path));
        },
        None => {},
    }
}

/// A decoded JSON request: the two registered functions, or anything that
/// failed to decode and is dropped.
#[derive(Debug, PartialEq, Eq)]
pub enum JsonRequest {
    /// `login`: start the client with credential-derived arguments.
    Login { login: String, password: String },
    /// `open_url`: hand a URL to the operating system.
    OpenUrl { url: String },
    /// An unknown function name, a missing field, or a wrongly typed one.
    Invalid,
}

/// Whether `out` is the client argument list derived from credentials: the
/// token-prefixed password, the login name, the literal `server`, then the
/// configured client arguments.
pub open spec fn spec_login_arguments(
    login: Seq<char>,
    password: Seq<char>,
    play_args: Seq<String>,
    out: Seq<String>,
) -> bool {
    &&& out.len() == 3 + play_args.len()
    &&& out[0]@ == "-t:"@ + password
    &&& out[1]@ == login
    &&& out[2]@ == "server"@
    &&& forall|i: int| 0 <= i < play_args.len() ==> out[3 + i] == play_args[i]
}

/// Builds the client argument list for a login request.
pub fn build_login_arguments(login: &str, password: &str, play_args: &Vec<String>) -> (r: Vec<
    String,
>)
    ensures
        spec_login_arguments(login@, password@, play_args@, r@),
{
    let mut r: Vec<String> = Vec::new();
    let mut token = String::from_str("-t:");
    token.append(password);
    r.push(token);
    r.push(login.to_owned());
    r.push(String::from_str("server"));
    let mut i: usize = 0;
    while i < play_args.len()
        invariant
            i <= play_args.len(),
            r@.len() == 3 + i,
            spec_login_arguments(login@, password@, play_args@.take(i as int), r@),
        decreases play_args.len() - i,
    {
        r.push(play_args[i].clone());
        i = i + 1;
    }
    proof {
        assert(play_args@.take(play_args@.len() as int) =~= play_args@);
    }
    r
}

/// `login`: launch the client as `play` does, with the credential-derived
/// argument list in front of the configured one.
pub fn handle_login(user_data: &WebViewUserData, login: String, password: String) -> (a: Action)
    ensures
        a matches Action::Launch { path, arguments, exit_on_success } && path@
            == user_data.patcher_config.play.path@ && spec_login_arguments(
            login@,
            password@,
            user_data.patcher_config.play.arguments@,
            arguments@,
        ) && exit_on_success == spec_exit_on_success(
            user_data.patcher_config.play.exit_on_success,
            true,
        ),
{
    let arguments = build_login_arguments(
        login.as_str(),
        password.as_str(),
        &user_data.patcher_config.play.arguments,
    );
    start_game_client(user_data, arguments)
}

/// `open_url`: hand the URL to the operating system's default handler.
pub fn handle_open_url(url: String) -> (a: Action)
    ensures
        a == (Action::OpenUrl { url }),
{
    Action::OpenUrl { url }
}

/// Whether `r` is the decoding of the message text `s`: the `function`
/// member names the handler, the string members of `parameters` carry its
/// arguments, and anything missing or wrongly typed is invalid.
pub open spec fn matches_json_request(s: Seq<char>, r: JsonRequest) -> bool {
    if json_function_of(s) == Some("login"@) {
        if json_string_param(s, "login"@) is Some && json_string_param(s, "password"@) is Some {
            r matches JsonRequest::Login { login, password } && Some(login@) == json_string_param(
                s,
                "login"@,
            ) && Some(password@) == json_string_param(s, "password"@)
        } else {
            r is Invalid
        }
    } else if json_function_of(s) == Some("open_url"@) {
        if json_string_param(s, "url"@) is Some {
            r matches JsonRequest::OpenUrl { url } && Some(url@) == json_string_param(s, "url"@)
        } else {
            r is Invalid
        }
    } else {
        r is Invalid
    }
}

/// Decodes a message text into a request: the `function` member names the
/// handler, the `parameters` member carries its arguments, and anything
/// malformed, missing or wrongly typed is invalid.
pub fn extract_request(request: &str) -> (r: JsonRequest)
    ensures
        matches_json_request(request@, r),
        !json_wellformed(request@) ==> r is Invalid,
{
    let function_name = match parse_function_name(request) {
        Some(name) => name,
        None => {
            return JsonRequest::Invalid;
        },
    };
    if str_eq(function_name.as_str(), "login") {
        let login = match parse_string_parameter(request, "login") {
            Some(l) => l,
            None => {
                return JsonRequest::Invalid;
            },
        };
        let password = match parse_string_parameter(request, "password") {
            Some(p) => p,
            None => {
                return JsonRequest::Invalid;
            },
        };
        JsonRequest::Login { login, password }
    } else if str_eq(function_name.as_str(), "open_url") {
        match parse_string_parameter(request, "url") {
            Some(url) => JsonRequest::OpenUrl { url },
            None => JsonRequest::Invalid,
        }
    } else {
        JsonRequest::Invalid
    }
}

/// Performs a decoded JSON request. No request of this family touches the
/// session: an invalid one is dropped, the others only read the
/// configuration.
pub fn apply_json_request(user_data: &WebViewUserData, request: JsonRequest) -> (r: Option<Action>)
    ensures
        request matches JsonRequest::Login { login, password } ==> r matches Some(a) && (a matches
            Action::Launch { path, arguments, exit_on_success } && path@
            == user_data.patcher_config.play.path@ && spec_login_arguments(
            login@,
            password@,
            user_data.patcher_config.play.arguments@,
            arguments@,
        ) && exit_on_success == spec_exit_on_success(
            user_data.patcher_config.play.exit_on_success,
            true,
        )),
        request matches JsonRequest::OpenUrl { url } ==> r == Some(Action::OpenUrl { url }),
        request is Invalid ==> r is None,
{
    match request {
        JsonRequest::Login { login, password } => Some(handle_login(user_data, login, password)),
        JsonRequest::OpenUrl { url } => Some(handle_open_url(url)),
        JsonRequest::Invalid => None,
    }
}

/// Whether `r` is the action owed for the message text `s` under the
/// configuration `cfg`: a `login` request with string credentials yields
/// the client launch with the credential-derived arguments, an `open_url`
/// request with a string URL yields the opener action, and everything else
/// is dropped.
pub open spec fn spec_json_dispatch(s: Seq<char>, cfg: PatcherConfiguration, r: Option<
    Action,
>) -> bool {
    if json_function_of(s) == Some("login"@) {
        if json_string_param(s, "login"@) is Some && json_string_param(s, "password"@) is Some {
            r matches Some(a) && (a matches Action::Launch { path, arguments, exit_on_success }
                && path@ == cfg.play.path@ && spec_login_arguments(
                json_string_param(s, "login"@)->0,
                json_string_param(s, "password"@)->0,
                cfg.play.arguments@,
                arguments@,
            ) && exit_on_success == spec_exit_on_success(cfg.play.exit_on_success, true))
        } else {
            r is None
        }
    } else if json_function_of(s) == Some("open_url"@) {
        if json_string_param(s, "url"@) is Some {
            r matches Some(a) && (a matches Action::OpenUrl { url } && Some(url@)
                == json_string_param(s, "url"@))
        } else {
            r is None
        }
    } else {
        r is None
    }
}

/// A message that is no known token: decoded as a JSON request and
/// performed; whatever fails to decode is dropped without effect.
pub fn handle_json_request(user_data: &WebViewUserData, request: &str) -> (r: Option<Action>)
    ensures
        spec_json_dispatch(request@, user_data.patcher_config, r),
        !json_wellformed(request@) ==> r is None,
{
    let req = extract_request(request);
    apply_json_request(user_data, req)
}

/// Dispatches one message from the UI surface: a known token goes to its
/// handler, anything else is decoded as a JSON request, and whatever fails
/// to decode is dropped with the session untouched.
pub fn handle_message(user_data: &mut WebViewUserData, message: &str) -> (r: Option<Action>)
    ensures
        final(user_data).patcher_config == old(user_data).patcher_config,
        bus_capacity(final(user_data).patching_thread_tx) == bus_capacity(
            old(user_data).patching_thread_tx,
        ),
        message@ == "play"@ ==> session_unchanged(*old(user_data), *final(user_data)) && (r matches
            Some(a) && spec_launches(
            old(user_data).patcher_config.play,
            old(user_data).patcher_config.play.arguments@,
            true,
            a,
        )),
        message@ == "setup"@ ==> session_unchanged(*old(user_data), *final(user_data)) && (r matches
            Some(a) && spec_launches(
            old(user_data).patcher_config.setup,
            old(user_data).patcher_config.setup.arguments@,
            false,
            a,
        )),
        message@ == "repair"@ ==> session_unchanged(*old(user_data), *final(user_data)) && (old(
            user_data,
        ).patcher_config.repair matches Some(rc) ==> r matches Some(a) && spec_launches(
            rc,
            rc.arguments@,
            false,
            a,
        )) && (old(user_data).patcher_config.repair is None ==> r is None),
        message@ == "exit"@ ==> session_unchanged(*old(user_data), *final(user_data)) && r == Some(
            Action::ExitProcess,
        ),
        message@ == "start_update"@ ==> r is None && ({
            let step = spec_start_update(
                old(user_data).patching_in_progress,
                bus_view(old(user_data).patching_thread_tx),
                bus_capacity(old(user_data).patching_thread_tx),
            );
            final(user_data).patching_in_progress == step.0 && bus_view(
                final(user_data).patching_thread_tx,
            ) == step.1
        }),
        message@ == "cancel_update"@ ==> r is None && final(user_data).patching_in_progress == old(
            user_data,
        ).patching_in_progress && (bus_view(old(user_data).patching_thread_tx).len()
            < bus_capacity(old(user_data).patching_thread_tx) ==> bus_view(
            final(user_data).patching_thread_tx,
        ) == bus_view(old(user_data).patching_thread_tx).push(PatcherCommand::CancelUpdate)) && (
        bus_view(old(user_data).patching_thread_tx).len() >= bus_capacity(
            old(user_data).patching_thread_tx,
        ) ==> bus_view(final(user_data).patching_thread_tx) == bus_view(
            old(user_data).patching_thread_tx,
        )),
        message@ == "reset_cache"@ ==> session_unchanged(*old(user_data), *final(user_data)) && r
            == Some(Action::ResetCache),
        message@ == "manual_patch"@ ==> session_unchanged(*old(user_data), *final(user_data)) && (
        old(user_data).patching_in_progress ==> r is None) && (!old(
            user_data,
        ).patching_in_progress ==> r == Some(Action::PromptManualPatch)),
        !is_known_token(message@) ==> session_unchanged(*old(user_data), *final(user_data))
            && spec_json_dispatch(message@, old(user_data).patcher_config, r) && (!json_wellformed(
            message@,
        ) ==> r is None),
{
    proof {
        reveal_strlit("play");
        reveal_strlit("setup");
        reveal_strlit("repair");
        reveal_strlit("exit");
        reveal_strlit("start_update");
        reveal_strlit("cancel_update");
        reveal_strlit("reset_cache");
        reveal_strlit("manual_patch");
        assert("play"@.len() == 4 && "exit"@.len() == 4 && "setup"@.len() == 5 && "repair"@.len()
            == 6);
        assert("start_update"@.len() == 12 && "manual_patch"@.len() == 12
            && "cancel_update"@.len() == 13 && "reset_cache"@.len() == 11);
        assert("play"@[0] == 'p' && "exit"@[0] == 'e');
        assert("start_update"@[0] == 's' && "manual_patch"@[0] == 'm');
    }
    if str_eq(message, "play") {
        Some(handle_play(user_data))
    } else if str_eq(message, "setup") {
        Some(handle_setup(user_data))
    } else if str_eq(message, "repair") {
        handle_repair(user_data)
    } else if str_eq(message, "exit") {
        Some(Action::ExitProcess)
    } else if str_eq(message, "start_update") {
        handle_start_update(user_data);
        None
    } else if str_eq(message, "cancel_update") {
        handle_cancel_update(user_data);
        None
    } else if str_eq(message, "reset_cache") {
        Some(handle_reset_cache())
    } else if str_eq(message, "manual_patch") {
        handle_manual_patch(user_data)
    } else {
        handle_json_request(user_data, message)
    }
}

} // verus!
