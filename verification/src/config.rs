//! The immutable configuration snapshot that the dispatcher and the launch
//! planner consume. Parsing the configuration file is the embedding
//! application's concern; this crate only reads the fields.

use vstd::prelude::*;

verus! {

/// Window geometry and chrome for the embedded UI surface.
pub struct WindowConfig {
    pub title: String,
    pub width: u32,
    pub height: u32,
    pub resizable: bool,
}

/// Where the UI surface loads its content from.
pub struct WebConfig {
    pub index_url: String,
}

/// One launchable target: a path, its argument list, and whether the
/// launcher process should terminate once the target was started.
pub struct ClientConfig {
    pub path: String,
    pub arguments: Vec<String>,
    pub exit_on_success: Option<bool>,
}

/// The configuration snapshot taken at startup.
pub struct PatcherConfiguration {
    pub window: WindowConfig,
    pub web: WebConfig,
    pub play: ClientConfig,
    pub setup: ClientConfig,
    pub repair: Option<ClientConfig>,
}

/// The effective exit-on-success flag of a launch target: the configured
/// value, or `default` where the configuration leaves it unset.
pub open spec fn spec_exit_on_success(configured: Option<bool>, default: bool) -> bool {
    match configured {
        Some(b) => b,
        None => default,
    }
}

/// The effective exit-on-success flag of a launch target.
pub fn exit_on_success_or(configured: &Option<bool>, default: bool) -> (r: bool)
    ensures
        r == spec_exit_on_success(*configured, default),
{
    match configured {
        Some(b) => *b,
        None => default,
    }
}

/// Copies a list of argument strings.
pub fn clone_arguments(v: &Vec<String>) -> (r: Vec<String>)
    ensures
        r@ == v@,
{
    let mut r: Vec<String> = Vec::new();
    let mut i: usize = 0;
    while i < v.len()
        invariant
            i <= v.len(),
            r@ =~= v@.take(i as int),
        decreases v.len() - i,
    {
        r.push(v[i].clone());
        i = i + 1;
    }
    assert(r@ =~= v@);
    r
}

} // verus!
