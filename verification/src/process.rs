//! The process-launch planner.
//!
//! Launching an external program on an elevation-capable system takes three
//! decisions: which shell verb to use (plain `open`, or the verb that
//! requests elevation), whether to resolve the target to an absolute path
//! against the working directory, and how to flatten the argument list into
//! the single parameter string the shell primitive takes. All three are
//! computed here, exactly; actually spawning the process is left to the
//! embedding application.

use vstd::prelude::*;

use crate::strutil::push_char;

verus! {

/// The shell verb a launch goes through.
#[derive(Debug, PartialEq, Eq)]
pub enum LaunchVerb {
    /// Start the target without requesting elevation.
    Open,
    /// Start the target through the elevation-requesting verb.
    RunAs,
}

/// A fully decided launch request: the file to hand to the shell primitive,
/// the verb to start it with, and the flattened parameter string.
#[derive(Debug)]
pub struct LaunchPlan {
    pub verb: LaunchVerb,
    pub file: String,
    pub parameter: String,
}

/// ASCII lower-casing of one character; other characters are unchanged.
pub open spec fn lower_char(c: char) -> char {
    if 'A' <= c && c <= 'Z' {
        (((c as u8) + 32) as char)
    } else {
        c
    }
}

/// ASCII lower-casing of a character sequence.
pub open spec fn seq_lower(s: Seq<char>) -> Seq<char> {
    s.map_values(|c: char| lower_char(c))
}

/// Whether `s` ends in `suffix`.
pub open spec fn seq_ends_with(s: Seq<char>, suffix: Seq<char>) -> bool {
    s.len() >= suffix.len() && s.subrange(s.len() - suffix.len(), s.len() as int) == suffix
}

/// An interpretable script file: the path ends in `.bat` or `.cmd`,
/// compared without regard to ASCII case.
pub open spec fn is_script_path(s: Seq<char>) -> bool {
    seq_ends_with(seq_lower(s), ".bat"@) || seq_ends_with(seq_lower(s), ".cmd"@)
}

/// The literal name of the system command interpreter, in any ASCII case.
/// Such a path is handed to the shell primitive unresolved, so that the
/// operating system finds the interpreter through its own search path.
pub open spec fn is_system_command(s: Seq<char>) -> bool {
    seq_lower(s) == "cmd.exe"@
}

/// The verb a path launches through: scripts go through the plain open
/// verb, everything else through the elevation-requesting verb.
pub open spec fn spec_launch_verb(path: Seq<char>) -> LaunchVerb {
    if is_script_path(path) {
        LaunchVerb::Open
    } else {
        LaunchVerb::RunAs
    }
}

/// The file string handed to the shell primitive: the path itself for the
/// system command interpreter, the path resolved against the working
/// directory otherwise.
pub open spec fn spec_launch_file(cwd: Seq<char>, path: Seq<char>) -> Seq<char> {
    if is_system_command(path) {
        path
    } else {
        joined_path(cwd, path)
    }
}

/// Resolution of `path` against the working directory `cwd`: an already
/// absolute path is kept, a relative one is appended behind a separator.
pub open spec fn joined_path(cwd: Seq<char>, path: Seq<char>) -> Seq<char> {
    if is_absolute_path(path) {
        path
    } else {
        cwd + seq!['\\'] + path
    }
}

/// A path that does not need resolving: it starts at a root or names a
/// drive.
pub open spec fn is_absolute_path(s: Seq<char>) -> bool {
    ||| (s.len() > 0 && (s[0] == '\\' || s[0] == '/'))
    ||| (s.len() >= 2 && s[1] == ':')
}

/// The parameter string formed from an argument list: each argument is
/// appended behind a single space. A non-empty list therefore yields a
/// leading space, and an argument that itself contains a space loses its
/// boundary in the flattened string; both are properties of the shell
/// primitive's single-string interface that callers rely on as they are.
pub open spec fn spec_parameter(args: Seq<Seq<char>>) -> Seq<char>
    decreases args.len(),
{
    if args.len() == 0 {
        Seq::empty()
    } else {
        spec_parameter(args.drop_last()) + seq![' '] + args.last()
    }
}

fn lower_char_exec(c: char) -> (r: char)
    ensures
        r == lower_char(c),
{
    if 'A' <= c && c <= 'Z' {
        (((c as u8) + 32) as char)
    } else {
        c
    }
}

/// Lower-cases the ASCII letters of a string.
fn to_ascii_lower(s: &str) -> (r: String)
    ensures
        r@ == seq_lower(s@),
{
    let n: usize = s.unicode_len();
    let mut r = String::new();
    let mut i: usize = 0;
    while i < n
        invariant
            i <= n,
            n == s@.len(),
            r@ =~= seq_lower(s@.take(i as int)),
        decreases n - i,
    {
        let c = s.get_char(i);
        let l = lower_char_exec(c);
        proof {
            assert(seq_lower(s@.take(i + 1)) =~= seq_lower(s@.take(i as int)).push(lower_char(
                s@[i as int],
            )));
        }
        push_char(&mut r, l);
        i = i + 1;
    }
    proof {
        assert(s@.take(n as int) =~= s@);
    }
    r
}

/// Whether the lower-cased `s` ends in the (already lower-case) `suffix`.
fn lower_ends_with(s: &str, suffix: &str) -> (r: bool)
    ensures
        r == seq_ends_with(seq_lower(s@), suffix@),
{
    let ls = to_ascii_lower(s);
    let n: usize = ls.as_str().unicode_len();
    let m: usize = suffix.unicode_len();
    if n < m {
        return false;
    }
    let mut i: usize = 0;
    while i < m
        invariant
            i <= m,
            m <= n,
            n == seq_lower(s@).len(),
            m == suffix@.len(),
            ls@ == seq_lower(s@),
            forall|j: int| 0 <= j < i ==> ls@[n - m + j] == suffix@[j],
        decreases m - i,
    {
        if ls.as_str().get_char(n - m + i) != suffix.get_char(i) {
            assert(!seq_ends_with(seq_lower(s@), suffix@)) by {
                assert(seq_lower(s@).subrange(n - m, n as int)[i as int] != suffix@[i as int]);
            }
            return false;
        }
        i = i + 1;
    }
    proof {
        assert(seq_lower(s@).subrange(n - m, n as int) =~= suffix@);
    }
    true
}

/// Whether `path` names a script file (`.bat` or `.cmd`, any ASCII case).
pub fn path_is_script(path: &str) -> (r: bool)
    ensures
        r == is_script_path(path@),
{
    lower_ends_with(path, ".bat") || lower_ends_with(path, ".cmd")
}

/// Whether `path` is the literal system command interpreter name.
pub fn path_is_system_command(path: &str) -> (r: bool)
    ensures
        r == is_system_command(path@),
{
    let ls = to_ascii_lower(path);
    crate::strutil::str_eq(ls.as_str(), "cmd.exe")
}

/// Flattens an argument list into one parameter string, one space before
/// each argument.
pub fn build_parameter(args: &Vec<String>) -> (r: String)
    ensures
        r@ == spec_parameter(args.deep_view()),
{
    let mut r = String::new();
    let mut i: usize = 0;
    while i < args.len()
        invariant
            i <= args.len(),
            r@ == spec_parameter(args.deep_view().take(i as int)),
        decreases args.len() - i,
    {
        r.append(" ");
        r.append(args[i].as_str());
        proof {
            reveal_strlit(" ");
            let dv = args.deep_view();
            assert(" "@ =~= seq![' ']);
            assert(dv[i as int] == args@[i as int]@);
            assert(dv.take(i + 1).drop_last() =~= dv.take(i as int));
            assert(dv.take(i + 1).last() == dv[i as int]);
        }
        i = i + 1;
    }
    proof {
        assert(args.deep_view().take(args.len() as int) =~= args.deep_view());
    }
    r
}

/// Joins `path` behind the working directory `cwd` unless it is already
/// absolute.
pub fn resolve_path(cwd: &str, path: &str) -> (r: String)
    ensures
        r@ == joined_path(cwd@, path@),
{
    let is_abs = {
        let n: usize = path.unicode_len();
        if n > 0 && {
            let c0 = path.get_char(0);
            c0 == '\\' || c0 == '/'
        } {
            true
        } else if n >= 2 && path.get_char(1) == ':' {
            true
        } else {
            false
        }
    };
    if is_abs {
        path.to_owned()
    } else {
        let mut r = cwd.to_owned();
        push_char(&mut r, '\\');
        r.append(path);
        assert(r@ =~= cwd@ + seq!['\\'] + path@);
        r
    }
}

/// Decides a launch completely: scripts start through the plain open verb,
/// other targets through the elevation-requesting verb; the system command
/// interpreter is passed through unresolved while every other path is
/// resolved against `cwd`; the arguments are flattened into one parameter
/// string.
pub fn plan_launch(path: &str, arguments: &Vec<String>, cwd: &str) -> (r: LaunchPlan)
    ensures
        r.verb == spec_launch_verb(path@),
        r.file@ == spec_launch_file(cwd@, path@),
        r.parameter@ == spec_parameter(arguments.deep_view()),
{
    let verb = if path_is_script(path) {
        LaunchVerb::Open
    } else {
        LaunchVerb::RunAs
    };
    let file = if path_is_system_command(path) {
        path.to_owned()
    } else {
        resolve_path(cwd, path)
    };
    let parameter = build_parameter(arguments);
    LaunchPlan { verb, file, parameter }
}

/// The error of a wide-string conversion: an interior NUL unit, which the
/// shell primitive's NUL-terminated interface cannot carry.
#[derive(Debug, PartialEq, Eq)]
pub enum WideStringError {
    InteriorNul,
}

/// Checks a wide-character buffer for interior NUL units and appends the
/// terminator the shell primitive expects.
pub fn nul_terminate_wide(units: &Vec<u16>) -> (r: Result<Vec<u16>, WideStringError>)
    ensures
        (r is Ok) <==> (forall|i: int| 0 <= i < units@.len() ==> units@[i] != 0),
        r matches Ok(t) ==> t@ == units@.push(0u16),
{
    let mut out: Vec<u16> = Vec::new();
    let mut i: usize = 0;
    while i < units.len()
        invariant
            i <= units.len(),
            out@ =~= units@.take(i as int),
            forall|j: int| 0 <= j < i ==> units@[j] != 0,
        decreases units.len() - i,
    {
        if units[i] == 0 {
            return Err(WideStringError::InteriorNul);
        }
        out.push(units[i]);
        i = i + 1;
    }
    assert(out@ =~= units@);
    out.push(0);
    Ok(out)
}

} // verus!
