//! The `wrapper-env` command: the environment a guarded CLI session runs
//! with (CLI name, project hash, log locations, session id).
//!
//! The caller reads the environment and the file system and hands the values
//! over; this module decides what they become.

use vstd::prelude::*;
use crate::text::{
    chars_of, join_text, decimal_i32, decimal_int, hex_fixed, hex_fixed_exec, is_blank, opt_view,
    starts_with_seq, starts_with_text, string_from_chars, string_of, trim, trim_end, decimal_digits, hex_digit,
    trim_start, is_white_space, trimmed,
};

verus! {

broadcast use vstd::string::group_string_axioms;

// ---------------------------------------------------------------------------
// Environment values

/// An environment value counts only when it holds something besides white
/// space.
pub open spec fn nonempty(value: Option<String>) -> Option<String> {
    match value {
        Some(v) => if trim(v@).len() > 0 { Some(v) } else { None },
        None => None,
    }
}

/// `value`, unless it is missing or blank.
pub fn nonempty_value(value: Option<String>) -> (r: Option<String>)
    ensures
        r == nonempty(value),
{
    match value {
        Some(v) => if is_blank(v.as_str()) { None } else { Some(v) },
        None => None,
    }
}

/// The value that an override in the environment gives, else `default`.
pub open spec fn override_or(value: Option<String>, default: Seq<char>) -> Seq<char> {
    match nonempty(value) {
        Some(v) => v@,
        None => default,
    }
}

fn override_or_exec(value: Option<String>, default: String) -> (r: String)
    ensures
        r@ == override_or(value, default@),
{
    match nonempty_value(value) {
        Some(v) => v,
        None => default,
    }
}

// ---------------------------------------------------------------------------
// Paths

/// `base.join(component)` for a Unix path: an absolute component replaces
/// the base; otherwise it is appended, with a `/` between them unless the base
/// is empty or already ends with one.
pub open spec fn path_join(base: Seq<char>, component: Seq<char>) -> Seq<char> {
    if component.len() > 0 && component[0] == '/' {
        component
    } else if base.len() == 0 || base.last() == '/' {
        base + component
    } else {
        base + "/"@ + component
    }
}

/// `base` joined with `component`.
pub fn join_path(base: &str, component: &str) -> (out: String)
    ensures
        out@ == path_join(base@, component@),
{
    let b = chars_of(base);
    let c = chars_of(component);
    if c.len() > 0 && c[0] == '/' {
        string_of(component)
    } else if b.len() == 0 || b[b.len() - 1] == '/' {
        join_text(base, component)
    } else {
        let with_sep = join_text(base, "/");
        join_text(with_sep.as_str(), component)
    }
}

/// The log root: `VIBEGUARD_LOG_DIR` if set, else `~/.vibeguard`, else
/// `.vibeguard` in the working directory.
pub open spec fn log_root_path(log_dir_env: Option<String>, home: Option<String>) -> Seq<char> {
    match nonempty(log_dir_env) {
        Some(d) => d@,
        None => match home {
            Some(h) => path_join(h@, ".vibeguard"@),
            None => ".vibeguard"@,
        },
    }
}

/// The log root, given `VIBEGUARD_LOG_DIR` and the home directory.
pub fn log_root(log_dir_env: Option<String>, home: Option<String>) -> (out: String)
    ensures
        out@ == log_root_path(log_dir_env, home),
{
    match nonempty_value(log_dir_env) {
        Some(d) => d,
        None => match home {
            Some(h) => join_path(h.as_str(), ".vibeguard"),
            None => string_of(".vibeguard"),
        },
    }
}

// ---------------------------------------------------------------------------
// Session tokens

/// A character that may stand in a session file name: an ASCII letter or
/// digit, `_`, `.` or `-`.
pub open spec fn is_token_char(c: char) -> bool {
    let u = c as u32;
    ||| 0x30 <= u <= 0x39  // '0'..='9'
    ||| 0x41 <= u <= 0x5A  // 'A'..='Z'
    ||| 0x61 <= u <= 0x7A  // 'a'..='z'
    ||| c == '_'
    ||| c == '.'
    ||| c == '-'
}

/// `c` itself when it may stand in a file name, else `_`.
pub open spec fn token_char(c: char) -> char {
    if is_token_char(c) { c } else { '_' }
}

/// Each character of `s` made safe, or `unknown` for an empty `s`.
pub open spec fn sanitized(s: Seq<char>) -> Seq<char> {
    if s.len() == 0 {
        "unknown"@
    } else {
        s.map_values(|c: char| token_char(c))
    }
}

fn token_char_exec(c: char) -> (r: char)
    ensures
        r == token_char(c),
{
    let u = c as u32;
    if (0x30 <= u && u <= 0x39) || (0x41 <= u && u <= 0x5A) || (0x61 <= u && u <= 0x7A)
        || c == '_' || c == '.' || c == '-' {
        c
    } else {
        '_'
    }
}

/// A token for `value` that is safe in a file name: every character that is
/// not an ASCII letter or digit, `_`, `.` or `-` becomes `_`, and an empty
/// value becomes `unknown`.
pub fn sanitize_token(value: &str) -> (token: String)
    ensures
        token@ == sanitized(value@),
{
    let cs = chars_of(value);
    if cs.len() == 0 {
        return string_of("unknown");
    }
    let mut out: Vec<char> = Vec::new();
    let mut i: usize = 0;
    while i < cs.len()
        invariant
            i <= cs.len(),
            cs@ == value@,
            out@ == value@.take(i as int).map_values(|c: char| token_char(c)),
        decreases cs.len() - i,
    {
        out.push(token_char_exec(cs[i]));
        i = i + 1;
        assert(value@.take(i as int) == value@.take(i - 1).push(value@[i - 1]));
        assert(value@.take(i as int).map_values(|c: char| token_char(c)) == value@.take(i - 1).map_values(
            |c: char| token_char(c),
        ).push(token_char(value@[i - 1])));
    }
    assert(value@.take(cs.len() as int) == value@);
    string_from_chars(&out, 0, out.len())
}

/// Every character of a sanitized token may stand in a file name, and the
/// token is never empty.
pub proof fn sanitized_token_is_safe(s: Seq<char>)
    ensures
        sanitized(s).len() > 0,
        forall|i: int| 0 <= i < sanitized(s).len() ==> is_token_char(#[trigger] sanitized(s)[i]),
{
    reveal_strlit("unknown");
}

/// Sanitizing is idempotent: a sanitized token is its own token.
pub proof fn sanitize_is_idempotent(s: Seq<char>)
    ensures
        sanitized(sanitized(s)) == sanitized(s),
{
    reveal_strlit("unknown");
    sanitized_token_is_safe(s);
    let t = sanitized(s);
    assert(sanitized(t) =~= t);
}

// ---------------------------------------------------------------------------
// Session files

/// Session files younger than this (in seconds) are reused.
pub const SESSION_TTL_SECS: u64 = 1800;

/// Session files older than this (in seconds) are removed.
pub const SESSION_CLEANUP_AGE_SECS: u64 = 7200;

/// The name prefix of every session file.
pub open spec fn session_prefix() -> Seq<char> {
    ".wrapper_session_"@
}

/// The name of the session file of `cli` under the parent process `parent`.
pub open spec fn session_file_name(cli: Seq<char>, parent: i32) -> Seq<char> {
    session_prefix() + sanitized(cli) + "_"@ + decimal_int(parent as int)
}

/// The path of the session file of `cli` under the parent process `parent`,
/// inside `project_log_dir`.
pub fn session_file_path(project_log_dir: &str, cli: &str, parent: i32) -> (out: String)
    ensures
        out@ == path_join(project_log_dir@, session_file_name(cli@, parent)),
{
    let token = sanitize_token(cli);
    let pid = decimal_i32(parent);
    let a = join_text(".wrapper_session_", token.as_str());
    let b = join_text(a.as_str(), "_");
    let name = join_text(b.as_str(), pid.as_str());
    join_path(project_log_dir, name.as_str())
}

/// How long ago a file was modified: whole seconds and the nanoseconds
/// beyond them (a `Duration`).
pub struct Elapsed {
    pub secs: u64,
    pub nanos: u32,
}

/// The nanoseconds beyond the seconds are fewer than a second.
pub open spec fn elapsed_valid(e: Elapsed) -> bool {
    e.nanos < 1_000_000_000
}

/// The elapsed time is longer than `limit_secs` seconds.
pub open spec fn older_than(e: Elapsed, limit_secs: u64) -> bool {
    e.secs * 1_000_000_000 + e.nanos > limit_secs * 1_000_000_000
}

/// Whether `e` is longer than `limit_secs` seconds.
pub fn elapsed_exceeds(e: &Elapsed, limit_secs: u64) -> (b: bool)
    requires
        elapsed_valid(*e),
    ensures
        b == older_than(*e, limit_secs),
{
    let b = e.secs > limit_secs || (e.secs == limit_secs && e.nanos > 0);
    let secs = e.secs;
    let nanos = e.nanos;
    assert(b == (secs * 1_000_000_000 + nanos > limit_secs * 1_000_000_000)) by (nonlinear_arith)
        requires
            nanos < 1_000_000_000,
            b == (secs > limit_secs || (secs == limit_secs && nanos > 0)),
    ;
    b
}

/// Whether a session file modified `e` ago is too old to be reused.
pub fn session_expired(e: &Elapsed) -> (b: bool)
    requires
        elapsed_valid(*e),
    ensures
        b == older_than(*e, SESSION_TTL_SECS),
{
    elapsed_exceeds(e, SESSION_TTL_SECS)
}

/// The session id that a session file's text holds: the text without
/// surrounding white space, unless nothing is left.
pub open spec fn session_id_in(text: Seq<char>) -> Option<Seq<char>> {
    if trim(text).len() == 0 {
        None
    } else {
        Some(trim(text))
    }
}

/// The session id held in a session file's text.
pub fn session_id_from_text(text: &str) -> (r: Option<String>)
    ensures
        opt_view(r) == session_id_in(text@),
{
    let t = trimmed(text);
    if is_blank(t.as_str()) {
        proof { trim_is_trimmed(text@); }
        None
    } else {
        proof { trim_is_trimmed(text@); }
        Some(t)
    }
}

/// A trimmed text has nothing left to trim.
pub proof fn trim_is_trimmed(s: Seq<char>)
    ensures
        trim(trim(s)) == trim(s),
{
    trim_start_of_trimmed(s);
    trim_end_keeps_start(trim_start(s));
}

proof fn trim_start_of_trimmed(s: Seq<char>)
    ensures
        trim_start(s).len() == 0 || !is_white_space(trim_start(s)[0]),
        trim_start(trim_start(s)) == trim_start(s),
    decreases s.len(),
{
    if s.len() > 0 && is_white_space(s[0]) {
        trim_start_of_trimmed(s.drop_first());
    }
}

/// Trimming the end of a text that starts with no white space leaves a text
/// that starts with no white space, and trims nothing more at either end.
proof fn trim_end_keeps_start(s: Seq<char>)
    requires
        s.len() == 0 || !is_white_space(s[0]),
    ensures
        trim_start(trim_end(s)) == trim_end(s),
        trim_end(trim_end(s)) == trim_end(s),
    decreases s.len(),
{
    if s.len() > 0 && is_white_space(s.last()) {
        if s.len() > 1 {
            assert(s.drop_last()[0] == s[0]);
        }
        trim_end_keeps_start(s.drop_last());
    }
}

/// Whether a directory entry is a session file old enough to remove: its
/// name starts with `.wrapper_session_` and it was modified more than two
/// hours ago (an entry whose age is unknown stays).
pub fn is_stale_session_entry(name: &str, elapsed: Option<Elapsed>) -> (b: bool)
    requires
        elapsed matches Some(e) ==> elapsed_valid(e),
    ensures
        b == (starts_with_seq(name@, session_prefix())
            && (elapsed matches Some(e) && older_than(e, SESSION_CLEANUP_AGE_SECS))),
{
    if !starts_with_text(name, ".wrapper_session_") {
        return false;
    }
    match elapsed {
        Some(e) => elapsed_exceeds(&e, SESSION_CLEANUP_AGE_SECS),
        None => false,
    }
}

/// A new session id: the 16 lowercase hexadecimal digits of `digest`.
pub fn session_id_from_digest(digest: u64) -> (id: String)
    ensures
        id@ == hex_fixed(digest as nat, 16),
{
    hex_fixed_exec(digest, 16)
}

// ---------------------------------------------------------------------------
// Project root

/// What `Path::parent` gives of a path: the path without its last component,
/// or `None` for a root or an empty path.
pub uninterp spec fn path_parent(path: Seq<char>) -> Option<Seq<char>>;

/// `std::path::Path::parent`. Claimed: its result, read back as text, depends
/// on `path` alone.
#[verifier::external_body]
fn parent_path(path: &str) -> (parent: Option<String>)
    ensures
        opt_view(parent) == path_parent(path@),
{
    match std::path::Path::new(path).parent() {
        Some(p) => Some(p.to_string_lossy().into_owned()),
        None => None,
    }
}

/// A step of the walk up from the working directory to the project root.
pub enum ProjectRootStep {
    /// The directory holds a `.git` marker: it is the project root.
    Found,
    /// It does not; go on with its parent.
    Ascend(String),
    /// It does not, and it has no parent: there is no project root.
    Exhausted,
}

/// The step for a directory that has (or lacks) a `.git` marker and has the
/// given parent.
pub fn project_root_step_with(has_git_marker: bool, parent: Option<String>) -> (step: ProjectRootStep)
    ensures
        has_git_marker ==> step is Found,
        !has_git_marker ==> match parent {
            Some(p) => step == ProjectRootStep::Ascend(p),
            None => step is Exhausted,
        },
{
    if has_git_marker {
        ProjectRootStep::Found
    } else {
        match parent {
            Some(p) => ProjectRootStep::Ascend(p),
            None => ProjectRootStep::Exhausted,
        }
    }
}

/// `p[i]` and `p[i + 1]` are both separators (an empty component).
pub open spec fn double_separator_at(p: Seq<char>, i: int) -> bool {
    p[i] == '/' && p[i + 1] == '/'
}

/// A `.` component starts at `p[i]`.
pub open spec fn dot_component_at(p: Seq<char>, i: int) -> bool {
    p[i] == '.' && p[i - 1] == '/' && (i + 1 == p.len() || p[i + 1] == '/')
}

/// A normalized absolute path, as the operating system reports a working
/// directory: it starts with `/`, does not end with `/` (unless it is `/`),
/// and has no empty and no `.` components.
pub open spec fn is_normal_absolute(p: Seq<char>) -> bool {
    &&& p.len() > 0
    &&& p[0] == '/'
    &&& p.len() > 1 ==> p.last() != '/'
    &&& forall|i: int| 0 <= i < p.len() - 1 ==> !#[trigger] double_separator_at(p, i)
    &&& forall|i: int| 1 <= i < p.len() ==> !#[trigger] dot_component_at(p, i)
}

/// The position of the last `/` in `p`, or -1.
pub open spec fn last_separator(p: Seq<char>) -> int
    decreases p.len(),
{
    if p.len() == 0 {
        -1
    } else if p.last() == '/' {
        p.len() - 1
    } else {
        last_separator(p.drop_last())
    }
}

/// The parent of a normalized absolute path: everything before its last `/`,
/// or `/` itself for a top-level directory; `/` has none.
pub open spec fn normal_parent(p: Seq<char>) -> Option<Seq<char>> {
    if p.len() <= 1 {
        None
    } else if last_separator(p) == 0 {
        Some(seq!['/'])
    } else {
        Some(p.take(last_separator(p)))
    }
}

proof fn last_separator_facts(p: Seq<char>)
    ensures
        -1 <= last_separator(p) < p.len(),
        last_separator(p) >= 0 ==> p[last_separator(p)] == '/',
        forall|j: int| last_separator(p) < j < p.len() ==> p[j] != '/',
        p.len() > 0 && p[0] == '/' ==> last_separator(p) >= 0,
    decreases p.len(),
{
    if p.len() > 0 && p.last() != '/' {
        last_separator_facts(p.drop_last());
        assert forall|j: int| last_separator(p) < j < p.len() implies p[j] != '/' by {
            if j < p.len() - 1 {
                assert(p[j] == p.drop_last()[j]);
            }
        }
        if p.len() > 1 && p[0] == '/' {
            assert(p.drop_last()[0] == '/');
        }
    }
}

/// Whether `cs` is a normalized absolute path.
fn normal_absolute_exec(cs: &Vec<char>) -> (b: bool)
    ensures
        b == is_normal_absolute(cs@),
{
    let n = cs.len();
    if n == 0 || cs[0] != '/' {
        return false;
    }
    if n > 1 && cs[n - 1] == '/' {
        return false;
    }
    let mut i: usize = 1;
    while i < n
        invariant
            1 <= i <= n == cs.len(),
            cs@[0] == '/',
            forall|k: int| 0 <= k < i - 1 ==> !#[trigger] double_separator_at(cs@, k),
            forall|k: int| 1 <= k < i ==> !#[trigger] dot_component_at(cs@, k),
        decreases n - i,
    {
        if cs[i - 1] == '/' && cs[i] == '/' {
            assert(double_separator_at(cs@, i - 1));
            return false;
        }
        if cs[i] == '.' && cs[i - 1] == '/' && (i + 1 == n || cs[i + 1] == '/') {
            assert(dot_component_at(cs@, i as int));
            return false;
        }
        i = i + 1;
    }
    true
}

/// The parent of the normalized absolute path `cs`.
fn normal_parent_exec(cs: &Vec<char>) -> (r: Option<String>)
    requires
        is_normal_absolute(cs@),
    ensures
        opt_view(r) == normal_parent(cs@),
{
    proof { last_separator_facts(cs@); }
    if cs.len() <= 1 {
        return None;
    }
    let mut i: usize = cs.len() - 1;
    while cs[i] != '/'
        invariant
            0 <= i < cs.len(),
            cs@[0] == '/',
            forall|j: int| i < j < cs.len() ==> cs@[j] != '/',
            last_separator(cs@) <= i,
            last_separator(cs@) >= 0,
            cs@[last_separator(cs@)] == '/',
        decreases i,
    {
        i = i - 1;
    }
    assert(i == last_separator(cs@));
    if i == 0 {
        let root = string_of("/");
        proof { reveal_strlit("/"); }
        assert(root@ == seq!['/']);
        Some(root)
    } else {
        Some(string_from_chars(cs, 0, i))
    }
}

/// The step for the directory `current`, which has (or lacks) a `.git`
/// marker. The parent of a normalized absolute path (as the working
/// directory and its parents are) is found here; any other path is handed to
/// `Path::parent`.
pub fn project_root_step(current: &str, has_git_marker: bool) -> (step: ProjectRootStep)
    ensures
        has_git_marker ==> step is Found,
        !has_git_marker && is_normal_absolute(current@) ==> match normal_parent(current@) {
            Some(p) => step matches ProjectRootStep::Ascend(q) && q@ == p,
            None => step is Exhausted,
        },
        !has_git_marker && !is_normal_absolute(current@) ==> match path_parent(current@) {
            Some(p) => step matches ProjectRootStep::Ascend(q) && q@ == p,
            None => step is Exhausted,
        },
{
    if has_git_marker {
        ProjectRootStep::Found
    } else {
        let cs = chars_of(current);
        let parent = if normal_absolute_exec(&cs) {
            normal_parent_exec(&cs)
        } else {
            parent_path(current)
        };
        project_root_step_with(false, parent)
    }
}

/// The project root found at `current`: its canonical form when that could
/// be had, else `current` itself.
pub fn found_project_root(current: String, canonical: Option<String>) -> (root: String)
    ensures
        root == match canonical {
            Some(c) => c,
            None => current,
        },
{
    match canonical {
        Some(c) => c,
        None => current,
    }
}

/// The text that stands for the project root: the root's path, or `global`
/// outside any project.
pub open spec fn project_root_label(root: Option<String>) -> Seq<char> {
    match root {
        Some(r) => r@,
        None => "global"@,
    }
}

/// The text that stands for the project root.
pub fn project_root_text(root: &Option<String>) -> (text: String)
    ensures
        text@ == project_root_label(*root),
{
    match root {
        Some(r) => r.clone(),
        None => string_of("global"),
    }
}

// ---------------------------------------------------------------------------
// The wrapper environment

pub open spec fn wrapper_env_usage_text() -> Seq<char> {
    "Usage: vibeguard-runtime wrapper-env [cli]"@
}

/// The usage error of `wrapper-env`: it takes at most one argument.
pub fn wrapper_env_usage_error(args: &Vec<String>) -> (r: Option<String>)
    ensures
        args.len() > 1 ==> (r matches Some(u) && u@ == wrapper_env_usage_text()),
        args.len() <= 1 ==> r is None,
{
    if args.len() > 1 {
        Some(string_of("Usage: vibeguard-runtime wrapper-env [cli]"))
    } else {
        None
    }
}

/// The CLI name: `VIBEGUARD_CLI` if set, else the first argument if it is
/// not blank, else `unknown`.
pub open spec fn cli_name(cli_env: Option<String>, args: Seq<String>) -> Seq<char> {
    match nonempty(cli_env) {
        Some(c) => c@,
        None => if args.len() > 0 && trim(args[0]@).len() > 0 {
            args[0]@
        } else {
            "unknown"@
        },
    }
}

/// The CLI name, given `VIBEGUARD_CLI` and the arguments.
pub fn wrapper_cli_name(cli_env: Option<String>, args: &Vec<String>) -> (cli: String)
    ensures
        cli@ == cli_name(cli_env, args@),
{
    match nonempty_value(cli_env) {
        Some(c) => c,
        None => {
            if args.len() > 0 && !is_blank(args[0].as_str()) {
                args[0].clone()
            } else {
                string_of("unknown")
            }
        },
    }
}

/// What the wrapper environment is made of.
pub struct WrapperEnvLayout {
    pub cli: String,
    pub project_root_text: String,
    pub project_hash: String,
    pub project_log_dir: String,
    pub log_file: String,
    /// Inside a project: the file that records the project root, and what it
    /// records.
    pub project_root_record: Option<(String, String)>,
}

/// The environment values that override the defaults.
pub struct WrapperEnvOverrides {
    /// `VIBEGUARD_CLI`
    pub cli: Option<String>,
    /// `VIBEGUARD_PROJECT_HASH`
    pub project_hash: Option<String>,
    /// `VIBEGUARD_PROJECT_LOG_DIR`
    pub project_log_dir: Option<String>,
    /// `VIBEGUARD_LOG_FILE`
    pub log_file: Option<String>,
}

/// The layout of the wrapper environment. `log_root` is the log root, `root`
/// the project root if any, and `root_hash` the short hash of the project
/// root's text. The project log directory defaults to
/// `<log_root>/projects/<hash>` and the log file to `<dir>/events.jsonl`.
pub open spec fn layout_matches(
    overrides: WrapperEnvOverrides,
    args: Seq<String>,
    log_root: Seq<char>,
    root: Option<String>,
    root_hash: Seq<char>,
    layout: WrapperEnvLayout,
) -> bool {
    let hash = override_or(overrides.project_hash, root_hash);
    let dir = override_or(
        overrides.project_log_dir,
        path_join(path_join(log_root, "projects"@), hash),
    );
    &&& layout.cli@ == cli_name(overrides.cli, args)
    &&& layout.project_root_text@ == project_root_label(root)
    &&& layout.project_hash@ == hash
    &&& layout.project_log_dir@ == dir
    &&& layout.log_file@ == override_or(overrides.log_file, path_join(dir, "events.jsonl"@))
    &&& match root {
        Some(r) => layout.project_root_record matches Some(rec) && rec.0@ == path_join(
            dir,
            ".project-root"@,
        ) && rec.1@ == r@,
        None => layout.project_root_record is None,
    }
}

/// The layout of the wrapper environment.
pub fn wrapper_env_layout(
    overrides: WrapperEnvOverrides,
    args: &Vec<String>,
    log_root: &str,
    root: Option<String>,
    root_hash: String,
) -> (layout: WrapperEnvLayout)
    ensures
        layout_matches(overrides, args@, log_root@, root, root_hash@, layout),
{
    let cli = wrapper_cli_name(overrides.cli, args);
    let root_text = project_root_text(&root);
    let hash = override_or_exec(overrides.project_hash, root_hash);
    let projects = join_path(log_root, "projects");
    let default_dir = join_path(projects.as_str(), hash.as_str());
    let dir = override_or_exec(overrides.project_log_dir, default_dir);
    let default_file = join_path(dir.as_str(), "events.jsonl");
    let log_file = override_or_exec(overrides.log_file, default_file);
    let record = match root {
        Some(r) => Some((join_path(dir.as_str(), ".project-root"), r)),
        None => None,
    };
    WrapperEnvLayout {
        cli,
        project_root_text: root_text,
        project_hash: hash,
        project_log_dir: dir,
        log_file,
        project_root_record: record,
    }
}

/// The lines that `wrapper-env` prints, in order.
pub open spec fn report_lines(layout: WrapperEnvLayout, session_id: Seq<char>) -> Seq<Seq<char>> {
    seq![
        "VIBEGUARD_CLI="@ + layout.cli@,
        "VIBEGUARD_PROJECT_HASH="@ + layout.project_hash@,
        "VIBEGUARD_PROJECT_LOG_DIR="@ + layout.project_log_dir@,
        "VIBEGUARD_LOG_FILE="@ + layout.log_file@,
        "VIBEGUARD_SESSION_ID="@ + session_id,
    ]
}

/// The lines that `wrapper-env` prints for `layout` and the session id.
pub fn wrapper_env_report(layout: &WrapperEnvLayout, session_id: &str) -> (lines: Vec<String>)
    ensures
        lines@.map_values(|l: String| l@) == report_lines(*layout, session_id@),
{
    let mut lines: Vec<String> = Vec::new();
    lines.push(join_text("VIBEGUARD_CLI=", layout.cli.as_str()));
    lines.push(join_text("VIBEGUARD_PROJECT_HASH=", layout.project_hash.as_str()));
    lines.push(join_text("VIBEGUARD_PROJECT_LOG_DIR=", layout.project_log_dir.as_str()));
    lines.push(join_text("VIBEGUARD_LOG_FILE=", layout.log_file.as_str()));
    lines.push(join_text("VIBEGUARD_SESSION_ID=", session_id));
    assert(lines@.map_values(|l: String| l@) =~= report_lines(*layout, session_id@));
    lines
}

// ---------------------------------------------------------------------------
// Laws

proof fn decimal_digit_is_token_char(d: nat)
    requires
        d < 10,
    ensures
        is_token_char(hex_digit(d)),
{
    assert(0x30 <= '0' as u32 && '9' as u32 <= 0x39);
}

proof fn decimal_digits_are_digits(n: nat)
    ensures
        forall|i: int| 0 <= i < decimal_digits(n).len() ==> is_token_char(#[trigger] decimal_digits(n)[i]),
    decreases n,
{
    decimal_digit_is_token_char(n % 10);
    if n >= 10 {
        decimal_digits_are_digits(n / 10);
        assert(decimal_digits(n) == decimal_digits(n / 10).push(hex_digit(n % 10)));
    } else {
        assert(n % 10 == n);
    }
}

/// Every character of a session file name may stand in a file name (so the
/// name holds no `/`), and the session file lies directly inside the project
/// log directory.
pub proof fn session_file_stays_in_log_dir(dir: Seq<char>, cli: Seq<char>, parent: i32)
    ensures
        forall|i: int| 0 <= i < session_file_name(cli, parent).len()
            ==> is_token_char(#[trigger] session_file_name(cli, parent)[i]),
        path_join(dir, session_file_name(cli, parent)) == if dir.len() == 0 || dir.last() == '/' {
            dir + session_file_name(cli, parent)
        } else {
            dir + "/"@ + session_file_name(cli, parent)
        },
{
    reveal_strlit(".wrapper_session_");
    reveal_strlit("_");
    reveal_strlit("-");
    sanitized_token_is_safe(cli);
    let magnitude: nat = if parent < 0 { (-(parent as int)) as nat } else { parent as nat };
    decimal_digits_are_digits(magnitude);
    let name = session_file_name(cli, parent);
    let head = session_prefix() + sanitized(cli) + "_"@;
    assert forall|i: int| 0 <= i < name.len() implies is_token_char(#[trigger] name[i]) by {
        if i < session_prefix().len() {
            assert(name[i] == session_prefix()[i]);
        } else if i < session_prefix().len() + sanitized(cli).len() {
            assert(name[i] == sanitized(cli)[i - session_prefix().len()]);
        } else if i < head.len() {
            assert(name[i] == '_');
        } else if parent < 0 && i == head.len() {
            assert(name[i] == '-');
        } else if parent < 0 {
            assert(name[i] == decimal_digits(magnitude)[i - head.len() - 1]);
        } else {
            assert(name[i] == decimal_digits(magnitude)[i - head.len()]);
        }
    }
    assert(name[0] == '.');
}

/// A session file old enough to be removed is also too old to be reused.
pub proof fn stale_sessions_are_expired(e: Elapsed)
    requires
        older_than(e, SESSION_CLEANUP_AGE_SECS),
    ensures
        older_than(e, SESSION_TTL_SECS),
{
}

proof fn hex_fixed_shape(n: nat, width: nat)
    ensures
        hex_fixed(n, width).len() == width,
        forall|i: int| 0 <= i < width ==> {
            let c = #[trigger] hex_fixed(n, width)[i];
            ('0' as u32 <= c as u32 <= '9' as u32) || ('a' as u32 <= c as u32 <= 'f' as u32)
        },
    decreases width,
{
    if width > 0 {
        hex_fixed_shape(n / 16, (width - 1) as nat);
    }
}

/// A new session id is exactly 16 lowercase hexadecimal digits.
pub proof fn session_ids_are_sixteen_hex_digits(digest: u64)
    ensures
        hex_fixed(digest as nat, 16).len() == 16,
        forall|i: int| 0 <= i < 16 ==> {
            let c = #[trigger] hex_fixed(digest as nat, 16)[i];
            ('0' as u32 <= c as u32 <= '9' as u32) || ('a' as u32 <= c as u32 <= 'f' as u32)
        },
{
    hex_fixed_shape(digest as nat, 16);
}

/// Walking up from a normalized absolute path other than `/` always goes on:
/// the parent is again a normalized absolute path, strictly shorter, and the
/// path is its parent joined with one non-empty component `c` (returned),
/// which holds no `/`.
pub proof fn walking_up_drops_the_last_component(p: Seq<char>) -> (c: Seq<char>)
    requires
        is_normal_absolute(p),
        p.len() > 1,
    ensures
        normal_parent(p) matches Some(q) && is_normal_absolute(q) && q.len() < p.len()
            && p == path_join(q, c),
        c.len() > 0,
        forall|k: int| 0 <= k < c.len() ==> c[k] != '/',
{
    last_separator_facts(p);
    let i = last_separator(p);
    let c = p.subrange(i + 1, p.len() as int);
    assert(i < p.len() - 1);
    let q = normal_parent(p)->0;
    if i == 0 {
        assert(q + c =~= p);
    } else {
        assert(q =~= p.take(i));
        assert(p[i - 1] != '/') by {
            assert(!double_separator_at(p, i - 1));
        }
        reveal_strlit("/");
        assert(q + "/"@ + c =~= p);
        assert forall|j: int| 0 <= j < q.len() - 1 implies !#[trigger] double_separator_at(q, j) by {
            assert(!double_separator_at(p, j));
        }
        assert forall|j: int| 1 <= j < q.len() implies !#[trigger] dot_component_at(q, j) by {
            assert(!dot_component_at(p, j));
        }
    }
    c
}

/// `/` is where the walk ends: it has no parent.
pub proof fn the_root_has_no_parent(p: Seq<char>)
    requires
        is_normal_absolute(p),
    ensures
        normal_parent(p) is None <==> p == seq!['/'],
{
    if p.len() == 1 {
        assert(p =~= seq!['/']);
    }
}

/// A relative component is appended to the base: the joined path starts with
/// the base and ends with the component, with at most one `/` added.
pub proof fn join_keeps_base_and_component(base: Seq<char>, component: Seq<char>)
    requires
        component.len() == 0 || component[0] != '/',
    ensures
        path_join(base, component).take(base.len() as int) == base,
        path_join(base, component).skip(path_join(base, component).len() - component.len())
            == component,
        path_join(base, component).len() == base.len() + component.len()
            || path_join(base, component).len() == base.len() + component.len() + 1,
{
    reveal_strlit("/");
    let j = path_join(base, component);
    assert(j.take(base.len() as int) =~= base);
    assert(j.skip(j.len() - component.len()) =~= component);
}

/// The log root depends on `VIBEGUARD_LOG_DIR` only through whether it holds
/// something besides white space: unset and blank are the same. When it is
/// unset or blank, the root is `.vibeguard` inside the home directory (or the
/// working directory without one); otherwise it is the variable's value.
pub proof fn log_root_falls_back_to_home(
    e1: Option<String>,
    e2: Option<String>,
    home: Option<String>,
)
    requires
        nonempty(e1) == nonempty(e2),
    ensures
        log_root_path(e1, home) == log_root_path(e2, home),
        e1 matches Some(d) ==> (trim(d@).len() > 0 ==> log_root_path(e1, home) == d@),
        nonempty(e1) is None ==> match home {
            Some(h) => h@.len() > 0 && h@.last() != '/' ==> log_root_path(e1, home) == h@ + "/.vibeguard"@,
            None => log_root_path(e1, home) == ".vibeguard"@,
        },
        nonempty(e1) is None && home is Some ==> log_root_path(e1, home).len() > 0
            && log_root_path(e1, home) == path_join(home->0@, ".vibeguard"@),
{
    reveal_strlit("/");
    reveal_strlit(".vibeguard");
    reveal_strlit("/.vibeguard");
    if nonempty(e1) is None {
        if let Some(h) = home {
            if h@.len() > 0 && h@.last() != '/' {
                assert(h@ + "/"@ + ".vibeguard"@ =~= h@ + "/.vibeguard"@);
            }
        }
    }
}

/// The log file is `events.jsonl` directly inside the project log directory
/// that the layout reports, unless `VIBEGUARD_LOG_FILE` overrides it; the
/// project log directory is `VIBEGUARD_PROJECT_LOG_DIR` when set, else
/// `<log_root>/projects/<project hash>`; the project root record lies in that
/// same directory.
pub proof fn log_file_lies_in_the_project_log_dir(
    overrides: WrapperEnvOverrides,
    args: Seq<String>,
    log_root: Seq<char>,
    root: Option<String>,
    root_hash: Seq<char>,
    layout: WrapperEnvLayout,
)
    requires
        layout_matches(overrides, args, log_root, root, root_hash, layout),
    ensures
        nonempty(overrides.log_file) is None ==> layout.log_file@ == path_join(
            layout.project_log_dir@,
            "events.jsonl"@,
        ),
        overrides.log_file matches Some(f) ==> (trim(f@).len() > 0 ==> layout.log_file@ == f@),
        overrides.project_log_dir matches Some(d) ==> (trim(d@).len() > 0
            ==> layout.project_log_dir@ == d@),
        nonempty(overrides.project_log_dir) is None ==> layout.project_log_dir@ == path_join(
            path_join(log_root, "projects"@),
            layout.project_hash@,
        ),
        overrides.project_hash matches Some(h) ==> (trim(h@).len() > 0 ==> layout.project_hash@ == h@),
        nonempty(overrides.project_hash) is None ==> layout.project_hash@ == root_hash,
        layout.project_root_record matches Some(rec) ==> rec.0@ == path_join(
            layout.project_log_dir@,
            ".project-root"@,
        ),
        layout.project_root_record is Some <==> root is Some,
{
}

} // verus!
