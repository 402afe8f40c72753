//! Validation of the user's runtime config file (`VIBEGUARD_USER_CONFIG_FILE`).
//!
//! Reading the file is left to the caller, which hands over what the read gave
//! as a [`ConfigRead`]; the JSON check itself is done by `serde_json`.

use vstd::prelude::*;
use crate::text::{join_text, opt_view};

verus! {

/// Exit code of a config file that cannot be parsed (bad UTF-8 or bad JSON).
pub const CONFIG_PARSE_ERROR: i32 = 30;

/// Exit code of any other policy failure.
pub const POLICY_ERROR: i32 = 20;

/// A failed runtime config check: the message to print and the exit code.
#[derive(Debug, Clone, PartialEq, Eq)]
pub struct RuntimeConfigError {
    pub message: String,
    pub exit_code: i32,
}

impl RuntimeConfigError {
    /// An error for a config that cannot be parsed.
    pub fn config_parse_error(message: String) -> (e: Self)
        ensures
            e.message == message,
            e.exit_code == CONFIG_PARSE_ERROR,
    {
        Self { message, exit_code: CONFIG_PARSE_ERROR }
    }

    /// An error for any other policy failure.
    pub fn policy_error(message: String) -> (e: Self)
        ensures
            e.message == message,
            e.exit_code == POLICY_ERROR,
    {
        Self { message, exit_code: POLICY_ERROR }
    }
}

/// What reading the config file at a path gave.
pub enum ConfigRead {
    /// The path does not name a regular file.
    NotAFile,
    /// The file was read; its text.
    Contents(String),
    /// The file is not valid UTF-8; the read error's text.
    InvalidUtf8(String),
    /// The file could not be read for another reason; the read error's text.
    Unreadable(String),
}

/// `"<prefix><path>: <detail>"`, the shape of every message of this module.
pub open spec fn config_message(prefix: Seq<char>, path: Seq<char>, detail: Seq<char>) -> Seq<char> {
    prefix + path + ": "@ + detail
}

pub open spec fn invalid_utf8_prefix() -> Seq<char> {
    "VibeGuard runtime config invalid UTF-8: "@
}

pub open spec fn unreadable_prefix() -> Seq<char> {
    "VibeGuard runtime config cannot be read: "@
}

pub open spec fn invalid_json_prefix() -> Seq<char> {
    "VibeGuard runtime config invalid JSON: "@
}

fn config_message_exec(prefix: &str, path: &str, detail: &str) -> (m: String)
    ensures
        m@ == config_message(prefix@, path@, detail@),
{
    let a = join_text(prefix, path);
    let b = join_text(a.as_str(), ": ");
    join_text(b.as_str(), detail)
}

/// What `serde_json` reports of `text` read as one JSON document: `None` when
/// it parses, else the text of its error.
pub uninterp spec fn json_document_error(text: Seq<char>) -> Option<Seq<char>>;

/// `serde_json::from_str::<serde_json::Value>`: parses `text` as one JSON
/// document. Claimed: the result is `None` exactly when the parse succeeds,
/// else the `Display` text of the error, and it depends on `text` alone.
#[verifier::external_body]
fn json_document_check(text: &str) -> (err: Option<String>)
    ensures
        opt_view(err) == json_document_error(text@),
{
    match serde_json::from_str::<serde_json::Value>(text) {
        Ok(_) => None,
        Err(e) => Some(e.to_string()),
    }
}

/// The outcome of the JSON check of the config at `path_text`, given what
/// `serde_json` reported (`json_error`).
pub fn json_check_outcome(path_text: &str, json_error: Option<String>) -> (r: Result<(), RuntimeConfigError>)
    ensures
        match json_error {
            None => r is Ok,
            Some(m) => r matches Err(e) && e.exit_code == CONFIG_PARSE_ERROR
                && e.message@ == config_message(invalid_json_prefix(), path_text@, m@),
        },
{
    match json_error {
        None => Ok(()),
        Some(m) => {
            let msg = config_message_exec("VibeGuard runtime config invalid JSON: ", path_text, m.as_str());
            Err(RuntimeConfigError::config_parse_error(msg))
        }
    }
}

/// Validates the runtime config at `path_text`, given what reading it gave.
/// An empty path or a path that is not a file is no error; a file that is not
/// UTF-8 or not JSON is a parse error (exit code 30); a file that cannot be
/// read is a policy error (exit code 20).
pub fn validate_runtime_config_file(path_text: &str, read: ConfigRead) -> (r: Result<(), RuntimeConfigError>)
    ensures
        path_text@.len() == 0 ==> r is Ok,
        path_text@.len() > 0 ==> match read {
            ConfigRead::NotAFile => r is Ok,
            ConfigRead::InvalidUtf8(err) => r matches Err(e) && e.exit_code == CONFIG_PARSE_ERROR
                && e.message@ == config_message(invalid_utf8_prefix(), path_text@, err@),
            ConfigRead::Unreadable(err) => r matches Err(e) && e.exit_code == POLICY_ERROR
                && e.message@ == config_message(unreadable_prefix(), path_text@, err@),
            ConfigRead::Contents(text) => match json_document_error(text@) {
                None => r is Ok,
                Some(m) => r matches Err(e) && e.exit_code == CONFIG_PARSE_ERROR
                    && e.message@ == config_message(invalid_json_prefix(), path_text@, m),
            },
        },
{
    if path_text.is_empty() {
        return Ok(());
    }
    match read {
        ConfigRead::NotAFile => Ok(()),
        ConfigRead::InvalidUtf8(err) => {
            let msg = config_message_exec("VibeGuard runtime config invalid UTF-8: ", path_text, err.as_str());
            Err(RuntimeConfigError::config_parse_error(msg))
        },
        ConfigRead::Unreadable(err) => {
            let msg = config_message_exec("VibeGuard runtime config cannot be read: ", path_text, err.as_str());
            Err(RuntimeConfigError::policy_error(msg))
        },
        ConfigRead::Contents(text) => {
            let json_error = json_document_check(text.as_str());
            json_check_outcome(path_text, json_error)
        },
    }
}

} // verus!
