//! Changing a field of the project file from the command line.

use vstd::prelude::*;
use crate::config::{is_version, validate_version};
use crate::text::{concat2, concat3, copy_of, same};

verus! {

/// Why a field cannot be set.
#[derive(Debug, Clone, Copy, PartialEq, Eq, Structural)]
pub enum SettingError {
    /// The key is not one that can be set.
    UnsupportedKey,
    /// The value for `version` is not `major.minor.patch`.
    BadVersion,
    /// The value for `game_id` is empty.
    EmptyGameId,
}

/// Whether a key can be set: `branch`, `version`, `upload_dir` and `game_id`
/// can.
pub open spec fn supported_key(key: Seq<char>) -> bool {
    key == "branch"@ || key == "version"@ || key == "upload_dir"@ || key == "game_id"@
}

/// What is wrong with setting a key to a value, if anything.
pub open spec fn setting_problem(key: Seq<char>, value: Seq<char>) -> Option<SettingError> {
    if !supported_key(key) {
        Some(SettingError::UnsupportedKey)
    } else if key == "version"@ && !is_version(value) {
        Some(SettingError::BadVersion)
    } else if key == "game_id"@ && value.len() == 0 {
        Some(SettingError::EmptyGameId)
    } else {
        None
    }
}

/// Checks a key and the value it is to get. For an upload directory that
/// may be set, the result says so: the caller warns if the directory does
/// not exist yet.
pub fn validate_setting(key: &str, value: &str) -> (r: Result<bool, SettingError>)
    ensures
        match setting_problem(key@, value@) {
            Some(e) => r == Err::<bool, SettingError>(e),
            None => r == Ok::<bool, SettingError>(key@ == "upload_dir"@),
        },
{
    let is_branch = same(key, "branch");
    let is_version_key = same(key, "version");
    let is_upload_dir = same(key, "upload_dir");
    let is_game_id = same(key, "game_id");
    if !(is_branch || is_version_key || is_upload_dir || is_game_id) {
        return Err(SettingError::UnsupportedKey);
    }
    if is_version_key && !validate_version(value) {
        return Err(SettingError::BadVersion);
    }
    if is_game_id && value.is_empty() {
        return Err(SettingError::EmptyGameId);
    }
    Ok(is_upload_dir)
}

/// The message of a setting error, for the key it is about.
pub open spec fn setting_error_text(e: SettingError, key: Seq<char>) -> Seq<char> {
    match e {
        SettingError::UnsupportedKey => "Unsupported key '"@ + key
            + "'. Supported keys: branch, version, upload_dir, game_id"@,
        SettingError::BadVersion => "Version must be in major.minor.patch format (e.g. 1.2.3)"@,
        SettingError::EmptyGameId => "game_id must be non-empty"@,
    }
}

impl SettingError {
    /// The message shown for this error, for the key it is about.
    pub fn message(&self, key: &str) -> (text: String)
        ensures
            text@ == setting_error_text(*self, key@),
    {
        match self {
            SettingError::UnsupportedKey => concat3(
                "Unsupported key '",
                key,
                "'. Supported keys: branch, version, upload_dir, game_id",
            ),
            SettingError::BadVersion => copy_of(
                "Version must be in major.minor.patch format (e.g. 1.2.3)",
            ),
            SettingError::EmptyGameId => copy_of("game_id must be non-empty"),
        }
    }
}

/// What is said when a field has been set.
pub fn updated_message(key: &str, old_value: &str, new_value: &str) -> (text: String)
    ensures
        text@ == "Updated "@ + key@ + ": "@ + old_value@ + " → "@ + new_value@,
{
    let head = concat3("Updated ", key, ": ");
    let tail = concat3(old_value, " → ", new_value);
    concat2(head.as_str(), tail.as_str())
}

/// The warning about an upload directory that is not there.
pub fn missing_directory_warning(directory: &str) -> (text: String)
    ensures
        text@ == "Warning: directory '"@ + directory@ + "' does not exist yet"@,
{
    concat3("Warning: directory '", directory, "' does not exist yet")
}

} // verus!
