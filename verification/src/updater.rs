//! Noticing that a newer release exists.
//!
//! A check runs in the background and leaves what it found in a small cache;
//! the next start of the tool reads the cache and says so if the release it
//! names is newer than the tool itself.

use vstd::prelude::*;
use crate::json::{json_string_at, read_json_string};
use crate::text::{concat2, contains, contains_text, copy_of, texts};

verus! {

/// What the last check for updates found.
#[derive(Debug, PartialEq, Eq)]
pub struct UpdateCache {
    pub latest_version: String,
    pub last_check: String,
    pub show_notification: bool,
    pub install_method: String,
}

/// Whether one version comes after another in semantic versioning's order:
/// `None` if one of the two is not a semantic version.
pub uninterp spec fn semver_newer(latest: Seq<char>, current: Seq<char>) -> Option<bool>;

/// Parses both texts with `semver::Version::parse` and compares the
/// versions with `>`, which is semantic versioning's precedence followed by
/// the order of build metadata.
#[verifier::external_body]
fn compare_versions(latest: &str, current: &str) -> (newer: Option<bool>)
    ensures
        newer == semver_newer(latest@, current@),
{
    let latest = semver::Version::parse(latest).ok()?;
    let current = semver::Version::parse(current).ok()?;
    Some(latest > current)
}

/// Whether a program at the given path was installed by Homebrew.
pub open spec fn homebrew_path(exe: Option<Seq<char>>) -> bool {
    match exe {
        Some(path) => contains_text(path, "/Cellar/"@) || contains_text(path, "/opt/homebrew/"@),
        None => false,
    }
}

/// Whether the tool was installed by Homebrew, from the path it runs from.
pub fn is_homebrew(exe: Option<&str>) -> (yes: bool)
    ensures
        yes == homebrew_path(
            match exe {
                Some(path) => Some(path@),
                None => None,
            },
        ),
{
    match exe {
        Some(path) => contains(path, "/Cellar/") || contains(path, "/opt/homebrew/"),
        None => false,
    }
}

/// How to update, depending on how the tool was installed.
pub open spec fn update_command(homebrew: bool) -> Seq<char> {
    if homebrew {
        "Run: brew upgrade wvdsh/tap/cli"@
    } else {
        "Run: wvdsh update"@
    }
}

/// The lines that announce an update: a cache is announced if it asks to be
/// and the release it names is newer than the tool.
pub open spec fn notice_text(
    latest_version: Seq<char>,
    newer: Option<bool>,
    show_notification: bool,
    homebrew: bool,
) -> Seq<Seq<char>> {
    if show_notification && newer == Some(true) {
        seq!["\n🎉 Update available → "@ + latest_version, update_command(homebrew), ""@]
    } else {
        Seq::empty()
    }
}

/// The lines that announce an update, given whether the cached release is
/// newer than the tool.
pub fn notice_lines(cache: &UpdateCache, newer: Option<bool>, homebrew: bool) -> (lines: Vec<
    String,
>)
    ensures
        texts(lines@) == notice_text(cache.latest_version@, newer, cache.show_notification, homebrew),
{
    let mut lines: Vec<String> = Vec::new();
    let show = match newer {
        Some(true) => cache.show_notification,
        _ => false,
    };
    if show {
        lines.push(concat2("\n🎉 Update available → ", cache.latest_version.as_str()));
        if homebrew {
            lines.push(copy_of("Run: brew upgrade wvdsh/tap/cli"));
        } else {
            lines.push(copy_of("Run: wvdsh update"));
        }
        lines.push(copy_of(""));
    }
    assert(texts(lines@) =~= notice_text(
        cache.latest_version@,
        newer,
        cache.show_notification,
        homebrew,
    ));
    lines
}

/// The lines to show at startup for what the last check found.
pub fn check_for_updates(cache: Option<&UpdateCache>, current_version: &str, homebrew: bool) -> (lines:
    Vec<String>)
    ensures
        match cache {
            Some(c) => texts(lines@) == notice_text(
                c.latest_version@,
                semver_newer(c.latest_version@, current_version@),
                c.show_notification,
                homebrew,
            ),
            None => lines@.len() == 0,
        },
{
    match cache {
        Some(c) => {
            let newer = if c.show_notification {
                compare_versions(c.latest_version.as_str(), current_version)
            } else {
                None
            };
            let lines = notice_lines(c, newer, homebrew);
            assert(!c.show_notification ==> texts(lines@) =~= Seq::<Seq<char>>::empty());
            lines
        },
        None => Vec::new(),
    }
}

/// The stable version that `brew info --json=v2` reports for the formula.
pub fn homebrew_stable_version(brew_info: &str) -> (version: Option<String>)
    ensures
        version is Some == json_string_at(brew_info@, "/formulae/0/versions/stable"@) is Some,
        version matches Some(v) ==> json_string_at(brew_info@, "/formulae/0/versions/stable"@)
            == Some(v@),
{
    read_json_string(brew_info, "/formulae/0/versions/stable")
}

/// The cache to write after Homebrew has reported a version, given whether
/// that version is newer than the tool: it asks to be announced only if it
/// is.
pub fn homebrew_cache(version: String, newer: bool, now: String) -> (cache: UpdateCache)
    ensures
        cache.latest_version == version,
        cache.last_check == now,
        cache.show_notification == newer,
        cache.install_method@ == "homebrew"@,
{
    UpdateCache {
        latest_version: version,
        last_check: now,
        show_notification: newer,
        install_method: copy_of("homebrew"),
    }
}

/// The cache to write after a check against Homebrew; there is none if one
/// of the versions is not a semantic version.
pub fn cache_after_homebrew_check(version: String, current_version: &str, now: String) -> (cache:
    Option<UpdateCache>)
    ensures
        cache is Some == semver_newer(version@, current_version@) is Some,
        cache matches Some(c) ==> c.latest_version == version && c.last_check == now
            && c.show_notification == semver_newer(version@, current_version@)->0
            && c.install_method@ == "homebrew"@,
{
    match compare_versions(version.as_str(), current_version) {
        Some(newer) => Some(homebrew_cache(version, newer, now)),
        None => None,
    }
}

/// The cache to write after the installer's receipt has led to a newer
/// release.
pub fn receipt_cache(new_version: String, now: String) -> (cache: UpdateCache)
    ensures
        cache.latest_version == new_version,
        cache.last_check == now,
        cache.show_notification,
        cache.install_method@ == "shell"@,
{
    UpdateCache {
        latest_version: new_version,
        last_check: now,
        show_notification: true,
        install_method: copy_of("shell"),
    }
}

/// A cache whose announcement has been seen.
pub fn acknowledged(cache: UpdateCache) -> (seen: UpdateCache)
    ensures
        seen.latest_version == cache.latest_version,
        seen.last_check == cache.last_check,
        seen.install_method == cache.install_method,
        !seen.show_notification,
{
    UpdateCache { show_notification: false, ..cache }
}

/// What `update` says when there is no installer's receipt to update from.
pub fn missing_receipt_message(homebrew: bool) -> (text: &'static str)
    ensures
        text@ == if homebrew {
            "Installed via Homebrew. Use: brew upgrade wvdsh/tap/cli"@
        } else {
            "No updates available"@
        },
{
    if homebrew {
        "Installed via Homebrew. Use: brew upgrade wvdsh/tap/cli"
    } else {
        "No updates available"
    }
}

/// What `update` says when it is done.
pub fn update_done_message(new_version: Option<&str>) -> (text: String)
    ensures
        text@ == match new_version {
            Some(v) => "Updated to version "@ + v@,
            None => "Already on latest version"@,
        },
{
    match new_version {
        Some(v) => concat2("Updated to version ", v),
        None => copy_of("Already on latest version"),
    }
}

} // verus!
