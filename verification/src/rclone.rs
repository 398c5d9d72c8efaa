//! Uploading with `rclone`: finding or fetching the program, its
//! configuration and arguments, and reading progress out of what it prints.

use vstd::prelude::*;
use crate::text::{
    chars_of,
    concat2,
    concat3,
    contains,
    contains_text,
    copy_of,
    ends_with,
    find_char,
    first_index_of,
    last_index_of,
    lemma_split_nonempty,
    rfind_char,
    same,
    split,
    split_on,
    string_of,
    texts,
};

verus! {

/// The release of rclone that is fetched when none is installed.
pub const RCLONE_VERSION: &'static str = "1.67.0";

/// Short-lived credentials for one bucket.
#[derive(Debug, PartialEq, Eq)]
pub struct R2Config {
    pub access_key_id: String,
    pub secret_access_key: String,
    pub session_token: String,
    pub endpoint: String,
}

/// Where the rclone program is, if it is anywhere yet.
#[derive(Debug, PartialEq, Eq)]
pub struct RcloneManager {
    rclone_path: Option<String>,
    verbose: bool,
}

/// What to download for a platform.
#[derive(Debug, PartialEq, Eq)]
pub struct DownloadInfo {
    pub platform: &'static str,
    pub archive_type: &'static str,
    pub executable_name: &'static str,
}

/// A line without terminal escape sequences.
pub uninterp spec fn ansi_stripped(line: Seq<char>) -> Seq<char>;

/// `strip_ansi_escapes::strip_str` removes the ANSI escape sequences from a
/// text and returns what is left.
#[verifier::external_body]
fn strip_ansi(line: &str) -> (clean: String)
    ensures
        clean@ == ansi_stripped(line@),
{
    strip_ansi_escapes::strip_str(line)
}

/// A text without the whitespace at its start and at its end.
pub uninterp spec fn trimmed(text: Seq<char>) -> Seq<char>;

/// `str::trim` returns the text without leading and trailing whitespace.
pub assume_specification[ str::trim ](text: &str) -> (inner: &str)
    ensures
        inner@ == trimmed(text@),
;

/// The path that was found, as a manager holds it.
pub open spec fn found_path(system_rclone: bool, cached: Option<String>) -> Option<Seq<char>> {
    if system_rclone {
        Some("rclone"@)
    } else {
        match cached {
            Some(path) => Some(path@),
            None => None,
        }
    }
}

impl RcloneManager {
    /// The path of the program, if it is known.
    pub closed spec fn path(&self) -> Option<Seq<char>> {
        match self.rclone_path {
            Some(p) => Some(p@),
            None => None,
        }
    }

    /// Whether the manager reports what it does.
    pub closed spec fn is_verbose(&self) -> bool {
        self.verbose
    }

    /// A manager for the rclone that is there: the one on the search path
    /// if there is one, else the one fetched earlier, else none yet.
    pub fn new(verbose: bool, system_rclone: bool, cached: Option<String>) -> (manager:
        RcloneManager)
        ensures
            manager.is_verbose() == verbose,
            manager.path() == found_path(system_rclone, cached),
    {
        if system_rclone {
            RcloneManager { rclone_path: Some(copy_of("rclone")), verbose }
        } else {
            RcloneManager { rclone_path: cached, verbose }
        }
    }

    /// The path of the program, if it is known.
    pub fn rclone_path(&self) -> (path: Option<&str>)
        ensures
            path is Some == self.path() is Some,
            path matches Some(p) ==> self.path() == Some(p@),
    {
        match &self.rclone_path {
            Some(p) => Some(p.as_str()),
            None => None,
        }
    }

    /// Records where the program was put after it was fetched.
    pub fn downloaded(&mut self, path: String)
        ensures
            final(self).path() == Some(path@),
            final(self).is_verbose() == old(self).is_verbose(),
    {
        self.rclone_path = Some(path);
    }
}

/// What to download for an operating system and an architecture, where
/// rclone is released for them.
pub open spec fn download_for(os: Seq<char>, arch: Seq<char>) -> Option<
    (Seq<char>, Seq<char>, Seq<char>),
> {
    let cpu = if arch == "x86_64"@ {
        Some("amd64"@)
    } else if arch == "aarch64"@ {
        Some("arm64"@)
    } else {
        None
    };
    if cpu is None {
        None
    } else if os == "linux"@ {
        Some(("linux-"@ + cpu->0, "zip"@, "rclone"@))
    } else if os == "macos"@ {
        Some(("osx-"@ + cpu->0, "zip"@, "rclone"@))
    } else if os == "windows"@ {
        Some(("windows-"@ + cpu->0, "zip"@, "rclone.exe"@))
    } else {
        None
    }
}

/// What to download for an operating system and an architecture.
pub fn get_download_info(os: &str, arch: &str) -> (info: Option<DownloadInfo>)
    ensures
        info is Some == download_for(os@, arch@) is Some,
        info matches Some(i) ==> download_for(os@, arch@) == Some(
            (i.platform@, i.archive_type@, i.executable_name@),
        ),
{
    proof {
        reveal_strlit("amd64");
        reveal_strlit("arm64");
        reveal_strlit("linux-");
        reveal_strlit("osx-");
        reveal_strlit("windows-");
        reveal_strlit("linux-amd64");
        reveal_strlit("linux-arm64");
        reveal_strlit("osx-amd64");
        reveal_strlit("osx-arm64");
        reveal_strlit("windows-amd64");
        reveal_strlit("windows-arm64");
        assert("linux-"@ + "amd64"@ =~= "linux-amd64"@);
        assert("linux-"@ + "arm64"@ =~= "linux-arm64"@);
        assert("osx-"@ + "amd64"@ =~= "osx-amd64"@);
        assert("osx-"@ + "arm64"@ =~= "osx-arm64"@);
        assert("windows-"@ + "amd64"@ =~= "windows-amd64"@);
        assert("windows-"@ + "arm64"@ =~= "windows-arm64"@);
    }
    let amd = same(arch, "x86_64");
    let arm = same(arch, "aarch64");
    if !amd && !arm {
        return None;
    }
    if same(os, "linux") {
        Some(
            DownloadInfo {
                platform: if amd {
                    "linux-amd64"
                } else {
                    "linux-arm64"
                },
                archive_type: "zip",
                executable_name: "rclone",
            },
        )
    } else if same(os, "macos") {
        Some(
            DownloadInfo {
                platform: if amd {
                    "osx-amd64"
                } else {
                    "osx-arm64"
                },
                archive_type: "zip",
                executable_name: "rclone",
            },
        )
    } else if same(os, "windows") {
        Some(
            DownloadInfo {
                platform: if amd {
                    "windows-amd64"
                } else {
                    "windows-arm64"
                },
                archive_type: "zip",
                executable_name: "rclone.exe",
            },
        )
    } else {
        None
    }
}

/// Where a release of rclone is downloaded from.
pub open spec fn download_address(version: Seq<char>, platform: Seq<char>, archive: Seq<char>) -> Seq<
    char,
> {
    "https://github.com/rclone/rclone/releases/download/v"@ + version + "/rclone-v"@ + version
        + "-"@ + platform + "."@ + archive
}

/// Where the release to fetch is downloaded from.
pub fn download_url(info: &DownloadInfo) -> (url: String)
    ensures
        url@ == download_address(RCLONE_VERSION@, info.platform@, info.archive_type@),
{
    let mut url = concat3(
        "https://github.com/rclone/rclone/releases/download/v",
        RCLONE_VERSION,
        "/rclone-v",
    );
    url = concat3(url.as_str(), RCLONE_VERSION, "-");
    url = concat3(url.as_str(), info.platform, ".");
    concat2(url.as_str(), info.archive_type)
}

/// The first entry of an archive whose name ends with the program's name.
pub open spec fn binary_entry(names: Seq<Seq<char>>, executable: Seq<char>) -> Option<int>
    decreases names.len(),
{
    if names.len() == 0 {
        None
    } else if executable.is_suffix_of(names.first()) {
        Some(0)
    } else {
        match binary_entry(names.drop_first(), executable) {
            Some(i) => Some(i + 1),
            None => None,
        }
    }
}

/// The entry of an archive that holds the program.
pub fn find_binary_entry(names: &Vec<String>, executable_name: &str) -> (found: Option<usize>)
    ensures
        match binary_entry(texts(names@), executable_name@) {
            Some(i) => found == Some(i as usize) && 0 <= i < names.len(),
            None => found is None,
        },
{
    let ghost all = texts(names@);
    let mut i: usize = names.len();
    let mut found: Option<usize> = None;
    assert(all.skip(names.len() as int).len() == 0);
    while i > 0
        invariant
            i <= names.len(),
            all == texts(names@),
            match binary_entry(all.skip(i as int), executable_name@) {
                Some(k) => found == Some((k + i) as usize) && 0 <= k + i < names.len(),
                None => found is None,
            },
        decreases i,
    {
        i -= 1;
        assert(all.skip(i as int).drop_first() == all.skip(i + 1));
        assert(all.skip(i as int).first() == names@[i as int]@);
        if ends_with(names[i].as_str(), executable_name) {
            found = Some(i);
        }
    }
    assert(all.skip(0) == all);
    found
}

/// The configuration that lets rclone reach the bucket as remote `r2`.
pub open spec fn rclone_config_text(config: R2Config) -> Seq<char> {
    "[r2]\ntype = s3\nprovider = Cloudflare\naccess_key_id = "@ + config.access_key_id@
        + "\nsecret_access_key = "@ + config.secret_access_key@ + "\nsession_token = "@
        + config.session_token@ + "\nendpoint = "@ + config.endpoint@ + "\nacl = private\n"@
}

/// The configuration that lets rclone reach the bucket as remote `r2`.
pub fn create_rclone_config(config: &R2Config) -> (text: String)
    ensures
        text@ == rclone_config_text(*config),
{
    let mut text = concat3(
        "[r2]\ntype = s3\nprovider = Cloudflare\naccess_key_id = ",
        config.access_key_id.as_str(),
        "\nsecret_access_key = ",
    );
    text = concat3(text.as_str(), config.secret_access_key.as_str(), "\nsession_token = ");
    text = concat3(text.as_str(), config.session_token.as_str(), "\nendpoint = ");
    concat3(text.as_str(), config.endpoint.as_str(), "\nacl = private\n")
}

/// Where a build goes, as rclone names it.
pub fn sync_destination(bucket: &str, prefix: &str) -> (destination: String)
    ensures
        destination@ == "r2:"@ + bucket@ + "/"@ + prefix@,
{
    let head = concat3("r2:", bucket, "/");
    concat2(head.as_str(), prefix)
}

/// The arguments of the rclone run that uploads a build.
pub open spec fn sync_arguments_text(
    source: Seq<char>,
    destination: Seq<char>,
    config_file: Seq<char>,
) -> Seq<Seq<char>> {
    seq![
        "sync"@,
        source,
        destination,
        "--config"@,
        config_file,
        "--progress"@,
        "--stats"@,
        "250ms"@,
        "--checksum"@,
    ]
}

/// The arguments of the rclone run that uploads a build.
pub fn sync_arguments(source: &str, destination: &str, config_file: &str) -> (args: Vec<String>)
    ensures
        texts(args@) == sync_arguments_text(source@, destination@, config_file@),
{
    let mut args: Vec<String> = Vec::new();
    args.push(copy_of("sync"));
    args.push(copy_of(source));
    args.push(copy_of(destination));
    args.push(copy_of("--config"));
    args.push(copy_of(config_file));
    args.push(copy_of("--progress"));
    args.push(copy_of("--stats"));
    args.push(copy_of("250ms"));
    args.push(copy_of("--checksum"));
    assert(texts(args@) =~= sync_arguments_text(source@, destination@, config_file@));
    args
}

/// Where the number of a progress line begins: after the last comma before
/// the percent sign, else after the last space, else at the start.
pub open spec fn field_start(before: Seq<char>) -> int {
    match last_index_of(before, ',') {
        Some(i) => i + 1,
        None => match last_index_of(before, ' ') {
            Some(i) => i + 1,
            None => 0,
        },
    }
}

/// The text of the percentage that a line of rclone's output reports, as it
/// stands in the line: a line reports one if it holds `Transferred:` and a
/// percent sign, and the text is what stands before the first percent sign,
/// back to the last comma or space.
pub open spec fn percent_field(clean_line: Seq<char>) -> Option<Seq<char>> {
    if contains_text(clean_line, "Transferred:"@) && first_index_of(clean_line, '%') is Some {
        let at = first_index_of(clean_line, '%')->0;
        let before = clean_line.take(at);
        Some(before.skip(field_start(before)))
    } else {
        None
    }
}

/// The text of the percentage that a line without escape sequences reports.
pub fn progress_field(clean_line: &str) -> (field: Option<String>)
    ensures
        field is Some == percent_field(clean_line@) is Some,
        field matches Some(f) ==> percent_field(clean_line@) == Some(f@),
{
    if !contains(clean_line, "Transferred:") {
        return None;
    }
    let v = chars_of(clean_line);
    let at = match find_char(&v, '%') {
        Some(at) => at,
        None => {
            return None;
        },
    };
    let start = match rfind_char(&v, at, ',') {
        Some(i) => i + 1,
        None => match rfind_char(&v, at, ' ') {
            Some(i) => i + 1,
            None => 0,
        },
    };
    proof {
        let before = v@.take(at as int);
        assert(before.skip(start as int) =~= v@.subrange(start as int, at as int));
    }
    Some(string_of(&v, start, at))
}

/// The number that a line of rclone's output reports as its percentage, as
/// the line writes it: the line's escape sequences are taken out, and the
/// text found is freed of the whitespace around it.
pub fn parse_rclone_progress(line: &str) -> (number: Option<String>)
    ensures
        number is Some == percent_field(ansi_stripped(line@)) is Some,
        number matches Some(n) ==> n@ == trimmed(percent_field(ansi_stripped(line@))->0),
{
    let clean = strip_ansi(line);
    match progress_field(clean.as_str()) {
        Some(field) => Some(copy_of(field.as_str().trim())),
        None => None,
    }
}

/// A percentage as the progress bar takes it: at most one hundred.
pub fn clamp_percent(percent: u64) -> (shown: u64)
    ensures
        shown == if percent <= 100 {
            percent
        } else {
            100
        },
{
    if percent <= 100 {
        percent
    } else {
        100
    }
}

/// The lines that a buffer of output holds complete, and what is left of
/// the buffer: first the lines that end in a newline, then, of what follows
/// the last newline, the lines that end in a carriage return.
pub open spec fn complete_lines(buffer: Seq<char>) -> (Seq<Seq<char>>, Seq<char>) {
    let by_newline = split_on(buffer, '\n');
    let by_return = split_on(by_newline.last(), '\r');
    (by_newline.drop_last() + by_return.drop_last(), by_return.last())
}

/// Adds a chunk of output to the buffer and takes out of it the lines that
/// are complete.
pub fn take_lines(buffer: &mut String, chunk: &str) -> (lines: Vec<String>)
    ensures
        (texts(lines@), final(buffer)@) == complete_lines(old(buffer)@ + chunk@),
{
    let all = concat2(buffer.as_str(), chunk);
    let mut lines = split(all.as_str(), '\n');
    proof {
        lemma_split_nonempty(all@, '\n');
    }
    let ghost by_newline = texts(lines@);
    let rest = lines.pop().unwrap();
    assert(rest@ == by_newline.last());
    assert(texts(lines@) =~= by_newline.drop_last());
    let mut tail = split(rest.as_str(), '\r');
    proof {
        lemma_split_nonempty(rest@, '\r');
    }
    let ghost by_return = texts(tail@);
    let left = tail.pop().unwrap();
    assert(left@ == by_return.last());
    assert(texts(tail@) =~= by_return.drop_last());
    let mut i: usize = 0;
    let ghost head = texts(lines@);
    assert(texts(lines@) =~= head + texts(tail@).take(0));
    while i < tail.len()
        invariant
            i <= tail.len(),
            texts(lines@) == head + texts(tail@).take(i as int),
        decreases tail.len() - i,
    {
        let ghost before = texts(lines@);
        let line = tail[i].clone();
        lines.push(line);
        assert(texts(lines@) =~= before.push(line@));
        assert(texts(tail@).take(i + 1) =~= texts(tail@).take(i as int).push(tail@[i as int]@));
        i += 1;
    }
    assert(texts(tail@).take(tail.len() as int) =~= texts(tail@));
    *buffer = left;
    lines
}

} // verus!
