//! Serving a build from this machine for the sandbox page: who may fetch
//! from the server, which headers its answers carry, and what has to be
//! there before it starts.

pub mod cert;
pub mod entrypoint;
pub mod sandbox;
pub mod url_params;

use vstd::prelude::*;
use crate::config::{EngineKind, WavedashConfig};
use crate::text::{chars_of, concat2, copy_of, decimal, decimal_text, ends_with, matches_at, same, texts};

verus! {

/// The project file that is used when none is named.
pub const DEFAULT_CONFIG: &'static str = "./wavedash.toml";

/// The header that lets pages of other origins embed the server's answers,
/// and its value.
pub const CORP_HEADER: (&'static str, &'static str) = ("Cross-Origin-Resource-Policy", "cross-origin");

/// The host of an address, if the text is an address that has one.
pub uninterp spec fn url_host(address: Seq<char>) -> Option<Seq<char>>;

/// The content type that a file's name suggests, if it suggests one.
pub uninterp spec fn guessed_mime(path: Seq<char>) -> Option<Seq<char>>;

/// Parses the text with `url::Url::parse` and reads the host with
/// `Url::host_str`.
#[verifier::external_body]
fn host_of(address: &str) -> (host: Option<String>)
    ensures
        host is Some == url_host(address@) is Some,
        host matches Some(h) ==> url_host(address@) == Some(h@),
{
    url::Url::parse(address).ok()?.host_str().map(|h| h.to_string())
}

/// `mime_guess::from_path` guesses content types from the extension of a
/// file's name, which it takes by the path rules of the system it runs on;
/// `first` is the first of its guesses.
#[verifier::external_body]
fn guess_mime(path: &str) -> (mime: Option<String>)
    ensures
        mime is Some == guessed_mime(path@) is Some,
        mime matches Some(m) ==> guessed_mime(path@) == Some(m@),
{
    mime_guess::from_path(path).first().map(|m| m.to_string())
}

/// Whether a host is a domain or lies below it: `play.example.org` lies
/// below `example.org`, `badexample.org` does not.
pub open spec fn host_in_domain(host: Seq<char>, domain: Seq<char>) -> bool {
    host == domain || (domain.is_suffix_of(host) && host.len() > domain.len() && host[host.len()
        - domain.len() - 1] == '.')
}

/// Whether a host is in one of the domains.
pub open spec fn host_in_domains(host: Seq<char>, domains: Seq<Seq<char>>) -> bool {
    exists|i: int| 0 <= i < domains.len() && host_in_domain(host, #[trigger] domains[i])
}

/// Whether a host is a domain or lies below it.
pub fn host_matches_domain(host: &str, domain: &str) -> (yes: bool)
    ensures
        yes == host_in_domain(host@, domain@),
{
    if same(host, domain) {
        return true;
    }
    let h = chars_of(host);
    let d = chars_of(domain);
    if d.len() >= h.len() {
        return false;
    }
    let at = h.len() - d.len();
    matches_at(&h, &d, at) && h[at - 1] == '.'
}

/// Whether a host is in one of the domains.
pub fn host_allowed(host: &str, allowed_domains: &Vec<String>) -> (yes: bool)
    ensures
        yes == host_in_domains(host@, texts(allowed_domains@)),
{
    let mut i: usize = 0;
    while i < allowed_domains.len()
        invariant
            i <= allowed_domains.len(),
            forall|k: int| 0 <= k < i ==> !host_in_domain(host@, #[trigger] texts(allowed_domains@)[k]),
        decreases allowed_domains.len() - i,
    {
        assert(texts(allowed_domains@)[i as int] == allowed_domains@[i as int]@);
        if host_matches_domain(host, allowed_domains[i].as_str()) {
            return true;
        }
        i += 1;
    }
    false
}

/// The domains whose pages may fetch from the server.
pub fn allowed_domains() -> (domains: Vec<String>)
    ensures
        texts(domains@) == seq!["wavedash.gg"@, "wavedash.lvh.me"@],
{
    let mut domains: Vec<String> = Vec::new();
    domains.push(copy_of("wavedash.gg"));
    domains.push(copy_of("wavedash.lvh.me"));
    assert(texts(domains@) =~= seq!["wavedash.gg"@, "wavedash.lvh.me"@]);
    domains
}

/// Whether a page of the given origin may fetch from the server: it may if
/// the origin is an address whose host is in one of the domains.
pub fn origin_allowed(origin: &str, allowed_domains: &Vec<String>) -> (yes: bool)
    ensures
        yes == match url_host(origin@) {
            Some(host) => host_in_domains(host, texts(allowed_domains@)),
            None => false,
        },
{
    match host_of(origin) {
        Some(host) => host_allowed(host.as_str(), allowed_domains),
        None => false,
    }
}

/// How a file is compressed, by the end of its name, and the name without
/// that end: `.gz` is gzip and `.br` is Brotli.
pub open spec fn compression_of(path: Seq<char>) -> Option<(Seq<char>, Seq<char>)> {
    if ".gz"@.is_suffix_of(path) {
        Some(("gzip"@, path.take(path.len() - 3)))
    } else if ".br"@.is_suffix_of(path) {
        Some(("br"@, path.take(path.len() - 3)))
    } else {
        None
    }
}

/// The headers that describe a compressed file.
#[derive(Debug, PartialEq, Eq)]
pub struct CompressedFile {
    pub content_encoding: &'static str,
    pub content_type: String,
}

/// How a file is compressed, and its name without the compression's end.
pub fn compression(path: &str) -> (found: Option<(&'static str, String)>)
    ensures
        found is Some == compression_of(path@) is Some,
        found matches Some((encoding, stripped)) ==> compression_of(path@) == Some(
            (encoding@, stripped@),
        ),
{
    proof {
        reveal_strlit(".gz");
        reveal_strlit(".br");
    }
    let gz = ends_with(path, ".gz");
    let br = ends_with(path, ".br");
    if gz || br {
        let v = chars_of(path);
        let stripped = crate::text::string_of(&v, 0, v.len() - 3);
        if gz {
            Some(("gzip", stripped))
        } else {
            Some(("br", stripped))
        }
    } else {
        None
    }
}

/// The content type of a compressed file, given what its name without the
/// compression's end suggests: that, or a stream of bytes.
pub fn content_type_or_default(guess: Option<String>) -> (content_type: String)
    ensures
        content_type@ == match guess {
            Some(g) => g@,
            None => "application/octet-stream"@,
        },
{
    match guess {
        Some(g) => g,
        None => copy_of("application/octet-stream"),
    }
}

/// The headers to set on the answer for a compressed file: its encoding,
/// and the content type of what is compressed.
pub fn compressed_file_headers(path: &str) -> (headers: Option<CompressedFile>)
    ensures
        headers is Some == compression_of(path@) is Some,
        headers matches Some(h) ==> {
            &&& compression_of(path@) matches Some((encoding, stripped))
            &&& h.content_encoding@ == encoding
            &&& h.content_type@ == match guessed_mime(stripped) {
                Some(g) => g,
                None => "application/octet-stream"@,
            }
        },
{
    match compression(path) {
        Some((encoding, stripped)) => Some(
            CompressedFile {
                content_encoding: encoding,
                content_type: content_type_or_default(guess_mime(stripped.as_str())),
            },
        ),
        None => None,
    }
}

/// The origin of the local server.
pub fn local_origin(port: u16) -> (origin: String)
    ensures
        origin@ == "https://localhost:"@ + decimal_text(port as nat),
{
    concat2("https://localhost:", decimal(port as u128).as_str())
}

/// What serving a project needs besides its files.
#[derive(Debug, PartialEq, Eq)]
pub struct DevPlan {
    pub engine: EngineKind,
    /// The entry point of a custom engine's build.
    pub entrypoint: Option<String>,
    /// Whether the service has to derive parameters from the build's HTML
    /// page: it has for Godot and Unity builds.
    pub needs_entrypoint_params: bool,
}

/// What serving a project needs, if the project has exactly one engine.
pub fn dev_plan(config: &WavedashConfig) -> (r: Result<DevPlan, crate::config::ConfigError>)
    ensures
        match crate::config::engine_of(config@) {
            Ok(engine) => r is Ok && r->Ok_0.engine == engine && r->Ok_0.needs_entrypoint_params
                == !(engine is Custom) && match r->Ok_0.entrypoint {
                Some(e) => engine is Custom && config@.custom is Some && config.custom->0.entrypoint@
                    == e@,
                None => !(engine is Custom),
            },
            Err(e) => r == Err::<DevPlan, crate::config::ConfigError>(e),
        },
{
    let engine = match config.engine_type() {
        Ok(engine) => engine,
        Err(e) => {
            return Err(e);
        },
    };
    match engine {
        EngineKind::Custom => {
            let entrypoint = match config.entrypoint() {
                Some(e) => Some(copy_of(e)),
                None => None,
            };
            Ok(DevPlan { engine, entrypoint, needs_entrypoint_params: false })
        },
        _ => Ok(DevPlan { engine, entrypoint: None, needs_entrypoint_params: true }),
    }
}

/// What is said when a build that needs an HTML page has none.
pub fn missing_html_message(engine_label: &str) -> (text: String)
    ensures
        text@ == "No HTML file found in upload_dir; required for "@ + engine_label@ + " builds"@,
{
    crate::text::concat3("No HTML file found in upload_dir; required for ", engine_label, " builds")
}

} // verus!
