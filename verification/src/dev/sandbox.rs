//! The address of the sandbox page that plays a build served from this
//! machine.

use vstd::prelude::*;
use crate::config::{pairs_view, WavedashConfig};
use crate::dev::url_params::UrlParams;
use crate::text::{concat3, copy_of, trim_end, trim_end_matches};

verus! {

/// The address that `base` becomes when the pairs are added to its query,
/// each name and value form-encoded: `None` if `base` is not an address.
pub uninterp spec fn url_with_pairs(base: Seq<char>, pairs: Seq<(Seq<char>, Seq<char>)>) -> Option<
    Seq<char>,
>;

/// Parses `base` with `url::Url::parse`, appends the pairs to the query with
/// `extend_pairs` on `Url::query_pairs_mut`, and writes the address out.
#[verifier::external_body]
fn add_query_pairs(base: &str, pairs: &Vec<(String, String)>) -> (address: Option<String>)
    ensures
        address is Some == url_with_pairs(base@, pairs_view(pairs@)) is Some,
        address matches Some(a) ==> url_with_pairs(base@, pairs_view(pairs@)) == Some(a@),
{
    let mut url = url::Url::parse(base).ok()?;
    url.query_pairs_mut().extend_pairs(pairs);
    Some(url.into())
}

/// The page that plays a game: `/play/` and the game under the website's
/// host, whose trailing slashes do not count.
pub open spec fn play_page(website_host: Seq<char>, game: Seq<char>) -> Seq<char> {
    trim_end(website_host, '/') + "/play/"@ + game
}

/// One optional pair of a query.
pub open spec fn optional_pair(name: Seq<char>, value: Option<Seq<char>>) -> Seq<
    (Seq<char>, Seq<char>),
> {
    match value {
        Some(v) => seq![(name, v)],
        None => Seq::empty(),
    }
}

/// The parameters of a sandbox address, in order: the game, the
/// environment, the organisation, the local origin, the sandbox mark, the
/// engine and its version, then the entry point and its parameters where
/// there are any.
pub open spec fn sandbox_pairs(
    game: Seq<char>,
    environment: Seq<char>,
    org: Seq<char>,
    engine_label: Seq<char>,
    engine_version: Seq<char>,
    local_origin: Seq<char>,
    entrypoint: Option<Seq<char>>,
    entrypoint_params: Option<Seq<char>>,
) -> Seq<(Seq<char>, Seq<char>)> {
    seq![
        ("gsdomain"@, game),
        ("gbrslug"@, environment),
        ("gcid"@, org),
        ("localorigin"@, local_origin),
        ("sandbox"@, "true"@),
        ("engine"@, engine_label),
        ("engineversion"@, engine_version),
    ] + optional_pair("entrypoint"@, entrypoint) + optional_pair(
        "entrypointparams"@,
        entrypoint_params,
    )
}

/// A text that may be missing, by its view.
pub open spec fn optional_text(value: Option<&str>) -> Option<Seq<char>> {
    match value {
        Some(v) => Some(v@),
        None => None,
    }
}

/// The parameters of the sandbox address for a project.
pub fn sandbox_query(
    wavedash_config: &WavedashConfig,
    engine_label: &str,
    engine_version: &str,
    local_origin: &str,
    entrypoint: Option<&str>,
    entrypoint_params: Option<&str>,
) -> (pairs: Vec<(String, String)>)
    ensures
        pairs_view(pairs@) == sandbox_pairs(
            wavedash_config@.game,
            wavedash_config@.environment.name(),
            wavedash_config@.org,
            engine_label@,
            engine_version@,
            local_origin@,
            optional_text(entrypoint),
            optional_text(entrypoint_params),
        ),
{
    let mut pairs: Vec<(String, String)> = Vec::new();
    pairs.push((copy_of(UrlParams::GAME_SUBDOMAIN), wavedash_config.game.clone()));
    pairs.push(
        (copy_of(UrlParams::GAME_BRANCH_SLUG), copy_of(wavedash_config.environment.as_str())),
    );
    pairs.push((copy_of(UrlParams::GAME_CLOUD_ID), wavedash_config.org.clone()));
    pairs.push((copy_of(UrlParams::LOCAL_ORIGIN), copy_of(local_origin)));
    pairs.push((copy_of(UrlParams::SANDBOX), copy_of("true")));
    pairs.push((copy_of(UrlParams::ENGINE), copy_of(engine_label)));
    pairs.push((copy_of(UrlParams::ENGINE_VERSION), copy_of(engine_version)));
    let ghost fixed = pairs_view(pairs@);
    assert(fixed =~= seq![
        ("gsdomain"@, wavedash_config@.game),
        ("gbrslug"@, wavedash_config@.environment.name()),
        ("gcid"@, wavedash_config@.org),
        ("localorigin"@, local_origin@),
        ("sandbox"@, "true"@),
        ("engine"@, engine_label@),
        ("engineversion"@, engine_version@),
    ]);
    match entrypoint {
        Some(e) => {
            pairs.push((copy_of(UrlParams::ENTRYPOINT), copy_of(e)));
        },
        None => {},
    }
    let ghost with_entrypoint = pairs_view(pairs@);
    assert(with_entrypoint =~= fixed + optional_pair("entrypoint"@, optional_text(entrypoint)));
    match entrypoint_params {
        Some(p) => {
            pairs.push((copy_of(UrlParams::ENTRYPOINT_PARAMS), copy_of(p)));
        },
        None => {},
    }
    assert(pairs_view(pairs@) =~= with_entrypoint + optional_pair(
        "entrypointparams"@,
        optional_text(entrypoint_params),
    ));
    pairs
}

/// The address of the sandbox page for a project whose build is served at
/// `local_origin`. Entry point parameters are given as JSON text. There is
/// no address if the website's host does not make one.
pub fn build_sandbox_url(
    wavedash_config: &WavedashConfig,
    website_host: &str,
    engine_label: &str,
    engine_version: &str,
    local_origin: &str,
    entrypoint: Option<&str>,
    entrypoint_params: Option<&str>,
) -> (address: Option<String>)
    ensures
        ({
            let expected = url_with_pairs(
                play_page(website_host@, wavedash_config@.game),
                sandbox_pairs(
                    wavedash_config@.game,
                    wavedash_config@.environment.name(),
                    wavedash_config@.org,
                    engine_label@,
                    engine_version@,
                    local_origin@,
                    optional_text(entrypoint),
                    optional_text(entrypoint_params),
                ),
            );
            &&& address is Some == expected is Some
            &&& address matches Some(a) ==> expected == Some(a@)
        }),
{
    let base = trim_end_matches(website_host, '/');
    let full = concat3(base.as_str(), "/play/", wavedash_config.game.as_str());
    let pairs = sandbox_query(
        wavedash_config,
        engine_label,
        engine_version,
        local_origin,
        entrypoint,
        entrypoint_params,
    );
    add_query_pairs(full.as_str(), &pairs)
}

} // verus!
