//! The names of the parameters that the sandbox page reads from its address.

use vstd::prelude::*;

verus! {

/// The names of the parameters of a sandbox address.
pub struct UrlParams;

impl UrlParams {
    /// The game.
    pub const GAME_SUBDOMAIN: &'static str = "gsdomain";

    /// The environment the build belongs to.
    pub const GAME_BRANCH_SLUG: &'static str = "gbrslug";

    /// The organisation.
    pub const GAME_CLOUD_ID: &'static str = "gcid";

    /// The mark of a sandbox session.
    pub const SANDBOX: &'static str = "sandbox";

    /// The origin of the local server.
    pub const LOCAL_ORIGIN: &'static str = "localorigin";

    /// The engine's label.
    pub const ENGINE: &'static str = "engine";

    /// The engine's version.
    pub const ENGINE_VERSION: &'static str = "engineversion";

    /// The entry point of a custom engine's build.
    pub const ENTRYPOINT: &'static str = "entrypoint";

    /// The parameters that the service derived from the build's page.
    pub const ENTRYPOINT_PARAMS: &'static str = "entrypointparams";
}

} // verus!
