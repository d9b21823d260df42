//! The router: decides, per incoming request, which of four behaviors
//! answers it, in strict precedence order.
//!
//! 1. the reserved live-reload path upgrades the connection — checked first,
//!    so that no on-disk file can shadow it;
//! 2. the site root redirects to the locale's index page, when a locale is
//!    configured;
//! 3. an existing file in the output directory is served verbatim;
//! 4. everything else falls back to the configured not-found document with
//!    status 404.
//!
//! Whether a file exists is a fact about the disk; the caller establishes it
//! and passes it in as a plain value.

use vstd::prelude::*;
use vstd::string::StringExecFns;

verus! {

/// The four ways a request can be answered, in precedence order.
#[derive(Clone, Copy, PartialEq, Eq, Structural, Debug)]
pub enum Route {
    /// Upgrade to a persistent live-reload connection.
    LiveReloadUpgrade,
    /// Redirect the site root to the configured locale's index page.
    LocaleRedirect,
    /// Serve the matching file from the output directory.
    StaticAsset,
    /// Serve the configured not-found document with status 404.
    NotFoundFallback,
}

/// The reserved live-reload path segment, as the upgrade endpoint names it.
pub open spec fn spec_live_reload_endpoint() -> Seq<char> {
    "__livereload"@
}

/// The full request path reserved for live-reload connections.
pub open spec fn spec_reserved_path() -> Seq<char> {
    "/__livereload"@
}

/// The request path of the site root.
pub open spec fn spec_root_path() -> Seq<char> {
    "/"@
}

pub fn live_reload_endpoint() -> (s: &'static str)
    ensures
        s@ == spec_live_reload_endpoint(),
{
    "__livereload"
}

pub fn reserved_path() -> (s: &'static str)
    ensures
        s@ == spec_reserved_path(),
{
    "/__livereload"
}

/// String equality by contents.
pub fn str_eq(a: &str, b: &str) -> (r: bool)
    ensures
        r == (a@ == b@),
{
    let sa = String::from_str(a);
    let sb = String::from_str(b);
    sa == sb
}

/// Which of the four behaviors answers a request for `path`, given whether
/// a locale is configured and whether a file for `path` exists in the
/// output directory. First match wins.
pub open spec fn spec_route(path: Seq<char>, has_locale: bool, asset_exists: bool) -> Route {
    if path == spec_reserved_path() {
        Route::LiveReloadUpgrade
    } else if has_locale && path == spec_root_path() {
        Route::LocaleRedirect
    } else if asset_exists {
        Route::StaticAsset
    } else {
        Route::NotFoundFallback
    }
}

/// Decide the route for one request.
pub fn route_request(path: &str, has_locale: bool, asset_exists: bool) -> (r: Route)
    ensures
        r == spec_route(path@, has_locale, asset_exists),
{
    if str_eq(path, "/__livereload") {
        Route::LiveReloadUpgrade
    } else if has_locale && str_eq(path, "/") {
        Route::LocaleRedirect
    } else if asset_exists {
        Route::StaticAsset
    } else {
        Route::NotFoundFallback
    }
}

/// The HTTP status that realizes each route: the upgrade handshake, a
/// permanent redirect, a served file, and the not-found fallback.
pub open spec fn spec_response_status(r: Route) -> u16 {
    match r {
        Route::LiveReloadUpgrade => 101,
        Route::LocaleRedirect => 301,
        Route::StaticAsset => 200,
        Route::NotFoundFallback => 404,
    }
}

pub fn response_status(r: Route) -> (code: u16)
    ensures
        code == spec_response_status(r),
{
    match r {
        Route::LiveReloadUpgrade => 101,
        Route::LocaleRedirect => 301,
        Route::StaticAsset => 200,
        Route::NotFoundFallback => 404,
    }
}

/// The reserved path is exactly the site root followed by the endpoint
/// segment, so the endpoint the reload bus is announced under and the path
/// the router reserves agree.
pub proof fn lemma_reserved_path_shape()
    ensures
        spec_reserved_path() == spec_root_path() + spec_live_reload_endpoint(),
{
    reveal_strlit("/__livereload");
    reveal_strlit("/");
    reveal_strlit("__livereload");
    assert(spec_reserved_path() =~= spec_root_path() + spec_live_reload_endpoint());
}

/// Route precedence: a request for the reserved live-reload path never
/// resolves to a static file — nor to anything else — even if a file of
/// that name exists in the output directory.
pub proof fn lemma_route_precedence(has_locale: bool, asset_exists: bool)
    ensures
        spec_route(spec_reserved_path(), has_locale, asset_exists) == Route::LiveReloadUpgrade,
{
}

/// Locale redirect: with a locale configured, the site root always routes
/// to the redirect, whatever the disk holds; with none configured and an
/// index file present, the root serves it as a static asset.
pub proof fn lemma_locale_redirect(asset_exists: bool)
    ensures
        spec_route(spec_root_path(), true, asset_exists) == Route::LocaleRedirect,
        spec_route(spec_root_path(), false, true) == Route::StaticAsset,
{
    reveal_strlit("/");
    reveal_strlit("/__livereload");
    assert(spec_root_path().len() != spec_reserved_path().len());
}

/// Not-found fallback: a request that matches no earlier route and no file
/// on disk is answered by the fallback document, never by a bare error.
pub proof fn lemma_not_found_fallback(path: Seq<char>, has_locale: bool)
    requires
        path != spec_reserved_path(),
        !(has_locale && path == spec_root_path()),
    ensures
        spec_route(path, has_locale, false) == Route::NotFoundFallback,
        spec_response_status(spec_route(path, has_locale, false)) == 404,
{
}

} // verus!
