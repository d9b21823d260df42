//! Derivation of the serving context: the immutable bundle of values the
//! server is started with, and the strings computed from it — the bind
//! address, the live-reload endpoint URL, the serving URL, the locale
//! redirect target, and the on-disk location of the not-found document.

use crate::router::spec_live_reload_endpoint;
use crate::router::live_reload_endpoint;
use vstd::prelude::*;
use vstd::string::StringExecFns;

verus! {

/// The immutable startup-derived bundle: bind address, output directory,
/// optional locale, and the not-found document's file name. Created once,
/// before serving starts, and never changed afterwards.
pub struct ServingContext {
    /// The `host:port` string the server binds to.
    pub address: String,
    /// The directory the builder renders the documents into.
    pub output_dir: String,
    /// The locale whose index page the site root redirects to, if any.
    pub locale: Option<String>,
    /// The file name of the not-found document.
    pub file_404: String,
}

impl ServingContext {
    pub fn new(
        address: String,
        output_dir: String,
        locale: Option<String>,
        file_404: String,
    ) -> (ctx: ServingContext)
        ensures
            ctx.address == address,
            ctx.output_dir == output_dir,
            ctx.locale == locale,
            ctx.file_404 == file_404,
    {
        ServingContext { address, output_dir, locale, file_404 }
    }
}

/// The `host:port` bind target.
pub open spec fn spec_address(hostname: Seq<char>, port: Seq<char>) -> Seq<char> {
    hostname + ":"@ + port
}

pub fn format_address(hostname: &str, port: &str) -> (a: String)
    ensures
        a@ == spec_address(hostname@, port@),
{
    let mut a = String::from_str(hostname);
    a.append(":");
    a.append(port);
    a
}

/// The URL under which the live-reload endpoint is announced to the built
/// pages; the builder bakes it into every rendered document.
pub open spec fn spec_livereload_url(address: Seq<char>) -> Seq<char> {
    "ws://"@ + address + "/"@ + spec_live_reload_endpoint()
}

pub fn livereload_url(address: &str) -> (u: String)
    ensures
        u@ == spec_livereload_url(address@),
{
    let mut u = String::from_str("ws://");
    u.append(address);
    u.append("/");
    u.append(live_reload_endpoint());
    u
}

/// The URL the served site is reachable under.
pub open spec fn spec_serving_url(address: Seq<char>) -> Seq<char> {
    "http://"@ + address
}

pub fn serving_url(address: &str) -> (u: String)
    ensures
        u@ == spec_serving_url(address@),
{
    let mut u = String::from_str("http://");
    u.append(address);
    u
}

/// Where the site root redirects to when a locale is configured: the
/// locale's index page, as an absolute path so that static assets of
/// localized sub-pages still resolve.
pub open spec fn spec_redirect_target(locale: Seq<char>) -> Seq<char> {
    "/"@ + locale + "/index.html"@
}

pub fn redirect_target(locale: &str) -> (t: String)
    ensures
        t@ == spec_redirect_target(locale@),
{
    let mut t = String::from_str("/");
    t.append(locale);
    t.append("/index.html");
    t
}

/// Which locale the server serves under: a locale requested explicitly at
/// startup renders at the output root, so no redirect locale is kept; only
/// otherwise does the configured default locale apply.
pub fn choose_language(
    cli_language: &Option<String>,
    default_language: Option<String>,
) -> (r: Option<String>)
    ensures
        cli_language is Some ==> r is None,
        cli_language is None ==> r == default_language,
{
    match cli_language {
        Some(_) => None,
        None => default_language,
    }
}

/// The not-found document's file name: the configured one, or the default
/// when none is configured.
pub fn file_404_name(configured: Option<String>) -> (s: String)
    ensures
        configured matches Some(n) ==> s@ == n@,
        configured is None ==> s@ == "404.html"@,
{
    match configured {
        Some(n) => n,
        None => String::from_str("404.html"),
    }
}

/// Where the not-found document lives on disk: in the locale's output
/// directory when a locale is configured, else in the output root.
pub open spec fn spec_fallback_404_path(
    output_dir: Seq<char>,
    locale: Option<Seq<char>>,
    file_404: Seq<char>,
) -> Seq<char> {
    match locale {
        Some(l) => output_dir + "/"@ + l + "/"@ + file_404,
        None => output_dir + "/"@ + file_404,
    }
}

pub fn fallback_404_path(output_dir: &str, locale: &Option<String>, file_404: &str) -> (p: String)
    ensures
        locale matches Some(l) ==> p@ == spec_fallback_404_path(
            output_dir@,
            Some(l@),
            file_404@,
        ),
        locale is None ==> p@ == spec_fallback_404_path(output_dir@, None, file_404@),
{
    let mut p = String::from_str(output_dir);
    p.append("/");
    match locale {
        Some(l) => {
            p.append(l.as_str());
            p.append("/");
        },
        None => {},
    }
    p.append(file_404);
    p
}

} // verus!
