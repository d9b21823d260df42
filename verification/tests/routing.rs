use livepreview::router::{
    live_reload_endpoint, reserved_path, response_status, route_request, str_eq, Route,
};

#[test]
fn reserved_path_never_resolves_to_a_static_file() {
    // Even if a file named like the endpoint exists in the output
    // directory, the live-reload upgrade wins.
    assert_eq!(route_request("/__livereload", false, true), Route::LiveReloadUpgrade);
    assert_eq!(route_request("/__livereload", true, true), Route::LiveReloadUpgrade);
    assert_eq!(route_request("/__livereload", false, false), Route::LiveReloadUpgrade);
}

#[test]
fn root_redirects_when_a_locale_is_configured() {
    // With a locale, the root redirects whatever the disk holds.
    assert_eq!(route_request("/", true, true), Route::LocaleRedirect);
    assert_eq!(route_request("/", true, false), Route::LocaleRedirect);
    assert_eq!(response_status(route_request("/", true, true)), 301);
}

#[test]
fn root_serves_index_directly_without_a_locale() {
    assert_eq!(route_request("/", false, true), Route::StaticAsset);
    assert_eq!(response_status(route_request("/", false, true)), 200);
}

#[test]
fn existing_file_is_served_verbatim() {
    assert_eq!(route_request("/chapter_1.html", true, true), Route::StaticAsset);
    assert_eq!(route_request("/css/general.css", false, true), Route::StaticAsset);
}

#[test]
fn missing_path_falls_back_to_the_configured_not_found_document() {
    assert_eq!(route_request("/does-not-exist", false, false), Route::NotFoundFallback);
    assert_eq!(response_status(route_request("/does-not-exist", false, false)), 404);
    // The same holds with a locale configured, off the root.
    assert_eq!(route_request("/does-not-exist", true, false), Route::NotFoundFallback);
}

#[test]
fn reserved_path_matches_the_announced_endpoint() {
    assert_eq!(live_reload_endpoint(), "__livereload");
    assert_eq!(reserved_path(), "/__livereload");
    assert_eq!(reserved_path(), &format!("/{}", live_reload_endpoint()));
}

#[test]
fn str_eq_compares_by_contents() {
    assert!(str_eq("abc", "abc"));
    assert!(!str_eq("abc", "abd"));
    assert!(!str_eq("abc", "abcd"));
    assert!(str_eq("", ""));
}
