use livepreview::context::{
    choose_language, fallback_404_path, file_404_name, format_address, livereload_url,
    redirect_target, serving_url, ServingContext,
};

#[test]
fn address_is_hostname_colon_port() {
    assert_eq!(format_address("localhost", "3000"), "localhost:3000");
    assert_eq!(format_address("0.0.0.0", "8080"), "0.0.0.0:8080");
}

#[test]
fn livereload_url_names_the_reserved_endpoint() {
    assert_eq!(livereload_url("localhost:3000"), "ws://localhost:3000/__livereload");
}

#[test]
fn serving_url_is_plain_http() {
    assert_eq!(serving_url("localhost:3000"), "http://localhost:3000");
}

#[test]
fn redirect_target_is_the_locale_index_page() {
    assert_eq!(redirect_target("en"), "/en/index.html");
    assert_eq!(redirect_target("fr"), "/fr/index.html");
}

#[test]
fn explicit_language_serves_at_the_root() {
    // A language asked for at startup renders at the output root, so no
    // redirect locale is kept.
    assert_eq!(choose_language(&Some("en".to_string()), Some("fr".to_string())), None);
    // Otherwise the configured default locale applies.
    assert_eq!(choose_language(&None, Some("fr".to_string())), Some("fr".to_string()));
    assert_eq!(choose_language(&None, None), None);
}

#[test]
fn not_found_document_defaults_when_unconfigured() {
    assert_eq!(file_404_name(None), "404.html");
    assert_eq!(file_404_name(Some("missing.html".to_string())), "missing.html");
}

#[test]
fn not_found_document_lives_under_the_locale_directory() {
    assert_eq!(fallback_404_path("book", &Some("en".to_string()), "404.html"), "book/en/404.html");
    assert_eq!(fallback_404_path("book", &None, "404.html"), "book/404.html");
}

#[test]
fn serving_context_keeps_what_it_was_given() {
    let ctx = ServingContext::new(
        "localhost:3000".to_string(),
        "book".to_string(),
        Some("en".to_string()),
        "404.html".to_string(),
    );
    assert_eq!(ctx.address, "localhost:3000");
    assert_eq!(ctx.output_dir, "book");
    assert_eq!(ctx.locale, Some("en".to_string()));
    assert_eq!(ctx.file_404, "404.html");
}
