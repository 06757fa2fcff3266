use desktop::error::SetupError;
use desktop::target::{get_webview_url, parse_target, DEV_URL, PROD_URL};

#[test]
fn debug_build_loads_the_development_server() {
    assert_eq!(get_webview_url(true), "http://localhost:3000");
    assert_eq!(DEV_URL, "http://localhost:3000");
}

#[test]
fn release_build_loads_the_deployed_application() {
    assert_eq!(get_webview_url(false), "https://aniways.xyz");
    assert_eq!(PROD_URL, "https://aniways.xyz");
}

#[test]
fn url_selection_is_repeatable() {
    for debug in [true, false] {
        let first = get_webview_url(debug);
        for _ in 0..10 {
            assert_eq!(get_webview_url(debug), first);
        }
    }
    assert_ne!(get_webview_url(true), get_webview_url(false));
}

#[test]
fn both_addresses_are_absolute_urls() {
    assert_eq!(
        parse_target(get_webview_url(true)),
        Ok(String::from("http://localhost:3000/"))
    );
    assert_eq!(
        parse_target(get_webview_url(false)),
        Ok(String::from("https://aniways.xyz/"))
    );
}

#[test]
fn parsing_normalises_the_address() {
    // The parser lower-cases scheme and host, drops the default port and
    // resolves dot segments, so the result differs from what was written.
    let written = "HTTPS://Example.COM:443/a/../b";
    let parsed = parse_target(written).unwrap();
    assert_eq!(parsed, "https://example.com/b");
    assert_ne!(parsed, written);
}

#[test]
fn parsed_address_agrees_with_the_parser() {
    for text in [
        "http://localhost:3000",
        "https://aniways.xyz",
        "https://aniways.xyz/watch?id=1#t",
        "file:///tmp/index.html",
    ] {
        let expected = url::Url::parse(text).unwrap();
        assert_eq!(parse_target(text), Ok(String::from(expected.as_str())));
    }
}

#[test]
fn relative_address_is_malformed() {
    assert_eq!(parse_target("localhost/index.html"), Err(SetupError::MalformedUrl));
    assert_eq!(parse_target("/index.html"), Err(SetupError::MalformedUrl));
    assert_eq!(parse_target("index.html"), Err(SetupError::MalformedUrl));
}

#[test]
fn empty_address_is_malformed() {
    assert_eq!(parse_target(""), Err(SetupError::MalformedUrl));
}

#[test]
fn address_without_host_is_malformed() {
    assert_eq!(parse_target("http://"), Err(SetupError::MalformedUrl));
    assert_eq!(parse_target("https://:3000"), Err(SetupError::MalformedUrl));
}

#[test]
fn address_with_bad_port_is_malformed() {
    assert_eq!(parse_target("http://localhost:99999"), Err(SetupError::MalformedUrl));
    assert_eq!(parse_target("http://localhost:port"), Err(SetupError::MalformedUrl));
}
