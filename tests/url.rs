use auth_client::url::normalize_server_url;

#[test]
fn bare_host_gets_http_scheme() {
    assert_eq!(normalize_server_url("example.com/"), "http://example.com");
}

#[test]
fn https_address_keeps_its_scheme() {
    assert_eq!(normalize_server_url("https://example.com/"), "https://example.com");
}

#[test]
fn all_trailing_slashes_are_stripped() {
    assert_eq!(normalize_server_url("http://x//"), "http://x");
    assert_eq!(normalize_server_url("example.com///"), "http://example.com");
}

#[test]
fn address_without_slash_is_kept() {
    assert_eq!(normalize_server_url("http://localhost:8080"), "http://localhost:8080");
    assert_eq!(normalize_server_url("10.0.0.1:3000"), "http://10.0.0.1:3000");
}

#[test]
fn scheme_match_is_exact() {
    assert_eq!(normalize_server_url("ftp://host"), "http://ftp://host");
    assert_eq!(normalize_server_url("HTTP://host"), "http://HTTP://host");
}

#[test]
fn non_ascii_host_is_kept() {
    assert_eq!(normalize_server_url("сервер.рф/"), "http://сервер.рф");
}

#[test]
fn normalizing_twice_changes_nothing() {
    for s in ["example.com/", "https://a.b//", "http://x", "host:1/path/", "h"] {
        let once = normalize_server_url(s);
        assert_eq!(normalize_server_url(&once), once);
    }
}

#[test]
fn empty_address_becomes_bare_scheme() {
    assert_eq!(normalize_server_url(""), "http://");
    assert_eq!(normalize_server_url("///"), "http://");
}
