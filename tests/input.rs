use ttfb::{
    build_http11_header, check_scheme_is_allowed, normalize_input, parse_input_as_url,
    prepend_default_scheme_if_necessary, InvalidUrlError, IpAddress, NormalizedInput, ParsedUrl,
    Scheme, TtfbError,
};

#[test]
fn test_parse_input_as_url() {
    parse_input_as_url("http://google.com").expect("to be valid");
    parse_input_as_url("https://google.com:443").expect("to be valid");
    parse_input_as_url("http://google.com:80").expect("to be valid");
    parse_input_as_url("google.com:80").expect("to be valid");
    parse_input_as_url("http://google.com/foobar").expect("to be valid");
    parse_input_as_url("https://google.com:443/foobar").expect("to be valid");
    parse_input_as_url("https://goo-gle.com:443/foobar").expect("to be valid");
    parse_input_as_url("https://goo-gle.com:443/foobar?124141").expect("to be valid");
    parse_input_as_url("https://subdomain.goo-gle.com:443/foobar?124141").expect("to be valid");
    parse_input_as_url("https://192.168.1.102:443/foobar?124141").expect("to be valid");
}

#[test]
fn test_append_scheme_if_necessary() {
    assert_eq!(
        prepend_default_scheme_if_necessary("phip1611.de".to_owned()),
        "http://phip1611.de"
    );
    assert_eq!(
        prepend_default_scheme_if_necessary("https://phip1611.de".to_owned()),
        "https://phip1611.de"
    );
    assert_eq!(
        prepend_default_scheme_if_necessary("192.168.1.102:443/foobar?124141".to_owned()),
        "http://192.168.1.102:443/foobar?124141"
    );
    assert_eq!(
        prepend_default_scheme_if_necessary("https://192.168.1.102:443/foobar?124141".to_owned()),
        "https://192.168.1.102:443/foobar?124141"
    );
    assert_eq!(
        prepend_default_scheme_if_necessary("ftp://192.168.1.102:443/foobar?124141".to_owned()),
        "ftp://192.168.1.102:443/foobar?124141"
    );
}

#[test]
fn test_check_scheme() {
    check_scheme_is_allowed(
        &parse_input_as_url(&prepend_default_scheme_if_necessary("phip1611.de".to_owned()))
            .unwrap(),
    )
    .expect("must accept http");
    check_scheme_is_allowed(
        &parse_input_as_url(&prepend_default_scheme_if_necessary(
            "https://phip1611.de".to_owned(),
        ))
        .unwrap(),
    )
    .expect("must accept http");
    check_scheme_is_allowed(
        &parse_input_as_url(&prepend_default_scheme_if_necessary(
            "ftp://phip1611.de".to_owned(),
        ))
        .unwrap(),
    )
    .expect_err("must not accept ftp");
}

#[test]
fn normalize_short_forms() {
    assert_eq!(prepend_default_scheme_if_necessary("https://x".to_owned()), "https://x");
    assert_eq!(prepend_default_scheme_if_necessary("ftp://x".to_owned()), "ftp://x");
    assert_eq!(prepend_default_scheme_if_necessary(String::new()), "http://");
    assert_eq!(prepend_default_scheme_if_necessary(":/".to_owned()), "http://:/");
}

#[test]
fn wrong_scheme_carries_the_scheme() {
    let url = parse_input_as_url("ftp://x").unwrap();
    assert_eq!(
        check_scheme_is_allowed(&url),
        Err(TtfbError::InvalidUrl(InvalidUrlError::WrongScheme("ftp".to_owned())))
    );
    let url = parse_input_as_url("HTTPS://x").unwrap();
    assert_eq!(url.scheme, "https");
    assert_eq!(check_scheme_is_allowed(&url), Ok(()));
}

#[test]
fn parse_splits_the_url() {
    let url = parse_input_as_url("https://sub.example.com:8443/a/b?q=1").unwrap();
    assert_eq!(url.scheme, "https");
    assert_eq!(url.host.as_deref(), Some("sub.example.com"));
    assert_eq!(url.ip, None);
    assert_eq!(url.port, Some(8443));
    assert_eq!(url.path, "/a/b");

    let url = parse_input_as_url("http://192.168.1.102").unwrap();
    assert_eq!(url.host.as_deref(), Some("192.168.1.102"));
    assert_eq!(url.ip, Some(IpAddress::V4(0xc0a8_0166)));
    assert_eq!(url.port, Some(80));
    assert_eq!(url.path, "/");

    let url = parse_input_as_url("http://[2001:0db8:3c4d:0015:0000:0000:1a2f:1a2b]").unwrap();
    assert_eq!(url.host.as_deref(), Some("[2001:db8:3c4d:15::1a2f:1a2b]"));
    assert_eq!(
        url.ip,
        Some(IpAddress::V6(0x2001_0db8_3c4d_0015_0000_0000_1a2f_1a2b))
    );
}

#[test]
fn malformed_url_is_wrong_format() {
    match parse_input_as_url("http://exa mple.com") {
        Err(TtfbError::InvalidUrl(InvalidUrlError::WrongFormat(m))) => assert!(!m.is_empty()),
        other => panic!("unexpected {other:?}"),
    }
    match normalize_input("http://[::1") {
        Err(TtfbError::InvalidUrl(InvalidUrlError::WrongFormat(_))) => {}
        other => panic!("unexpected {other:?}"),
    }
}

#[test]
fn empty_input_is_missing_input() {
    assert_eq!(
        normalize_input("").unwrap_err(),
        TtfbError::InvalidUrl(InvalidUrlError::MissingInput)
    );
}

#[test]
fn normalize_input_validates() {
    let t = normalize_input("phip1611.de").unwrap();
    assert_eq!(t.scheme, Scheme::Http);
    assert_eq!(t.host, "phip1611.de");
    assert_eq!(t.ip, None);
    assert_eq!(t.port, 80);
    assert_eq!(t.path, "/");

    let t = normalize_input("https://1.1.1.1").unwrap();
    assert_eq!(t.scheme, Scheme::Https);
    assert_eq!(t.ip, Some(IpAddress::V4(0x0101_0101)));
    assert_eq!(t.port, 443);

    assert_eq!(
        normalize_input("ftp://phip1611.de").unwrap_err(),
        TtfbError::InvalidUrl(InvalidUrlError::WrongScheme("ftp".to_owned()))
    );
}

#[test]
fn url_without_host_or_port_is_other() {
    let url = ParsedUrl {
        scheme: "http".to_owned(),
        host: None,
        ip: None,
        port: Some(80),
        path: "/".to_owned(),
    };
    assert_eq!(
        NormalizedInput::from_url(url).unwrap_err(),
        TtfbError::InvalidUrl(InvalidUrlError::Other)
    );
    let url = ParsedUrl {
        scheme: "https".to_owned(),
        host: Some("x".to_owned()),
        ip: None,
        port: None,
        path: "/".to_owned(),
    };
    assert_eq!(
        NormalizedInput::from_url(url).unwrap_err(),
        TtfbError::InvalidUrl(InvalidUrlError::Other)
    );
}

#[test]
fn request_has_the_fixed_shape() {
    let t = normalize_input("http://example.com:8080/x/y?z=1").unwrap();
    assert_eq!(
        build_http11_header(&t, "1.2.3"),
        "GET /x/y HTTP/1.1\r\nHost: example.com\r\nUser-Agent: ttfb/1.2.3\r\nAccept: */*\r\n\
         Accept-Encoding: gzip, deflate, br\r\n\r\n"
    );
}
