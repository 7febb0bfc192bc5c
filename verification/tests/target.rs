use grpc_endpoint::endpoint::Endpoint;
use grpc_endpoint::error::Error;
use grpc_endpoint::error::ErrorKind;
use grpc_endpoint::never::Never;
use http::Uri;

#[allow(unreachable_code)]
fn unwrap_infallible(r: Result<Endpoint, Never>) -> Endpoint {
    match r {
        Ok(endpoint) => endpoint,
        Err(never) => match never.witness() {},
    }
}

#[test]
fn static_target_renders_as_given() {
    let endpoint = Endpoint::from_static("https://example.com");
    assert_eq!(endpoint.get_target(), "https://example.com");
    assert_eq!(endpoint.get_uri().host(), Some("example.com"));
}

#[test]
fn static_conversion_cannot_fail() {
    let endpoint = unwrap_infallible(Endpoint::try_from_static("https://example.com"));
    assert_eq!(endpoint.get_target(), "https://example.com");
}

#[test]
fn checked_static_refuses_what_is_no_uri() {
    assert!(Endpoint::from_static_checked("https://example.com").is_some());
    assert!(Endpoint::from_static_checked("").is_none());
    assert!(Endpoint::from_static_checked("http://exa mple.com").is_none());
}

#[test]
fn accepts_tells_uris_from_other_text() {
    assert!(Endpoint::accepts("https://example.com"));
    assert!(Endpoint::accepts("http://[::1]:50051"));
    assert!(Endpoint::accepts("/"));
    assert!(!Endpoint::accepts(""));
    assert!(!Endpoint::accepts("http://"));
    assert!(!Endpoint::accepts("localhost:8080:3030"));
}

#[test]
fn text_that_is_a_uri_is_kept_as_the_target() {
    let texts = [
        "https://example.com",
        "https://example.com/",
        "http://127.0.0.1:50051",
        "http://user@example.com:8080/path?query=1",
        "example.com",
    ];
    for text in texts.iter() {
        let endpoint = Endpoint::from_text(text.to_string()).unwrap();
        assert_eq!(endpoint.get_target(), *text);
        let again: Uri = endpoint.get_target().parse().unwrap();
        assert_eq!(&again, endpoint.get_uri());
    }
}

#[test]
fn text_that_is_no_uri_yields_no_endpoint() {
    let texts = ["", "http://", "http://exa mple.com", "localhost:8080:3030", "http://[::1"];
    for text in texts.iter() {
        match Endpoint::from_text(text.to_string()) {
            Ok(_) => panic!("{:?} was taken for a URI", text),
            Err(e) => assert_eq!(e.cause.to_string(), text.parse::<Uri>().unwrap_err().to_string()),
        }
    }
}

#[test]
fn conversion_from_string_parses_the_text() {
    let endpoint = Endpoint::try_from("https://example.com".to_string()).unwrap();
    assert_eq!(endpoint.get_target(), "https://example.com");
    assert!(Endpoint::try_from(String::new()).is_err());
}

#[test]
fn bytes_of_a_uri_are_kept_as_the_target() {
    let endpoint = Endpoint::from_shared(b"https://example.com".to_vec()).unwrap();
    assert_eq!(endpoint.get_target(), "https://example.com");
    let endpoint = Endpoint::try_from(b"http://localhost:50051".to_vec()).unwrap();
    assert_eq!(endpoint.get_target(), "http://localhost:50051");
}

#[test]
fn bytes_that_are_no_text_are_not_taken_for_a_uri() {
    assert!(Endpoint::from_shared(vec![0xff, 0xfe]).is_err());
    assert!(Endpoint::try_from(vec![0xc3u8]).is_err());
    assert!(Endpoint::from_shared(vec![b'/', b'p', 0xff]).is_err());
}

#[test]
fn bytes_behind_a_fragment_mark_are_not_read() {
    let endpoint = Endpoint::from_shared(vec![b'/', b'p', b'#', 0xff]).unwrap();
    assert_eq!(endpoint.get_uri().path(), "/p");
    assert_eq!(endpoint.get_target(), "/p");
    assert_eq!(endpoint.get_target(), endpoint.get_uri().to_string());
    assert_eq!(endpoint.get_timeout(), None);
    let endpoint = Endpoint::from_shared(b"/p#fragment".to_vec()).unwrap();
    assert_eq!(endpoint.get_uri().path(), "/p");
    assert_eq!(endpoint.get_target(), "/p#fragment");
}

#[test]
fn bytes_that_are_no_uri_are_refused() {
    let refused = [&b""[..], &b"http://exa mple.com"[..], "http://ex\u{e4}mple.com".as_bytes()];
    for bytes in refused.iter() {
        match Endpoint::from_shared(bytes.to_vec()) {
            Ok(_) => panic!("{:?} was taken for a URI", bytes),
            Err(e) => assert!(!e.cause.to_string().is_empty()),
        }
    }
    match Endpoint::from_shared(Vec::new()) {
        Ok(_) => panic!("no bytes were taken for a URI"),
        Err(e) => assert_eq!(e.cause.to_string(), "empty string"),
    }
}

#[test]
fn endpoint_holds_the_uri_of_its_own_text() {
    let first = Endpoint::from_text("https://one.example/a?b=1".to_string()).unwrap();
    let second = Endpoint::from_static("http://two.example:8080");
    let third = Endpoint::from_shared(b"three.example".to_vec()).unwrap();
    assert_eq!(first.get_uri().host(), Some("one.example"));
    assert_eq!(first.get_uri().path(), "/a");
    assert_eq!(first.get_uri().query(), Some("b=1"));
    assert_eq!(first.get_uri().to_string(), "https://one.example/a?b=1");
    assert_eq!(second.get_uri().host(), Some("two.example"));
    assert_eq!(second.get_uri().port_part().map(|p| p.as_u16()), Some(8080));
    assert_eq!(third.get_uri().host(), Some("three.example"));
    assert_eq!(third.get_uri().to_string(), "three.example");
}

#[test]
fn parsed_uri_displays_as_the_target() {
    let uri: Uri = "https://example.com/path?x=1".parse().unwrap();
    let endpoint = Endpoint::from(uri.clone());
    assert_eq!(endpoint.get_uri(), &uri);
    assert_eq!(endpoint.get_target(), "https://example.com/path?x=1");
    assert_eq!(endpoint.get_target(), uri.to_string());
}

#[test]
fn fresh_endpoint_has_nothing_set() {
    let endpoint = Endpoint::from_static("https://example.com");
    assert_eq!(endpoint.get_timeout(), None);
    assert_eq!(endpoint.get_concurrency_limit(), None);
    assert_eq!(endpoint.get_rate_limit(), None);
    assert!(endpoint.get_tls().is_none());
    assert_eq!(endpoint.get_buffer_size(), None);
    assert!(endpoint.get_interceptor().is_none());
    assert_eq!(endpoint.get_initial_stream_window_size(), None);
    assert_eq!(endpoint.get_initial_connection_window_size(), None);
    let uri: Uri = "https://example.com".parse().unwrap();
    let endpoint = Endpoint::from(uri);
    assert_eq!(endpoint.get_timeout(), None);
    assert!(endpoint.get_tls().is_none());
    let endpoint = Endpoint::from_shared(b"https://example.com".to_vec()).unwrap();
    assert_eq!(endpoint.get_rate_limit(), None);
    assert!(endpoint.get_tls().is_none());
}

#[test]
fn new_converts_what_it_is_given() {
    let endpoint = Endpoint::new("https://example.com".to_string()).unwrap();
    assert_eq!(endpoint.get_target(), "https://example.com");
    let endpoint = Endpoint::new(b"https://example.com".to_vec()).unwrap();
    assert_eq!(endpoint.get_target(), "https://example.com");
    let uri: Uri = "https://example.com".parse().unwrap();
    let endpoint = Endpoint::new(uri.clone()).unwrap();
    assert_eq!(endpoint.get_uri(), &uri);
}

#[test]
fn new_reports_a_failed_conversion_as_a_client_error() {
    match Endpoint::new("not a uri".to_string()) {
        Ok(_) => panic!("text with spaces was taken for a URI"),
        Err(e) => {
            assert_eq!(e.kind, ErrorKind::Client);
            assert_eq!(e.source.cause.to_string(), "invalid uri character");
        },
    }
    match Endpoint::new(vec![0xffu8]) {
        Ok(_) => panic!("a stray byte was taken for a URI"),
        Err(e) => {
            assert_eq!(e.kind, ErrorKind::Client);
            assert_eq!(e.source.cause.to_string(), "invalid uri character");
        },
    }
}

#[test]
fn error_keeps_its_kind_and_its_source() {
    let e: Error<u8> = Error::from_source(ErrorKind::Server, 7);
    assert_eq!(e.kind, ErrorKind::Server);
    assert_eq!(e.source, 7);
    assert_ne!(ErrorKind::Client, ErrorKind::Server);
}

#[test]
fn text_and_its_bytes_parse_alike() {
    let texts = ["https://example.com", "http://localhost:50051/x?y", "", "http://", "a b"];
    for text in texts.iter() {
        let from_text = Endpoint::from_text(text.to_string());
        let from_bytes = Endpoint::from_shared(text.as_bytes().to_vec());
        match (from_text, from_bytes) {
            (Ok(a), Ok(b)) => {
                assert_eq!(a.get_target(), b.get_target());
                assert_eq!(a.get_uri(), b.get_uri());
            },
            (Err(a), Err(b)) => assert_eq!(a.cause.to_string(), b.cause.to_string()),
            _ => panic!("{:?} parses one way as text and another as bytes", text),
        }
    }
}
