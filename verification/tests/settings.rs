use grpc_endpoint::endpoint::Endpoint;
use grpc_endpoint::interceptor::HeaderInterceptor;
use grpc_endpoint::interceptor::InterceptHeaders;
use http::header::HeaderValue;
use http::HeaderMap;
use std::sync::Arc;
use std::time::Duration;

struct Tag(&'static str);

impl InterceptHeaders for Tag {
    fn intercept(&self, headers: &mut HeaderMap) {
        headers.insert("x-tag", HeaderValue::from_static(self.0));
    }
}

#[test]
fn second_timeout_replaces_the_first() {
    let mut builder = Endpoint::from_static("https://example.com");
    builder.timeout(Duration::from_secs(5));
    assert_eq!(builder.get_timeout(), Some(Duration::from_secs(5)));
    builder.timeout(Duration::from_secs(2));
    assert_eq!(builder.get_timeout(), Some(Duration::from_secs(2)));
}

#[test]
fn concurrency_limit_reads_back_the_last_value() {
    let mut builder = Endpoint::from_static("https://example.com");
    assert_eq!(builder.get_concurrency_limit(), None);
    builder.concurrency_limit(256);
    assert_eq!(builder.get_concurrency_limit(), Some(256));
    builder.concurrency_limit(1).concurrency_limit(usize::MAX);
    assert_eq!(builder.get_concurrency_limit(), Some(usize::MAX));
    builder.concurrency_limit(0);
    assert_eq!(builder.get_concurrency_limit(), Some(0));
}

#[test]
fn rate_limit_reads_back_the_pair() {
    let mut builder = Endpoint::from_static("https://example.com");
    builder.rate_limit(32, Duration::from_secs(1));
    assert_eq!(builder.get_rate_limit(), Some((32, Duration::from_secs(1))));
    builder.rate_limit(7, Duration::from_millis(250));
    assert_eq!(builder.get_rate_limit(), Some((7, Duration::from_millis(250))));
}

#[test]
fn window_sizes_can_be_set_and_unset() {
    let mut builder = Endpoint::from_static("https://example.com");
    builder.initial_stream_window_size(Some(65_535));
    builder.initial_connection_window_size(Some(1 << 20));
    assert_eq!(builder.get_initial_stream_window_size(), Some(65_535));
    assert_eq!(builder.get_initial_connection_window_size(), Some(1 << 20));
    builder.initial_stream_window_size(None);
    assert_eq!(builder.get_initial_stream_window_size(), None);
    assert_eq!(builder.get_initial_connection_window_size(), Some(1 << 20));
    builder.initial_connection_window_size(None);
    assert_eq!(builder.get_initial_connection_window_size(), None);
}

#[test]
fn setters_chain_and_leave_the_rest_alone() {
    let mut builder = Endpoint::from_static("https://example.com");
    builder
        .timeout(Duration::from_secs(5))
        .concurrency_limit(8)
        .rate_limit(32, Duration::from_secs(1))
        .initial_stream_window_size(Some(1024))
        .initial_connection_window_size(Some(2048));
    assert_eq!(builder.get_timeout(), Some(Duration::from_secs(5)));
    assert_eq!(builder.get_concurrency_limit(), Some(8));
    assert_eq!(builder.get_rate_limit(), Some((32, Duration::from_secs(1))));
    assert_eq!(builder.get_initial_stream_window_size(), Some(1024));
    assert_eq!(builder.get_initial_connection_window_size(), Some(2048));
    assert_eq!(builder.get_target(), "https://example.com");
    assert_eq!(builder.get_buffer_size(), None);
    builder.timeout(Duration::from_secs(2));
    assert_eq!(builder.get_timeout(), Some(Duration::from_secs(2)));
    assert_eq!(builder.get_concurrency_limit(), Some(8));
    assert_eq!(builder.get_rate_limit(), Some((32, Duration::from_secs(1))));
}

#[test]
fn no_connector_before_tls_is_configured() {
    let mut builder = Endpoint::from_static("https://example.com");
    assert!(builder.get_tls().is_none());
    builder
        .timeout(Duration::from_secs(5))
        .concurrency_limit(8)
        .rate_limit(32, Duration::from_secs(1))
        .initial_stream_window_size(Some(1024))
        .initial_connection_window_size(None)
        .intercept_headers(HeaderInterceptor { callback: Box::new(Tag("a")) });
    assert!(builder.get_tls().is_none());
}

#[test]
fn interceptor_is_kept_and_can_be_called() {
    let mut builder = Endpoint::from_static("https://example.com");
    assert!(builder.get_interceptor().is_none());
    builder.intercept_headers(HeaderInterceptor { callback: Box::new(Tag("one")) });
    let mut headers = HeaderMap::new();
    builder.get_interceptor().unwrap().callback.intercept(&mut headers);
    assert_eq!(headers.get("x-tag").unwrap(), "one");
}

#[test]
fn second_interceptor_replaces_the_first() {
    let mut builder = Endpoint::from_static("https://example.com");
    builder.intercept_headers(HeaderInterceptor { callback: Box::new(Tag("one")) });
    builder.intercept_headers(HeaderInterceptor { callback: Box::new(Tag("two")) });
    let mut headers = HeaderMap::new();
    builder.get_interceptor().unwrap().callback.intercept(&mut headers);
    assert_eq!(headers.get("x-tag").unwrap(), "two");
    assert_eq!(headers.len(), 1);
}

#[test]
fn clones_share_the_interceptor() {
    let mut builder = Endpoint::from_static("https://example.com");
    builder.timeout(Duration::from_secs(3));
    builder.intercept_headers(HeaderInterceptor { callback: Box::new(Tag("shared")) });
    let copy = builder.clone();
    assert!(Arc::ptr_eq(builder.get_interceptor().unwrap(), copy.get_interceptor().unwrap()));
    assert_eq!(copy.get_timeout(), Some(Duration::from_secs(3)));
    assert_eq!(copy.get_target(), "https://example.com");
    builder.timeout(Duration::from_secs(4));
    assert_eq!(copy.get_timeout(), Some(Duration::from_secs(3)));
}
