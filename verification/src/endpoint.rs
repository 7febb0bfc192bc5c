//! The endpoint: where a channel connects to, and how it then behaves.

use vstd::prelude::*;
use std::sync::Arc;
use std::time::Duration;
use http::Uri;
use vstd::std_specs::convert::FromSpecImpl;
use vstd::std_specs::convert::TryFromSpecImpl;
use vstd::utf8::decode_utf8;
use vstd::utf8::encode_utf8;
use vstd::utf8::encode_utf8_decode_utf8;
use vstd::utf8::encode_utf8_valid_utf8;
use vstd::utf8::valid_utf8;
use crate::connector::TlsConnector;
use crate::connector::TlsConnectorView;
use crate::error::Error;
use crate::error::ErrorKind;
use crate::error::TlsError;
use crate::error::UriParseError;
use crate::interceptor::HeaderInterceptor;
use crate::never::Never;
use crate::shared::share;
use crate::target::parse_uri;
use crate::target::renders_as;
use crate::target::text_of_bytes;
use crate::target::uri_accepts;
use crate::target::uri_display;
use crate::tls_config::ClientTlsConfig;

verus! {

/// Channel builder: the target of a channel and the settings of its connections.
pub struct Endpoint {
    uri: Uri,
    target: String,
    timeout: Option<Duration>,
    concurrency_limit: Option<usize>,
    rate_limit: Option<(u64, Duration)>,
    tls: Option<TlsConnector>,
    buffer_size: Option<usize>,
    interceptor_headers: Option<Arc<HeaderInterceptor>>,
    init_stream_window_size: Option<u32>,
    init_connection_window_size: Option<u32>,
}

/// What an endpoint is, to a contract.
pub struct EndpointView {
    /// The target, parsed.
    pub uri: Uri,
    /// The text of the target.
    pub target: Seq<char>,
    pub timeout: Option<Duration>,
    pub concurrency_limit: Option<usize>,
    pub rate_limit: Option<(u64, Duration)>,
    pub tls: Option<TlsConnectorView>,
    pub buffer_size: Option<usize>,
    pub interceptor_headers: Option<Arc<HeaderInterceptor>>,
    pub init_stream_window_size: Option<u32>,
    pub init_connection_window_size: Option<u32>,
}

impl EndpointView {
    /// The endpoint for a target on which nothing has been set yet.
    pub open spec fn fresh(uri: Uri, target: Seq<char>) -> Self {
        EndpointView {
            uri,
            target,
            timeout: None,
            concurrency_limit: None,
            rate_limit: None,
            tls: None,
            buffer_size: None,
            interceptor_headers: None,
            init_stream_window_size: None,
            init_connection_window_size: None,
        }
    }

    /// Whether nothing has been set on this endpoint since it was made.
    pub open spec fn is_fresh(self) -> bool {
        self == Self::fresh(self.uri, self.target)
    }

    /// Whether this is the endpoint that is parsed from `text`: nothing is set on it, its
    /// target has exactly that text, and its URI is the one that the parser makes of the
    /// text.
    pub open spec fn is_parsed_from(self, text: Seq<char>) -> bool {
        self.is_fresh() && self.target == text && renders_as(
            self.uri,
            uri_display(encode_utf8(text)),
        )
    }

    /// This endpoint with the timeout replaced.
    pub open spec fn with_timeout(self, dur: Duration) -> Self {
        EndpointView { timeout: Some(dur), ..self }
    }

    /// This endpoint with the limit on requests in flight replaced.
    pub open spec fn with_concurrency_limit(self, limit: usize) -> Self {
        EndpointView { concurrency_limit: Some(limit), ..self }
    }

    /// This endpoint with the limit on the rate of requests replaced.
    pub open spec fn with_rate_limit(self, limit: u64, duration: Duration) -> Self {
        EndpointView { rate_limit: Some((limit, duration)), ..self }
    }

    /// This endpoint with the initial window size of each stream replaced.
    pub open spec fn with_initial_stream_window_size(self, sz: Option<u32>) -> Self {
        EndpointView { init_stream_window_size: sz, ..self }
    }

    /// This endpoint with the initial window size of the connection replaced.
    pub open spec fn with_initial_connection_window_size(self, sz: Option<u32>) -> Self {
        EndpointView { init_connection_window_size: sz, ..self }
    }

    /// This endpoint with the interceptor of headers replaced.
    pub open spec fn with_interceptor(self, f: Arc<HeaderInterceptor>) -> Self {
        EndpointView { interceptor_headers: Some(f), ..self }
    }

    /// This endpoint with the connector replaced.
    pub open spec fn with_tls(self, connector: TlsConnectorView) -> Self {
        EndpointView { tls: Some(connector), ..self }
    }

    /// This endpoint after `setting` has been made on it.
    pub open spec fn apply(self, setting: Setting) -> Self {
        match setting {
            Setting::Timeout(dur) => self.with_timeout(dur),
            Setting::ConcurrencyLimit(limit) => self.with_concurrency_limit(limit),
            Setting::RateLimit(limit, duration) => self.with_rate_limit(limit, duration),
            Setting::InitialStreamWindowSize(sz) => self.with_initial_stream_window_size(sz),
            Setting::InitialConnectionWindowSize(sz) => self.with_initial_connection_window_size(
                sz,
            ),
            Setting::InterceptHeaders(f) => self.with_interceptor(f),
        }
    }

    /// This endpoint after `settings` have been made on it, the first of them first.
    pub open spec fn apply_all(self, settings: Seq<Setting>) -> Self
        decreases settings.len(),
    {
        if settings.len() == 0 {
            self
        } else {
            self.apply_all(settings.drop_last()).apply(settings.last())
        }
    }
}

/// One call of a setter of an endpoint that has nothing to do with TLS, with its arguments.
pub enum Setting {
    Timeout(Duration),
    ConcurrencyLimit(usize),
    RateLimit(u64, Duration),
    InitialStreamWindowSize(Option<u32>),
    InitialConnectionWindowSize(Option<u32>),
    InterceptHeaders(Arc<HeaderInterceptor>),
}

impl Setting {
    /// Whether the two are calls of the same setter.
    pub open spec fn same_setter(self, other: Setting) -> bool {
        match (self, other) {
            (Setting::Timeout(_), Setting::Timeout(_)) => true,
            (Setting::ConcurrencyLimit(_), Setting::ConcurrencyLimit(_)) => true,
            (Setting::RateLimit(_, _), Setting::RateLimit(_, _)) => true,
            (Setting::InitialStreamWindowSize(_), Setting::InitialStreamWindowSize(_)) => true,
            (
                Setting::InitialConnectionWindowSize(_),
                Setting::InitialConnectionWindowSize(_),
            ) => true,
            (Setting::InterceptHeaders(_), Setting::InterceptHeaders(_)) => true,
            _ => false,
        }
    }
}

impl View for Endpoint {
    type V = EndpointView;

    closed spec fn view(&self) -> EndpointView {
        EndpointView {
            uri: self.uri,
            target: self.target@,
            timeout: self.timeout,
            concurrency_limit: self.concurrency_limit,
            rate_limit: self.rate_limit,
            tls: match self.tls {
                Some(connector) => Some(connector@),
                None => None,
            },
            buffer_size: self.buffer_size,
            interceptor_headers: self.interceptor_headers,
            init_stream_window_size: self.init_stream_window_size,
            init_connection_window_size: self.init_connection_window_size,
        }
    }
}

impl Endpoint {
    /// The endpoint for a target on which nothing has been set yet.
    fn with_target(uri: Uri, target: String) -> (e: Self)
        ensures
            e@ == EndpointView::fresh(uri, target@),
    {
        Endpoint {
            uri,
            target,
            concurrency_limit: None,
            rate_limit: None,
            timeout: None,
            tls: None,
            buffer_size: None,
            interceptor_headers: None,
            init_stream_window_size: None,
            init_connection_window_size: None,
        }
    }

    /// Converts `dst` into an endpoint. An error of the conversion is handed back as an error
    /// of the client side.
    pub fn new<D>(dst: D) -> (r: Result<Self, Error<D::Error>>) where D: TryInto<Self>
        ensures
            match r {
                Ok(me) => call_ensures(D::try_into, (dst,), Ok(me)),
                Err(e) => e.kind == ErrorKind::Client && call_ensures(
                    D::try_into,
                    (dst,),
                    Err(e.source),
                ),
            },
    {
        match dst.try_into() {
            Ok(me) => Ok(me),
            Err(e) => Err(Error::from_source(ErrorKind::Client, e)),
        }
    }

    /// Whether `text` is a URI, and so can be the target of an endpoint.
    pub fn accepts(text: &str) -> (b: bool)
        ensures
            b == uri_accepts(encode_utf8(text@)),
    {
        parse_uri(text.as_bytes()).is_ok()
    }

    /// An endpoint from text that is known to be a URI.
    pub fn from_static(s: &'static str) -> (e: Self)
        requires
            uri_accepts(encode_utf8(s@)),
        ensures
            e@.is_parsed_from(s@),
    {
        match parse_uri(s.as_bytes()) {
            Ok(uri) => Self::with_target(uri, s.to_owned()),
            Err(_) => vstd::pervasive::unreached(),
        }
    }

    /// An endpoint from text that is known to be a URI, as a conversion that cannot fail.
    pub fn try_from_static(s: &'static str) -> (r: Result<Self, Never>)
        requires
            uri_accepts(encode_utf8(s@)),
        ensures
            r matches Ok(e) && e@.is_parsed_from(s@),
    {
        Ok(Self::from_static(s))
    }

    /// An endpoint from text of which it is not known whether it is a URI: `None` where it
    /// is none.
    pub fn from_static_checked(s: &'static str) -> (r: Option<Self>)
        ensures
            r is Some <==> uri_accepts(encode_utf8(s@)),
            r matches Some(e) ==> e@.is_parsed_from(s@),
    {
        if Self::accepts(s) {
            match Self::try_from_static(s) {
                Ok(e) => Some(e),
                Err(_) => vstd::pervasive::unreached(),
            }
        } else {
            None
        }
    }

    /// What parsing `text` as a target yields: where the text is a URI, the endpoint that is
    /// parsed from it; where it is none, the parser's error and no endpoint.
    pub open spec fn parsed_from_text(text: Seq<char>, r: Result<Self, UriParseError>) -> bool {
        if uri_accepts(encode_utf8(text)) {
            r matches Ok(e) && e@.is_parsed_from(text)
        } else {
            r is Err
        }
    }

    /// What parsing `bytes` as a target yields: where they are a URI, a fresh endpoint for
    /// the URI that the parser makes of them; where they are none, the parser's error and
    /// no endpoint.
    ///
    /// The text of the target is the text that the bytes encode. The parser does not read
    /// what follows a `#`, so it takes some bytes for a URI that are not UTF-8 and encode no
    /// text; the text of the target is then what the URI displays as.
    pub open spec fn parsed_from_bytes(bytes: Seq<u8>, r: Result<Self, UriParseError>) -> bool {
        if uri_accepts(bytes) {
            r matches Ok(e) && e@.is_fresh() && renders_as(e@.uri, uri_display(bytes)) && if valid_utf8(
                bytes,
            ) {
                e@.target == decode_utf8(bytes)
            } else {
                renders_as(e@.uri, e@.target)
            }
        } else {
            r is Err
        }
    }

    /// An endpoint from the text of its target.
    pub fn from_text(text: String) -> (r: Result<Self, UriParseError>)
        ensures
            Self::parsed_from_text(text@, r),
    {
        match parse_uri(text.as_str().as_bytes()) {
            Ok(uri) => Ok(Self::with_target(uri, text)),
            Err(e) => Err(UriParseError { cause: e }),
        }
    }

    /// An endpoint from the bytes of the text of its target.
    pub fn from_shared(s: Vec<u8>) -> (r: Result<Self, UriParseError>)
        ensures
            Self::parsed_from_bytes(s@, r),
    {
        match parse_uri(s.as_slice()) {
            Ok(uri) => {
                let target = match text_of_bytes(s) {
                    Some(text) => text,
                    None => uri.to_string(),
                };
                Ok(Self::with_target(uri, target))
            },
            Err(e) => Err(UriParseError { cause: e }),
        }
    }

    /// The target, parsed.
    pub fn get_uri(&self) -> (uri: &Uri)
        ensures
            *uri == self@.uri,
    {
        &self.uri
    }

    /// The text of the target.
    pub fn get_target(&self) -> (target: &str)
        ensures
            target@ == self@.target,
    {
        self.target.as_str()
    }

    /// The timeout of each request; `None` where there is none.
    pub fn get_timeout(&self) -> (dur: Option<Duration>)
        ensures
            dur == self@.timeout,
    {
        self.timeout
    }

    /// The most requests that may be in flight at one time; `None` where there is no bound.
    pub fn get_concurrency_limit(&self) -> (limit: Option<usize>)
        ensures
            limit == self@.concurrency_limit,
    {
        self.concurrency_limit
    }

    /// The most requests in each window, and the length of the window; `None` where there
    /// is no bound.
    pub fn get_rate_limit(&self) -> (limit: Option<(u64, Duration)>)
        ensures
            limit == self@.rate_limit,
    {
        self.rate_limit
    }

    /// The connector that TLS settings were resolved into; `None` where the transport is
    /// plain text.
    pub fn get_tls(&self) -> (tls: Option<&TlsConnector>)
        ensures
            match tls {
                Some(connector) => self@.tls == Some(connector@),
                None => self@.tls is None,
            },
    {
        self.tls.as_ref()
    }

    /// A size that is kept for later use. Nothing sets it and nothing goes by it.
    pub fn get_buffer_size(&self) -> (size: Option<usize>)
        ensures
            size == self@.buffer_size,
    {
        self.buffer_size
    }

    /// The interceptor of outbound headers, as all clones of the endpoint share it.
    pub fn get_interceptor(&self) -> (f: Option<&Arc<HeaderInterceptor>>)
        ensures
            match f {
                Some(shared) => self@.interceptor_headers == Some(*shared),
                None => self@.interceptor_headers is None,
            },
    {
        self.interceptor_headers.as_ref()
    }

    /// The initial window size of each stream; `None` where the protocol's default applies.
    pub fn get_initial_stream_window_size(&self) -> (sz: Option<u32>)
        ensures
            sz == self@.init_stream_window_size,
    {
        self.init_stream_window_size
    }

    /// The initial window size of the connection; `None` where the protocol's default
    /// applies.
    pub fn get_initial_connection_window_size(&self) -> (sz: Option<u32>)
        ensures
            sz == self@.init_connection_window_size,
    {
        self.init_connection_window_size
    }

    /// Applies a timeout to each request.
    pub fn timeout(&mut self, dur: Duration) -> (ret: &mut Self)
        ensures
            ret@ == old(self)@.with_timeout(dur),
            *final(self) == *final(ret),
    {
        self.timeout = Some(dur);
        self
    }

    /// Limits the number of requests that are in flight at one time.
    pub fn concurrency_limit(&mut self, limit: usize) -> (ret: &mut Self)
        ensures
            ret@ == old(self)@.with_concurrency_limit(limit),
            *final(self) == *final(ret),
    {
        self.concurrency_limit = Some(limit);
        self
    }

    /// Limits the requests to `limit` in each window of length `duration`.
    pub fn rate_limit(&mut self, limit: u64, duration: Duration) -> (ret: &mut Self)
        ensures
            ret@ == old(self)@.with_rate_limit(limit, duration),
            *final(self) == *final(ret),
    {
        self.rate_limit = Some((limit, duration));
        self
    }

    /// Sets the initial window size of HTTP/2 flow control for each stream. With `None` the
    /// protocol's default applies, which is 65,535.
    pub fn initial_stream_window_size(&mut self, sz: Option<u32>) -> (ret: &mut Self)
        ensures
            ret@ == old(self)@.with_initial_stream_window_size(sz),
            *final(self) == *final(ret),
    {
        self.init_stream_window_size = sz;
        self
    }

    /// Sets the initial window size of HTTP/2 flow control for the connection. With `None`
    /// the protocol's default applies, which is 65,535.
    pub fn initial_connection_window_size(&mut self, sz: Option<u32>) -> (ret: &mut Self)
        ensures
            ret@ == old(self)@.with_initial_connection_window_size(sz),
            *final(self) == *final(ret),
    {
        self.init_connection_window_size = sz;
        self
    }

    /// Has `f` see, and change, the headers of each outbound request. The endpoint and all
    /// its clones share the one interceptor.
    pub fn intercept_headers(&mut self, f: HeaderInterceptor) -> (ret: &mut Self)
        ensures
            ret@ == old(self)@.with_interceptor(Arc::new(f)),
            *final(self) == *final(ret),
    {
        self.interceptor_headers = Some(Arc::new(f));
        self
    }

    /// Keeps the connector that resolving TLS settings has yielded, or hands on the error
    /// that it has ended in and leaves the endpoint as it was.
    pub fn store_connector(&mut self, resolved: Result<TlsConnector, TlsError>) -> (r: Result<
        &mut Self,
        TlsError,
    >)
        ensures
            match r {
                Ok(ret) => resolved matches Ok(c) && ret@ == old(self)@.with_tls(c@)
                    && *final(self) == *final(ret),
                Err(e) => resolved == Err::<TlsConnector, TlsError>(e) && *final(self) == *old(
                    self,
                ),
            },
    {
        match resolved {
            Ok(connector) => {
                self.tls = Some(connector);
                Ok(self)
            },
            Err(e) => Err(e),
        }
    }

    /// Configures TLS: resolves `tls_config` for the target of this endpoint, at once, and
    /// keeps the connector. Where the settings cannot be resolved, the error says why and the
    /// endpoint stays as it was.
    pub fn tls_config(&mut self, tls_config: &ClientTlsConfig) -> (r: Result<&mut Self, TlsError>)
        ensures
            match r {
                Ok(ret) => ret@.tls matches Some(c) && tls_config@.resolves_to(
                    old(self)@.target,
                    Ok(c),
                ) && ret@ == old(self)@.with_tls(c) && *final(self) == *final(ret),
                Err(e) => tls_config@.resolves_to(old(self)@.target, Err(e)) && *final(self)
                    == *old(self),
            },
    {
        let resolved = tls_config.tls_connector(self.target.as_str());
        self.store_connector(resolved)
    }
}

impl Clone for Endpoint {
    /// An endpoint with the same target and the same settings. It shares the interceptor and
    /// the connector with this one.
    fn clone(&self) -> (r: Self)
        ensures
            r@ == self@,
    {
        Endpoint {
            uri: self.uri.clone(),
            target: self.target.clone(),
            timeout: self.timeout,
            concurrency_limit: self.concurrency_limit,
            rate_limit: self.rate_limit,
            tls: match &self.tls {
                Some(connector) => Some(connector.clone()),
                None => None,
            },
            buffer_size: self.buffer_size,
            interceptor_headers: match &self.interceptor_headers {
                Some(shared) => Some(share(shared)),
                None => None,
            },
            init_stream_window_size: self.init_stream_window_size,
            init_connection_window_size: self.init_connection_window_size,
        }
    }
}

impl From<Uri> for Endpoint {
    /// An endpoint for a URI that has been parsed already. The text of its target is what
    /// the URI displays as.
    fn from(uri: Uri) -> (e: Self)
        ensures
            e@.is_fresh(),
            e@.uri == uri,
            renders_as(uri, e@.target),
    {
        let target = uri.to_string();
        Self::with_target(uri, target)
    }
}

/// The text of the target comes from the URI's own `Display`, of which a contract can only
/// say `renders_as`: no spec function gives the endpoint, and `from` states what holds of it.
impl FromSpecImpl<Uri> for Endpoint {
    open spec fn obeys_from_spec() -> bool {
        false
    }

    open spec fn from_spec(uri: Uri) -> Self {
        arbitrary()
    }
}

/// An endpoint from the text of its target.
impl TryFrom<String> for Endpoint {
    type Error = UriParseError;

    fn try_from(t: String) -> (r: Result<Self, UriParseError>)
        ensures
            Self::parsed_from_text(t@, r),
    {
        Self::from_text(t)
    }
}

/// The endpoint holds the URI that the parser made of the text, so no spec function gives
/// the result, and `try_from` states what holds of it.
impl TryFromSpecImpl<String> for Endpoint {
    open spec fn obeys_try_from_spec() -> bool {
        false
    }

    open spec fn try_from_spec(t: String) -> Result<Self, UriParseError> {
        arbitrary()
    }
}

/// An endpoint from the bytes of the text of its target.
impl TryFrom<Vec<u8>> for Endpoint {
    type Error = UriParseError;

    fn try_from(t: Vec<u8>) -> (r: Result<Self, UriParseError>)
        ensures
            Self::parsed_from_bytes(t@, r),
    {
        Self::from_shared(t)
    }
}

/// As for a string: `try_from` states what holds of the result.
impl TryFromSpecImpl<Vec<u8>> for Endpoint {
    open spec fn obeys_try_from_spec() -> bool {
        false
    }

    open spec fn try_from_spec(t: Vec<u8>) -> Result<Self, UriParseError> {
        arbitrary()
    }
}

/// A setter overwrites: of two calls of the same setter in a row, only the second shows.
pub proof fn lemma_last_write_wins(e: EndpointView, first: Setting, second: Setting)
    requires
        first.same_setter(second),
    ensures
        e.apply(first).apply(second) == e.apply(second),
{
}

/// A timeout that is set after another replaces it: the endpoint holds exactly the second.
pub proof fn lemma_timeout_last_write_wins(e: EndpointView, first: Duration, second: Duration)
    ensures
        e.with_timeout(first).with_timeout(second) == e.with_timeout(second),
        e.with_timeout(first).with_timeout(second).timeout == Some(second),
{
}

/// A connector that is kept after another replaces it.
pub proof fn lemma_connector_last_write_wins(
    e: EndpointView,
    first: TlsConnectorView,
    second: TlsConnectorView,
)
    ensures
        e.with_tls(first).with_tls(second) == e.with_tls(second),
{
}

/// What is read of an endpoint is what was set last: a fresh endpoint has no limit on
/// concurrency and none on the rate, and after a limit has been set the endpoint holds
/// exactly that limit, whatever is set besides it afterwards.
pub proof fn lemma_limits_read_back(
    uri: Uri,
    target: Seq<char>,
    e: EndpointView,
    concurrency: usize,
    rate: u64,
    window: Duration,
    later: Setting,
)
    ensures
        EndpointView::fresh(uri, target).concurrency_limit is None,
        EndpointView::fresh(uri, target).rate_limit is None,
        e.with_concurrency_limit(concurrency).concurrency_limit == Some(concurrency),
        e.with_rate_limit(rate, window).rate_limit == Some((rate, window)),
        !(later is ConcurrencyLimit) ==> e.with_concurrency_limit(concurrency).apply(
            later,
        ).concurrency_limit == Some(concurrency),
        !(later is RateLimit) ==> e.with_rate_limit(rate, window).apply(later).rate_limit == Some(
            (rate, window),
        ),
{
}

/// No setter but that of TLS touches the connector, and none touches the target: whatever
/// is set on an endpoint, in whatever order, it has the connector and the target that it
/// had.
pub proof fn lemma_settings_keep_connector_and_target(e: EndpointView, settings: Seq<Setting>)
    ensures
        e.apply_all(settings).tls == e.tls,
        e.apply_all(settings).uri == e.uri,
        e.apply_all(settings).target == e.target,
    decreases settings.len(),
{
    if settings.len() > 0 {
        lemma_settings_keep_connector_and_target(e, settings.drop_last());
    }
}

/// Before TLS is configured, an endpoint has no connector: a fresh endpoint has none, and
/// so has every endpoint that is reached from a fresh one by setters other than that of TLS.
pub proof fn lemma_no_connector_before_tls(uri: Uri, target: Seq<char>, settings: Seq<Setting>)
    ensures
        EndpointView::fresh(uri, target).apply_all(settings).tls is None,
{
    lemma_settings_keep_connector_and_target(EndpointView::fresh(uri, target), settings);
}

/// Keeping a connector changes nothing but the connector.
pub proof fn lemma_tls_keeps_the_rest(e: EndpointView, connector: TlsConnectorView)
    ensures
        e.with_tls(connector).tls == Some(connector),
        e.with_tls(connector) == (EndpointView { tls: Some(connector), ..e }),
        e.with_tls(connector).target == e.target,
        e.with_tls(connector).uri == e.uri,
{
}

/// Text and the bytes that encode it parse alike: what `from_shared` yields for the UTF-8
/// encoding of a text is what `from_text` yields for the text.
pub proof fn lemma_text_and_bytes_parse_alike(text: Seq<char>, r: Result<Endpoint, UriParseError>)
    ensures
        Endpoint::parsed_from_bytes(encode_utf8(text), r) == Endpoint::parsed_from_text(text, r),
{
    encode_utf8_valid_utf8(text);
    encode_utf8_decode_utf8(text);
}

} // verus!
