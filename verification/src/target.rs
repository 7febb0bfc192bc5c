//! Parsing the address of the remote authority.

use vstd::prelude::*;
use bytes::Bytes;
use http::Uri;
use http::uri::InvalidUriBytes;

verus! {

#[verifier::external_type_specification]
#[verifier::external_body]
pub struct ExUri(Uri);

/// Whether `Uri::from_shared` accepts `bytes` as a URI.
pub uninterp spec fn uri_accepts(bytes: Seq<u8>) -> bool;

/// What the URI that `Uri::from_shared` makes of `bytes` displays as.
pub uninterp spec fn uri_display(bytes: Seq<u8>) -> Seq<char>;

/// Calls `Uri::from_shared` on a copy of `bytes`.
///
/// Trusted: the parser succeeds exactly on the bytes for which `uri_accepts` holds, and the
/// URI that it then makes displays as `uri_display` says. Both say no more than that the
/// parser's answer depends on the bytes alone.
#[verifier::external_body]
pub(crate) fn parse_uri(bytes: &[u8]) -> (r: Result<Uri, InvalidUriBytes>)
    ensures
        r is Ok <==> uri_accepts(bytes@),
        r matches Ok(uri) ==> renders_as(uri, uri_display(bytes@)),
{
    Uri::from_shared(Bytes::from(bytes))
}

/// Calls `String::from_utf8`.
///
/// Trusted: the bytes become a string exactly when they are valid UTF-8, and the string then
/// holds the characters that they encode.
#[verifier::external_body]
pub(crate) fn text_of_bytes(bytes: Vec<u8>) -> (r: Option<String>)
    ensures
        r is Some <==> vstd::utf8::valid_utf8(bytes@),
        r matches Some(text) ==> text@ == vstd::utf8::decode_utf8(bytes@),
{
    String::from_utf8(bytes).ok()
}

/// `Uri::clone` hands back an equal URI.
pub assume_specification[ <Uri as Clone>::clone ](uri: &Uri) -> (r: Uri)
    ensures
        r == *uri,
;

/// Whether `text` is what `uri` displays as.
pub open spec fn renders_as(uri: Uri, text: Seq<char>) -> bool {
    exists|s: String| #[trigger] s@ == text && vstd::string::to_string_from_display_ensures::<Uri>(&uri, s)
}

} // verus!
