//! Contracts assumed of the functions this library calls in other crates
//! and, where the verifier's library has no contract for them, in the
//! standard library. Nothing in this file is proved: each item says what the
//! called function is taken to do.

use crate::text::opt_text;
use vstd::prelude::*;
use vstd::string::*;

verus! {

/// `String::push` from the standard library: appends one character to the end
/// of the string and leaves the rest as it was.
#[verifier::external_body]
pub(crate) fn push_char(out: &mut String, c: char)
    ensures
        final(out)@ == old(out)@.push(c),
{
    out.push(c)
}

/// The standard base64 rendering, with padding, of a byte sequence.
pub uninterp spec fn base64_text(input: Seq<u8>) -> Seq<char>;

/// Whether the base64 rendering of so many bytes has a length that the
/// encoder can compute.
pub open spec fn base64_fits(len: nat) -> bool {
    len / 3 * 4 + 4 <= usize::MAX
}

/// `base64::encode`: the result is the standard-alphabet, padded base64
/// rendering of `input`, a function of the bytes alone. The encoder gives up
/// on an input so long that the length of the rendering overflows.
#[verifier::external_body]
pub(crate) fn base64_encode(input: &[u8]) -> (r: String)
    requires
        base64_fits(input@.len()),
    ensures
        r@ == base64_text(input@),
{
    base64::encode(input)
}

/// The `application/x-www-form-urlencoded` rendering of one name or value.
pub uninterp spec fn form_urlencoded_text(input: Seq<char>) -> Seq<char>;

/// `url::form_urlencoded::Serializer::append_pair` on a serializer made with
/// `new(target)`: an `&` is appended when the target is not empty, then the
/// encoded name, `=`, and the encoded value.
#[verifier::external_body]
pub(crate) fn form_append_pair(target: String, name: &str, value: &str) -> (r: String)
    ensures
        r@ == (if target@.len() > 0 {
            target@.push('&')
        } else {
            target@
        }) + form_urlencoded_text(name@) + seq!['='] + form_urlencoded_text(value@),
{
    url::form_urlencoded::Serializer::new(target).append_pair(name, value).finish()
}

/// `http::uri::InvalidUri`, carried through as it is.
#[verifier::external_type_specification]
#[verifier::external_body]
pub struct ExInvalidUri(http::uri::InvalidUri);

/// Host and path of a URI text that parses, `None` for one that does not.
pub uninterp spec fn uri_parts(text: Seq<char>) -> Option<(Option<Seq<char>>, Seq<char>)>;

/// Parsing of `http::Uri` from text, with `Uri::host` and `Uri::path` of the
/// result: whether the text parses and what the two parts are depends on the
/// text alone.
#[verifier::external_body]
pub(crate) fn parse_uri(text: &str) -> (r: Result<(Option<String>, String), http::uri::InvalidUri>)
    ensures
        match r {
            Ok(parts) => uri_parts(text@) == Some((opt_text(parts.0), parts.1@)),
            Err(_) => uri_parts(text@) is None,
        },
{
    let uri = text.parse::<http::Uri>()?;
    Ok((uri.host().map(|h| h.to_string()), uri.path().to_string()))
}

/// `http::status::InvalidStatusCode`, carried through as it is.
#[verifier::external_type_specification]
#[verifier::external_body]
pub struct ExInvalidStatusCode(http::status::InvalidStatusCode);

/// The text form of a status code, the number and its reason phrase.
pub uninterp spec fn status_text(code: u16) -> Seq<char>;

/// `http::StatusCode::from_u16` and the text form of the result: the
/// numbers from 100 to 999 are status codes and no others, and how one reads
/// depends on the number alone.
#[verifier::external_body]
pub(crate) fn status_to_text(code: u16) -> (r: Result<String, http::status::InvalidStatusCode>)
    ensures
        r is Ok <==> 100 <= code <= 999,
        r matches Ok(text) ==> status_text(code) == text@,
{
    Ok(http::StatusCode::from_u16(code)?.to_string())
}

/// `bytesize::mib`: the number of bytes in `n` mebibytes.
#[verifier::external_body]
pub(crate) fn mebibytes(n: u64) -> (r: u64)
    requires
        n * 1_048_576 <= u64::MAX,
    ensures
        r == n * 1_048_576,
{
    bytesize::mib(n)
}

/// `serde_json::Error`, carried through as it is.
#[verifier::external_type_specification]
#[verifier::external_body]
pub struct ExJsonError(serde_json::Error);

/// The JSON string literal for a text, quotes and escapes included.
pub uninterp spec fn json_string_text(text: Seq<char>) -> Seq<char>;

/// `serde_json::to_string` on a string slice: the literal that stands for
/// the text in a JSON document, a function of the text alone. Writing a
/// string into a buffer in memory has no way to fail, so the result is
/// always `Ok`.
#[verifier::external_body]
pub(crate) fn json_quote(text: &str) -> (r: Result<String, serde_json::Error>)
    ensures
        r is Ok,
        r matches Ok(literal) ==> json_string_text(text@) == literal@,
{
    serde_json::to_string(text)
}

/// `std::io::Error`, carried through as it is.
#[verifier::external_type_specification]
#[verifier::external_body]
pub struct ExIoError(std::io::Error);

/// The gzip stream for a byte sequence at the default compression level;
/// `None` when the compressor fails.
pub uninterp spec fn gzip_stream(data: Seq<u8>) -> Option<Seq<u8>>;

/// `flate2::read::GzEncoder` at the default level, read to its end: the
/// header carries no time and no platform, so the stream depends on the data
/// alone.
#[verifier::external_body]
pub(crate) fn gzip_compress(data: &[u8]) -> (r: Result<Vec<u8>, std::io::Error>)
    ensures
        match r {
            Ok(stream) => gzip_stream(data@) == Some(stream@),
            Err(_) => gzip_stream(data@) is None,
        },
{
    let mut stream = Vec::new();
    let mut encoder = flate2::read::GzEncoder::new(data, flate2::Compression::default());
    std::io::Read::read_to_end(&mut encoder, &mut stream)?;
    Ok(stream)
}

/// The provider's `Region`, carried through as it is.
#[verifier::external_type_specification]
#[verifier::external_body]
pub struct ExRegion(rusoto_core::Region);

/// The provider's `ParseRegionError`, carried through as it is.
#[verifier::external_type_specification]
#[verifier::external_body]
pub struct ExParseRegionError(rusoto_core::region::ParseRegionError);

/// The provider's `AwsCredentials`: the credential, never looked into.
#[verifier::external_type_specification]
#[verifier::external_body]
pub struct ExAwsCredentials(rusoto_core::credential::AwsCredentials);

/// The provider's `SignedRequest`: a request on its way to being signed,
/// never looked into.
#[verifier::external_type_specification]
#[verifier::external_body]
pub struct ExSignedRequest(rusoto_core::signature::SignedRequest);

/// The provider's region that a text names, if it names one.
pub uninterp spec fn named_region(name: Seq<char>) -> Option<rusoto_core::Region>;

/// `Region::from_str`: which region a text names, if any, depends on the
/// text alone.
#[verifier::external_body]
pub(crate) fn parse_region(name: &str) -> (r: Result<
    rusoto_core::Region,
    rusoto_core::region::ParseRegionError,
>)
    ensures
        match r {
            Ok(region) => named_region(name@) == Some(region),
            Err(_) => named_region(name@) is None,
        },
{
    std::str::FromStr::from_str(name)
}

/// The region of a compatible service with a name and an endpoint.
pub uninterp spec fn endpoint_region(name: Seq<char>, endpoint: Seq<char>) -> rusoto_core::Region;

/// The region `Region::Custom` with the given name and endpoint.
#[verifier::external_body]
pub(crate) fn custom_region(name: &str, endpoint: &str) -> (r: rusoto_core::Region)
    ensures
        r == endpoint_region(name@, endpoint@),
{
    rusoto_core::Region::Custom { name: name.to_owned(), endpoint: endpoint.to_owned() }
}

/// The headers that a request holds: under each name, as the request keeps
/// it, its values in the order in which they were added, their bytes read as
/// text.
pub uninterp spec fn request_headers(request: rusoto_core::signature::SignedRequest) -> Map<
    Seq<char>,
    Seq<Seq<char>>,
>;

/// The body that a request holds as a buffer, if it holds one.
pub uninterp spec fn request_payload(request: rusoto_core::signature::SignedRequest) -> Option<
    Seq<u8>,
>;

/// Whether every header value that a request holds is text, that is, valid
/// UTF-8. The signer gives up on a request with another value.
pub uninterp spec fn request_is_text(request: rusoto_core::signature::SignedRequest) -> bool;

/// The SHA-256 digest of a byte sequence, in lower-case hexadecimal digits.
pub uninterp spec fn sha256_hex(data: Seq<u8>) -> Seq<char>;

/// A character with an ASCII capital letter turned into its small letter.
pub open spec fn ascii_lower(c: char) -> char {
    if 'A' <= c && c <= 'Z' {
        ((c as u8) + 32) as char
    } else {
        c
    }
}

/// A text with its ASCII capital letters turned into small letters.
pub open spec fn lowered(text: Seq<char>) -> Seq<char> {
    Seq::new(text.len(), |i: int| ascii_lower(text[i]))
}

/// The values that headers hold under a name, none when the name is absent.
pub open spec fn values_under(headers: Map<Seq<char>, Seq<Seq<char>>>, name: Seq<char>) -> Seq<
    Seq<char>,
> {
    if headers.contains_key(name) {
        headers[name]
    } else {
        Seq::empty()
    }
}

/// Whether the signer sets the header of this name itself when it signs.
pub open spec fn signer_sets(name: Seq<char>) -> bool {
    name == "host"@ || name == "content-length"@ || name == "x-amz-date"@ || name
        == "x-amz-security-token"@ || name == "x-amz-content-sha256"@ || name == "authorization"@
}

/// `SignedRequest::new`: a request to be signed, for a method, a service, a
/// region and a path. It starts without headers and without a body.
#[verifier::external_body]
pub(crate) fn signed_request_new(
    method: &str,
    service: &str,
    region: &rusoto_core::Region,
    path: &str,
) -> (r: rusoto_core::signature::SignedRequest)
    ensures
        (request_headers(r) == Map::<Seq<char>, Seq<Seq<char>>>::empty()),
        request_payload(r) is None,
        request_is_text(r),
{
    rusoto_core::signature::SignedRequest::new(method, service, region, path)
}

/// `SignedRequest::set_hostname`: tells the request which host it goes to.
/// Headers and body stay as they are.
#[verifier::external_body]
pub(crate) fn signed_request_set_hostname(
    request: &mut rusoto_core::signature::SignedRequest,
    hostname: Option<String>,
)
    ensures
        request_headers(*final(request)) == request_headers(*old(request)),
        request_payload(*final(request)) == request_payload(*old(request)),
        request_is_text(*final(request)) == request_is_text(*old(request)),
{
    request.set_hostname(hostname)
}

/// `SignedRequest::add_header`: the value is added after those that the
/// request holds under the lower-cased name. The other headers and the body
/// stay as they are.
#[verifier::external_body]
pub(crate) fn signed_request_add_header(
    request: &mut rusoto_core::signature::SignedRequest,
    name: &str,
    value: &str,
)
    ensures
        request_headers(*final(request)) == request_headers(*old(request)).insert(
            lowered(name@),
            values_under(request_headers(*old(request)), lowered(name@)).push(value@),
        ),
        request_payload(*final(request)) == request_payload(*old(request)),
        request_is_text(*final(request)) == request_is_text(*old(request)),
{
    request.add_header(name, value)
}

/// `SignedRequest::set_payload` with a buffer: the request then holds these
/// bytes as its body. The headers stay as they are.
#[verifier::external_body]
pub(crate) fn signed_request_set_payload(
    request: &mut rusoto_core::signature::SignedRequest,
    payload: Vec<u8>,
)
    ensures
        request_headers(*final(request)) == request_headers(*old(request)),
        request_payload(*final(request)) == Some(payload@),
        request_is_text(*final(request)) == request_is_text(*old(request)),
{
    request.set_payload(Some(payload))
}

/// `SignedRequest::sign`: computes the signature for the present moment
/// and sets the headers that carry it. It is for a request whose header
/// values are all text. Whatever the moment: the body stays
/// as it is; a header that the signer does not set itself stays as it is,
/// and none is added but the content type, when there was none; the request
/// then has one date, one authorization and one hash of its content, which
/// for a body held as a buffer is the digest of its bytes.
#[verifier::external_body]
pub(crate) fn signed_request_sign(
    request: &mut rusoto_core::signature::SignedRequest,
    credentials: &rusoto_core::credential::AwsCredentials,
)
    requires
        request_is_text(*old(request)),
    ensures
        request_payload(*final(request)) == request_payload(*old(request)),
        forall|name: Seq<char>|
            #![trigger request_headers(*final(request)).contains_key(name)]
            #![trigger request_headers(*final(request))[name]]
            request_headers(*old(request)).contains_key(name) && !signer_sets(name)
                ==> request_headers(*final(request)).contains_key(name) && request_headers(
                *final(request),
            )[name] == request_headers(*old(request))[name],
        forall|name: Seq<char>|
            #![trigger request_headers(*final(request)).contains_key(name)]
            request_headers(*final(request)).contains_key(name) && !signer_sets(name) && name
                != "content-type"@ ==> request_headers(*old(request)).contains_key(name),
        request_headers(*final(request)).contains_key("x-amz-date"@),
        request_headers(*final(request))["x-amz-date"@].len() == 1,
        request_headers(*final(request)).contains_key("authorization"@),
        request_headers(*final(request))["authorization"@].len() == 1,
        request_headers(*final(request)).contains_key("x-amz-content-sha256"@),
        request_headers(*final(request))["x-amz-content-sha256"@].len() == 1,
        request_payload(*old(request)) matches Some(body) ==> request_headers(
            *final(request),
        )["x-amz-content-sha256"@] == seq![sha256_hex(body)],
{
    request.sign(credentials)
}

/// Whether a list of headers has this value under this name.
pub open spec fn has_pair(list: Seq<(String, String)>, name: Seq<char>, value: Seq<char>) -> bool {
    exists|i: int| 0 <= i < list.len() && (#[trigger] list[i]).0@ == name && list[i].1@ == value
}

/// Whether a list of headers has each of these values under this name.
pub open spec fn has_values(list: Seq<(String, String)>, name: Seq<char>, values: Seq<Seq<char>>) -> bool {
    forall|k: int| 0 <= k < values.len() ==> has_pair(list, name, #[trigger] values[k])
}

/// `SignedRequest::headers`, each value paired with its name: the result
/// holds a value under a name exactly when the request does.
#[verifier::external_body]
pub(crate) fn signed_request_headers(request: &rusoto_core::signature::SignedRequest) -> (r: Vec<
    (String, String),
>)
    ensures
        forall|i: int|
            0 <= i < r@.len() ==> request_headers(*request).contains_key((#[trigger] r@[i]).0@)
                && request_headers(*request)[r@[i].0@].contains(r@[i].1@),
        forall|name: Seq<char>|
            #![trigger request_headers(*request)[name]]
            request_headers(*request).contains_key(name) ==> has_values(
                r@,
                name,
                request_headers(*request)[name],
            ),
{
    request.headers().iter().flat_map(
        |(name, values)|
            values.iter().map(
                move |value| (name.clone(), String::from_utf8_lossy(value).into_owned()),
            ),
    ).collect()
}

} // verus!
