//! Outbound requests: one per flushed batch, plain or signed, and the
//! cluster health probe.

use crate::bindings::{
    custom_region, endpoint_region, has_pair, lowered, named_region, parse_region,
    request_headers, request_is_text, request_payload, sha256_hex, signed_request_add_header,
    signed_request_headers, signed_request_new, signed_request_set_hostname,
    signed_request_set_payload, signed_request_sign, signer_sets, status_text, status_to_text,
    values_under,
};
use crate::config::{copy_pairs, pair_texts, ConfigError, RegionChoice, SinkSettings};
use crate::text::{decimal_text, opt_text, push_decimal};
use rusoto_core::credential::AwsCredentials;
use rusoto_core::Region;
use vstd::prelude::*;
use vstd::string::*;

verus! {

/// The method of a request.
#[derive(Clone, Copy, Debug, PartialEq, Eq, Structural)]
pub enum Method {
    Get,
    Post,
}

/// A self-contained outbound request.
#[derive(Clone, Debug, PartialEq, Eq)]
pub struct HttpRequest {
    pub method: Method,
    pub uri: String,
    pub headers: Vec<(String, String)>,
    pub body: Vec<u8>,
}

/// How requests are authenticated, chosen once when the builder is made.
pub enum Signer {
    /// Plain headers, with the basic authentication header when one is
    /// configured.
    Plain { gzip: bool, authorization: Option<String> },
    /// Requests signed with the provider's credential for a region.
    Signed { region: Region, credentials: AwsCredentials },
}

/// Builds the request for a batch from the settings resolved at startup.
pub struct RequestBuilder {
    uri: String,
    host: Option<String>,
    path: String,
    headers: Vec<(String, String)>,
    signer: Signer,
}

/// The headers of a plain request: the content type, the content encoding
/// when bodies are compressed, the configured headers in their order, and
/// the authorization when there is one.
pub open spec fn plain_headers(
    gzip: bool,
    configured: Seq<(Seq<char>, Seq<char>)>,
    authorization: Option<Seq<char>>,
) -> Seq<(Seq<char>, Seq<char>)> {
    seq![("Content-Type"@, "application/x-ndjson"@)] + (if gzip {
        seq![("Content-Encoding"@, "gzip"@)]
    } else {
        Seq::empty()
    }) + configured + (match authorization {
        Some(value) => seq![("Authorization"@, value)],
        None => Seq::empty(),
    })
}

/// A copy of a byte buffer.
pub fn copy_bytes(bytes: &Vec<u8>) -> (r: Vec<u8>)
    ensures
        r@ == bytes@,
{
    let mut out: Vec<u8> = Vec::new();
    let mut i: usize = 0;
    while i < bytes.len()
        invariant
            i <= bytes.len(),
            out@ == bytes@.take(i as int),
        decreases bytes.len() - i,
    {
        out.push(bytes[i]);
        proof {
            assert(bytes@.take(i as int).push(bytes@[i as int]) =~= bytes@.take(i + 1));
        }
        i = i + 1;
    }
    assert(bytes@.take(bytes@.len() as int) =~= bytes@);
    out
}

/// The plain request for a batch body.
pub fn plain_request(
    uri: &String,
    gzip: bool,
    configured: &Vec<(String, String)>,
    authorization: &Option<String>,
    body: Vec<u8>,
) -> (r: HttpRequest)
    ensures
        r.method == Method::Post,
        r.uri@ == uri@,
        pair_texts(r.headers@) == plain_headers(
            gzip,
            pair_texts(configured@),
            opt_text(*authorization),
        ),
        r.body@ == body@,
{
    let mut headers: Vec<(String, String)> = Vec::new();
    headers.push((String::from_str("Content-Type"), String::from_str("application/x-ndjson")));
    if gzip {
        headers.push((String::from_str("Content-Encoding"), String::from_str("gzip")));
    }
    let ghost fixed = pair_texts(headers@);
    let mut i: usize = 0;
    while i < configured.len()
        invariant
            i <= configured.len(),
            pair_texts(headers@) == fixed + pair_texts(configured@).take(i as int),
        decreases configured.len() - i,
    {
        let ghost before = pair_texts(headers@);
        headers.push((configured[i].0.clone(), configured[i].1.clone()));
        proof {
            assert(pair_texts(headers@) =~= before.push(pair_texts(configured@)[i as int]));
            assert(pair_texts(configured@).take(i as int).push(pair_texts(configured@)[i as int])
                =~= pair_texts(configured@).take(i + 1));
        }
        i = i + 1;
    }
    let ghost middle = pair_texts(headers@);
    match authorization {
        Some(value) => {
            headers.push((String::from_str("Authorization"), value.clone()));
            assert(pair_texts(headers@) =~= middle.push(("Authorization"@, value@)));
        },
        None => {},
    }
    proof {
        assert(pair_texts(configured@).take(configured@.len() as int) =~= pair_texts(configured@));
        assert(pair_texts(headers@) =~= plain_headers(
            gzip,
            pair_texts(configured@),
            opt_text(*authorization),
        ));
    }
    HttpRequest { method: Method::Post, uri: uri.clone(), headers, body }
}

/// What is handed to the signer for one request.
#[derive(Clone, Debug, PartialEq, Eq)]
pub struct SigningInput {
    pub method: String,
    pub service: String,
    pub path: String,
    pub hostname: Option<String>,
    pub headers: Vec<(String, String)>,
    pub payload: Vec<u8>,
}

/// The headers that are signed with a request: the content type, then the
/// configured headers in their order.
pub open spec fn signed_input_headers(configured: Seq<(Seq<char>, Seq<char>)>) -> Seq<
    (Seq<char>, Seq<char>),
> {
    seq![("Content-Type"@, "application/x-ndjson"@)] + configured
}

/// Whether a list of headers has one of this name.
pub open spec fn has_name(list: Seq<(String, String)>, name: Seq<char>) -> bool {
    exists|i: int| 0 <= i < list.len() && (#[trigger] list[i]).0@ == name
}

/// Whether `list` holds what signing leaves of the headers `sent` and the
/// body `payload`: every header sent whose name the signer does not set
/// itself, under its lower-cased name with its value; the digest of the body
/// as the one hash of the content; a date and an authorization.
pub open spec fn signed_as(
    list: Seq<(String, String)>,
    sent: Seq<(Seq<char>, Seq<char>)>,
    payload: Seq<u8>,
) -> bool {
    &&& forall|i: int|
        0 <= i < sent.len() && !signer_sets(lowered(sent[i].0)) ==> has_pair(
            list,
            lowered(#[trigger] sent[i].0),
            sent[i].1,
        )
    &&& has_pair(list, "x-amz-content-sha256"@, sha256_hex(payload))
    &&& forall|value: Seq<char>| #[trigger]
        has_pair(list, "x-amz-content-sha256"@, value) ==> value == sha256_hex(payload)
    &&& has_name(list, "x-amz-date"@)
    &&& has_name(list, "authorization"@)
}

/// The content type is a header that the signer leaves alone, and its name
/// in small letters is `content-type`.
pub proof fn lemma_content_type_is_kept()
    ensures
        lowered("Content-Type"@) == "content-type"@,
        !signer_sets("content-type"@),
{
    reveal_strlit("Content-Type");
    reveal_strlit("content-type");
    reveal_strlit("host");
    reveal_strlit("content-length");
    reveal_strlit("x-amz-date");
    reveal_strlit("x-amz-security-token");
    reveal_strlit("x-amz-content-sha256");
    reveal_strlit("authorization");
    assert(lowered("Content-Type"@) =~= "content-type"@);
    assert("content-type"@[0] != "host"@[0]);
    assert("content-type"@[8] != "content-length"@[8]);
    assert("content-type"@[0] != "x-amz-date"@[0]);
    assert("content-type"@[0] != "x-amz-security-token"@[0]);
    assert("content-type"@[0] != "x-amz-content-sha256"@[0]);
    assert("content-type"@[0] != "authorization"@[0]);
}

/// Has the signer compute the headers of a request: a signed request is
/// made for the method, the service, the region and the path, it is given
/// the hostname, the headers in their order and the payload, and is signed
/// with the credential. The result is every header that the signed request
/// then holds.
///
/// The signature depends on the moment of signing. Whatever the moment, the
/// result holds every header of the input that the signer does not set
/// itself, the digest of the payload, a date and an authorization.
pub fn sign(input: SigningInput, region: &Region, credentials: &AwsCredentials) -> (r: Vec<
    (String, String),
>)
    ensures
        signed_as(r@, pair_texts(input.headers@), input.payload@),
{
    let ghost sent = pair_texts(input.headers@);
    let mut request = signed_request_new(
        input.method.as_str(),
        input.service.as_str(),
        region,
        input.path.as_str(),
    );
    signed_request_set_hostname(&mut request, input.hostname);
    let mut i: usize = 0;
    while i < input.headers.len()
        invariant
            i <= input.headers.len(),
            sent == pair_texts(input.headers@),
            request_payload(request) is None,
            request_is_text(request),
            forall|j: int|
                0 <= j < i ==> request_headers(request).contains_key(lowered(#[trigger] sent[j].0))
                    && request_headers(request)[lowered(sent[j].0)].contains(sent[j].1),
        decreases input.headers.len() - i,
    {
        let ghost before = request_headers(request);
        signed_request_add_header(
            &mut request,
            input.headers[i].0.as_str(),
            input.headers[i].1.as_str(),
        );
        proof {
            let name = lowered(sent[i as int].0);
            let held = values_under(before, name);
            let now = request_headers(request);
            assert(now[name] == held.push(sent[i as int].1));
            assert(now[name][held.len() as int] == sent[i as int].1);
            assert forall|j: int| 0 <= j < i + 1 implies now.contains_key(
                lowered(#[trigger] sent[j].0),
            ) && now[lowered(sent[j].0)].contains(sent[j].1) by {
                if j < i && lowered(sent[j].0) == name {
                    let k = choose|k: int| 0 <= k < held.len() && held[k] == sent[j].1;
                    assert(now[name][k] == sent[j].1);
                }
            }
        }
        i = i + 1;
    }
    signed_request_set_payload(&mut request, input.payload);
    let ghost added = request_headers(request);
    signed_request_sign(&mut request, credentials);
    let computed = signed_request_headers(&request);
    proof {
        let held = request_headers(request);
        assert forall|j: int|
            0 <= j < sent.len() && !signer_sets(lowered(sent[j].0)) implies has_pair(
            computed@,
            lowered(#[trigger] sent[j].0),
            sent[j].1,
        ) by {
            assert(held[lowered(sent[j].0)] == added[lowered(sent[j].0)]);
        }
        let digest = sha256_hex(input.payload@);
        assert(held["x-amz-content-sha256"@][0] == digest);
        assert(has_pair(computed@, "x-amz-content-sha256"@, digest));
        assert forall|value: Seq<char>| #[trigger]
            has_pair(computed@, "x-amz-content-sha256"@, value) implies value == digest by {}
        let date = held["x-amz-date"@][0];
        assert(has_pair(computed@, "x-amz-date"@, date));
        let authorization = held["authorization"@][0];
        assert(has_pair(computed@, "authorization"@, authorization));
    }
    computed
}

/// The signed request for a batch body, from the headers that the signer
/// computed: all of them are carried over, in their order, and the body is
/// sent as it was signed.
pub fn signed_request(uri: &String, computed: Vec<(String, String)>, body: Vec<u8>) -> (r:
    HttpRequest)
    ensures
        r.method == Method::Post,
        r.uri@ == uri@,
        r.headers@ == computed@,
        r.body@ == body@,
{
    HttpRequest { method: Method::Post, uri: uri.clone(), headers: computed, body }
}

/// The provider's region that a choice stands for: the region of that name,
/// if there is one, or the region named `custom` at the chosen endpoint.
pub open spec fn chosen_region(choice: RegionChoice) -> Option<Region> {
    match choice {
        RegionChoice::Named(name) => named_region(name@),
        RegionChoice::Endpoint(endpoint) => Some(endpoint_region("custom"@, endpoint@)),
    }
}

impl RequestBuilder {
    /// The URI that every request goes to.
    pub closed spec fn uri(&self) -> Seq<char> {
        self.uri@
    }

    /// The path of that URI.
    pub closed spec fn path(&self) -> Seq<char> {
        self.path@
    }

    /// The host of that URI, if it names one.
    pub closed spec fn host(&self) -> Option<Seq<char>> {
        opt_text(self.host)
    }

    /// The configured headers, in their order.
    pub closed spec fn configured_headers(&self) -> Seq<(Seq<char>, Seq<char>)> {
        pair_texts(self.headers@)
    }

    /// Whether requests are signed.
    pub closed spec fn is_signed(&self) -> bool {
        self.signer is Signed
    }

    /// The region that requests are signed for, when they are signed.
    pub closed spec fn region(&self) -> Option<Region> {
        match self.signer {
            Signer::Signed { region, .. } => Some(region),
            Signer::Plain { .. } => None,
        }
    }

    /// The credential that requests are signed with, when they are signed.
    pub closed spec fn credentials(&self) -> Option<AwsCredentials> {
        match self.signer {
            Signer::Signed { credentials, .. } => Some(credentials),
            Signer::Plain { .. } => None,
        }
    }

    /// Whether plain requests declare a compressed body.
    pub closed spec fn gzip(&self) -> bool {
        self.signer matches Signer::Plain { gzip, .. } && gzip
    }

    /// The authorization of plain requests, if there is one.
    pub closed spec fn authorization(&self) -> Option<Seq<char>> {
        match self.signer {
            Signer::Plain { authorization, .. } => opt_text(authorization),
            Signer::Signed { .. } => None,
        }
    }

    /// The builder of plain requests for the settings.
    pub fn plain(settings: &SinkSettings) -> (r: RequestBuilder)
        ensures
            !r.is_signed(),
            r.uri() == settings.endpoint.uri@,
            r.path() == settings.endpoint.path@,
            r.host() == opt_text(settings.endpoint.host),
            r.configured_headers() == pair_texts(settings.headers@),
            r.gzip() == settings.batch.gzip,
            r.authorization() == opt_text(settings.authorization),
    {
        RequestBuilder {
            uri: settings.endpoint.uri.clone(),
            host: settings.endpoint.host.clone(),
            path: settings.endpoint.path.clone(),
            headers: copy_pairs(&settings.headers),
            signer: Signer::Plain {
                gzip: settings.batch.gzip,
                authorization: settings.authorization.clone(),
            },
        }
    }

    /// The builder of signed requests for the settings, with the credential
    /// obtained at startup: it signs for the region that the settings choose
    /// and with that credential. Fails with `MissingRegion` when the settings
    /// name no region, and with `UnknownRegion` when the region's name is not
    /// one of the provider's.
    pub fn signed(settings: &SinkSettings, credentials: AwsCredentials) -> (r: Result<
        RequestBuilder,
        ConfigError,
    >)
        ensures
            match r {
                Ok(b) => {
                    &&& b.is_signed()
                    &&& b.uri() == settings.endpoint.uri@
                    &&& b.path() == settings.endpoint.path@
                    &&& b.host() == opt_text(settings.endpoint.host)
                    &&& b.configured_headers() == pair_texts(settings.headers@)
                    &&& b.credentials() == Some(credentials)
                    &&& settings.region matches Some(choice) && chosen_region(choice) is Some
                        && b.region() == chosen_region(choice)
                },
                Err(e) => match settings.region {
                    None => e == ConfigError::MissingRegion,
                    Some(choice) => e == ConfigError::UnknownRegion && chosen_region(choice)
                        is None,
                },
            },
    {
        let region = match &settings.region {
            None => {
                return Err(ConfigError::MissingRegion);
            },
            Some(RegionChoice::Named(name)) => match parse_region(name.as_str()) {
                Ok(region) => region,
                Err(_) => {
                    return Err(ConfigError::UnknownRegion);
                },
            },
            Some(RegionChoice::Endpoint(endpoint)) => custom_region("custom", endpoint.as_str()),
        };
        Ok(
            RequestBuilder {
                uri: settings.endpoint.uri.clone(),
                host: settings.endpoint.host.clone(),
                path: settings.endpoint.path.clone(),
                headers: copy_pairs(&settings.headers),
                signer: Signer::Signed { region, credentials },
            },
        )
    }

    /// What is handed to the signer for the request that carries `body`:
    /// the method, the service, the path and the hostname of the endpoint,
    /// the content type and the configured headers, and the body as the
    /// payload, byte for byte.
    pub fn signing_input(&self, body: &Vec<u8>) -> (r: SigningInput)
        ensures
            r.method@ == "POST"@,
            r.service@ == "es"@,
            r.path@ == self.path(),
            opt_text(r.hostname) == self.host(),
            pair_texts(r.headers@) == signed_input_headers(self.configured_headers()),
            r.payload@ == body@,
    {
        let mut headers: Vec<(String, String)> = Vec::new();
        headers.push((String::from_str("Content-Type"), String::from_str("application/x-ndjson")));
        let mut i: usize = 0;
        while i < self.headers.len()
            invariant
                i <= self.headers.len(),
                pair_texts(headers@) == signed_input_headers(
                    pair_texts(self.headers@).take(i as int),
                ),
            decreases self.headers.len() - i,
        {
            let ghost before = pair_texts(headers@);
            headers.push((self.headers[i].0.clone(), self.headers[i].1.clone()));
            proof {
                assert(pair_texts(headers@) =~= before.push(pair_texts(self.headers@)[i as int]));
                assert(pair_texts(self.headers@).take(i as int).push(
                    pair_texts(self.headers@)[i as int],
                ) =~= pair_texts(self.headers@).take(i + 1));
            }
            i = i + 1;
        }
        proof {
            assert(pair_texts(self.headers@).take(self.headers@.len() as int) =~= pair_texts(
                self.headers@,
            ));
        }
        SigningInput {
            method: String::from_str("POST"),
            service: String::from_str("es"),
            path: self.path.clone(),
            hostname: self.host.clone(),
            headers,
            payload: copy_bytes(body),
        }
    }

    /// The request that carries `body` to the bulk endpoint.
    ///
    /// A plain request has the content type, the content encoding when
    /// bodies are compressed, the configured headers and the authorization.
    /// A signed request has the headers that the signer computed for
    /// `signing_input(body)`: the content type and every configured header
    /// that the signer does not set itself, under their names in small
    /// letters, the digest of the body, a date and an authorization. What
    /// date and authorization hold depends on the moment of signing.
    pub fn build(&self, body: Vec<u8>) -> (r: HttpRequest)
        ensures
            r.method == Method::Post,
            r.uri@ == self.uri(),
            r.body@ == body@,
            !self.is_signed() ==> pair_texts(r.headers@) == plain_headers(
                self.gzip(),
                self.configured_headers(),
                self.authorization(),
            ),
            self.is_signed() ==> signed_as(
                r.headers@,
                signed_input_headers(self.configured_headers()),
                body@,
            ) && has_pair(r.headers@, "content-type"@, "application/x-ndjson"@),
    {
        match &self.signer {
            Signer::Plain { gzip, authorization } => plain_request(
                &self.uri,
                *gzip,
                &self.headers,
                authorization,
                body,
            ),
            Signer::Signed { region, credentials } => {
                let input = self.signing_input(&body);
                let computed = sign(input, region, credentials);
                proof {
                    lemma_content_type_is_kept();
                    let sent = signed_input_headers(self.configured_headers());
                    assert(sent[0] == ("Content-Type"@, "application/x-ndjson"@));
                    assert(has_pair(computed@, lowered(sent[0].0), sent[0].1));
                }
                signed_request(&self.uri, computed, body)
            },
        }
    }
}

/// The request that probes the health of the cluster at `host`.
pub fn healthcheck_request(host: &str) -> (r: HttpRequest)
    ensures
        r.method == Method::Get,
        r.uri@ == host@ + "/_cluster/health"@,
        r.headers@.len() == 0,
        r.body@.len() == 0,
{
    let mut uri = String::from_str(host);
    uri.append("/_cluster/health");
    HttpRequest { method: Method::Get, uri, headers: Vec::new(), body: Vec::new() }
}

/// How one exchange with the service ended.
#[derive(Clone, Debug, PartialEq, Eq)]
pub enum Exchange {
    /// A response arrived, with this status code.
    Status(u16),
    /// The transport failed, with this description.
    TransportError(String),
}

/// The text that reports an unexpected status: the status in its text
/// form, or the bare number when it is no status code, that is, outside 100
/// to 999.
pub open spec fn unexpected_status(code: u16) -> Seq<char> {
    "Unexpected status: "@ + (if 100 <= code <= 999 {
        status_text(code)
    } else {
        decimal_text(code as nat)
    })
}

/// The verdict of the health probe: healthy exactly when the status is 200;
/// otherwise the failure is described, by the unexpected status or by what
/// the transport reported.
pub fn healthcheck(outcome: &Exchange) -> (r: Result<(), String>)
    ensures
        match r {
            Ok(_) => *outcome == Exchange::Status(200),
            Err(text) => match *outcome {
                Exchange::Status(code) => code != 200 && text@ == unexpected_status(code),
                Exchange::TransportError(description) => text@ == description@,
            },
        },
{
    match outcome {
        Exchange::Status(code) => {
            if *code == 200 {
                Ok(())
            } else {
                let mut text = String::from_str("Unexpected status: ");
                match status_to_text(*code) {
                    Ok(status) => {
                        text.append(status.as_str());
                    },
                    Err(_) => {
                        push_decimal(&mut text, *code as u64);
                    },
                }
                Err(text)
            }
        },
        Exchange::TransportError(description) => Err(description.clone()),
    }
}

} // verus!
