//! The sink's configuration and the settings resolved from it.

use crate::bindings::{
    base64_encode, base64_fits, base64_text, form_append_pair, form_urlencoded_text, mebibytes, named_region,
    parse_region, parse_uri, uri_parts,
};
use crate::template::Template;
use crate::text::opt_text;
use vstd::prelude::*;
use vstd::string::*;
use vstd::utf8::encode_utf8;

verus! {

/// How batch bodies are compressed.
#[derive(Clone, Copy, Debug, PartialEq, Eq, Structural)]
pub enum Compression {
    /// Bodies are sent as they are.
    Off,
    /// Bodies are sent as gzip streams.
    Gzip,
}

/// Which scheme authenticates outbound requests.
#[derive(Clone, Copy, Debug, PartialEq, Eq, Structural)]
pub enum Provider {
    /// Plain headers, optionally with basic authentication.
    Default,
    /// Requests signed for the cloud provider.
    Aws,
}

/// User and password for basic authentication.
#[derive(Clone, Debug, Default, PartialEq, Eq)]
pub struct ElasticSearchBasicAuthConfig {
    pub password: String,
    pub user: String,
}

/// The provider region to sign for: a region by name, or the endpoint of a
/// compatible service. Exactly one of the two is to be given.
#[derive(Clone, Debug, Default, PartialEq, Eq)]
pub struct RegionOrEndpoint {
    pub region: Option<String>,
    pub endpoint: Option<String>,
}

/// The sink's configuration, as the operator wrote it.
#[derive(Clone, Debug, Default)]
pub struct ElasticSearchConfig {
    pub host: String,
    pub index: Option<String>,
    pub doc_type: Option<String>,
    pub id_key: Option<String>,
    pub batch_size: Option<usize>,
    pub batch_timeout: Option<u64>,
    pub compression: Option<Compression>,
    pub provider: Option<Provider>,
    pub region: Option<RegionOrEndpoint>,
    pub request_in_flight_limit: Option<usize>,
    pub request_timeout_secs: Option<u64>,
    pub request_rate_limit_duration_secs: Option<u64>,
    pub request_rate_limit_num: Option<u64>,
    pub request_retry_attempts: Option<usize>,
    pub request_retry_backoff_secs: Option<u64>,
    pub basic_auth: Option<ElasticSearchBasicAuthConfig>,
    /// Headers to send with every request, each name once.
    pub headers: Option<Vec<(String, String)>>,
    /// Query parameters of the bulk endpoint, each name once.
    pub query: Option<Vec<(String, String)>>,
}

/// Why a configuration cannot start a sink.
#[derive(Clone, Copy, Debug, PartialEq, Eq, Structural)]
pub enum ConfigError {
    /// A query parameter is given more than once.
    RepeatedQueryParameter,
    /// A header is given more than once.
    RepeatedHeader,
    /// The host, with the bulk path and the query, is not a valid URI.
    InvalidHost,
    /// Both a region and an endpoint are given.
    RegionAndEndpoint,
    /// A region section is there, with neither a region nor an endpoint.
    NoRegionOrEndpoint,
    /// The region's name is not one of the provider's.
    UnknownRegion,
    /// The endpoint is not a valid URI.
    InvalidEndpoint,
    /// Requests are to be signed and no region is configured.
    MissingRegion,
    /// User and password are too long to be encoded.
    CredentialsTooLong,
}

/// The region that requests are signed for.
#[derive(Clone, Debug, PartialEq, Eq)]
pub enum RegionChoice {
    Named(String),
    Endpoint(String),
}

/// Where batches are sent.
#[derive(Clone, Debug, PartialEq, Eq)]
pub struct Endpoint {
    pub uri: String,
    pub host: Option<String>,
    pub path: String,
}

/// Bounds of a batch.
#[derive(Clone, Copy, Debug, PartialEq, Eq)]
pub struct BatchSettings {
    pub max_size: usize,
    pub max_age_secs: u64,
    pub gzip: bool,
}

/// Limits of the delivery service.
#[derive(Clone, Copy, Debug, PartialEq, Eq)]
pub struct RequestSettings {
    pub in_flight_limit: usize,
    pub timeout_secs: u64,
    pub rate_limit_duration_secs: u64,
    pub rate_limit_num: u64,
    pub retry_attempts: usize,
    pub retry_backoff_secs: u64,
}

/// Everything the sink works from, resolved once from the configuration.
#[derive(Clone, Debug)]
pub struct SinkSettings {
    pub id_key: Option<String>,
    pub index: Template,
    pub doc_type: String,
    pub batch: BatchSettings,
    pub request: RequestSettings,
    pub endpoint: Endpoint,
    pub headers: Vec<(String, String)>,
    pub authorization: Option<String>,
    pub provider: Provider,
    pub region: Option<RegionChoice>,
}

/// The characters of each pair of a list.
pub open spec fn pair_texts(pairs: Seq<(String, String)>) -> Seq<(Seq<char>, Seq<char>)> {
    Seq::new(pairs.len(), |i: int| (pairs[i].0@, pairs[i].1@))
}

/// A query string after one more pair: an `&` when it is not empty, the
/// encoded name, `=`, the encoded value.
pub open spec fn pair_appended(target: Seq<char>, name: Seq<char>, value: Seq<char>) -> Seq<char> {
    (if target.len() > 0 {
        target.push('&')
    } else {
        target
    }) + form_urlencoded_text(name) + seq!['='] + form_urlencoded_text(value)
}

/// The query string of the first `n` pairs.
pub open spec fn query_text(pairs: Seq<(Seq<char>, Seq<char>)>, n: int) -> Seq<char>
    decreases n,
{
    if n <= 0 {
        Seq::empty()
    } else {
        pair_appended(query_text(pairs, n - 1), pairs[n - 1].0, pairs[n - 1].1)
    }
}

/// The URI of the bulk endpoint: the host, the bulk path and, when there are
/// query parameters, a question mark and the query string.
pub open spec fn bulk_uri(host: Seq<char>, pairs: Seq<(Seq<char>, Seq<char>)>) -> Seq<char> {
    let query = query_text(pairs, pairs.len() as int);
    host + "/_bulk"@ + (if query.len() > 0 {
        seq!['?'] + query
    } else {
        Seq::empty()
    })
}

/// The token of basic authentication: user, colon, password, as bytes.
pub open spec fn basic_token(user: Seq<char>, password: Seq<char>) -> Seq<u8> {
    encode_utf8(user + seq![':'] + password)
}

/// The value of the basic authentication header.
pub open spec fn basic_authorization(user: Seq<char>, password: Seq<char>) -> Seq<char> {
    "Basic "@ + base64_text(basic_token(user, password))
}

/// Whether user and password are short enough to be encoded.
pub open spec fn credentials_fit(auth: Option<ElasticSearchBasicAuthConfig>) -> bool {
    match auth {
        Some(a) => base64_fits(basic_token(a.user@, a.password@).len()),
        None => true,
    }
}

/// The pairs of an optional list, none for a list that is not there.
pub open spec fn pairs_or_none(pairs: Option<Vec<(String, String)>>) -> Seq<(Seq<char>, Seq<char>)> {
    match pairs {
        Some(p) => pair_texts(p@),
        None => Seq::empty(),
    }
}

/// What is wrong with a region section, if anything.
pub open spec fn region_error(r: RegionOrEndpoint) -> Option<ConfigError> {
    match (r.region, r.endpoint) {
        (Some(name), None) => if named_region(name@) is Some {
            None
        } else {
            Some(ConfigError::UnknownRegion)
        },
        (None, Some(endpoint)) => if uri_parts(endpoint@) is Some {
            None
        } else {
            Some(ConfigError::InvalidEndpoint)
        },
        (Some(_), Some(_)) => Some(ConfigError::RegionAndEndpoint),
        (None, None) => Some(ConfigError::NoRegionOrEndpoint),
    }
}

/// The region that a valid region section chooses.
pub open spec fn region_choice(r: RegionOrEndpoint) -> RegionChoice {
    match (r.region, r.endpoint) {
        (Some(name), None) => RegionChoice::Named(name),
        (_, Some(endpoint)) => RegionChoice::Endpoint(endpoint),
        (None, None) => arbitrary(),
    }
}

/// Whether requests are signed under a configuration.
pub open spec fn is_signed(config: ElasticSearchConfig) -> bool {
    config.provider == Some(Provider::Aws)
}

/// Whether no name occurs twice in a list of pairs.
pub open spec fn distinct_names(pairs: Seq<(Seq<char>, Seq<char>)>) -> bool {
    forall|i: int, j: int| 0 <= i < j < pairs.len() ==> pairs[i].0 != pairs[j].0
}

/// What keeps a configuration from starting a sink, if anything: a query
/// parameter or a header given twice first, then an invalid host, then a
/// faulty region section, then signing without a region, then credentials
/// too long to encode.
pub open spec fn config_error(config: ElasticSearchConfig) -> Option<ConfigError> {
    if !distinct_names(pairs_or_none(config.query)) {
        Some(ConfigError::RepeatedQueryParameter)
    } else if !distinct_names(pairs_or_none(config.headers)) {
        Some(ConfigError::RepeatedHeader)
    } else if uri_parts(bulk_uri(config.host@, pairs_or_none(config.query))) is None {
        Some(ConfigError::InvalidHost)
    } else if config.region is Some && region_error(config.region->0) is Some {
        region_error(config.region->0)
    } else if is_signed(config) && config.region is None {
        Some(ConfigError::MissingRegion)
    } else if !credentials_fit(config.basic_auth) {
        Some(ConfigError::CredentialsTooLong)
    } else {
        None
    }
}

/// Whether `s` holds what `config` resolves to, with every default filled in.
pub open spec fn resolves_to(config: ElasticSearchConfig, s: SinkSettings) -> bool {
    &&& opt_text(s.id_key) == opt_text(config.id_key)
    &&& s.index@ == (match config.index {
        Some(pattern) => pattern@,
        None => "vector-%Y.%m.%d"@,
    })
    &&& s.doc_type@ == (match config.doc_type {
        Some(tag) => tag@,
        None => "_doc"@,
    })
    &&& s.batch.max_size == (match config.batch_size {
        Some(n) => n,
        None => 10_485_760usize,
    })
    &&& s.batch.max_age_secs == (match config.batch_timeout {
        Some(n) => n,
        None => 1u64,
    })
    &&& s.batch.gzip == (!is_signed(config) && config.compression != Some(Compression::Off))
    &&& s.request.in_flight_limit == (match config.request_in_flight_limit {
        Some(n) => n,
        None => 5usize,
    })
    &&& s.request.timeout_secs == (match config.request_timeout_secs {
        Some(n) => n,
        None => 60u64,
    })
    &&& s.request.rate_limit_duration_secs == (match config.request_rate_limit_duration_secs {
        Some(n) => n,
        None => 1u64,
    })
    &&& s.request.rate_limit_num == (match config.request_rate_limit_num {
        Some(n) => n,
        None => 5u64,
    })
    &&& s.request.retry_attempts == (match config.request_retry_attempts {
        Some(n) => n,
        None => usize::MAX,
    })
    &&& s.request.retry_backoff_secs == (match config.request_retry_backoff_secs {
        Some(n) => n,
        None => 1u64,
    })
    &&& s.endpoint.uri@ == bulk_uri(config.host@, pairs_or_none(config.query))
    &&& uri_parts(s.endpoint.uri@) == Some((opt_text(s.endpoint.host), s.endpoint.path@))
    &&& pair_texts(s.headers@) == pairs_or_none(config.headers)
    &&& distinct_names(pair_texts(s.headers@))
    &&& opt_text(s.authorization) == (match config.basic_auth {
        Some(auth) => Some(basic_authorization(auth.user@, auth.password@)),
        None => None,
    })
    &&& s.provider == (match config.provider {
        Some(p) => p,
        None => Provider::Default,
    })
    &&& s.region == (match config.region {
        Some(r) => Some(region_choice(r)),
        None => None,
    })
}

/// Whether no name occurs twice in a list of pairs.
pub fn has_distinct_names(pairs: &Vec<(String, String)>) -> (r: bool)
    ensures
        r == distinct_names(pair_texts(pairs@)),
{
    let ghost names = pair_texts(pairs@);
    let mut j: usize = 0;
    while j < pairs.len()
        invariant
            j <= pairs.len(),
            names == pair_texts(pairs@),
            forall|a: int, b: int| 0 <= a < b < j ==> names[a].0 != names[b].0,
        decreases pairs.len() - j,
    {
        let mut i: usize = 0;
        while i < j
            invariant
                i <= j < pairs.len(),
                names == pair_texts(pairs@),
                forall|a: int| 0 <= a < i ==> names[a].0 != names[j as int].0,
            decreases j - i,
        {
            if pairs[i].0 == pairs[j].0 {
                assert(names[i as int].0 == names[j as int].0);
                return false;
            }
            i = i + 1;
        }
        j = j + 1;
    }
    true
}

/// A copy of a list of pairs.
pub fn copy_pairs(pairs: &Vec<(String, String)>) -> (r: Vec<(String, String)>)
    ensures
        pair_texts(r@) == pair_texts(pairs@),
{
    let mut out: Vec<(String, String)> = Vec::new();
    let mut i: usize = 0;
    while i < pairs.len()
        invariant
            i <= pairs.len(),
            out@.len() == i,
            forall|j: int| 0 <= j < i ==> out@[j].0@ == pairs@[j].0@ && out@[j].1@ == pairs@[j].1@,
        decreases pairs.len() - i,
    {
        out.push((pairs[i].0.clone(), pairs[i].1.clone()));
        i = i + 1;
    }
    assert(pair_texts(out@) =~= pair_texts(pairs@));
    out
}

/// The query string of a list of parameters.
pub fn query_string(pairs: &Vec<(String, String)>) -> (r: String)
    ensures
        r@ == query_text(pair_texts(pairs@), pairs@.len() as int),
{
    let mut query = String::new();
    let mut i: usize = 0;
    while i < pairs.len()
        invariant
            i <= pairs.len(),
            query@ == query_text(pair_texts(pairs@), i as int),
        decreases pairs.len() - i,
    {
        query = form_append_pair(query, pairs[i].0.as_str(), pairs[i].1.as_str());
        i = i + 1;
    }
    query
}

/// The value of the basic authentication header for a user and a password,
/// or `None` when the two are too long to be encoded.
pub fn authorization_header(auth: &ElasticSearchBasicAuthConfig) -> (r: Option<String>)
    ensures
        match r {
            Some(header) => credentials_fit(Some(*auth)) && header@ == basic_authorization(
                auth.user@,
                auth.password@,
            ),
            None => !credentials_fit(Some(*auth)),
        },
{
    let mut token = auth.user.clone();
    token.append(":");
    token.append(auth.password.as_str());
    proof {
        reveal_strlit(":");
        assert(token@ =~= auth.user@ + seq![':'] + auth.password@);
    }
    let bytes = token.as_str().as_bytes();
    if bytes.len() / 3 > (usize::MAX - 4) / 4 {
        return None;
    }
    let encoded = base64_encode(bytes);
    let mut header = String::from_str("Basic ");
    header.append(encoded.as_str());
    Some(header)
}

/// Checks a region section and returns the region it chooses.
pub fn resolve_region(r: &RegionOrEndpoint) -> (res: Result<RegionChoice, ConfigError>)
    ensures
        match res {
            Ok(choice) => region_error(*r) is None && choice == region_choice(*r),
            Err(e) => region_error(*r) == Some(e),
        },
{
    match (&r.region, &r.endpoint) {
        (Some(name), None) => match parse_region(name.as_str()) {
            Ok(_) => Ok(RegionChoice::Named(name.clone())),
            Err(_) => Err(ConfigError::UnknownRegion),
        },
        (None, Some(endpoint)) => match parse_uri(endpoint.as_str()) {
            Ok(_) => Ok(RegionChoice::Endpoint(endpoint.clone())),
            Err(_) => Err(ConfigError::InvalidEndpoint),
        },
        (Some(_), Some(_)) => Err(ConfigError::RegionAndEndpoint),
        (None, None) => Err(ConfigError::NoRegionOrEndpoint),
    }
}

impl ConfigError {
    /// The message that tells the operator what is wrong.
    pub fn message(&self) -> (r: String)
        ensures
            r@ == match *self {
                ConfigError::RepeatedQueryParameter => "A query parameter is given more than once"@,
                ConfigError::RepeatedHeader => "A header is given more than once"@,
                ConfigError::InvalidHost => "Invalid elasticsearch host"@,
                ConfigError::RegionAndEndpoint => "Only one of 'region' or 'endpoint' can be specified"@,
                ConfigError::NoRegionOrEndpoint => "Must set either 'region' or 'endpoint'"@,
                ConfigError::UnknownRegion => "Not a valid AWS region"@,
                ConfigError::InvalidEndpoint => "Failed to parse custom endpoint as URI"@,
                ConfigError::MissingRegion => "AWS provider requires a configured region"@,
                ConfigError::CredentialsTooLong => "User and password are too long"@,
            },
    {
        match self {
            ConfigError::RepeatedQueryParameter => String::from_str(
                "A query parameter is given more than once",
            ),
            ConfigError::RepeatedHeader => String::from_str("A header is given more than once"),
            ConfigError::InvalidHost => String::from_str("Invalid elasticsearch host"),
            ConfigError::RegionAndEndpoint => String::from_str(
                "Only one of 'region' or 'endpoint' can be specified",
            ),
            ConfigError::NoRegionOrEndpoint => String::from_str(
                "Must set either 'region' or 'endpoint'",
            ),
            ConfigError::UnknownRegion => String::from_str("Not a valid AWS region"),
            ConfigError::InvalidEndpoint => String::from_str(
                "Failed to parse custom endpoint as URI",
            ),
            ConfigError::MissingRegion => String::from_str(
                "AWS provider requires a configured region",
            ),
            ConfigError::CredentialsTooLong => String::from_str("User and password are too long"),
        }
    }
}

impl ElasticSearchConfig {
    /// Resolves the configuration into the sink's settings: fills in every
    /// default, builds the endpoint's URI and the basic authentication
    /// header, and switches compression off when requests are signed.
    ///
    /// Fails when a query parameter or a header is given twice, when the
    /// host does not make a valid URI, when the region
    /// section is faulty, when requests are to be signed and no region is
    /// configured, or when user and password are too long to encode.
    pub fn build(&self) -> (r: Result<SinkSettings, ConfigError>)
        ensures
            match r {
                Ok(s) => config_error(*self) is None && resolves_to(*self, s),
                Err(e) => config_error(*self) == Some(e),
            },
    {
        let query = match &self.query {
            Some(pairs) => {
                if !has_distinct_names(pairs) {
                    return Err(ConfigError::RepeatedQueryParameter);
                }
                query_string(pairs)
            },
            None => String::new(),
        };
        match &self.headers {
            Some(pairs) => {
                if !has_distinct_names(pairs) {
                    return Err(ConfigError::RepeatedHeader);
                }
            },
            None => {},
        }
        let mut uri = self.host.clone();
        uri.append("/_bulk");
        if query.as_str().unicode_len() > 0 {
            uri.append("?");
            uri.append(query.as_str());
        }
        proof {
            reveal_strlit("?");
            assert(uri@ =~= bulk_uri(self.host@, pairs_or_none(self.query)));
        }
        let (host, path) = match parse_uri(uri.as_str()) {
            Ok(parts) => parts,
            Err(_) => {
                return Err(ConfigError::InvalidHost);
            },
        };
        let region = match &self.region {
            Some(r) => match resolve_region(r) {
                Ok(choice) => Some(choice),
                Err(e) => {
                    return Err(e);
                },
            },
            None => None,
        };
        let provider = match self.provider {
            Some(p) => p,
            None => Provider::Default,
        };
        let mut gzip = match self.compression {
            Some(Compression::Off) => false,
            _ => true,
        };
        match provider {
            Provider::Default => {},
            Provider::Aws => {
                gzip = false;
                if region.is_none() {
                    return Err(ConfigError::MissingRegion);
                }
            },
        }
        let max_size = match self.batch_size {
            Some(n) => n,
            None => mebibytes(10) as usize,
        };
        let index = match &self.index {
            Some(pattern) => Template::new(pattern.as_str()),
            None => Template::new("vector-%Y.%m.%d"),
        };
        let doc_type = match &self.doc_type {
            Some(tag) => tag.clone(),
            None => String::from_str("_doc"),
        };
        let authorization = match &self.basic_auth {
            Some(auth) => match authorization_header(auth) {
                Some(header) => Some(header),
                None => {
                    return Err(ConfigError::CredentialsTooLong);
                },
            },
            None => None,
        };
        let headers = match &self.headers {
            Some(pairs) => copy_pairs(pairs),
            None => Vec::new(),
        };
        proof {
            if self.headers is None {
                assert(pair_texts(headers@) =~= Seq::empty());
            }
        }
        let settings = SinkSettings {
            id_key: self.id_key.clone(),
            index,
            doc_type,
            batch: BatchSettings {
                max_size,
                max_age_secs: match self.batch_timeout {
                    Some(n) => n,
                    None => 1,
                },
                gzip,
            },
            request: RequestSettings {
                in_flight_limit: match self.request_in_flight_limit {
                    Some(n) => n,
                    None => 5,
                },
                timeout_secs: match self.request_timeout_secs {
                    Some(n) => n,
                    None => 60,
                },
                rate_limit_duration_secs: match self.request_rate_limit_duration_secs {
                    Some(n) => n,
                    None => 1,
                },
                rate_limit_num: match self.request_rate_limit_num {
                    Some(n) => n,
                    None => 5,
                },
                retry_attempts: match self.request_retry_attempts {
                    Some(n) => n,
                    None => usize::MAX,
                },
                retry_backoff_secs: match self.request_retry_backoff_secs {
                    Some(n) => n,
                    None => 1,
                },
            },
            endpoint: Endpoint { uri, host, path },
            headers,
            authorization,
            provider,
            region,
        };
        Ok(settings)
    }
}

} // verus!
