use es_sink::config::{
    ConfigError, ElasticSearchBasicAuthConfig, ElasticSearchConfig, Provider, RegionOrEndpoint,
};
use es_sink::request::{
    healthcheck, healthcheck_request, plain_request, signed_request, Exchange, Method,
    RequestBuilder,
};
use rusoto_core::credential::AwsCredentials;

fn pairs(items: &[(&str, &str)]) -> Vec<(String, String)> {
    items.iter().map(|(k, v)| (k.to_string(), v.to_string())).collect()
}

fn header<'a>(headers: &'a [(String, String)], name: &str) -> Vec<&'a str> {
    headers.iter().filter(|(k, _)| k == name).map(|(_, v)| v.as_str()).collect()
}

#[test]
fn plain_request_has_the_headers_in_order() {
    let config = ElasticSearchConfig {
        host: "http://localhost:9200".into(),
        basic_auth: Some(ElasticSearchBasicAuthConfig { password: "pass".into(), user: "user".into() }),
        headers: Some(pairs(&[("X-One", "1"), ("X-Two", "2")])),
        ..Default::default()
    };
    let builder = RequestBuilder::plain(&config.build().unwrap());

    let request = builder.build(b"body".to_vec());

    assert_eq!(Method::Post, request.method);
    assert_eq!("http://localhost:9200/_bulk", request.uri);
    assert_eq!(
        pairs(&[
            ("Content-Type", "application/x-ndjson"),
            ("Content-Encoding", "gzip"),
            ("X-One", "1"),
            ("X-Two", "2"),
            ("Authorization", "Basic dXNlcjpwYXNz"),
        ]),
        request.headers
    );
    assert_eq!(b"body".to_vec(), request.body);
}

#[test]
fn plain_request_without_compression_and_authorization() {
    let request = plain_request(&"http://h/_bulk".to_string(), false, &Vec::new(), &None, Vec::new());
    assert_eq!(Method::Post, request.method);
    assert_eq!("http://h/_bulk", request.uri);
    assert_eq!(pairs(&[("Content-Type", "application/x-ndjson")]), request.headers);
    assert!(request.body.is_empty());
}

#[test]
fn signed_request_carries_every_computed_header() {
    let computed = pairs(&[("authorization", "sig"), ("x-amz-date", "d"), ("x-amz-date", "e")]);
    let request = signed_request(&"http://h/_bulk".to_string(), computed.clone(), b"payload".to_vec());
    assert_eq!(Method::Post, request.method);
    assert_eq!("http://h/_bulk", request.uri);
    assert_eq!(computed, request.headers);
    assert_eq!(b"payload".to_vec(), request.body);
}

fn signed_settings(region: RegionOrEndpoint) -> es_sink::config::SinkSettings {
    ElasticSearchConfig {
        host: "https://search.example.com:9243".into(),
        provider: Some(Provider::Aws),
        region: Some(region),
        headers: Some(pairs(&[("X-Custom", "yes")])),
        ..Default::default()
    }
    .build()
    .unwrap()
}

#[test]
fn signer_signs_method_path_headers_and_body() {
    let settings =
        signed_settings(RegionOrEndpoint { region: Some("us-east-1".into()), endpoint: None });
    let credentials = AwsCredentials::new("AKIDEXAMPLE", "secret", Some("token".to_string()), None);
    let builder = RequestBuilder::signed(&settings, credentials).ok().unwrap();

    let request = builder.build(b"{}\n".to_vec());

    assert_eq!(Method::Post, request.method);
    assert_eq!("https://search.example.com:9243/_bulk", request.uri);
    assert_eq!(b"{}\n".to_vec(), request.body);
    assert_eq!(vec!["application/x-ndjson"], header(&request.headers, "content-type"));
    assert_eq!(vec!["yes"], header(&request.headers, "x-custom"));
    assert_eq!(vec!["search.example.com"], header(&request.headers, "host"));
    assert_eq!(vec!["3"], header(&request.headers, "content-length"));
    assert_eq!(vec!["token"], header(&request.headers, "x-amz-security-token"));
    assert_eq!(
        vec!["ca3d163bab055381827226140568f3bef7eaac187cebd76878e0b63e9e442356"],
        header(&request.headers, "x-amz-content-sha256")
    );
    assert_eq!(1, header(&request.headers, "x-amz-date").len());
    let authorization = header(&request.headers, "authorization");
    assert_eq!(1, authorization.len());
    assert!(authorization[0].starts_with("AWS4-HMAC-SHA256 Credential=AKIDEXAMPLE/"));
    assert!(authorization[0].contains("/us-east-1/es/aws4_request"));
    assert!(authorization[0].contains(
        "SignedHeaders=content-type;host;x-amz-content-sha256;x-amz-date;x-amz-security-token;x-custom"
    ));
    assert!(header(&request.headers, "content-encoding").is_empty());
}

#[test]
fn signer_for_a_custom_endpoint() {
    let settings = signed_settings(RegionOrEndpoint {
        region: None,
        endpoint: Some("http://localhost:4571".into()),
    });
    let builder =
        RequestBuilder::signed(&settings, AwsCredentials::new("key", "secret", None, None)).ok().unwrap();
    let request = builder.build(Vec::new());
    let authorization = header(&request.headers, "authorization");
    assert!(authorization[0].contains("/custom/es/aws4_request"));
    assert!(header(&request.headers, "x-amz-security-token").is_empty());
}

#[test]
fn signed_builder_needs_a_known_region() {
    let mut settings =
        ElasticSearchConfig { host: "http://localhost:9200".into(), ..Default::default() }.build().unwrap();
    let credentials = || AwsCredentials::new("key", "secret", None, None);
    assert_eq!(Some(ConfigError::MissingRegion), RequestBuilder::signed(&settings, credentials()).err());
    settings.region = Some(es_sink::config::RegionChoice::Named("nowhere".into()));
    assert_eq!(Some(ConfigError::UnknownRegion), RequestBuilder::signed(&settings, credentials()).err());
}

#[test]
fn healthcheck_request_asks_for_the_cluster_health() {
    let request = healthcheck_request("http://localhost:9200");
    assert_eq!(Method::Get, request.method);
    assert_eq!("http://localhost:9200/_cluster/health", request.uri);
    assert!(request.headers.is_empty());
    assert!(request.body.is_empty());
}

#[test]
fn healthcheck_is_healthy_only_on_status_ok() {
    assert_eq!(Ok(()), healthcheck(&Exchange::Status(200)));
    assert_eq!(Err("Unexpected status: 201 Created".to_string()), healthcheck(&Exchange::Status(201)));
    assert_eq!(
        Err("Unexpected status: 503 Service Unavailable".to_string()),
        healthcheck(&Exchange::Status(503))
    );
    assert_eq!(
        Err("Unexpected status: 799 <unknown status code>".to_string()),
        healthcheck(&Exchange::Status(799))
    );
    assert_eq!(Err("Unexpected status: 0".to_string()), healthcheck(&Exchange::Status(0)));
    assert_eq!(Err("Unexpected status: 1000".to_string()), healthcheck(&Exchange::Status(1000)));
    assert_eq!(
        Err("connection refused".to_string()),
        healthcheck(&Exchange::TransportError("connection refused".into()))
    );
}

#[test]
fn signer_keeps_every_header_it_does_not_set_itself() {
    let config = ElasticSearchConfig {
        host: "https://search.example.com".into(),
        provider: Some(Provider::Aws),
        region: Some(RegionOrEndpoint { region: Some("eu-west-1".into()), endpoint: None }),
        headers: Some(pairs(&[
            ("X-One", "1"),
            ("Host", "elsewhere"),
            ("X-Two", "two words"),
            ("Authorization", "mine"),
        ])),
        ..Default::default()
    };
    let settings = config.build().unwrap();
    let builder =
        RequestBuilder::signed(&settings, AwsCredentials::new("key", "secret", None, None)).ok().unwrap();

    let request = builder.build(b"payload".to_vec());

    assert_eq!(vec!["application/x-ndjson"], header(&request.headers, "content-type"));
    assert_eq!(vec!["1"], header(&request.headers, "x-one"));
    assert_eq!(vec!["two words"], header(&request.headers, "x-two"));
    assert_eq!(vec!["search.example.com"], header(&request.headers, "host"));
    assert_eq!(
        vec!["239f59ed55e737c77147cf55ad0c1b030b6d7ee748a7426952f9b852d5a935e5"],
        header(&request.headers, "x-amz-content-sha256")
    );
    let authorization = header(&request.headers, "authorization");
    assert_eq!(1, authorization.len());
    assert!(authorization[0].starts_with("AWS4-HMAC-SHA256 "));
    assert!(header(&request.headers, "X-One").is_empty());
}
