use jetstream_oxide::error::{ConfigValidationError, ConnectionError, UrlParseErrorKind};
use jetstream_oxide::{
    DefaultJetstreamEndpoints, JetstreamCompression, JetstreamConfig, JetstreamConnector,
    MAX_WANTED_COLLECTIONS, MAX_WANTED_DIDS,
};

fn strings(prefix: &str, n: usize) -> Vec<String> {
    (0..n).map(|i| format!("{}{}", prefix, i)).collect()
}

fn pairs(config: &JetstreamConfig) -> Vec<(String, String)> {
    config.query_params()
}

#[test]
fn endpoint_urls() {
    assert_eq!(
        String::from(DefaultJetstreamEndpoints::USEastOne),
        "wss://jetstream1.us-east.bsky.network/subscribe"
    );
    assert_eq!(
        String::from(DefaultJetstreamEndpoints::USEastTwo),
        "wss://jetstream2.us-east.bsky.network/subscribe"
    );
    assert_eq!(
        String::from(DefaultJetstreamEndpoints::USWestOne),
        "wss://jetstream1.us-west.bsky.network/subscribe"
    );
    assert_eq!(
        String::from(DefaultJetstreamEndpoints::USWestTwo),
        "wss://jetstream2.us-west.bsky.network/subscribe"
    );
}

#[test]
fn compression_flags() {
    assert!(!bool::from(JetstreamCompression::Uncompressed));
    assert!(bool::from(JetstreamCompression::Zstd));
}

#[test]
fn default_config() {
    let config = JetstreamConfig::default();
    assert_eq!(config.endpoint, "wss://jetstream1.us-east.bsky.network/subscribe");
    assert!(config.wanted_collections.is_empty());
    assert!(config.wanted_dids.is_empty());
    assert_eq!(config.compression, JetstreamCompression::Uncompressed);
    assert_eq!(config.cursor, None);
    assert_eq!(config.validate(), Ok(()));
}

#[test]
fn limits_are_accepted() {
    let mut config = JetstreamConfig::default();
    config.wanted_collections = strings("app.bsky.feed.c", MAX_WANTED_COLLECTIONS);
    config.wanted_dids = strings("did:plc:d", MAX_WANTED_DIDS);
    assert_eq!(config.validate(), Ok(()));
}

#[test]
fn too_many_collections() {
    let mut config = JetstreamConfig::default();
    config.wanted_collections = strings("app.bsky.feed.c", 101);
    assert_eq!(config.validate(), Err(ConfigValidationError::TooManyWantedCollections(101)));
}

#[test]
fn too_many_dids() {
    let mut config = JetstreamConfig::default();
    config.wanted_dids = strings("did:plc:d", 10_001);
    assert_eq!(config.validate(), Err(ConfigValidationError::TooManyDids(10_001)));
}

#[test]
fn collections_are_checked_first() {
    let mut config = JetstreamConfig::default();
    config.wanted_collections = strings("app.bsky.feed.c", 150);
    config.wanted_dids = strings("did:plc:d", 20_000);
    assert_eq!(config.validate(), Err(ConfigValidationError::TooManyWantedCollections(150)));
}

#[test]
fn validation_messages() {
    assert_eq!(
        ConfigValidationError::TooManyWantedCollections(101).message(),
        "too many wanted collections: 101 > 100"
    );
    assert_eq!(
        ConfigValidationError::TooManyDids(10001).message(),
        "too many wanted DIDs: 10001 > 10,000"
    );
}

#[test]
fn default_query_is_compress_flag_only() {
    let config = JetstreamConfig::default();
    assert_eq!(pairs(&config), vec![("compress".to_string(), "false".to_string())]);
}

#[test]
fn query_order() {
    let config = JetstreamConfig {
        endpoint: String::from(DefaultJetstreamEndpoints::USWestOne),
        wanted_collections: vec!["app.bsky.feed.post".to_string(), "app.bsky.graph.follow".to_string()],
        wanted_dids: vec!["did:plc:a".to_string(), "did:plc:b".to_string()],
        compression: JetstreamCompression::Zstd,
        cursor: Some(1725911162329308),
    };
    let expected: Vec<(String, String)> = vec![
        ("wantedDids", "did:plc:a"),
        ("wantedDids", "did:plc:b"),
        ("wantedCollections", "app.bsky.feed.post"),
        ("wantedCollections", "app.bsky.graph.follow"),
        ("compress", "true"),
        ("cursor", "1725911162329308"),
    ]
    .into_iter()
    .map(|(k, v)| (k.to_string(), v.to_string()))
    .collect();
    assert_eq!(pairs(&config), expected);
}

#[test]
fn negative_cursor() {
    let mut config = JetstreamConfig::default();
    config.cursor = Some(-5000);
    assert_eq!(pairs(&config)[1], ("cursor".to_string(), "-5000".to_string()));
}

#[test]
fn construct_default_endpoint() {
    let config = JetstreamConfig::default();
    let url = config.construct_endpoint(&config.endpoint).unwrap();
    assert_eq!(url, "wss://jetstream1.us-east.bsky.network/subscribe?compress=false");
}

#[test]
fn construct_endpoint_encodes_pairs() {
    let config = JetstreamConfig {
        endpoint: String::from(DefaultJetstreamEndpoints::USEastTwo),
        wanted_collections: vec!["app.bsky.feed.post".to_string()],
        wanted_dids: vec!["did:plc:inze6wrmsm7pjl7yta3oig77".to_string()],
        compression: JetstreamCompression::Zstd,
        cursor: Some(1725911162329308),
    };
    let url = config.construct_endpoint(&config.endpoint).unwrap();
    assert_eq!(
        url,
        "wss://jetstream2.us-east.bsky.network/subscribe?wantedDids=did%3Aplc%3Ainze6wrmsm7pjl7yta3oig77&wantedCollections=app.bsky.feed.post&compress=true&cursor=1725911162329308"
    );
}

#[test]
fn construct_endpoint_rejects_relative_url() {
    let config = JetstreamConfig::default();
    let endpoint = "jetstream/subscribe".to_string();
    match config.construct_endpoint(&endpoint) {
        Err(e) => {
            assert_eq!(e.kind, UrlParseErrorKind::RelativeUrlWithoutBase);
            assert_eq!(e.error, url::ParseError::RelativeUrlWithoutBase);
        }
        Ok(url) => panic!("a relative endpoint was accepted: {}", url),
    }
}

#[test]
fn connector_refuses_invalid_config() {
    let mut config = JetstreamConfig::default();
    config.wanted_dids = strings("did:plc:d", 10_001);
    match JetstreamConnector::new(config) {
        Err(e) => assert_eq!(e, ConfigValidationError::TooManyDids(10_001)),
        Ok(_) => panic!("an invalid configuration was accepted"),
    }
}

#[test]
fn connector_endpoint_url() {
    let mut config = JetstreamConfig::default();
    config.wanted_collections = vec!["app.bsky.feed.like".to_string()];
    let connector = JetstreamConnector::new(config).unwrap();
    assert_eq!(
        connector.endpoint_url().unwrap(),
        "wss://jetstream1.us-east.bsky.network/subscribe?wantedCollections=app.bsky.feed.like&compress=false"
    );
}

#[test]
fn connector_reports_bad_endpoint() {
    let mut config = JetstreamConfig::default();
    config.endpoint = "wss://[::1/subscribe".to_string();
    let connector = JetstreamConnector::new(config).unwrap();
    match connector.endpoint_url() {
        Err(ConnectionError::InvalidEndpoint(e)) => {
            assert_eq!(e.kind, UrlParseErrorKind::InvalidIpv6Address);
            assert_eq!(e.error, url::ParseError::InvalidIpv6Address);
        }
        other => panic!("unexpected result: {:?}", other),
    }
}

#[test]
fn endpoint_error_is_that_of_the_endpoint() {
    let endpoint = "wss://host:99999/subscribe".to_string();
    let plain = JetstreamConfig::default();
    let filtered = JetstreamConfig {
        endpoint: "wss://elsewhere.example/subscribe".to_string(),
        wanted_collections: vec!["app.bsky.feed.post".to_string()],
        wanted_dids: vec!["did:plc:a".to_string()],
        compression: JetstreamCompression::Zstd,
        cursor: Some(1),
    };
    let expected = url::Url::parse(&endpoint).unwrap_err();
    for config in [plain, filtered] {
        match config.construct_endpoint(&endpoint) {
            Err(e) => {
                assert_eq!(e.kind, UrlParseErrorKind::InvalidPort);
                assert_eq!(e.error, expected);
            }
            Ok(url) => panic!("an invalid port was accepted: {}", url),
        }
    }
}

#[test]
fn construct_endpoint_ignores_own_endpoint() {
    let mut config = JetstreamConfig::default();
    config.endpoint = "not a url".to_string();
    let endpoint = String::from(DefaultJetstreamEndpoints::USWestTwo);
    assert_eq!(
        config.construct_endpoint(&endpoint).unwrap(),
        "wss://jetstream2.us-west.bsky.network/subscribe?compress=false"
    );
}

#[test]
fn url_size_limit() {
    let config = JetstreamConfig::default();
    assert!(config.url_fits(&config.endpoint));
    let long_endpoint = format!("wss://example.com/{}", "a".repeat(5_000_000));
    assert!(!config.url_fits(&long_endpoint));
    let mut crowded = JetstreamConfig::default();
    crowded.wanted_dids = vec!["d".repeat(1_000_000)];
    assert!(crowded.url_fits(&crowded.endpoint));
}
