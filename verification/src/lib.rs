//! A typed client library for the Bluesky Jetstream service: the
//! configuration of a subscription, its URL, the events that arrive, and the
//! decisions of the task that receives them.
use vstd::prelude::*;

pub mod decimal;
pub mod error;
pub mod events;
pub mod task;

use crate::decimal::{decimal_int, i64_to_decimal, lemma_decimal_int_reads_back, signed_decimal_value};
use crate::error::{ConfigValidationError, ConnectionError, EndpointError, UrlParseErrorKind};
use url::ParseError as Parse;
use crate::error::UrlParseErrorKind as Kind;

verus! {

/// The Jetstream endpoints run by Bluesky.
#[derive(Clone, Copy, Debug, PartialEq, Eq, Structural)]
pub enum DefaultJetstreamEndpoints {
    /// `jetstream1.us-east.bsky.network`
    USEastOne,
    /// `jetstream2.us-east.bsky.network`
    USEastTwo,
    /// `jetstream1.us-west.bsky.network`
    USWestOne,
    /// `jetstream2.us-west.bsky.network`
    USWestTwo,
}

impl DefaultJetstreamEndpoints {
    /// The WebSocket subscription URL of the endpoint.
    pub open spec fn url(self) -> Seq<char> {
        match self {
            DefaultJetstreamEndpoints::USEastOne => "wss://jetstream1.us-east.bsky.network/subscribe"@,
            DefaultJetstreamEndpoints::USEastTwo => "wss://jetstream2.us-east.bsky.network/subscribe"@,
            DefaultJetstreamEndpoints::USWestOne => "wss://jetstream1.us-west.bsky.network/subscribe"@,
            DefaultJetstreamEndpoints::USWestTwo => "wss://jetstream2.us-west.bsky.network/subscribe"@,
        }
    }
}

/// A `String` is only described by its view, so `from` states its result
/// through its own `ensures` rather than through `from_spec`.
impl vstd::std_specs::convert::FromSpecImpl<DefaultJetstreamEndpoints> for String {
    open spec fn obeys_from_spec() -> bool {
        false
    }

    open spec fn from_spec(endpoint: DefaultJetstreamEndpoints) -> String {
        choose|url: String| url@ == endpoint.url()
    }
}

impl From<DefaultJetstreamEndpoints> for String {
    fn from(endpoint: DefaultJetstreamEndpoints) -> (url: String)
        ensures
            url@ == endpoint.url(),
    {
        match endpoint {
            DefaultJetstreamEndpoints::USEastOne => "wss://jetstream1.us-east.bsky.network/subscribe".to_owned(),
            DefaultJetstreamEndpoints::USEastTwo => "wss://jetstream2.us-east.bsky.network/subscribe".to_owned(),
            DefaultJetstreamEndpoints::USWestOne => "wss://jetstream1.us-west.bsky.network/subscribe".to_owned(),
            DefaultJetstreamEndpoints::USWestTwo => "wss://jetstream2.us-west.bsky.network/subscribe".to_owned(),
        }
    }
}


/// The most wanted collections that one Jetstream connection may ask for.
pub const MAX_WANTED_COLLECTIONS: usize = 100;

/// The most wanted DIDs that one Jetstream connection may ask for.
pub const MAX_WANTED_DIDS: usize = 10_000;

/// The compression to ask for on the WebSocket connection.
#[derive(Clone, Copy, Debug, PartialEq, Eq, Structural)]
pub enum JetstreamCompression {
    /// No compression: plain JSON text.
    Uncompressed,
    /// zstd with Jetstream's own dictionary.
    Zstd,
}

impl JetstreamCompression {
    /// Whether the compression asks the server to compress.
    pub open spec fn flag(self) -> bool {
        self is Zstd
    }
}

impl vstd::std_specs::convert::FromSpecImpl<JetstreamCompression> for bool {
    open spec fn obeys_from_spec() -> bool {
        true
    }

    open spec fn from_spec(compression: JetstreamCompression) -> bool {
        compression.flag()
    }
}

impl From<JetstreamCompression> for bool {
    fn from(compression: JetstreamCompression) -> (compressed: bool) {
        match compression {
            JetstreamCompression::Uncompressed => false,
            JetstreamCompression::Zstd => true,
        }
    }
}

/// The text `to_string` gives a `bool`.
pub open spec fn bool_text(b: bool) -> Seq<char> {
    if b {
        "true"@
    } else {
        "false"@
    }
}

/// Query pairs as the pairs of their texts.
pub open spec fn pair_texts(pairs: Seq<(String, String)>) -> Seq<(Seq<char>, Seq<char>)> {
    pairs.map_values(|p: (String, String)| (p.0@, p.1@))
}

/// What to subscribe to on a Jetstream instance.
#[derive(Debug)]
pub struct JetstreamConfig {
    /// The WebSocket URL of the instance, such as
    /// `wss://jetstream1.us-east.bsky.network/subscribe`.
    pub endpoint: String,
    /// The collection NSIDs to receive events of; none means all collections.
    /// Account and identity events come whatever this holds.
    pub wanted_collections: Vec<String>,
    /// The repository DIDs to receive events of; none means all repositories.
    pub wanted_dids: Vec<String>,
    /// The compression to ask for.
    pub compression: JetstreamCompression,
    /// Where to begin playback, in microseconds since the Unix epoch; none, or
    /// a time to come, means live-tail.
    pub cursor: Option<i64>,
}

impl Default for JetstreamConfig {
    /// The US-East-One endpoint, every collection and repository, no
    /// compression, live-tail.
    fn default() -> (config: Self)
        ensures
            config.endpoint@ == DefaultJetstreamEndpoints::USEastOne.url(),
            config.wanted_collections@.len() == 0,
            config.wanted_dids@.len() == 0,
            config.compression == JetstreamCompression::Uncompressed,
            config.cursor is None,
    {
        JetstreamConfig {
            endpoint: String::from(DefaultJetstreamEndpoints::USEastOne),
            wanted_collections: Vec::new(),
            wanted_dids: Vec::new(),
            compression: JetstreamCompression::Uncompressed,
            cursor: None,
        }
    }
}

/// The text of a built URL, or the kind of the error.
pub open spec fn url_outcome(url: Result<String, EndpointError>) -> Result<Seq<char>, UrlParseErrorKind> {
    match url {
        Ok(text) => Ok(text@),
        Err(e) => Err(e.kind),
    }
}

/// The text of the URL to connect on, or the kind of the error that building it
/// gave; the other connection errors, which carry no URL error, read as `Unknown`.
pub open spec fn connection_outcome(url: Result<String, ConnectionError>) -> Result<Seq<char>, UrlParseErrorKind> {
    match url {
        Ok(text) => Ok(text@),
        Err(ConnectionError::InvalidEndpoint(e)) => Err(e.kind),
        Err(_) => Err(UrlParseErrorKind::Unknown),
    }
}

/// The characters of the query pairs, with one `=` and one `&` per pair.
pub open spec fn pairs_text_len(pairs: Seq<(Seq<char>, Seq<char>)>) -> nat
    decreases pairs.len(),
{
    if pairs.len() == 0 {
        0
    } else {
        pairs_text_len(pairs.drop_last()) + pairs.last().0.len() + pairs.last().1.len() + 2
    }
}

/// The URL that `input` and `pairs` make stays within the url crate's limit of
/// `u32::MAX` bytes, which it asserts when it appends a query to a URL with a
/// fragment. The bound is generous: form-urlencoding writes at most 12 bytes
/// per character of a pair, and parsing writes at most 1024 bytes per
/// character of the input (percent-encoding, IPv6 expansion, IDNA mapping and
/// Punycode each stay well below that).
pub open spec fn fits_url_limit(input: Seq<char>, pairs: Seq<(Seq<char>, Seq<char>)>) -> bool {
    1024 * input.len() + 12 * pairs_text_len(pairs) + 2 <= u32::MAX
}

/// A prefix of the pairs has no more text than all of them.
pub proof fn lemma_pairs_text_len_prefix(pairs: Seq<(Seq<char>, Seq<char>)>, i: int)
    requires
        0 <= i <= pairs.len(),
    ensures
        pairs_text_len(pairs.take(i)) <= pairs_text_len(pairs),
    decreases pairs.len(),
{
    if i < pairs.len() {
        assert(pairs.drop_last().take(i) =~= pairs.take(i));
        lemma_pairs_text_len_prefix(pairs.drop_last(), i);
    } else {
        assert(pairs.take(i) =~= pairs);
    }
}

/// What `url::Url::parse_with_params` makes of `input` and the query pairs
/// `pairs`: the text of the URL, or the kind of the error.
pub uninterp spec fn url_with_query(input: Seq<char>, pairs: Seq<(Seq<char>, Seq<char>)>) -> Result<
    Seq<char>,
    UrlParseErrorKind,
>;

/// Calls `url::Url::parse_with_params`, which parses `input` as a URL and then
/// appends each pair to its query, form-urlencoded, and gives the URL's text,
/// or the error with its kind. Trusted: the outcome is named by
/// [`url_with_query`]; that it fails exactly when `input` alone does not
/// parse, and then with the same error whatever the pairs, is read off the
/// crate's source (the pairs are only appended to a parsed URL). The crate
/// panics when the URL with its query passes `u32::MAX` bytes; the
/// `requires` keeps well below that.
#[verifier::external_body]
fn parse_url_with_params(input: &str, pairs: &Vec<(String, String)>) -> (url: Result<String, EndpointError>)
    requires
        fits_url_limit(input@, pair_texts(pairs@)),
    ensures
        url_outcome(url) == url_with_query(input@, pair_texts(pairs@)),
        url is Err ==> url_outcome(url) == url_with_query(input@, Seq::empty()),
        url is Ok <==> url_with_query(input@, Seq::empty()) is Ok,
{
    let error = match url::Url::parse_with_params(input, pairs.iter()) {
        Ok(url) => return Ok(String::from(url)),
        Err(error) => error,
    };
    let kind = match error {
        Parse::EmptyHost => Kind::EmptyHost, Parse::IdnaError => Kind::IdnaError,
        Parse::InvalidPort => Kind::InvalidPort, Parse::InvalidIpv4Address => Kind::InvalidIpv4Address,
        Parse::InvalidIpv6Address => Kind::InvalidIpv6Address,
        Parse::InvalidDomainCharacter => Kind::InvalidDomainCharacter,
        Parse::RelativeUrlWithoutBase => Kind::RelativeUrlWithoutBase,
        Parse::RelativeUrlWithCannotBeABaseBase => Kind::RelativeUrlWithCannotBeABaseBase,
        Parse::SetHostOnCannotBeABaseUrl => Kind::SetHostOnCannotBeABaseUrl,
        Parse::Overflow => Kind::Overflow, _ => Kind::Unknown,
    };
    Err(EndpointError { kind, error })
}

impl JetstreamConfig {
    /// The configuration stays within the limits of the Jetstream API.
    pub open spec fn is_valid(self) -> bool {
        &&& self.wanted_collections@.len() <= MAX_WANTED_COLLECTIONS
        &&& self.wanted_dids@.len() <= MAX_WANTED_DIDS
    }

    /// What validating the configuration gives: collections are checked before DIDs.
    pub open spec fn validation(self) -> Result<(), ConfigValidationError> {
        if self.wanted_collections@.len() > MAX_WANTED_COLLECTIONS {
            Err(ConfigValidationError::TooManyWantedCollections(self.wanted_collections@.len() as usize))
        } else if self.wanted_dids@.len() > MAX_WANTED_DIDS {
            Err(ConfigValidationError::TooManyDids(self.wanted_dids@.len() as usize))
        } else {
            Ok(())
        }
    }

    /// The query pairs of the subscription URL: every wanted DID, then every
    /// wanted collection, then the compression flag, then the cursor if any.
    pub open spec fn query_pairs(self) -> Seq<(Seq<char>, Seq<char>)> {
        self.wanted_dids@.map_values(|did: String| ("wantedDids"@, did@))
            + self.wanted_collections@.map_values(|nsid: String| ("wantedCollections"@, nsid@))
            + seq![("compress"@, bool_text(self.compression.flag()))]
            + match self.cursor {
                Some(micros) => seq![("cursor"@, decimal_int(micros as int))],
                None => Seq::empty(),
            }
    }

    /// Checks the configuration against the limits of the Jetstream API:
    /// [`MAX_WANTED_COLLECTIONS`] and [`MAX_WANTED_DIDS`].
    pub fn validate(&self) -> (result: Result<(), ConfigValidationError>)
        ensures
            result == self.validation(),
            result is Ok <==> self.is_valid(),
            self.wanted_collections@.len() > MAX_WANTED_COLLECTIONS ==> result == Err::<
                (),
                ConfigValidationError,
            >(ConfigValidationError::TooManyWantedCollections(self.wanted_collections@.len() as usize)),
            result matches Err(ConfigValidationError::TooManyDids(m)) ==> m == self.wanted_dids@.len()
                && m > MAX_WANTED_DIDS && self.wanted_collections@.len() <= MAX_WANTED_COLLECTIONS,
    {
        let collections = self.wanted_collections.len();
        let dids = self.wanted_dids.len();

        if collections > MAX_WANTED_COLLECTIONS {
            return Err(ConfigValidationError::TooManyWantedCollections(collections));
        }

        if dids > MAX_WANTED_DIDS {
            return Err(ConfigValidationError::TooManyDids(dids));
        }

        Ok(())
    }

    /// The query pairs of the subscription URL, in the order the server reads them.
    pub fn query_params(&self) -> (params: Vec<(String, String)>)
        ensures
            pair_texts(params@) == self.query_pairs(),
            self.cursor matches Some(micros) ==> params@.last().0@ == "cursor"@
                && signed_decimal_value(params@.last().1@) == micros,
    {
        let mut params: Vec<(String, String)> = Vec::new();
        let dids = self.wanted_dids.len();
        for i in 0..dids
            invariant
                dids == self.wanted_dids@.len(),
                pair_texts(params@) =~= self.wanted_dids@.take(i as int).map_values(
                    |did: String| ("wantedDids"@, did@),
                ),
        {
            let ghost before = params@;
            params.push((String::from_str("wantedDids"), self.wanted_dids[i].clone()));
            proof {
                assert(self.wanted_dids@.take(i + 1) =~= self.wanted_dids@.take(i as int).push(
                    self.wanted_dids@[i as int],
                ));
                assert(pair_texts(params@) =~= pair_texts(before).push(
                    ("wantedDids"@, self.wanted_dids@[i as int]@),
                ));
            }
        }
        proof {
            assert(self.wanted_dids@.take(dids as int) =~= self.wanted_dids@);
        }
        let ghost with_dids = pair_texts(params@);
        let collections = self.wanted_collections.len();
        for i in 0..collections
            invariant
                collections == self.wanted_collections@.len(),
                pair_texts(params@) =~= with_dids + self.wanted_collections@.take(i as int).map_values(
                    |nsid: String| ("wantedCollections"@, nsid@),
                ),
        {
            let ghost before = params@;
            params.push((String::from_str("wantedCollections"), self.wanted_collections[i].clone()));
            proof {
                assert(pair_texts(params@) =~= pair_texts(before).push(
                    ("wantedCollections"@, self.wanted_collections@[i as int]@),
                ));
                assert(self.wanted_collections@.take(i + 1) =~= self.wanted_collections@.take(
                    i as int,
                ).push(self.wanted_collections@[i as int]));
            }
        }
        proof {
            assert(self.wanted_collections@.take(collections as int) =~= self.wanted_collections@);
        }
        let compressed = match &self.compression {
            JetstreamCompression::Uncompressed => String::from_str("false"),
            JetstreamCompression::Zstd => String::from_str("true"),
        };
        params.push((String::from_str("compress"), compressed));
        match self.cursor {
            Some(micros) => {
                params.push((String::from_str("cursor"), i64_to_decimal(micros)));
            },
            None => {},
        }
        proof {
            assert(pair_texts(params@) =~= self.query_pairs());
        }
        params
    }

    /// The subscription URL: `endpoint` with this configuration's query pairs.
    /// Whether the subscription URL on `endpoint` stays within the size that the
    /// url crate handles (see [`fits_url_limit`]); beyond it, building the URL panics.
    pub fn url_fits(&self, endpoint: &String) -> (fits: bool)
        ensures
            fits == fits_url_limit(endpoint@, self.query_pairs()),
    {
        let params = self.query_params();
        let ghost texts = pair_texts(params@);
        let input_len = endpoint.as_str().unicode_len();
        if input_len > 4_194_304 {
            return false;
        }
        let mut total: u64 = 0;
        let count = params.len();
        for i in 0..count
            invariant
                count == params@.len(),
                texts == pair_texts(params@),
                total == pairs_text_len(texts.take(i as int)),
                total <= u32::MAX,
                fits_url_limit(endpoint@, self.query_pairs()) ==> 12 * pairs_text_len(texts) <= u32::MAX,
        {
            let key_len = params[i].0.as_str().unicode_len();
            let value_len = params[i].1.as_str().unicode_len();
            proof {
                assert(texts.take(i + 1).drop_last() =~= texts.take(i as int));
                lemma_pairs_text_len_prefix(texts, i + 1);
            }
            if key_len > 4_294_967_295 || value_len > 4_294_967_295 {
                return false;
            }
            let next = total + key_len as u64 + value_len as u64 + 2;
            if next > 4_294_967_295 {
                return false;
            }
            total = next;
        }
        proof {
            assert(texts.take(count as int) =~= texts);
        }
        1024 * (input_len as u64) + 12 * total + 2 <= 4_294_967_295
    }

    /// It fails exactly when `endpoint` alone is not a URL, and then with the
    /// error that parsing `endpoint` gives, whatever the configuration holds.
    /// The URL must stay within the url crate's size limit, as the original
    /// panics beyond it.
    pub fn construct_endpoint(&self, endpoint: &String) -> (url: Result<String, EndpointError>)
        requires
            fits_url_limit(endpoint@, self.query_pairs()),
        ensures
            url_outcome(url) == url_with_query(endpoint@, self.query_pairs()),
            url is Err ==> url_outcome(url) == url_with_query(endpoint@, Seq::empty()),
            url is Ok <==> url_with_query(endpoint@, Seq::empty()) is Ok,
    {
        let params = self.query_params();
        parse_url_with_params(endpoint.as_str(), &params)
    }
}

/// Validating gives `Ok` exactly on the configurations within the API's limits.
pub proof fn lemma_validation_ok_iff_valid(config: JetstreamConfig)
    ensures
        config.validation() is Ok <==> config.is_valid(),
{
}

/// Validation blames a list only when that list is over its limit, and carries
/// its length: too many collections is reported whatever the DIDs, and too many
/// DIDs only when the collections are within their limit.
pub proof fn lemma_validation_blames_list_over_limit(config: JetstreamConfig)
    ensures
        config.wanted_collections@.len() > MAX_WANTED_COLLECTIONS ==> config.validation() == Err::<
            (),
            ConfigValidationError,
        >(ConfigValidationError::TooManyWantedCollections(config.wanted_collections@.len() as usize)),
        config.validation() matches Err(ConfigValidationError::TooManyWantedCollections(n)) ==> n
            == config.wanted_collections@.len() && n > MAX_WANTED_COLLECTIONS,
        config.validation() matches Err(ConfigValidationError::TooManyDids(m)) ==> m
            == config.wanted_dids@.len() && m > MAX_WANTED_DIDS && config.wanted_collections@.len()
            <= MAX_WANTED_COLLECTIONS,
        config.wanted_collections@.len() <= MAX_WANTED_COLLECTIONS && config.wanted_dids@.len()
            > MAX_WANTED_DIDS ==> config.validation() == Err::<(), ConfigValidationError>(
            ConfigValidationError::TooManyDids(config.wanted_dids@.len() as usize),
        ),
{
    assert(config.wanted_collections.len() == config.wanted_collections@.len());
    assert(config.wanted_dids.len() == config.wanted_dids@.len());
}

/// A configuration that filters neither collections nor repositories, as the
/// default one, is within the API's limits.
pub proof fn lemma_unfiltered_config_is_valid(config: JetstreamConfig)
    requires
        config.wanted_collections@.len() == 0,
        config.wanted_dids@.len() == 0,
    ensures
        config.is_valid(),
        config.validation() == Ok::<(), ConfigValidationError>(()),
{
}

/// The `compress` query pair says `true` exactly when the compression converts
/// to `true`, and it is the pair right after the wanted collections.
pub proof fn lemma_compress_pair_follows_flag(config: JetstreamConfig)
    ensures
        ({
            let at = config.wanted_dids@.len() + config.wanted_collections@.len();
            &&& config.query_pairs()[at as int] == ("compress"@, bool_text(
                <bool as vstd::std_specs::convert::FromSpec<JetstreamCompression>>::from_spec(
                    config.compression,
                ),
            ))
        }),
{
}

/// The query holds one pair per wanted DID and per wanted collection, then one
/// `compress` pair, then a `cursor` pair exactly when a cursor is set: empty
/// filters ask for nothing, and no cursor asks for live-tail.
pub proof fn lemma_query_shape(config: JetstreamConfig)
    ensures
        ({
            let pairs = config.query_pairs();
            let dids = config.wanted_dids@.len() as int;
            let filters = dids + config.wanted_collections@.len();
            &&& pairs.len() == filters + 1 + (if config.cursor is Some { 1int } else { 0int })
            &&& forall|i: int| 0 <= i < dids ==> #[trigger] pairs[i] == ("wantedDids"@, config.wanted_dids@[i]@)
            &&& forall|i: int|
                dids <= i < filters ==> #[trigger] pairs[i] == ("wantedCollections"@,
                    config.wanted_collections@[i - dids]@)
            &&& pairs[filters].0 == "compress"@
            &&& config.cursor matches Some(micros) ==> pairs[filters + 1] == ("cursor"@,
                decimal_int(micros as int))
            &&& config.cursor matches Some(micros) ==> signed_decimal_value(pairs[filters + 1].1)
                == micros
        }),
{
    if let Some(micros) = config.cursor {
        lemma_decimal_int_reads_back(micros as int);
    }
}

/// The query does not depend on the configuration's own endpoint: two
/// configurations that differ only there have the same query, and so build the
/// same URL, or fail alike, on any endpoint.
pub proof fn lemma_query_ignores_endpoint(a: JetstreamConfig, b: JetstreamConfig, endpoint: Seq<char>)
    requires
        a.wanted_dids@ == b.wanted_dids@,
        a.wanted_collections@ == b.wanted_collections@,
        a.compression == b.compression,
        a.cursor == b.cursor,
    ensures
        a.query_pairs() == b.query_pairs(),
        url_with_query(endpoint, a.query_pairs()) == url_with_query(endpoint, b.query_pairs()),
{
}

/// Holds a valid [`JetstreamConfig`] and connects to the instance it names.
pub struct JetstreamConnector {
    config: JetstreamConfig,
}

impl JetstreamConnector {
    /// A connector never holds a configuration beyond the API's limits.
    #[verifier::type_invariant]
    spec fn holds_valid_config(self) -> bool {
        self.config.is_valid()
    }

    /// The configuration that the connector holds.
    pub closed spec fn config(self) -> JetstreamConfig {
        self.config
    }

    /// A connector for `config`, if it is valid; the error of
    /// [`JetstreamConfig::validate`] otherwise.
    pub fn new(config: JetstreamConfig) -> (connector: Result<Self, ConfigValidationError>)
        ensures
            connector is Ok <==> config.is_valid(),
            connector matches Ok(c) ==> c.config() == config,
            connector matches Err(e) ==> config.validation() == Err::<(), ConfigValidationError>(e),
            config.wanted_collections@.len() > MAX_WANTED_COLLECTIONS ==> (connector matches Err(e)
                && e == ConfigValidationError::TooManyWantedCollections(config.wanted_collections@.len() as usize)),
            connector matches Err(ConfigValidationError::TooManyDids(m)) ==> m == config.wanted_dids@.len()
                && m > MAX_WANTED_DIDS && config.wanted_collections@.len() <= MAX_WANTED_COLLECTIONS,
    {
        match config.validate() {
            Ok(()) => Ok(JetstreamConnector { config }),
            Err(e) => Err(e),
        }
    }

    /// The URL to open the WebSocket connection on: the configured endpoint
    /// with the configuration's query. The configuration is checked again
    /// first; as the connector only holds valid ones, that never fails.
    pub fn endpoint_url(&self) -> (url: Result<String, ConnectionError>)
        requires
            fits_url_limit(self.config().endpoint@, self.config().query_pairs()),
        ensures
            self.config().is_valid(),
            connection_outcome(url) == url_with_query(self.config().endpoint@, self.config().query_pairs()),
            url is Err ==> connection_outcome(url) == url_with_query(self.config().endpoint@, Seq::empty()),
            url matches Err(e) ==> e is InvalidEndpoint,
    {
        proof {
            use_type_invariant(self);
        }
        match self.config.validate() {
            Ok(()) => {},
            Err(e) => {
                return Err(ConnectionError::InvalidConfig(e));
            },
        }
        match self.config.construct_endpoint(&self.config.endpoint) {
            Ok(text) => Ok(text),
            Err(e) => Err(ConnectionError::InvalidEndpoint(e)),
        }
    }
}

} // verus!
