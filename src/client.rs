//! The Typecast API client: configuration, URLs and the reading of responses.
//!
//! Requests are sent by the transport layer with the HTTP client that
//! [`TypecastClient`] holds; what it sends and how it reads what comes back
//! is decided here.
use crate::errors::{Result, TypecastError};
use crate::models::{AudioFormat, TTSResponse, VoiceV2, VoiceV2Wire, VoicesV2Filter};
use std::time::Duration;
use vstd::prelude::*;
use vstd::string::StrSliceExecFns;
use vstd::string::StringExecFns;
use vstd::utf8::{encode_scalar, encode_utf8};

verus! {

/// Default API base URL.
pub const DEFAULT_BASE_URL: &'static str = "https://api.typecast.ai";

/// Default request timeout in seconds.
pub const DEFAULT_TIMEOUT_SECS: u64 = 60;

/// The HTTP client.
#[verifier::external_type_specification]
#[verifier::external_body]
pub struct ExHttpClient(reqwest::Client);

/// Relies on `reqwest::Client`'s `Clone`, which hands out another handle to
/// the same connection pool.
pub assume_specification[ <reqwest::Client as Clone>::clone ](c: &reqwest::Client) -> reqwest::Client;

/// The duration of `secs` whole seconds.
pub uninterp spec fn secs_duration(secs: u64) -> Duration;

/// Relies on `Duration::from_secs`, which cannot fail and whose result
/// depends on its argument alone.
pub assume_specification[ core::time::Duration::from_secs ](secs: u64) -> (r: Duration)
    ensures
        r == secs_duration(secs),
;

/// Whether a byte may stand in an HTTP header value: a tab or a visible byte.
pub open spec fn header_byte_ok(b: u8) -> bool {
    (b >= 32 && b != 127) || b == 9
}

/// Whether every byte of the UTF-8 encoding of `s` may stand in a header value.
pub open spec fn header_value_ok(s: Seq<char>) -> bool {
    forall|i: int| 0 <= i < encode_utf8(s).len() ==> header_byte_ok(#[trigger] encode_utf8(s)[i])
}

/// Relies on `HeaderValue::from_str`, which accepts a string exactly when
/// every byte of it is a tab or a visible byte (32 to 255, but 127).
#[verifier::external_body]
fn header_value_accepted(s: &str) -> (r: bool)
    ensures
        r == header_value_ok(s@),
{
    reqwest::header::HeaderValue::from_str(s).is_ok()
}

/// Whether a string may name an HTTP header as this library writes names:
/// one to 64 lower-case ASCII letters, digits or `-`.
pub open spec fn header_name_ok(s: Seq<char>) -> bool {
    &&& 1 <= s.len() <= 64
    &&& forall|i: int|
        0 <= i < s.len() ==> {
            let c = #[trigger] s[i];
            ('a' <= c <= 'z') || ('0' <= c <= '9') || c == '-'
        }
}

/// Relies on `HeaderName::from_bytes` and `HeaderValue::from_str`, which
/// accept every name and value that `requires` admits; on
/// `HeaderMap::insert`, which panics only past the map's capacity; and on
/// `reqwest::ClientBuilder`: a client that sends `headers` with every request
/// and gives up on a request after `timeout`. Building may fail (the TLS
/// backend cannot start).
#[verifier::external_body]
fn http_client(headers: &Vec<(String, String)>, timeout: Duration) -> (r: std::result::Result<
    reqwest::Client,
    reqwest::Error,
>)
    requires
        headers@.len() <= 64,
        forall|i: int|
            0 <= i < headers@.len() ==> header_name_ok((#[trigger] headers@[i]).0@)
                && header_value_ok(headers@[i].1@),
{
    let mut map = reqwest::header::HeaderMap::new();
    for (name, value) in headers.iter() {
        let name = reqwest::header::HeaderName::from_bytes(name.as_bytes());
        let value = reqwest::header::HeaderValue::from_str(value);
        if let (Ok(name), Ok(value)) = (name, value) {
            map.insert(name, value);
        }
    }
    reqwest::Client::builder().default_headers(map).timeout(timeout).build()
}

/// Relies on `String::push`: appends one character.
#[verifier::external_body]
pub(crate) fn push_char(s: &mut String, c: char)
    ensures
        final(s)@ == old(s)@.push(c),
{
    s.push(c);
}

/// The default base URL.
pub open spec fn default_base_url() -> Seq<char> {
    "https://api.typecast.ai"@
}

/// Configuration for the Typecast client.
#[derive(Debug, Clone)]
pub struct ClientConfig {
    /// API key for authentication.
    pub api_key: String,
    /// Base URL for the API.
    pub base_url: String,
    /// Request timeout duration.
    pub timeout: Duration,
}

impl ClientConfig {
    /// Create a configuration with an API key, the default base URL and the
    /// default timeout of 60 seconds.
    pub fn new(api_key: &str) -> (r: Self)
        ensures
            r.api_key@ == api_key@,
            r.base_url@ == default_base_url(),
            r.timeout == secs_duration(DEFAULT_TIMEOUT_SECS),
    {
        ClientConfig {
            api_key: api_key.to_owned(),
            base_url: "https://api.typecast.ai".to_owned(),
            timeout: Duration::from_secs(DEFAULT_TIMEOUT_SECS),
        }
    }

    /// The configuration given the values of the API key and host settings
    /// (`TYPECAST_API_KEY`, `TYPECAST_API_HOST`): a missing key is empty and a
    /// missing host is the default base URL. The timeout is the default 60
    /// seconds.
    pub fn from_env_values(api_key: Option<String>, host: Option<String>) -> (r: Self)
        ensures
            r.api_key@ == match api_key {
                Some(k) => k@,
                None => Seq::<char>::empty(),
            },
            r.base_url@ == match host {
                Some(h) => h@,
                None => default_base_url(),
            },
            r.timeout == secs_duration(DEFAULT_TIMEOUT_SECS),
    {
        let api_key = match api_key {
            Some(k) => k,
            None => String::new(),
        };
        let base_url = match host {
            Some(h) => h,
            None => "https://api.typecast.ai".to_owned(),
        };
        ClientConfig { api_key, base_url, timeout: Duration::from_secs(DEFAULT_TIMEOUT_SECS) }
    }

    /// Set a custom base URL.
    pub fn base_url(self, base_url: &str) -> (r: Self)
        ensures
            r.base_url@ == base_url@,
            r.api_key == self.api_key,
            r.timeout == self.timeout,
    {
        ClientConfig { base_url: base_url.to_owned(), ..self }
    }

    /// Set a custom timeout.
    pub fn timeout(self, timeout: Duration) -> (r: Self)
        ensures
            r.timeout == timeout,
            r.api_key == self.api_key,
            r.base_url == self.base_url,
    {
        ClientConfig { timeout, ..self }
    }
}

/// The main Typecast API client.
#[derive(Debug, Clone)]
pub struct TypecastClient {
    client: reqwest::Client,
    base_url: String,
    api_key: String,
}

/// The masked form of an API key: its first and last four characters, or
/// `****` for a key of eight characters or fewer.
pub open spec fn mask_spec(k: Seq<char>) -> Seq<char> {
    if k.len() > 8 {
        k.subrange(0, 4) + "..."@ + k.subrange(k.len() - 4, k.len() as int)
    } else {
        "****"@
    }
}

/// The headers that every request carries: the JSON content type and the
/// API key.
pub open spec fn default_headers(api_key: Seq<char>) -> Seq<(Seq<char>, Seq<char>)> {
    seq![("content-type"@, "application/json"@), ("x-api-key"@, api_key)]
}

/// The headers that every request carries: the JSON content type and the
/// API key.
pub fn request_headers(api_key: &str) -> (r: Vec<(String, String)>)
    ensures
        pairs_view(r@) == default_headers(api_key@),
{
    let mut headers: Vec<(String, String)> = Vec::new();
    proof {
        assert(pairs_view(headers@) =~= Seq::empty());
    }
    push_pair(&mut headers, "content-type", "application/json");
    push_pair(&mut headers, "x-api-key", api_key);
    proof {
        assert(pairs_view(headers@) =~= default_headers(api_key@));
    }
    headers
}

impl TypecastClient {
    /// The base URL that requests go to.
    pub closed spec fn spec_base_url(&self) -> Seq<char> {
        self.base_url@
    }

    /// The API key that requests carry.
    pub closed spec fn spec_api_key(&self) -> Seq<char> {
        self.api_key@
    }

    /// Create a client with the given configuration. Its HTTP client sends
    /// `request_headers(api_key)` with every request and uses the configured
    /// timeout.
    ///
    /// An API key that cannot stand in an HTTP header is refused before
    /// anything is sent, with a bad-request error.
    pub fn new(config: ClientConfig) -> (r: Result<Self>)
        ensures
            !header_value_ok(config.api_key@) ==> (r matches Err(TypecastError::BadRequest { detail })
                && detail@ == "Invalid API key format"@),
            header_value_ok(config.api_key@) ==> r is Ok || r matches Err(TypecastError::HttpError(_)),
            r matches Ok(c) ==> (c.spec_base_url() == config.base_url@ && c.spec_api_key()
                == config.api_key@),
    {
        if !header_value_accepted(config.api_key.as_str()) {
            return Err(TypecastError::BadRequest { detail: "Invalid API key format".to_owned() });
        }
        let headers = request_headers(config.api_key.as_str());
        proof {
            lemma_default_headers_valid(config.api_key@);
            assert(headers@.len() == pairs_view(headers@).len());
            assert forall|i: int| 0 <= i < headers@.len() implies header_name_ok(
                (#[trigger] headers@[i]).0@,
            ) && header_value_ok(headers@[i].1@) by {
                assert(pairs_view(headers@)[i] == (headers@[i].0@, headers@[i].1@));
            }
        }
        match http_client(&headers, config.timeout) {
            Ok(client) => Ok(
                TypecastClient { client, base_url: config.base_url, api_key: config.api_key },
            ),
            Err(e) => Err(TypecastError::HttpError(e)),
        }
    }

    /// Create a client with just an API key.
    pub fn with_api_key(api_key: &str) -> (r: Result<Self>)
        ensures
            !header_value_ok(api_key@) ==> (r matches Err(TypecastError::BadRequest { detail })
                && detail@ == "Invalid API key format"@),
            header_value_ok(api_key@) ==> r is Ok || r matches Err(TypecastError::HttpError(_)),
            r matches Ok(c) ==> (c.spec_base_url() == default_base_url() && c.spec_api_key()
                == api_key@),
    {
        TypecastClient::new(ClientConfig::new(api_key))
    }

    /// Get the base URL.
    pub fn base_url(&self) -> (r: &str)
        ensures
            r@ == self.spec_base_url(),
    {
        self.base_url.as_str()
    }

    /// Get the API key, masked.
    pub fn api_key_masked(&self) -> (r: String)
        ensures
            r@ == mask_spec(self.spec_api_key()),
    {
        let key = self.api_key.as_str();
        let n = key.unicode_len();
        if n > 8 {
            let mut r = key.substring_char(0, 4).to_owned();
            r.append("...");
            r.append(key.substring_char(n - 4, n));
            r
        } else {
            "****".to_owned()
        }
    }

    /// The HTTP client that sends this client's requests.
    pub fn http(&self) -> &reqwest::Client {
        &self.client
    }

    /// The URL of `path` under the base URL, with `params` as its query.
    pub fn build_url(&self, path: &str, params: &Vec<(String, String)>) -> (r: String)
        ensures
            r@ == url_spec(self.spec_base_url(), path@, pairs_view(params@)),
    {
        let mut url = self.base_url.clone();
        url.append(path);
        let ghost prefix = url@;
        let ghost ps = pairs_view(params@);
        if params.len() > 0 {
            push_char(&mut url, '?');
        }
        let mut i: usize = 0;
        while i < params.len()
            invariant
                0 <= i <= params@.len(),
                ps == pairs_view(params@),
                params@.len() > 0 ==> url@ == prefix + seq!['?'] + join_query(ps.subrange(0, i as int)),
                params@.len() == 0 ==> url@ == prefix,
            decreases params@.len() - i,
        {
            if i > 0 {
                push_char(&mut url, '&');
            }
            let (k, v) = &params[i];
            url.append(k.as_str());
            push_char(&mut url, '=');
            let e = encode(v.as_str());
            url.append(e.as_str());
            proof {
                let sub = ps.subrange(0, i + 1);
                assert(sub.drop_last() =~= ps.subrange(0, i as int));
                assert(ps[i as int] == (k@, v@));
                assert(sub.last() == ps[i as int]);
                assert(url@ =~= prefix + seq!['?'] + join_query(sub));
            }
            i = i + 1;
        }
        proof {
            assert(ps.subrange(0, params@.len() as int) =~= ps);
            if params@.len() > 0 {
                assert(url@ =~= self.spec_base_url() + path@ + seq!['?'] + join_query(ps));
            }
        }
        url
    }

    /// The URL of the text-to-speech endpoint.
    pub fn tts_url(&self) -> (r: String)
        ensures
            r@ == self.spec_base_url() + "/v1/text-to-speech"@,
    {
        let mut url = self.base_url.clone();
        url.append("/v1/text-to-speech");
        url
    }

    /// The URL of the voice list, with the filter's set fields as the query.
    pub fn voices_url(&self, filter: Option<VoicesV2Filter>) -> (r: String)
        ensures
            r@ == url_spec(
                self.spec_base_url(),
                "/v2/voices"@,
                match filter {
                    Some(f) => filter_pairs(f),
                    None => Seq::empty(),
                },
            ),
    {
        let params = match filter {
            Some(f) => filter_params(&f),
            None => Vec::new(),
        };
        proof {
            if filter is None {
                assert(pairs_view(params@) =~= Seq::empty());
            }
        }
        self.build_url("/v2/voices", &params)
    }

    /// The URL of one voice; the id is put in as it is.
    pub fn voice_url(&self, voice_id: &str) -> (r: String)
        ensures
            r@ == self.spec_base_url() + "/v2/voices/"@ + voice_id@,
    {
        let mut url = self.base_url.clone();
        url.append("/v2/voices/");
        url.append(voice_id);
        url
    }
}

/// The default headers are legal names and values whenever the key is a
/// legal value.
proof fn lemma_default_headers_valid(api_key: Seq<char>)
    requires
        header_value_ok(api_key),
    ensures
        forall|i: int|
            0 <= i < default_headers(api_key).len() ==> header_name_ok(
                (#[trigger] default_headers(api_key)[i]).0,
            ) && header_value_ok(default_headers(api_key)[i].1),
{
    reveal_strlit("content-type");
    reveal_strlit("application/json");
    reveal_strlit("x-api-key");
    let json = "application/json"@;
    assert(vstd::utf8::is_ascii_chars(json));
    vstd::utf8::is_ascii_chars_encode_utf8(json);
    assert forall|i: int| 0 <= i < encode_utf8(json).len() implies header_byte_ok(
        #[trigger] encode_utf8(json)[i],
    ) by {
        assert(json[i] as u8 == encode_utf8(json)[i]);
    }
    assert(header_name_ok("content-type"@));
    assert(header_name_ok("x-api-key"@));
}

/// Whether a byte passes through query encoding unescaped: an ASCII letter or
/// digit, or one of `-`, `_`, `.`, `~`.
pub open spec fn unreserved(b: u8) -> bool {
    (0x61 <= b <= 0x7a) || (0x41 <= b <= 0x5a) || (0x30 <= b <= 0x39) || b == 0x2d || b == 0x5f
        || b == 0x2e || b == 0x7e
}

/// The upper-case hexadecimal digit of `n < 16`.
pub open spec fn hex_digit(n: u8) -> char {
    if n < 10 {
        (48 + n) as u8 as char
    } else {
        (55 + n) as u8 as char
    }
}

/// One byte in query encoding: itself, or `%` and its two hex digits.
pub open spec fn escape_byte(b: u8) -> Seq<char> {
    if unreserved(b) {
        seq![b as char]
    } else {
        seq!['%', hex_digit(b / 16), hex_digit(b % 16)]
    }
}

/// A byte sequence in query encoding.
pub open spec fn escape_bytes(bs: Seq<u8>) -> Seq<char>
    decreases bs.len(),
{
    if bs.len() == 0 {
        Seq::empty()
    } else {
        escape_bytes(bs.drop_last()) + escape_byte(bs.last())
    }
}

/// The query encoding of a string: each byte of its UTF-8 encoding.
pub open spec fn encode_spec(s: Seq<char>) -> Seq<char> {
    escape_bytes(encode_utf8(s))
}

/// Whether a character passes through query encoding unescaped.
pub open spec fn unreserved_char(c: char) -> bool {
    (c as u32) < 128 && unreserved(c as u32 as u8)
}

proof fn lemma_escape_concat(a: Seq<u8>, b: Seq<u8>)
    ensures
        escape_bytes(a + b) == escape_bytes(a) + escape_bytes(b),
    decreases b.len(),
{
    if b.len() == 0 {
        assert(a + b =~= a);
        assert(escape_bytes(a) + escape_bytes(b) =~= escape_bytes(a));
    } else {
        lemma_escape_concat(a, b.drop_last());
        assert((a + b).drop_last() =~= a + b.drop_last());
        assert((a + b).last() == b.last());
        assert(escape_bytes(a + b) =~= escape_bytes(a) + escape_bytes(b));
    }
}

/// A string made only of ASCII letters, digits and `-_.~` is its own query
/// encoding.
pub proof fn lemma_encode_unreserved(s: Seq<char>)
    requires
        forall|i: int| 0 <= i < s.len() ==> unreserved_char(#[trigger] s[i]),
    ensures
        encode_spec(s) == s,
    decreases s.len(),
{
    if s.len() == 0 {
        assert(encode_utf8(s) =~= Seq::<u8>::empty());
        assert(encode_spec(s) =~= s);
    } else {
        let c = s[0];
        let v = c as u32;
        assert(unreserved_char(s[0]));
        assert((v & 0x7F) == v) by (bit_vector)
            requires
                v < 128,
        ;
        let rest = s.drop_first();
        assert forall|i: int| 0 <= i < rest.len() implies unreserved_char(#[trigger] rest[i]) by {
            assert(rest[i] == s[i + 1]);
        }
        lemma_encode_unreserved(rest);
        assert(encode_scalar(v) == seq![v as u8]);
        assert(encode_utf8(s) == encode_scalar(v) + encode_utf8(rest));
        lemma_escape_concat(seq![v as u8], encode_utf8(rest));
        assert(escape_bytes(seq![v as u8]) =~= seq![c]) by {
            assert(seq![v as u8].drop_last() =~= Seq::<u8>::empty());
            assert(seq![v as u8].last() == v as u8);
            assert(unreserved(v as u8));
            vstd::utf8::char_u32_cast(c, v);
            assert((v as u8) as u32 == v);
            assert((v as u8) as char == v as char);
            assert(escape_bytes(Seq::<u8>::empty()) =~= Seq::<char>::empty());
        }
        assert(s =~= seq![c] + rest);
    }
}

/// A query parameter: its name, `=`, and its encoded value.
pub open spec fn query_pair(p: (Seq<char>, Seq<char>)) -> Seq<char> {
    p.0 + seq!['='] + encode_spec(p.1)
}

/// Query parameters joined by `&`.
pub open spec fn join_query(ps: Seq<(Seq<char>, Seq<char>)>) -> Seq<char>
    decreases ps.len(),
{
    if ps.len() == 0 {
        Seq::empty()
    } else if ps.len() == 1 {
        query_pair(ps[0])
    } else {
        join_query(ps.drop_last()) + seq!['&'] + query_pair(ps.last())
    }
}

/// The URL of `path` under `base`: the two put together as they are, then
/// `?` and the query where there are parameters.
pub open spec fn url_spec(base: Seq<char>, path: Seq<char>, ps: Seq<(Seq<char>, Seq<char>)>) -> Seq<
    char,
> {
    if ps.len() == 0 {
        base + path
    } else {
        base + path + seq!['?'] + join_query(ps)
    }
}

/// Name and value pairs as character sequences.
pub open spec fn pairs_view(ps: Seq<(String, String)>) -> Seq<(Seq<char>, Seq<char>)> {
    ps.map_values(|p: (String, String)| (p.0@, p.1@))
}

/// The query parameter of an optional filter value.
pub open spec fn opt_pair(name: Seq<char>, token: Option<Seq<char>>) -> Seq<(Seq<char>, Seq<char>)> {
    match token {
        Some(t) => seq![(name, t)],
        None => Seq::empty(),
    }
}

/// The query parameters of a voice filter: each set field under its name, as
/// its token, in the order model, gender, age, use case.
pub open spec fn filter_pairs(f: VoicesV2Filter) -> Seq<(Seq<char>, Seq<char>)> {
    opt_pair(
        "model"@,
        match f.model {
            Some(m) => Some(m.token()),
            None => None,
        },
    ) + opt_pair(
        "gender"@,
        match f.gender {
            Some(g) => Some(g.token()),
            None => None,
        },
    ) + opt_pair(
        "age"@,
        match f.age {
            Some(a) => Some(a.token()),
            None => None,
        },
    ) + opt_pair(
        "use_cases"@,
        match f.use_cases {
            Some(u) => Some(u.token()),
            None => None,
        },
    )
}

fn push_pair(params: &mut Vec<(String, String)>, name: &str, token: &str)
    ensures
        pairs_view(final(params)@) == pairs_view(old(params)@) + seq![(name@, token@)],
{
    params.push((name.to_owned(), token.to_owned()));
    proof {
        assert(pairs_view(final(params)@) =~= pairs_view(old(params)@) + seq![(name@, token@)]);
    }
}

fn filter_params(f: &VoicesV2Filter) -> (r: Vec<(String, String)>)
    ensures
        pairs_view(r@) == filter_pairs(*f),
{
    let mut params: Vec<(String, String)> = Vec::new();
    proof {
        assert(pairs_view(params@) =~= Seq::empty());
    }
    if let Some(m) = f.model {
        push_pair(&mut params, "model", m.as_str());
    }
    if let Some(g) = f.gender {
        push_pair(&mut params, "gender", g.as_str());
    }
    if let Some(a) = f.age {
        push_pair(&mut params, "age", a.as_str());
    }
    if let Some(u) = f.use_cases {
        push_pair(&mut params, "use_cases", u.as_str());
    }
    proof {
        assert(pairs_view(params@) =~= filter_pairs(*f));
    }
    params
}

fn hex_upper(n: u8) -> (c: char)
    requires
        n < 16,
    ensures
        c == hex_digit(n),
{
    if n < 10 {
        (48 + n) as char
    } else {
        (55 + n) as char
    }
}

fn is_unreserved(b: u8) -> (r: bool)
    ensures
        r == unreserved(b),
{
    (0x61 <= b && b <= 0x7a) || (0x41 <= b && b <= 0x5a) || (0x30 <= b && b <= 0x39) || b == 0x2d
        || b == 0x5f || b == 0x2e || b == 0x7e
}

/// Percent-encode a query value: ASCII letters, digits and `-_.~` pass
/// through, every other byte of the UTF-8 encoding becomes `%XX`.
pub fn encode(s: &str) -> (r: String)
    ensures
        r@ == encode_spec(s@),
{
    url_encode(s)
}

fn url_encode(s: &str) -> (r: String)
    ensures
        r@ == encode_spec(s@),
{
    let bytes = s.as_bytes();
    let mut r = String::new();
    let mut i: usize = 0;
    while i < bytes.len()
        invariant
            bytes@ == encode_utf8(s@),
            0 <= i <= bytes@.len(),
            r@ == escape_bytes(bytes@.subrange(0, i as int)),
        decreases bytes@.len() - i,
    {
        let b = bytes[i];
        if is_unreserved(b) {
            push_char(&mut r, b as char);
        } else {
            push_char(&mut r, '%');
            push_char(&mut r, hex_upper(b / 16));
            push_char(&mut r, hex_upper(b % 16));
        }
        proof {
            let sub = bytes@.subrange(0, i + 1);
            assert(sub.drop_last() =~= bytes@.subrange(0, i as int));
            assert(sub.last() == b);
            assert(r@ =~= escape_bytes(sub));
        }
        i = i + 1;
    }
    proof {
        assert(bytes@.subrange(0, bytes@.len() as int) =~= bytes@);
    }
    r
}

/// Whether `p` occurs in `s`.
pub open spec fn has_infix(s: Seq<char>, p: Seq<char>) -> bool {
    exists|i: int| 0 <= i && i + p.len() <= s.len() && #[trigger] s.subrange(i, i + p.len()) == p
}

fn contains_text(s: &str, p: &str) -> (r: bool)
    ensures
        r == has_infix(s@, p@),
{
    let n = s.unicode_len();
    let m = p.unicode_len();
    if m > n {
        return false;
    }
    let mut i: usize = 0;
    while i <= n - m
        invariant
            n == s@.len(),
            m == p@.len(),
            m <= n,
            i <= n - m + 1,
            forall|j: int| 0 <= j < i ==> #[trigger] s@.subrange(j, j + m) != p@,
        decreases n - i,
    {
        let mut k: usize = 0;
        let mut same = true;
        while k < m && same
            invariant
                n == s@.len(),
                m == p@.len(),
                i + m <= n,
                k <= m,
                forall|t: int| 0 <= t < k ==> s@[i + t] == p@[t],
                !same ==> k < m && s@[i + k] != p@[k as int],
            decreases m - k + (if same { 1int } else { 0int }),
        {
            if s.get_char(i + k) != p.get_char(k) {
                same = false;
            } else {
                k = k + 1;
            }
        }
        if same {
            assert(s@.subrange(i as int, i + m) =~= p@);
            return true;
        }
        assert(s@.subrange(i as int, i + m)[k as int] != p@[k as int]);
        i = i + 1;
    }
    false
}

/// The audio format named by a response's content type: mp3 where it
/// mentions `mp3` or `mpeg`, wav otherwise or where there is none.
pub open spec fn format_for(content_type: Option<Seq<char>>) -> AudioFormat {
    match content_type {
        Some(c) => if has_infix(c, "mp3"@) || has_infix(c, "mpeg"@) {
            AudioFormat::Mp3
        } else {
            AudioFormat::Wav
        },
        None => AudioFormat::Wav,
    }
}

/// The audio format named by a response's content type.
pub fn audio_format_for(content_type: Option<&str>) -> (r: AudioFormat)
    ensures
        r == format_for(
            match content_type {
                Some(c) => Some(c@),
                None => None,
            },
        ),
{
    match content_type {
        Some(c) => if contains_text(c, "mp3") || contains_text(c, "mpeg") {
            AudioFormat::Mp3
        } else {
            AudioFormat::Wav
        },
        None => AudioFormat::Wav,
    }
}

/// Whether a status code means success (200 to 299).
pub fn is_success(status: u16) -> (r: bool)
    ensures
        r == (200 <= status <= 299),
{
    200 <= status && status <= 299
}

/// The response of a successful text-to-speech call: the whole body as the
/// audio, its format read from the content type, and the duration as the
/// duration header gave it.
pub fn tts_response(content_type: Option<&str>, duration: Duration, audio_data: Vec<u8>) -> (r:
    TTSResponse)
    ensures
        r.audio_data == audio_data,
        r.duration == duration,
        r.format == format_for(
            match content_type {
                Some(c) => Some(c@),
                None => None,
            },
        ),
{
    TTSResponse { audio_data, duration, format: audio_format_for(content_type) }
}

/// The voices of a voice list as received, in order, or `None` where one of
/// them holds a token that names no value.
pub fn voices_from_wire(ws: Vec<VoiceV2Wire>) -> (r: Option<Vec<VoiceV2>>)
    ensures
        r is Some <==> forall|i: int| 0 <= i < ws@.len() ==> crate::models::voice_decodes(#[trigger] ws@[i]),
        r matches Some(vs) ==> (vs@.len() == ws@.len() && forall|i: int|
            0 <= i < ws@.len() ==> crate::models::voice_from(#[trigger] ws@[i], vs@[i])),
{
    let ghost w0 = ws;
    let mut rest = ws;
    let mut voices: Vec<VoiceV2> = Vec::new();
    let n = rest.len();
    while rest.len() > 0
        invariant
            rest@ == w0@.subrange(w0@.len() - rest@.len(), w0@.len() as int),
            n == w0@.len(),
            w0 == ws,
            voices@.len() + rest@.len() == n,
            forall|i: int| 0 <= i < voices@.len() ==> crate::models::voice_from(#[trigger] w0@[i], voices@[i]),
        decreases rest@.len(),
    {
        let w = rest.remove(0);
        match VoiceV2::from_wire(w) {
            Some(v) => voices.push(v),
            None => {
                assert(w0@[voices@.len() as int] == w);
                return None;
            },
        }
    }
    proof {
        assert forall|i: int| 0 <= i < w0@.len() implies crate::models::voice_decodes(#[trigger] w0@[i]) by {
            assert(crate::models::voice_from(w0@[i], voices@[i]));
        }
    }
    Some(voices)
}

/// Relies on `serde_json::Error`'s `serde::de::Error::custom`: a data error
/// carrying `msg`.
#[verifier::external_body]
fn json_error(msg: &str) -> serde_json::Error {
    <serde_json::Error as serde::de::Error>::custom(msg)
}

/// The result of a voice list call given the parsed body: the voices, or a
/// JSON error where the body did not parse or holds a token that names no
/// value.
pub fn voices_result(parsed: std::result::Result<Vec<VoiceV2Wire>, serde_json::Error>) -> (r:
    Result<Vec<VoiceV2>>)
    ensures
        parsed is Err ==> r matches Err(TypecastError::JsonError(_)),
        parsed matches Ok(ws) ==> (r is Ok <==> forall|i: int|
            0 <= i < ws@.len() ==> crate::models::voice_decodes(#[trigger] ws@[i])),
        parsed matches Ok(ws) ==> (r is Err ==> r matches Err(TypecastError::JsonError(_))),
        parsed matches Ok(ws) ==> (r matches Ok(vs) ==> (vs@.len() == ws@.len() && forall|i: int|
            0 <= i < ws@.len() ==> crate::models::voice_from(#[trigger] ws@[i], vs@[i]))),
{
    match parsed {
        Ok(ws) => match voices_from_wire(ws) {
            Some(vs) => Ok(vs),
            None => Err(TypecastError::JsonError(json_error("unknown variant in voice list"))),
        },
        Err(e) => Err(TypecastError::JsonError(e)),
    }
}

/// The result of a single voice call given the parsed body: the voice, or a
/// JSON error where the body did not parse or holds a token that names no
/// value.
pub fn voice_result(parsed: std::result::Result<VoiceV2Wire, serde_json::Error>) -> (r: Result<
    VoiceV2,
>)
    ensures
        parsed is Err ==> r matches Err(TypecastError::JsonError(_)),
        parsed matches Ok(w) ==> (r is Ok <==> crate::models::voice_decodes(w)),
        parsed matches Ok(w) ==> (r is Err ==> r matches Err(TypecastError::JsonError(_))),
        parsed matches Ok(w) ==> (r matches Ok(v) ==> crate::models::voice_from(w, v)),
{
    match parsed {
        Ok(w) => match VoiceV2::from_wire(w) {
            Some(v) => Ok(v),
            None => Err(TypecastError::JsonError(json_error("unknown variant in voice"))),
        },
        Err(e) => Err(TypecastError::JsonError(e)),
    }
}

} // verus!
