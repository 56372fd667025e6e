use vstd::prelude::*;

use base64::Engine;
use rand::RngCore;
use sha2::Digest;

use crate::ui::{decimal, decimal_text};
use crate::web::{
    append_query_pairs, pair_texts, parse_url, parsed_url, url_path, url_path_of, url_port, url_port_of,
    url_with_query_pairs, UrlError,
};

verus! {

/// The token that the authorization server hands out.
#[derive(Debug, Clone)]
pub struct OAuthToken {
    pub access_token: String,
    pub refresh_token: Option<String>,
    pub token_type: Option<String>,
    pub expires_in: Option<u64>,
    pub scope: Option<String>,
}

/// The registration of this client with the authorization server.
#[derive(Debug, Clone, Copy)]
pub struct OAuthClientConfig<'a> {
    pub client_id: &'a str,
    pub client_secret: &'a str,
    pub redirect_uri: &'a str,
}

/// An OAuth authorization server: where to authorize, where to exchange
/// the code, which scopes to ask for, and extra parameters for both steps.
pub trait OAuthProvider {
    fn authorize_url(&self) -> &str;

    fn token_url(&self) -> &str;

    fn scopes(&self) -> &[&str];

    /// Extra query parameters of the authorization request; by default none.
    fn authorize_extra_params(&self) -> (r: Vec<(String, String)>)
        default_ensures
            r@.len() == 0,
    {
        Vec::new()
    }

    /// Extra form parameters of the token request; by default none.
    fn token_extra_params(&self) -> (r: Vec<(String, String)>)
        default_ensures
            r@.len() == 0,
    {
        Vec::new()
    }
}

// ---------------------------------------------------------------------------
// Random values, hex, base64 and SHA-256

/// The lower-case hexadecimal digit of `d` (0 <= d < 16).
pub open spec fn hex_digit(d: int) -> char {
    if d < 10 {
        (48 + d) as char
    } else {
        (87 + d) as char
    }
}

/// Each byte as two lower-case hexadecimal digits, high nibble first.
pub open spec fn hex_text(bytes: Seq<u8>) -> Seq<char>
    decreases bytes.len(),
{
    if bytes.len() == 0 {
        Seq::empty()
    } else {
        seq![hex_digit(bytes[0] as int / 16), hex_digit(bytes[0] as int % 16)] + hex_text(bytes.drop_first())
    }
}

/// A lower-case hexadecimal digit.
pub open spec fn is_hex_char(c: char) -> bool {
    (48 <= c as int <= 57) || (97 <= c as int <= 102)
}

/// A text made of lower-case hexadecimal digits only.
pub open spec fn is_hex_word(s: Seq<char>) -> bool {
    forall|i: int| 0 <= i < s.len() ==> #[trigger] is_hex_char(s[i])
}

/// Hex text is twice as long as its bytes and holds hexadecimal digits only.
pub proof fn lemma_hex_text_shape(bytes: Seq<u8>)
    ensures
        hex_text(bytes).len() == 2 * bytes.len(),
        is_hex_word(hex_text(bytes)),
    decreases bytes.len(),
{
    if bytes.len() > 0 {
        lemma_hex_text_shape(bytes.drop_first());
        let head = seq![hex_digit(bytes[0] as int / 16), hex_digit(bytes[0] as int % 16)];
        let rest = hex_text(bytes.drop_first());
        assert(hex_text(bytes) == head + rest);
        assert forall|i: int| 0 <= i < hex_text(bytes).len() implies #[trigger] is_hex_char(
            hex_text(bytes)[i],
        ) by {
            if i >= 2 {
                assert(hex_text(bytes)[i] == rest[i - 2]);
            }
        }
    }
}

/// The character of the 6-bit value `v` in the URL-safe base64 alphabet
/// (RFC 4648, section 5): `A`-`Z`, `a`-`z`, `0`-`9`, `-`, `_`.
pub open spec fn base64_url_char(v: int) -> char {
    if v < 26 {
        (65 + v) as char
    } else if v < 52 {
        (71 + v) as char
    } else if v < 62 {
        (v - 4) as char
    } else if v == 62 {
        '-'
    } else {
        '_'
    }
}

/// The URL-safe base64 encoding of `bytes` without padding: each group of
/// three bytes becomes four characters, a final group of two bytes three
/// characters and a final single byte two characters.
pub open spec fn base64_url_text(bytes: Seq<u8>) -> Seq<char>
    decreases bytes.len(),
{
    if bytes.len() == 0 {
        Seq::empty()
    } else if bytes.len() == 1 {
        let b0 = bytes[0] as int;
        seq![base64_url_char(b0 / 4), base64_url_char((b0 % 4) * 16)]
    } else if bytes.len() == 2 {
        let b0 = bytes[0] as int;
        let b1 = bytes[1] as int;
        seq![
            base64_url_char(b0 / 4),
            base64_url_char((b0 % 4) * 16 + b1 / 16),
            base64_url_char((b1 % 16) * 4),
        ]
    } else {
        let b0 = bytes[0] as int;
        let b1 = bytes[1] as int;
        let b2 = bytes[2] as int;
        seq![
            base64_url_char(b0 / 4),
            base64_url_char((b0 % 4) * 16 + b1 / 16),
            base64_url_char((b1 % 16) * 4 + b2 / 64),
            base64_url_char(b2 % 64),
        ] + base64_url_text(bytes.subrange(3, bytes.len() as int))
    }
}

/// A character of the URL-safe base64 alphabet.
pub open spec fn is_base64_url_char(c: char) -> bool {
    (65 <= c as int <= 90) || (97 <= c as int <= 122) || (48 <= c as int <= 57) || c == '-'
        || c == '_'
}

/// A text made of URL-safe base64 characters only.
pub open spec fn is_base64_url_word(s: Seq<char>) -> bool {
    forall|i: int| 0 <= i < s.len() ==> #[trigger] is_base64_url_char(s[i])
}

/// Each 6-bit value has a character of the URL-safe alphabet.
pub proof fn lemma_base64_url_char(v: int)
    requires
        0 <= v < 64,
    ensures
        is_base64_url_char(base64_url_char(v)),
{
}

/// The unpadded URL-safe base64 text of `n` bytes has `(4n + 2) / 3`
/// characters (four for every three bytes, rounded up), all of them from the
/// URL-safe alphabet.
pub proof fn lemma_base64_url_text_shape(bytes: Seq<u8>)
    ensures
        base64_url_text(bytes).len() == (4 * bytes.len() + 2) / 3,
        is_base64_url_word(base64_url_text(bytes)),
    decreases bytes.len(),
{
    let t = base64_url_text(bytes);
    if bytes.len() == 0 {
    } else if bytes.len() == 1 {
        let b0 = bytes[0] as int;
        lemma_base64_url_char(b0 / 4);
        lemma_base64_url_char((b0 % 4) * 16);
    } else if bytes.len() == 2 {
        let b0 = bytes[0] as int;
        let b1 = bytes[1] as int;
        lemma_base64_url_char(b0 / 4);
        lemma_base64_url_char((b0 % 4) * 16 + b1 / 16);
        lemma_base64_url_char((b1 % 16) * 4);
    } else {
        let b0 = bytes[0] as int;
        let b1 = bytes[1] as int;
        let b2 = bytes[2] as int;
        let rest = bytes.subrange(3, bytes.len() as int);
        lemma_base64_url_text_shape(rest);
        lemma_base64_url_char(b0 / 4);
        lemma_base64_url_char((b0 % 4) * 16 + b1 / 16);
        lemma_base64_url_char((b1 % 16) * 4 + b2 / 64);
        lemma_base64_url_char(b2 % 64);
        let head = seq![
            base64_url_char(b0 / 4),
            base64_url_char((b0 % 4) * 16 + b1 / 16),
            base64_url_char((b1 % 16) * 4 + b2 / 64),
            base64_url_char(b2 % 64),
        ];
        let tail = base64_url_text(rest);
        assert(t == head + tail);
        assert forall|i: int| 0 <= i < t.len() implies #[trigger] is_base64_url_char(t[i]) by {
            if i >= 4 {
                assert(t[i] == tail[i - 4]);
            }
        }
    }
}

/// The SHA-256 digest that the `sha2` crate computes for `bytes`.
pub uninterp spec fn sha256_digest(bytes: Seq<u8>) -> Seq<u8>;

/// Calls `rand_core::RngCore::try_fill_bytes` of `rand::rngs::OsRng` on `n`
/// zero bytes, and hands them back when the operating system supplied them.
/// The contract states the length only: the bytes, and whether the operating
/// system supplies them, do not depend on the argument.
#[verifier::external_body]
fn random_bytes(n: usize) -> (r: Option<Vec<u8>>)
    ensures
        r matches Some(v) ==> v@.len() == n,
{
    let mut bytes = vec![0u8; n];
    match rand::rngs::OsRng.try_fill_bytes(&mut bytes) {
        Ok(()) => Some(bytes),
        Err(_) => None,
    }
}

/// Calls `hex::encode`, which writes each byte as two lower-case hexadecimal
/// digits, high nibble first (as its documentation states).
#[verifier::external_body]
pub(crate) fn hex_encode(data: &[u8]) -> (r: String)
    ensures
        r@ == hex_text(data@),
{
    hex::encode(data)
}

/// Calls `base64::engine::general_purpose::URL_SAFE_NO_PAD.encode`, which
/// writes the bytes in the URL-safe alphabet of RFC 4648 without padding.
#[verifier::external_body]
pub(crate) fn base64_url_encode(data: &[u8]) -> (r: String)
    ensures
        r@ == base64_url_text(data@),
{
    base64::engine::general_purpose::URL_SAFE_NO_PAD.encode(data)
}

/// Calls `sha2::Sha256::digest` and copies the digest into a vector. The
/// contract names the digest, a function of the bytes, and states its length
/// of 32 bytes.
#[verifier::external_body]
pub(crate) fn sha256(data: &[u8]) -> (r: Vec<u8>)
    ensures
        r@ == sha256_digest(data@),
        r@.len() == 32,
{
    sha2::Sha256::digest(data).to_vec()
}

/// The S256 code challenge of a PKCE code verifier: the URL-safe base64
/// encoding, without padding, of the SHA-256 digest of the verifier's bytes.
pub open spec fn s256_challenge(verifier: Seq<char>) -> Seq<char> {
    base64_url_text(sha256_digest(vstd::utf8::encode_utf8(verifier)))
}

/// A state token: 32 lower-case hexadecimal digits.
pub open spec fn is_state_token(s: Seq<char>) -> bool {
    s.len() == 32 && is_hex_word(s)
}

/// A PKCE code verifier or challenge as RFC 7636 has them here: 43
/// characters of the URL-safe base64 alphabet.
pub open spec fn is_pkce_word(s: Seq<char>) -> bool {
    s.len() == 43 && is_base64_url_word(s)
}

/// A fresh value for the `state` parameter: 16 random bytes in hexadecimal,
/// or nothing when the operating system supplies no random bytes.
pub fn gen_state() -> (r: Option<String>)
    ensures
        r matches Some(s) ==> {
            &&& exists|bytes: Seq<u8>| bytes.len() == 16 && s@ == #[trigger] hex_text(bytes)
            &&& is_state_token(s@)
        },
{
    match random_bytes(16) {
        None => None,
        Some(bytes) => {
            let r = hex_encode(bytes.as_slice());
            proof {
                lemma_hex_text_shape(bytes@);
            }
            Some(r)
        },
    }
}

/// The PKCE pair made from the random bytes `seed`: the code verifier is the
/// bytes in URL-safe base64 without padding, and the code challenge is the
/// S256 challenge of that verifier, 43 URL-safe characters.
pub fn pkce_pair(seed: &[u8]) -> (r: (String, String))
    ensures
        r.0@ == base64_url_text(seed@),
        r.1@ == s256_challenge(r.0@),
        is_pkce_word(r.1@),
{
    let verifier = base64_url_encode(seed);
    let digest = sha256(verifier.as_str().as_bytes());
    let challenge = base64_url_encode(digest.as_slice());
    proof {
        lemma_base64_url_text_shape(digest@);
    }
    (verifier, challenge)
}

/// A fresh PKCE pair (code verifier, code challenge) made from 32 random
/// bytes, or nothing when the operating system supplies no random bytes.
/// Both are 43 URL-safe characters.
pub fn gen_pkce() -> (r: Option<(String, String)>)
    ensures
        r matches Some(pair) ==> {
            &&& exists|seed: Seq<u8>| seed.len() == 32 && pair.0@ == #[trigger] base64_url_text(seed)
            &&& pair.1@ == s256_challenge(pair.0@)
            &&& is_pkce_word(pair.0@)
            &&& is_pkce_word(pair.1@)
        },
{
    match random_bytes(32) {
        None => None,
        Some(seed) => {
            let pair = pkce_pair(seed.as_slice());
            proof {
                lemma_base64_url_text_shape(seed@);
            }
            Some(pair)
        },
    }
}

// ---------------------------------------------------------------------------
// The authorization request

/// The texts of the strings in a slice.
pub open spec fn str_texts(v: Seq<&str>) -> Seq<Seq<char>> {
    v.map_values(|s: &str| s@)
}

/// The parts joined with one space between each two.
pub open spec fn space_joined(parts: Seq<Seq<char>>) -> Seq<char>
    decreases parts.len(),
{
    if parts.len() == 0 {
        Seq::empty()
    } else if parts.len() == 1 {
        parts[0]
    } else {
        space_joined(parts.drop_last()) + " "@ + parts.last()
    }
}

/// The scopes joined with single spaces, as the `scope` parameter lists them.
pub fn join_scopes(scopes: &[&str]) -> (r: String)
    ensures
        r@ == space_joined(str_texts(scopes@)),
{
    let mut r = String::new();
    let n: usize = scopes.len();
    let ghost parts = str_texts(scopes@);
    let mut i: usize = 0;
    while i < n
        invariant
            n == scopes@.len(),
            parts == str_texts(scopes@),
            i <= n,
            r@ == space_joined(parts.take(i as int)),
        decreases n - i,
    {
        assert(parts.take(i + 1).drop_last() =~= parts.take(i as int));
        if i != 0 {
            r.append(" ");
        } else {
            assert(r@ == Seq::<char>::empty());
        }
        r.append(scopes[i]);
        i = i + 1;
    }
    assert(parts.take(n as int) =~= parts);
    r
}

/// The query parameters of the authorization request, in order: client id,
/// `response_type=code`, redirect URI, state, code challenge,
/// `code_challenge_method=S256`, the scope when it is not empty, and the
/// provider's extra parameters.
pub open spec fn authorize_pairs(
    client_id: Seq<char>,
    redirect_uri: Seq<char>,
    state: Seq<char>,
    challenge: Seq<char>,
    scope: Seq<char>,
    extra: Seq<(Seq<char>, Seq<char>)>,
) -> Seq<(Seq<char>, Seq<char>)> {
    seq![
        ("client_id"@, client_id),
        ("response_type"@, "code"@),
        ("redirect_uri"@, redirect_uri),
        ("state"@, state),
        ("code_challenge"@, challenge),
        ("code_challenge_method"@, "S256"@),
    ] + (if scope.len() == 0 {
        Seq::empty()
    } else {
        seq![("scope"@, scope)]
    }) + extra
}

fn text_pair(key: &str, value: &str) -> (r: (String, String))
    ensures
        r.0@ == key@,
        r.1@ == value@,
{
    (String::from_str(key), String::from_str(value))
}

/// The query parameters of the authorization request (see `authorize_pairs`).
pub fn authorize_query(
    client_id: &str,
    redirect_uri: &str,
    state: &str,
    challenge: &str,
    scope: &str,
    extra: Vec<(String, String)>,
) -> (r: Vec<(String, String)>)
    ensures
        pair_texts(r@) == authorize_pairs(
            client_id@,
            redirect_uri@,
            state@,
            challenge@,
            scope@,
            pair_texts(extra@),
        ),
{
    let mut extra = extra;
    let ghost extra0 = extra@;
    let mut pairs: Vec<(String, String)> = Vec::new();
    pairs.push(text_pair("client_id", client_id));
    pairs.push(text_pair("response_type", "code"));
    pairs.push(text_pair("redirect_uri", redirect_uri));
    pairs.push(text_pair("state", state));
    pairs.push(text_pair("code_challenge", challenge));
    pairs.push(text_pair("code_challenge_method", "S256"));
    if !scope.is_empty() {
        pairs.push(text_pair("scope", scope));
    }
    let ghost with_scope = pairs@;
    pairs.append(&mut extra);
    proof {
        let spec_pairs = authorize_pairs(
            client_id@,
            redirect_uri@,
            state@,
            challenge@,
            scope@,
            pair_texts(extra0),
        );
        assert(pairs@ == with_scope + extra0);
        assert(pair_texts(pairs@) =~= spec_pairs);
    }
    pairs
}

/// The authorization URL: the provider's authorization endpoint with the
/// query parameters of `authorize_pairs` appended, the scope being the
/// provider's scopes joined with spaces. Fails exactly when the endpoint is
/// not a URL.
pub fn authorize_url_for(
    authorize_endpoint: &str,
    scopes: &[&str],
    client_id: &str,
    redirect_uri: &str,
    state: &str,
    challenge: &str,
    extra: Vec<(String, String)>,
) -> (r: Result<String, UrlError>)
    ensures
        match parsed_url(authorize_endpoint@) {
            Err(e) => r == Err::<String, UrlError>(e),
            Ok(_) => r is Ok && r->Ok_0@ == url_with_query_pairs(
                authorize_endpoint@,
                authorize_pairs(
                    client_id@,
                    redirect_uri@,
                    state@,
                    challenge@,
                    space_joined(str_texts(scopes@)),
                    pair_texts(extra@),
                ),
            ),
        },
{
    match parse_url(authorize_endpoint) {
        Err(e) => Err(e),
        Ok(_) => {
            let scope = join_scopes(scopes);
            let pairs = authorize_query(
                client_id,
                redirect_uri,
                state,
                challenge,
                scope.as_str(),
                extra,
            );
            Ok(append_query_pairs(authorize_endpoint, &pairs))
        },
    }
}

/// The port the callback server listens on when the redirect URI names none.
pub const DEFAULT_CALLBACK_PORT: u16 = 8080;

/// The port named, or the default callback port when none is named.
pub open spec fn port_or_default_spec(port: Option<u16>) -> u16 {
    match port {
        Some(p) => p,
        None => DEFAULT_CALLBACK_PORT,
    }
}

/// The port of the redirect URI, or the default callback port.
pub open spec fn callback_port(redirect_uri: Seq<char>) -> u16 {
    port_or_default_spec(url_port_of(redirect_uri))
}

/// The port to listen on: the one named, or the default callback port when
/// none is named.
pub fn port_or_default(port: Option<u16>) -> (r: u16)
    ensures
        r == port_or_default_spec(port),
        port matches Some(p) ==> r == p,
        port is None ==> r == 8080,
{
    match port {
        Some(p) => p,
        None => DEFAULT_CALLBACK_PORT,
    }
}

/// A port that the redirect URI names is the port the callback server
/// listens on, whatever its number; 8080 is used only when it names none.
pub proof fn lemma_named_port_is_used(redirect_uri: Seq<char>, p: u16)
    ensures
        port_or_default_spec(Some(p)) == p,
        port_or_default_spec(None) == 8080,
        url_port_of(redirect_uri) == Some(p) ==> callback_port(redirect_uri) == p,
        url_port_of(redirect_uri) is None ==> callback_port(redirect_uri) == 8080,
{
}

/// Where the callback server listens for the redirect: the redirect URI's
/// port (the default callback port when it names none) and its path. Fails
/// exactly when the redirect URI is not a URL.
pub fn callback_listener(redirect_uri: &str) -> (r: Result<(u16, String), UrlError>)
    ensures
        match parsed_url(redirect_uri@) {
            Err(e) => r is Err && r->Err_0 == e,
            Ok(_) => r is Ok && r->Ok_0.0 == callback_port(redirect_uri@) && r->Ok_0.1@
                == url_path_of(redirect_uri@),
        },
{
    match parse_url(redirect_uri) {
        Err(e) => Err(e),
        Ok(_) => {
            let port: u16 = port_or_default(url_port(redirect_uri));
            Ok((port, url_path(redirect_uri)))
        },
    }
}

/// The local address the callback server binds: the loopback address and
/// the port.
pub fn listen_address(port: u16) -> (r: String)
    ensures
        r@ == "127.0.0.1:"@ + decimal_text(port as nat),
{
    let mut r = String::from_str("127.0.0.1:");
    let digits = decimal(port as usize);
    r.append(digits.as_str());
    r
}

// ---------------------------------------------------------------------------
// The token request

/// The form parameters of the token request, in order: the grant type, the
/// client id and secret, the code, the redirect URI, the code verifier, and
/// the provider's extra parameters.
pub open spec fn token_pairs(
    client_id: Seq<char>,
    client_secret: Seq<char>,
    code: Seq<char>,
    redirect_uri: Seq<char>,
    code_verifier: Seq<char>,
    extra: Seq<(Seq<char>, Seq<char>)>,
) -> Seq<(Seq<char>, Seq<char>)> {
    seq![
        ("grant_type"@, "authorization_code"@),
        ("client_id"@, client_id),
        ("client_secret"@, client_secret),
        ("code"@, code),
        ("redirect_uri"@, redirect_uri),
        ("code_verifier"@, code_verifier),
    ] + extra
}

/// The form parameters of the token request (see `token_pairs`).
pub fn token_request_params(
    cfg: &OAuthClientConfig,
    code: &str,
    code_verifier: &str,
    extra: Vec<(String, String)>,
) -> (r: Vec<(String, String)>)
    ensures
        pair_texts(r@) == token_pairs(
            cfg.client_id@,
            cfg.client_secret@,
            code@,
            cfg.redirect_uri@,
            code_verifier@,
            pair_texts(extra@),
        ),
{
    let mut extra = extra;
    let ghost extra0 = extra@;
    let mut pairs: Vec<(String, String)> = Vec::new();
    pairs.push(text_pair("grant_type", "authorization_code"));
    pairs.push(text_pair("client_id", cfg.client_id));
    pairs.push(text_pair("client_secret", cfg.client_secret));
    pairs.push(text_pair("code", code));
    pairs.push(text_pair("redirect_uri", cfg.redirect_uri));
    pairs.push(text_pair("code_verifier", code_verifier));
    let ghost fixed = pairs@;
    pairs.append(&mut extra);
    proof {
        assert(pairs@ == fixed + extra0);
        assert(pair_texts(pairs@) =~= token_pairs(
            cfg.client_id@,
            cfg.client_secret@,
            code@,
            cfg.redirect_uri@,
            code_verifier@,
            pair_texts(extra0),
        ));
    }
    pairs
}

/// The token from the reply to the token request: the reply read as JSON
/// when that succeeded, else the reply read as a form when that succeeded,
/// else an error that quotes the form reading's error and the reply.
pub fn token_from_reply(
    json: Option<OAuthToken>,
    form: Result<OAuthToken, String>,
    body: &str,
) -> (r: Result<OAuthToken, String>)
    ensures
        match json {
            Some(t) => r == Ok::<OAuthToken, String>(t),
            None => match form {
                Ok(t) => r == Ok::<OAuthToken, String>(t),
                Err(e) => r is Err && r->Err_0@
                    == "Failed to parse token response as JSON or form-encoded: "@ + e@
                    + ". Body: "@ + body@,
            },
        },
{
    match json {
        Some(t) => Ok(t),
        None => match form {
            Ok(t) => Ok(t),
            Err(e) => {
                let mut msg = String::from_str(
                    "Failed to parse token response as JSON or form-encoded: ",
                );
                msg.append(e.as_str());
                msg.append(". Body: ");
                msg.append(body);
                Err(msg)
            },
        },
    }
}

// ---------------------------------------------------------------------------
// The redirect back from the authorization server

/// The value of the first parameter named `key`, if any.
pub open spec fn first_value(ps: Seq<(Seq<char>, Seq<char>)>, key: Seq<char>) -> Option<Seq<char>>
    decreases ps.len(),
{
    if ps.len() == 0 {
        None
    } else if ps[0].0 == key {
        Some(ps[0].1)
    } else {
        first_value(ps.drop_first(), key)
    }
}

/// The first parameter named `key` decides: when there is one, the value
/// found is its value and no earlier parameter has that name; when there is
/// none, no parameter has that name.
pub proof fn lemma_first_value_is_first_match(ps: Seq<(Seq<char>, Seq<char>)>, key: Seq<char>)
    ensures
        first_value(ps, key) is None <==> (forall|i: int| 0 <= i < ps.len() ==> #[trigger] ps[i].0
            != key),
        first_value(ps, key) matches Some(v) ==> exists|i: int|
            0 <= i < ps.len() && #[trigger] ps[i] == (key, v) && (forall|j: int|
                0 <= j < i ==> #[trigger] ps[j].0 != key),
    decreases ps.len(),
{
    if ps.len() > 0 {
        let rest = ps.drop_first();
        lemma_first_value_is_first_match(rest, key);
        if ps[0].0 == key {
            assert(ps[0] == (key, ps[0].1));
        } else {
            assert forall|i: int| 0 <= i < rest.len() implies #[trigger] rest[i] == ps[i + 1] by {}
            if first_value(rest, key) is None {
                assert forall|i: int| 0 <= i < ps.len() implies #[trigger] ps[i].0 != key by {
                    if i > 0 {
                        assert(ps[i] == rest[i - 1]);
                    }
                }
            } else {
                let v = first_value(rest, key).unwrap();
                let i = choose|i: int|
                    0 <= i < rest.len() && #[trigger] rest[i] == (key, v) && (forall|j: int|
                        0 <= j < i ==> #[trigger] rest[j].0 != key);
                assert(ps[i + 1] == (key, v));
                assert forall|j: int| 0 <= j < i + 1 implies #[trigger] ps[j].0 != key by {
                    if j > 0 {
                        assert(ps[j] == rest[j - 1]);
                    }
                }
            }
            if forall|i: int| 0 <= i < ps.len() ==> #[trigger] ps[i].0 != key {
                assert forall|i: int| 0 <= i < rest.len() implies #[trigger] rest[i].0 != key by {
                    assert(rest[i] == ps[i + 1]);
                }
            }
        }
    }
}

/// The authorization request asks for a code with the S256 challenge
/// method and carries the client id, the redirect URI, the state and the
/// challenge under their names; the scope is there under its name exactly
/// when it is not empty; the provider's extra parameters come last, in their
/// order.
pub proof fn lemma_authorize_pairs_carry_the_request(
    client_id: Seq<char>,
    redirect_uri: Seq<char>,
    state: Seq<char>,
    challenge: Seq<char>,
    scope: Seq<char>,
    extra: Seq<(Seq<char>, Seq<char>)>,
)
    ensures
        ({
            let ps = authorize_pairs(client_id, redirect_uri, state, challenge, scope, extra);
            &&& first_value(ps, "response_type"@) == Some("code"@)
            &&& first_value(ps, "code_challenge_method"@) == Some("S256"@)
            &&& first_value(ps, "client_id"@) == Some(client_id)
            &&& first_value(ps, "redirect_uri"@) == Some(redirect_uri)
            &&& first_value(ps, "state"@) == Some(state)
            &&& first_value(ps, "code_challenge"@) == Some(challenge)
            &&& scope.len() > 0 ==> first_value(ps, "scope"@) == Some(scope)
            &&& scope.len() == 0 ==> first_value(ps, "scope"@) == first_value(extra, "scope"@)
            &&& ps.len() == 6 + (if scope.len() == 0 { 0int } else { 1int }) + extra.len()
            &&& ps.subrange(ps.len() - extra.len(), ps.len() as int) == extra
        }),
{
    reveal_strlit("client_id");
    reveal_strlit("response_type");
    reveal_strlit("redirect_uri");
    reveal_strlit("state");
    reveal_strlit("code_challenge");
    reveal_strlit("code_challenge_method");
    reveal_strlit("scope");
    reveal_strlit("code");
    reveal_strlit("S256");
    let ps = authorize_pairs(client_id, redirect_uri, state, challenge, scope, extra);
    assert("client_id"@.len() == 9);
    assert("response_type"@.len() == 13);
    assert("redirect_uri"@.len() == 12);
    assert("state"@.len() == 5);
    assert("code_challenge"@.len() == 14);
    assert("code_challenge_method"@.len() == 21);
    assert("scope"@.len() == 5);
    assert("state"@[1] == 't' && "scope"@[1] == 'c');
    let p0 = ("client_id"@, client_id);
    let p1 = ("response_type"@, "code"@);
    let p2 = ("redirect_uri"@, redirect_uri);
    let p3 = ("state"@, state);
    let p4 = ("code_challenge"@, challenge);
    let p5 = ("code_challenge_method"@, "S256"@);
    let sp: Seq<(Seq<char>, Seq<char>)> = if scope.len() == 0 {
        Seq::empty()
    } else {
        seq![("scope"@, scope)]
    };
    let t = sp + extra;
    let t5 = seq![p5] + t;
    let t4 = seq![p4] + t5;
    let t3 = seq![p3] + t4;
    let t2 = seq![p2] + t3;
    let t1 = seq![p1] + t2;
    assert(ps =~= seq![p0] + t1);
    lemma_first_value_cons(p0, t1);
    lemma_first_value_cons(p1, t2);
    lemma_first_value_cons(p2, t3);
    lemma_first_value_cons(p3, t4);
    lemma_first_value_cons(p4, t5);
    lemma_first_value_cons(p5, t);
    if scope.len() == 0 {
        assert(t =~= extra);
    } else {
        assert(t =~= seq![("scope"@, scope)] + extra);
        lemma_first_value_cons(("scope"@, scope), extra);
    }
    assert(ps.subrange(ps.len() - extra.len(), ps.len() as int) =~= extra);
}

/// The first parameter of a list decides the value of its name; other names
/// are looked up in the rest.
pub proof fn lemma_first_value_cons(p: (Seq<char>, Seq<char>), rest: Seq<(Seq<char>, Seq<char>)>)
    ensures
        forall|key: Seq<char>| #[trigger]
            first_value(seq![p] + rest, key) == if p.0 == key {
                Some(p.1)
            } else {
                first_value(rest, key)
            },
{
    assert((seq![p] + rest).drop_first() =~= rest);
    assert((seq![p] + rest)[0] == p);
}

/// The token request exchanges an authorization code: it carries the grant
/// type `authorization_code`, the client id and secret, the code, the
/// redirect URI and the code verifier under their names, and the provider's
/// extra parameters last, in their order.
pub proof fn lemma_token_pairs_carry_the_exchange(
    client_id: Seq<char>,
    client_secret: Seq<char>,
    code: Seq<char>,
    redirect_uri: Seq<char>,
    code_verifier: Seq<char>,
    extra: Seq<(Seq<char>, Seq<char>)>,
)
    ensures
        ({
            let ps = token_pairs(client_id, client_secret, code, redirect_uri, code_verifier, extra);
            &&& first_value(ps, "grant_type"@) == Some("authorization_code"@)
            &&& first_value(ps, "client_id"@) == Some(client_id)
            &&& first_value(ps, "client_secret"@) == Some(client_secret)
            &&& first_value(ps, "code"@) == Some(code)
            &&& first_value(ps, "redirect_uri"@) == Some(redirect_uri)
            &&& first_value(ps, "code_verifier"@) == Some(code_verifier)
            &&& ps.len() == 6 + extra.len()
            &&& ps.subrange(6, ps.len() as int) == extra
        }),
{
    reveal_strlit("grant_type");
    reveal_strlit("client_id");
    reveal_strlit("client_secret");
    reveal_strlit("code");
    reveal_strlit("redirect_uri");
    reveal_strlit("code_verifier");
    reveal_strlit("authorization_code");
    let ps = token_pairs(client_id, client_secret, code, redirect_uri, code_verifier, extra);
    assert("grant_type"@.len() == 10);
    assert("client_id"@.len() == 9);
    assert("client_secret"@.len() == 13);
    assert("code"@.len() == 4);
    assert("redirect_uri"@.len() == 12);
    assert("code_verifier"@.len() == 13);
    assert("client_secret"@[1] == 'l' && "code_verifier"@[1] == 'o');
    let p0 = ("grant_type"@, "authorization_code"@);
    let p1 = ("client_id"@, client_id);
    let p2 = ("client_secret"@, client_secret);
    let p3 = ("code"@, code);
    let p4 = ("redirect_uri"@, redirect_uri);
    let p5 = ("code_verifier"@, code_verifier);
    let t5 = seq![p5] + extra;
    let t4 = seq![p4] + t5;
    let t3 = seq![p3] + t4;
    let t2 = seq![p2] + t3;
    let t1 = seq![p1] + t2;
    assert(ps =~= seq![p0] + t1);
    lemma_first_value_cons(p0, t1);
    lemma_first_value_cons(p1, t2);
    lemma_first_value_cons(p2, t3);
    lemma_first_value_cons(p3, t4);
    lemma_first_value_cons(p4, t5);
    lemma_first_value_cons(p5, extra);
    assert(ps.subrange(6, ps.len() as int) =~= extra);
}

/// The text of an optional string.
pub open spec fn option_text(o: Option<String>) -> Option<Seq<char>> {
    match o {
        Some(s) => Some(s@),
        None => None,
    }
}

/// The value of the first query parameter named `key`, if any.
pub fn query_value(params: &Vec<(String, String)>, key: &str) -> (r: Option<String>)
    ensures
        option_text(r) == first_value(pair_texts(params@), key@),
{
    let k = String::from_str(key);
    let ghost ps = pair_texts(params@);
    let n: usize = params.len();
    let mut i: usize = 0;
    assert(ps.skip(0) =~= ps);
    while i < n
        invariant
            n == params@.len(),
            ps == pair_texts(params@),
            k@ == key@,
            i <= n,
            first_value(ps, key@) == first_value(ps.skip(i as int), key@),
        decreases n - i,
    {
        assert(ps.skip(i as int)[0] == pair_texts(params@)[i as int]);
        if params[i].0 == k {
            return Some(params[i].1.clone());
        }
        assert(ps.skip(i as int).drop_first() =~= ps.skip(i + 1));
        i = i + 1;
    }
    assert(ps.skip(n as int).len() == 0);
    None
}

/// What the redirect to the callback carries.
#[derive(Debug)]
pub enum CallbackOutcome {
    /// The server reports an error (the `error` parameter).
    Denied(String),
    /// The `state` parameter is missing or is not the one sent.
    StateMismatch,
    /// The authorization code, with the expected state.
    Authorized(String),
    /// The expected state but no code.
    MissingCode,
}

/// Reads the redirect's query parameters: an `error` parameter wins; then a
/// `state` other than the expected one (or none) is refused; then the `code`
/// is taken when there is one.
pub fn callback_outcome(params: &Vec<(String, String)>, expected_state: &str) -> (r:
    CallbackOutcome)
    ensures
        ({
            let ps = pair_texts(params@);
            match r {
                CallbackOutcome::Denied(e) => first_value(ps, "error"@) == Some(e@),
                CallbackOutcome::StateMismatch => first_value(ps, "error"@) is None && first_value(
                    ps,
                    "state"@,
                ) != Some(expected_state@),
                CallbackOutcome::Authorized(c) => first_value(ps, "error"@) is None && first_value(
                    ps,
                    "state"@,
                ) == Some(expected_state@) && first_value(ps, "code"@) == Some(c@),
                CallbackOutcome::MissingCode => first_value(ps, "error"@) is None && first_value(
                    ps,
                    "state"@,
                ) == Some(expected_state@) && first_value(ps, "code"@) is None,
            }
        }),
{
    if let Some(err) = query_value(params, "error") {
        return CallbackOutcome::Denied(err);
    }
    let code = query_value(params, "code");
    let state = query_value(params, "state");
    let expected = String::from_str(expected_state);
    let state_ok = match state {
        Some(s) => s == expected,
        None => false,
    };
    if !state_ok {
        return CallbackOutcome::StateMismatch;
    }
    match code {
        Some(c) => CallbackOutcome::Authorized(c),
        None => CallbackOutcome::MissingCode,
    }
}

/// The page shown in the browser after the redirect.
pub open spec fn callback_page_text(outcome: CallbackOutcome) -> Seq<char> {
    match outcome {
        CallbackOutcome::Denied(_) => "Authorization failed (error param). You can close this tab."@,
        CallbackOutcome::StateMismatch => "Invalid state. You can close this tab."@,
        CallbackOutcome::Authorized(_) => "Authorization successful! You can close this tab and return to the CLI."@,
        CallbackOutcome::MissingCode => "Missing code. You can close this tab."@,
    }
}

impl CallbackOutcome {
    /// The page shown in the browser for this outcome.
    pub fn page(&self) -> (r: &'static str)
        ensures
            r@ == callback_page_text(*self),
    {
        match self {
            CallbackOutcome::Denied(_) => "Authorization failed (error param). You can close this tab.",
            CallbackOutcome::StateMismatch => "Invalid state. You can close this tab.",
            CallbackOutcome::Authorized(_) => "Authorization successful! You can close this tab and return to the CLI.",
            CallbackOutcome::MissingCode => "Missing code. You can close this tab.",
        }
    }

    /// The authorization code, when the redirect carries one with the
    /// expected state.
    pub fn code(&self) -> (r: Option<String>)
        ensures
            option_text(r) == match *self {
                CallbackOutcome::Authorized(c) => Some(c@),
                _ => None::<Seq<char>>,
            },
    {
        match self {
            CallbackOutcome::Authorized(c) => Some(c.clone()),
            _ => None,
        }
    }
}

} // verus!
