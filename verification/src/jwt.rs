//! The claims model and the credential codec.
//!
//! A `WebClaims` value asserts one authenticated session: who the principal
//! is and during which window the assertion holds. `WebJwt` turns claims
//! into an opaque signed token string and back, rejecting any token whose
//! signature does not verify, that is malformed, or whose validity window
//! has passed. The transport side binds a token to a cookie with a fixed
//! name and a lifetime derived from the same TTL constant as the claims.

use vstd::prelude::*;
use vstd::string::StrSliceExecFns;
use vstd::string::StringExecFns;

use crate::error::{redirect_path_spec, WebAppError};
use crate::token::{
    bytes_hex, bytes_to_hex, field_of, hex16_of, hmac_sha256, lemma_bytes_hex_len,
    lemma_hex16_len, lemma_parse_field_at, lemma_parse_hex16_at, mac_of, parse_field,
    parse_field_at, parse_hex16, parse_hex16_at, push_hex16, string_push,
};

verus! {

/// How long a credential stays valid, in seconds. The claims window and
/// the cookie lifetime are both derived from this one constant, so that
/// credential and transport expire together.
pub const TOKEN_TTL_SECONDS: i64 = 300;

/// A principal record, as the authentication service reports it on a
/// successful login.
#[derive(Debug)]
pub struct UserDto {
    pub user_id: String,
    pub user_name: String,
}

/// The claims carried inside a credential: the payload of the token.
#[derive(Debug)]
pub struct WebClaims {
    /// When the token was issued.
    iat: i64,
    /// When the token stops being valid.
    exp: i64,
    /// The fixed resource-owner identifier, constant across all tokens.
    sub: String,
    /// The authenticated principal's opaque identifier.
    user_id: String,
    /// The principal's display name, carried so handlers avoid a lookup.
    user_name: String,
}

/// The mathematical value of a `WebClaims`.
#[verifier::ext_equal]
pub ghost struct ClaimsView {
    pub iat: i64,
    pub exp: i64,
    pub sub: Seq<char>,
    pub user_id: Seq<char>,
    pub user_name: Seq<char>,
}

impl View for WebClaims {
    type V = ClaimsView;

    closed spec fn view(&self) -> ClaimsView {
        ClaimsView {
            iat: self.iat,
            exp: self.exp,
            sub: self.sub@,
            user_id: self.user_id@,
            user_name: self.user_name@,
        }
    }
}

/// The fixed resource-owner identifier written into every token.
pub open spec fn subject() -> Seq<char> {
    "M.Furukawa"@
}

/// String lengths a claims value can carry on the wire: each must fit the
/// 16-digit length prefix.
pub open spec fn claims_wf(c: ClaimsView) -> bool {
    &&& c.sub.len() < 0x1_0000_0000_0000_0000
    &&& c.user_id.len() < 0x1_0000_0000_0000_0000
    &&& c.user_name.len() < 0x1_0000_0000_0000_0000
}

/// The serialized claims: both timestamps as 16 hexadecimal digits of
/// their two's-complement value, then the three strings as length-prefixed
/// fields.
pub open spec fn ser_claims(c: ClaimsView) -> Seq<char> {
    hex16_of(c.iat as u64) + hex16_of(c.exp as u64) + field_of(c.sub) + field_of(c.user_id)
        + field_of(c.user_name)
}

/// The claims a payload deserializes to, `None` for any string that is not
/// exactly a serialized claims value.
pub open spec fn parse_claims(s: Seq<char>) -> Option<ClaimsView> {
    match (parse_hex16_at(s, 0), parse_hex16_at(s, 16)) {
        (Some(iat), Some(exp)) => match parse_field_at(s, 32) {
            Some((sub, p1)) => match parse_field_at(s, p1) {
                Some((user_id, p2)) => match parse_field_at(s, p2) {
                    Some((user_name, p3)) => if p3 == s.len() {
                        Some(
                            ClaimsView {
                                iat: iat as i64,
                                exp: exp as i64,
                                sub,
                                user_id,
                                user_name,
                            },
                        )
                    } else {
                        None
                    },
                    None => None,
                },
                None => None,
            },
            None => None,
        },
        _ => None,
    }
}

/// Deserializing a serialized claims value gives the claims back: the
/// payload format loses nothing.
#[verifier::rlimit(50)]
#[verifier::spinoff_prover]
pub proof fn lemma_claims_roundtrip(c: ClaimsView)
    requires
        claims_wf(c),
    ensures
        parse_claims(ser_claims(c)) == Some(c),
{
    let s = ser_claims(c);
    let iat_u = c.iat as u64;
    let exp_u = c.exp as u64;
    lemma_hex16_len(iat_u);
    lemma_hex16_len(exp_u);
    lemma_hex16_len(c.sub.len() as u64);
    lemma_hex16_len(c.user_id.len() as u64);
    lemma_hex16_len(c.user_name.len() as u64);
    let p1 = 48 + c.sub.len() as int;
    let p2 = p1 + 16 + c.user_id.len() as int;
    let p3 = p2 + 16 + c.user_name.len() as int;
    assert(s.len() == p3);
    assert(s.subrange(0, 16) =~= hex16_of(iat_u));
    lemma_parse_hex16_at(s, 0, iat_u);
    assert(s.subrange(16, 32) =~= hex16_of(exp_u));
    lemma_parse_hex16_at(s, 16, exp_u);
    assert(s.subrange(32, p1) =~= field_of(c.sub));
    lemma_parse_field_at(s, 32, c.sub);
    assert(s.subrange(p1, p2) =~= field_of(c.user_id));
    lemma_parse_field_at(s, p1, c.user_id);
    assert(s.subrange(p2, p3) =~= field_of(c.user_name));
    lemma_parse_field_at(s, p2, c.user_name);
    let iat_i = c.iat;
    let exp_i = c.exp;
    assert((iat_i as u64) as i64 == iat_i) by (bit_vector);
    assert((exp_i as u64) as i64 == exp_i) by (bit_vector);
    assert(parse_claims(s) matches Some(c2) && c2 =~= c);
}

/// Why a token was rejected. The distinction matters only for
/// observability: every rejection drives the same redirect to login.
#[derive(Clone, Copy, Debug, PartialEq, Eq, Structural)]
pub enum DecodeError {
    /// The token is not a well-formed signed payload.
    Malformed,
    /// The signature does not match the payload.
    SignatureInvalid,
    /// The embedded validity window has passed.
    Expired,
}

impl DecodeError {
    /// The reason in words, for the log.
    pub fn message(&self) -> (r: &'static str)
        ensures
            r@ == decode_error_message(*self),
    {
        match self {
            DecodeError::Malformed => "malformed token",
            DecodeError::SignatureInvalid => "token signature mismatch",
            DecodeError::Expired => "token expired",
        }
    }
}

/// The log message of each rejection reason.
pub open spec fn decode_error_message(e: DecodeError) -> Seq<char> {
    match e {
        DecodeError::Malformed => "malformed token"@,
        DecodeError::SignatureInvalid => "token signature mismatch"@,
        DecodeError::Expired => "token expired"@,
    }
}

/// The token issued for a claims value under a key: the hexadecimal
/// signature over the serialized claims, a dot, and the serialized claims.
pub open spec fn token_of(key: Seq<u8>, c: ClaimsView) -> Seq<char> {
    bytes_hex(mac_of(key, ser_claims(c))) + seq!['.'] + ser_claims(c)
}

/// What decoding a token at time `now` yields: the claims, or the first
/// reason to reject. The payload is never trusted before the signature
/// check, and the validity window is re-checked independently.
pub open spec fn decode_spec(key: Seq<u8>, t: Seq<char>, now: i64) -> Result<
    ClaimsView,
    DecodeError,
> {
    if t.len() < 65 || t[64] != '.' {
        Err(DecodeError::Malformed)
    } else if t.subrange(0, 64) != bytes_hex(mac_of(key, t.subrange(65, t.len() as int))) {
        Err(DecodeError::SignatureInvalid)
    } else {
        match parse_claims(t.subrange(65, t.len() as int)) {
            Some(c) => if now > c.exp {
                Err(DecodeError::Expired)
            } else {
                Ok(c)
            },
            None => Err(DecodeError::Malformed),
        }
    }
}

/// Whether an executable decode outcome agrees with `decode_spec` at time
/// `now`.
pub open spec fn decode_matches(
    key: Seq<u8>,
    t: Seq<char>,
    now: i64,
    r: Result<WebClaims, DecodeError>,
) -> bool {
    match r {
        Ok(c) => decode_spec(key, t, now) == Ok::<ClaimsView, DecodeError>(c@),
        Err(e) => decode_spec(key, t, now) == Err::<ClaimsView, DecodeError>(e),
    }
}

/// Relies on `std::time::SystemTime::now`: the current UNIX timestamp,
/// whatever the clock reports. A clock before the epoch maps to the
/// negated distance and an out-of-range reading saturates, so the read
/// returns on every clock state instead of panicking.
#[verifier::external_body]
pub(crate) fn current_timestamp() -> i64 {
    match std::time::SystemTime::now().duration_since(std::time::UNIX_EPOCH) {
        Ok(since) => i64::try_from(since.as_secs()).unwrap_or(i64::MAX),
        Err(before) => i64::try_from(before.duration().as_secs()).map(|s| -s).unwrap_or(i64::MIN),
    }
}

/// The credential codec: encodes claims into signed tokens and decodes
/// them back, under a symmetric signing key injected at construction. The
/// key is read-only shared configuration: the codec holds no other state.
pub struct WebJwt {
    key: Vec<u8>,
}

impl WebJwt {
    /// The symmetric signing key this codec was built with.
    pub closed spec fn signing_key(&self) -> Seq<u8> {
        self.key@
    }

    pub fn new(key: Vec<u8>) -> (r: WebJwt)
        ensures
            r.signing_key() == key@,
    {
        WebJwt { key }
    }

    /// Serializes a claims value into the token payload.
    fn ser_payload(claims: &WebClaims) -> (r: String)
        ensures
            r@ == ser_claims(claims@),
    {
        let mut payload = String::new();
        push_hex16(&mut payload, #[verifier::truncate] (claims.iat as u64));
        push_hex16(&mut payload, #[verifier::truncate] (claims.exp as u64));
        Self::push_field(&mut payload, &claims.sub);
        Self::push_field(&mut payload, &claims.user_id);
        Self::push_field(&mut payload, &claims.user_name);
        payload
    }

    /// Appends one length-prefixed string field.
    fn push_field(out: &mut String, f: &String)
        ensures
            final(out)@ == old(out)@ + field_of(f@),
    {
        let l: usize = f.as_str().unicode_len();
        push_hex16(out, l as u64);
        out.append(f.as_str());
    }

    /// Serializes and signs a claims value. The token is opaque to its
    /// holder; only a codec with the same key accepts it back.
    pub fn encode(&self, claims: &WebClaims) -> (r: String)
        ensures
            r@ == token_of(self.signing_key(), claims@),
            mac_of(self.signing_key(), ser_claims(claims@)).len() == 32,
    {
        let payload = Self::ser_payload(claims);
        let mac = hmac_sha256(&self.key, payload.as_str());
        let mut out = bytes_to_hex(&mac);
        string_push(&mut out, '.');
        out.append(payload.as_str());
        proof {
            assert(out@ =~= token_of(self.signing_key(), claims@));
        }
        out
    }

    /// Deserializes a token payload, `None` for anything that is not
    /// exactly a serialized claims value.
    fn parse_payload(s: &str) -> (r: Option<WebClaims>)
        ensures
            match r {
                Some(c) => parse_claims(s@) == Some(c@),
                None => parse_claims(s@) is None,
            },
    {
        let n: usize = s.unicode_len();
        if n < 32 {
            return None;
        }
        let iat_u: u64 = match parse_hex16(s, 0) {
            Some(v) => v,
            None => {
                return None;
            },
        };
        let exp_u: u64 = match parse_hex16(s, 16) {
            Some(v) => v,
            None => {
                return None;
            },
        };
        let sub_p: (String, usize) = match parse_field(s, 32) {
            Some(x) => x,
            None => {
                return None;
            },
        };
        let user_id_p: (String, usize) = match parse_field(s, sub_p.1) {
            Some(x) => x,
            None => {
                return None;
            },
        };
        let user_name_p: (String, usize) = match parse_field(s, user_id_p.1) {
            Some(x) => x,
            None => {
                return None;
            },
        };
        if user_name_p.1 != n {
            return None;
        }
        Some(
            WebClaims {
                iat: #[verifier::truncate] (iat_u as i64),
                exp: #[verifier::truncate] (exp_u as i64),
                sub: sub_p.0,
                user_id: user_id_p.0,
                user_name: user_name_p.0,
            },
        )
    }

    /// Decodes a token against the time `now`: verifies the signature,
    /// deserializes, and independently re-checks the validity window.
    pub fn decode_at(&self, token: &str, now: i64) -> (r: Result<WebClaims, DecodeError>)
        ensures
            decode_matches(self.signing_key(), token@, now, r),
    {
        let n: usize = token.unicode_len();
        if n < 65 {
            return Err(DecodeError::Malformed);
        }
        if token.get_char(64) != '.' {
            return Err(DecodeError::Malformed);
        }
        let sig: &str = token.substring_char(0, 64);
        let payload: &str = token.substring_char(65, n);
        let mac = hmac_sha256(&self.key, payload);
        let computed: String = bytes_to_hex(&mac);
        let sig_owned: String = String::from_str(sig);
        if !(sig_owned == computed) {
            return Err(DecodeError::SignatureInvalid);
        }
        match Self::parse_payload(payload) {
            None => Err(DecodeError::Malformed),
            Some(c) => {
                if now > c.exp {
                    Err(DecodeError::Expired)
                } else {
                    Ok(c)
                }
            },
        }
    }

    /// Decodes a token against the process clock. Whatever instant the
    /// clock reports, the outcome is the one `decode_spec` gives for it.
    pub fn decode(&self, token: &str) -> (r: Result<WebClaims, DecodeError>)
        ensures
            exists|now: i64| decode_matches(self.signing_key(), token@, now, r),
    {
        let now = current_timestamp();
        let r = self.decode_at(token, now);
        proof {
            assert(decode_matches(self.signing_key(), token@, now, r));
        }
        r
    }

    /// Looks the credential up in the request's cookies by its fixed name.
    /// Transport only: no decoding happens here, and a missing cookie is a
    /// normal condition, not a protocol violation.
    pub fn parse_header(&self, cookies: &Vec<CookiePair>) -> (r: Result<String, WebAppError>)
        ensures
            match r {
                Ok(t) => cookie_lookup(cookies@, jwt_cookie_key_spec()) == Some(t@),
                Err(e) => cookie_lookup(cookies@, jwt_cookie_key_spec()) is None && (
                e matches WebAppError::AuthorizationError(m) && m@ == missing_credential_message()),
            },
    {
        let key: String = String::from_str(jwt_cookie_key());
        let mut i: usize = 0;
        assert(cookies@.skip(0) =~= cookies@);
        while i < cookies.len()
            invariant
                i <= cookies@.len(),
                key@ == jwt_cookie_key_spec(),
                cookie_lookup(cookies@, jwt_cookie_key_spec()) == cookie_lookup(
                    cookies@.skip(i as int),
                    jwt_cookie_key_spec(),
                ),
            decreases cookies@.len() - i,
        {
            proof {
                assert(cookies@.skip(i as int).first() == cookies@[i as int]);
            }
            if cookies[i].name == key {
                return Ok(cookies[i].value.clone());
            }
            proof {
                assert(cookies@.skip(i as int).drop_first() =~= cookies@.skip(i as int + 1));
            }
            i = i + 1;
        }
        proof {
            assert(cookies@.skip(i as int) =~= Seq::<CookiePair>::empty());
        }
        Err(WebAppError::AuthorizationError(String::from_str("token does not exist.")))
    }
}

/// One cookie of an incoming request, as plain name and value.
pub struct CookiePair {
    pub name: String,
    pub value: String,
}

/// The fixed name under which the credential travels.
pub open spec fn jwt_cookie_key_spec() -> Seq<char> {
    "jwt_token"@
}

pub fn jwt_cookie_key() -> (r: &'static str)
    ensures
        r@ == jwt_cookie_key_spec(),
{
    "jwt_token"
}

/// The reason reported when no credential cookie is presented.
pub open spec fn missing_credential_message() -> Seq<char> {
    "token does not exist."@
}

/// The value of the first cookie with the given name, if any.
pub open spec fn cookie_lookup(cookies: Seq<CookiePair>, name: Seq<char>) -> Option<Seq<char>>
    decreases cookies.len(),
{
    if cookies.len() == 0 {
        None
    } else if cookies.first().name@ == name {
        Some(cookies.first().value@)
    } else {
        cookie_lookup(cookies.drop_first(), name)
    }
}

/// The credential cookie issued at login, as plain attribute values: the
/// surrounding runtime turns it into a `Set-Cookie` header. Its lifetime
/// comes from the same TTL constant as the claims window, and it is kept
/// away from page scripts and plaintext channels.
#[derive(Debug)]
pub struct WebCookie {
    pub name: String,
    pub value: String,
    pub max_age_seconds: i64,
    pub http_only: bool,
    pub secure: bool,
}

/// Binds a freshly issued token to the credential cookie.
pub fn issue_cookie(token: String) -> (r: WebCookie)
    ensures
        r.name@ == jwt_cookie_key_spec(),
        r.value == token,
        r.max_age_seconds == TOKEN_TTL_SECONDS,
        r.http_only,
        r.secure,
{
    WebCookie {
        name: String::from_str(jwt_cookie_key()),
        value: token,
        max_age_seconds: TOKEN_TTL_SECONDS,
        http_only: true,
        secure: true,
    }
}

impl WebClaims {
    /// Mints the claims for a principal as of the instant `now`: issued
    /// now, expiring one TTL later, under the fixed subject. Construction
    /// cannot fail.
    pub fn generate_at(user: &UserDto, now: i64) -> (r: WebClaims)
        requires
            now <= i64::MAX - TOKEN_TTL_SECONDS,
        ensures
            r@.iat == now,
            r@.exp == now + TOKEN_TTL_SECONDS,
            r@.sub == subject(),
            r@.user_id == user.user_id@,
            r@.user_name == user.user_name@,
    {
        WebClaims {
            iat: now,
            exp: now + TOKEN_TTL_SECONDS,
            sub: String::from_str("M.Furukawa"),
            user_id: user.user_id.clone(),
            user_name: user.user_name.clone(),
        }
    }

    /// Mints the claims for a principal as of the process clock.
    pub fn generate(user: &UserDto) -> (r: WebClaims)
        ensures
            r@.exp == r@.iat + TOKEN_TTL_SECONDS,
            r@.sub == subject(),
            r@.user_id == user.user_id@,
            r@.user_name == user.user_name@,
    {
        let now_raw = current_timestamp();
        let now = if now_raw > i64::MAX - TOKEN_TTL_SECONDS {
            i64::MAX - TOKEN_TTL_SECONDS
        } else {
            now_raw
        };
        Self::generate_at(user, now)
    }

    /// The fixed resource-owner identifier.
    pub fn sub(&self) -> (r: &String)
        ensures
            r@ == self@.sub,
    {
        &self.sub
    }

    /// The principal's opaque identifier.
    pub fn user_id(&self) -> (r: &String)
        ensures
            r@ == self@.user_id,
    {
        &self.user_id
    }

    /// The principal's display name.
    pub fn user_name(&self) -> (r: &String)
        ensures
            r@ == self@.user_name,
    {
        &self.user_name
    }

    /// When the claims were issued.
    pub fn issued_at(&self) -> (r: i64)
        ensures
            r == self@.iat,
    {
        self.iat
    }

    /// When the claims stop being valid.
    pub fn expires_at(&self) -> (r: i64)
        ensures
            r == self@.exp,
    {
        self.exp
    }

    /// The per-request authentication gate, run before any protected
    /// handler: extracts the credential cookie and decodes it. Every
    /// failure is normalized to `AuthorizationError` before it reaches
    /// handler logic; nothing here mutates or refreshes the credential.
    #[verifier::rlimit(50)]
    #[verifier::spinoff_prover]
    pub fn from_request(jwt: &WebJwt, cookies: &Vec<CookiePair>) -> (r: Result<
        WebClaims,
        WebAppError,
    >)
        ensures
            exists|now: i64| outcome_matches(jwt.signing_key(), cookies@, now, r),
            r matches Err(e) ==> e is AuthorizationError,
            cookie_lookup(cookies@, jwt_cookie_key_spec()) is None ==> (
            r matches Err(WebAppError::AuthorizationError(m)) && m@
                == missing_credential_message()),
    {
        let token: String = match jwt.parse_header(cookies) {
            Ok(t) => t,
            Err(e) => {
                proof {
                    assert(outcome_matches(jwt.signing_key(), cookies@, 0i64, Err(e)));
                }
                return Err(e);
            },
        };
        let r = jwt.decode(token.as_str());
        let ghost rr = r;
        let ghost now = choose|now: i64| decode_matches(jwt.signing_key(), token@, now, rr);
        match r {
            Ok(c) => {
                proof {
                    assert(outcome_matches(jwt.signing_key(), cookies@, now, Ok(c)));
                }
                Ok(c)
            },
            Err(e) => {
                let msg = String::from_str(e.message());
                proof {
                    assert(outcome_matches(
                        jwt.signing_key(),
                        cookies@,
                        now,
                        Err(WebAppError::AuthorizationError(msg)),
                    ));
                }
                Err(WebAppError::AuthorizationError(msg))
            },
        }
    }
}

/// The authentication outcome of a request at time `now`: the validated
/// claims, or the reason the request is not authenticated.
pub open spec fn authenticated(key: Seq<u8>, cookies: Seq<CookiePair>, now: i64) -> Result<
    ClaimsView,
    Seq<char>,
> {
    match cookie_lookup(cookies, jwt_cookie_key_spec()) {
        None => Err(missing_credential_message()),
        Some(t) => match decode_spec(key, t, now) {
            Ok(c) => Ok(c),
            Err(e) => Err(decode_error_message(e)),
        },
    }
}

/// Whether an executable authentication outcome agrees with
/// `authenticated` at time `now`.
pub open spec fn outcome_matches(
    key: Seq<u8>,
    cookies: Seq<CookiePair>,
    now: i64,
    r: Result<WebClaims, WebAppError>,
) -> bool {
    match r {
        Ok(c) => authenticated(key, cookies, now) == Ok::<ClaimsView, Seq<char>>(c@),
        Err(e) => e matches WebAppError::AuthorizationError(m) && authenticated(key, cookies, now)
            == Err::<ClaimsView, Seq<char>>(m@),
    }
}

/// The shape every issued token has: 64 signature digits, a dot, and the
/// serialized claims.
proof fn lemma_token_structure(key: Seq<u8>, c: ClaimsView)
    requires
        mac_of(key, ser_claims(c)).len() == 32,
    ensures
        token_of(key, c).len() == 65 + ser_claims(c).len(),
        token_of(key, c)[64] == '.',
        token_of(key, c).subrange(0, 64) == bytes_hex(mac_of(key, ser_claims(c))),
        token_of(key, c).subrange(65, token_of(key, c).len() as int) == ser_claims(c),
{
    let t = token_of(key, c);
    lemma_bytes_hex_len(mac_of(key, ser_claims(c)));
    assert(t.subrange(0, 64) =~= bytes_hex(mac_of(key, ser_claims(c))));
    assert(t.subrange(65, t.len() as int) =~= ser_claims(c));
}

/// Round trip: a token decoded with the key that issued it, at any time
/// within the claims' validity window, yields exactly the claims it was
/// issued for.
pub proof fn lemma_token_roundtrip(key: Seq<u8>, c: ClaimsView, now: i64)
    requires
        claims_wf(c),
        mac_of(key, ser_claims(c)).len() == 32,
        now <= c.exp,
    ensures
        decode_spec(key, token_of(key, c), now) == Ok::<ClaimsView, DecodeError>(c),
{
    lemma_token_structure(key, c);
    lemma_claims_roundtrip(c);
}

/// Expiry beats a valid signature: once the claims' validity window has
/// passed, the very token that round-trips above is rejected as expired.
pub proof fn lemma_expired_rejected(key: Seq<u8>, c: ClaimsView, now: i64)
    requires
        claims_wf(c),
        mac_of(key, ser_claims(c)).len() == 32,
        now > c.exp,
    ensures
        decode_spec(key, token_of(key, c), now) == Err::<ClaimsView, DecodeError>(
            DecodeError::Expired,
        ),
{
    lemma_token_structure(key, c);
    lemma_claims_roundtrip(c);
}

/// Tampering with the signature is caught: a token that differs from an
/// issued one in exactly one signature position fails to decode, at every
/// time, with a signature error - never with silently accepted claims.
pub proof fn lemma_flipped_signature_rejected(
    key: Seq<u8>,
    c: ClaimsView,
    t2: Seq<char>,
    i: int,
    now: i64,
)
    requires
        mac_of(key, ser_claims(c)).len() == 32,
        t2.len() == token_of(key, c).len(),
        0 <= i < 64,
        t2[i] != token_of(key, c)[i],
        forall|j: int| 0 <= j < t2.len() && j != i ==> t2[j] == token_of(key, c)[j],
    ensures
        decode_spec(key, t2, now) == Err::<ClaimsView, DecodeError>(DecodeError::SignatureInvalid),
{
    let t = token_of(key, c);
    let p = ser_claims(c);
    lemma_token_structure(key, c);
    assert(t2[64] == t[64]);
    assert(t2.subrange(65, t2.len() as int) =~= p);
    assert(t2.subrange(0, 64)[i] == t2[i]);
    assert(t.subrange(0, 64)[i] == t[i]);
    assert(bytes_hex(mac_of(key, p))[i] == t[i]);
    assert(t2.subrange(0, 64) != bytes_hex(mac_of(key, t2.subrange(65, t2.len() as int))));
}

/// A request with no credential and a request whose credential is rejected
/// are alike in client-visible outcome: both authenticate to a failure,
/// and the responder answers every `AuthorizationError` with the same
/// redirect to the login page (`WebAppError::redirect_path`).
pub proof fn lemma_missing_and_invalid_alike(
    key: Seq<u8>,
    absent: Seq<CookiePair>,
    tampered: Seq<CookiePair>,
    now: i64,
)
    requires
        cookie_lookup(absent, jwt_cookie_key_spec()) is None,
        cookie_lookup(tampered, jwt_cookie_key_spec()) matches Some(t) && decode_spec(
            key,
            t,
            now,
        ) is Err,
    ensures
        authenticated(key, absent, now) is Err,
        authenticated(key, tampered, now) is Err,
        forall|m1: String, m2: String|
            #![trigger redirect_path_spec(WebAppError::AuthorizationError(m1)), redirect_path_spec(WebAppError::AuthorizationError(m2))]
            redirect_path_spec(WebAppError::AuthorizationError(m1)) == redirect_path_spec(
                WebAppError::AuthorizationError(m2),
            ) && redirect_path_spec(WebAppError::AuthorizationError(m1)) == "/web_sample/login"@,
{
}

} // verus!
