use vstd::prelude::*;

use crate::domain::dtos::base::claims::Claims;
use crate::domain::dtos::base::token_pair::TokenPair;
use crate::domain::error::app_error::AppError;
use crate::domain::model::user::User;
use jsonwebtoken::{decode, encode, DecodingKey, EncodingKey, Header, Validation};
use std::time::{SystemTime, UNIX_EPOCH};
use serde_json::value::RawValue;
use serde_json::Value;

verus! {

/// `jsonwebtoken`'s error type, carried through as an opaque value.
#[verifier::external_type_specification]
#[verifier::external_body]
pub struct ExJwtError(jsonwebtoken::errors::Error);

/// The HS256 token that `jsonwebtoken::encode` makes, with the default header,
/// for the claims given field by field and the secret given as text.
pub uninterp spec fn hs256_token(
    sub: i32,
    username: Seq<char>,
    roles: Seq<Seq<char>>,
    exp: u64,
    iat: u64,
    token_type: Seq<char>,
    secret: Seq<char>,
) -> Seq<char>;

/// The JSON text of the payload of `token`, when `jsonwebtoken::decode`
/// accepts it with the validation `jwt_decode` uses: the header names HS256,
/// the signature checks out against `secret`, and the payload is a JSON
/// object with a numeric `exp` and no `aud`.
pub uninterp spec fn hs256_payload(token: Seq<char>, secret: Seq<char>) -> Option<Seq<char>>;

/// The JSON text that `serde_json` writes for the claims object that
/// `jwt_encode` signs (one member per field).
pub uninterp spec fn claims_json(
    sub: i32,
    username: Seq<char>,
    roles: Seq<Seq<char>>,
    exp: u64,
    iat: u64,
    token_type: Seq<char>,
) -> Seq<char>;

/// Signs the claims with `jsonwebtoken::encode` (HS256, default header). The
/// claims go over as a JSON object with one member per field. The contract
/// claims that the token depends on the claims and the secret alone, that the
/// call succeeds (the key and the header agree on HMAC, and neither the header
/// nor a JSON object of strings and numbers can fail to serialise), and that
/// `jsonwebtoken::decode` with the same secret gives back the JSON text that
/// was signed: the object carries a numeric `exp` and no `aud`, which is all
/// `jwt_decode`'s validation asks of it.
#[verifier::external_body]
fn jwt_encode(claims: &Claims, secret: &str) -> (r: Result<String, jsonwebtoken::errors::Error>)
    ensures
        r is Ok,
        r matches Ok(t) ==> t@ == hs256_token(
            claims.sub,
            claims.username@,
            claims.roles.deep_view(),
            claims.exp,
            claims.iat,
            claims.token_type@,
            secret@,
        ),
        r matches Ok(t) ==> hs256_payload(t@, secret@) == Some(
            claims_json(
                claims.sub,
                claims.username@,
                claims.roles.deep_view(),
                claims.exp,
                claims.iat,
                claims.token_type@,
            ),
        ),
{
    let mut body: serde_json::Map<String, Value> = serde_json::Map::new();
    body.insert("sub".to_string(), Value::from(claims.sub));
    body.insert("username".to_string(), Value::from(claims.username.clone()));
    body.insert("roles".to_string(), Value::from(claims.roles.clone()));
    body.insert("exp".to_string(), Value::from(claims.exp));
    body.insert("iat".to_string(), Value::from(claims.iat));
    body.insert("token_type".to_string(), Value::from(claims.token_type.clone()));
    encode(&Header::default(), &body, &EncodingKey::from_secret(secret.as_bytes()))
}

/// Checks a token with `jsonwebtoken::decode`: HS256 only, the signature
/// against `secret`, an `exp` claim required; the expiry itself is not
/// checked here (`validate_exp` is off) but against an explicit time by
/// `accept_claims`, so the outcome depends on the arguments alone. The
/// contract claims that the call succeeds exactly when the token has a
/// payload in the sense of `hs256_payload`, and then gives that payload's
/// JSON text.
#[verifier::external_body]
fn jwt_decode(token: &str, secret: &str) -> (r: Result<String, jsonwebtoken::errors::Error>)
    ensures
        r is Ok <==> hs256_payload(token@, secret@) is Some,
        r matches Ok(p) ==> hs256_payload(token@, secret@) == Some(p@),
{
    let mut validation = Validation::default();
    validation.validate_exp = false;
    match decode::<Box<RawValue>>(token, &DecodingKey::from_secret(secret.as_bytes()), &validation) {
        Ok(data) => Ok(data.claims.get().to_string()),
        Err(e) => Err(e),
    }
}

/// The current Unix time in seconds, read from the system clock
/// (`SystemTime::now` against `UNIX_EPOCH`); `None` when the clock is set
/// before 1970. Nothing is promised of the value.
#[verifier::external_body]
fn now_secs() -> Option<u64> {
    SystemTime::now().duration_since(UNIX_EPOCH).ok().map(|d| d.as_secs())
}

/// Seconds of grace after `exp` during which a token is still accepted.
pub const LEEWAY_SECS: u64 = 60;

/// A token whose `exp` is `exp` has expired at `now`: more than the leeway has
/// passed since its expiry.
pub open spec fn expired(exp: u64, now: u64) -> bool {
    exp + LEEWAY_SECS < now
}

/// Lifetime of an access token: 15 minutes.
pub const ACCESS_TTL_SECS: u64 = 900;

/// Lifetime of a refresh token: 7 days.
pub const REFRESH_TTL_SECS: u64 = 604800;

/// Issues and checks HS256 JWTs with one shared secret.
pub struct JwtService {
    secret: String,
    /// Access token lifetime in seconds.
    access_ttl_secs: u64,
    /// Refresh token lifetime in seconds.
    refresh_ttl_secs: u64,
}

/// The claims of a token of the given type issued to `user` at `now`.
pub open spec fn issued_claims(user: User, roles: Seq<String>, now: u64, ttl: u64, token_type: Seq<char>) -> (
    i32,
    Seq<char>,
    Seq<Seq<char>>,
    u64,
    u64,
    Seq<char>,
) {
    (user.id, user.name@, roles.map_values(|r: String| r@), (now + ttl) as u64, now, token_type)
}

/// What checking a decoded payload at time `now` answers: its claims if they
/// parsed, carry the expected token type and have not expired; `Unauthorized`
/// otherwise.
pub open spec fn claims_outcome(parsed: Option<Claims>, expected: Seq<char>, now: u64) -> Result<Claims, AppError> {
    match parsed {
        Some(c) => if c.token_type@ == expected && !expired(c.exp, now) {
            Ok(c)
        } else {
            Err(AppError::Unauthorized)
        },
        None => Err(AppError::Unauthorized),
    }
}

/// Accepts parsed claims only when they carry the expected token type and
/// have not expired at `now`.
pub fn accept_claims(parsed: Option<Claims>, expected: &str, now: u64) -> (r: Result<Claims, AppError>)
    ensures
        r == claims_outcome(parsed, expected@, now),
{
    match parsed {
        None => Err(AppError::Unauthorized),
        Some(c) => {
            let wanted = expected.to_owned();
            let is_expired = now >= LEEWAY_SECS && c.exp < now - LEEWAY_SECS;
            if c.token_type == wanted && !is_expired {
                Ok(c)
            } else {
                Err(AppError::Unauthorized)
            }
        },
    }
}

/// What checking `token` at time `now` answers, for a given parser: no payload
/// is `Unauthorized`; otherwise the outcome for what the parser made of the
/// payload's text.
pub open spec fn token_outcome<F: Fn(&str) -> Option<Claims>>(
    token: Seq<char>,
    secret: Seq<char>,
    parse: F,
    expected: Seq<char>,
    now: u64,
    r: Result<Claims, AppError>,
) -> bool {
    match hs256_payload(token, secret) {
        None => r == Err::<Claims, AppError>(AppError::Unauthorized),
        Some(q) => exists|p: &str, parsed: Option<Claims>|
            p@ == q && #[trigger] parse.ensures((p,), parsed) && r == claims_outcome(parsed, expected, now),
    }
}

impl JwtService {
    /// The signing secret.
    pub closed spec fn secret_view(&self) -> Seq<char> {
        self.secret@
    }

    /// Access token lifetime in seconds.
    pub closed spec fn access_ttl(&self) -> u64 {
        self.access_ttl_secs
    }

    /// Refresh token lifetime in seconds.
    pub closed spec fn refresh_ttl(&self) -> u64 {
        self.refresh_ttl_secs
    }

    /// `pair` is what is issued to `user` with `roles` at time `now`: both
    /// tokens carry the user's id, name and roles and are issued at `now`;
    /// the access token expires after the access lifetime, the refresh token
    /// after the refresh lifetime, and `expires_in` is the access lifetime.
    /// Each token, read back with the same secret, carries the JSON text of
    /// its claims.
    pub open spec fn issued_pair(&self, user: User, roles: Seq<String>, now: u64, pair: TokenPair) -> bool {
        let a = issued_claims(user, roles, now, self.access_ttl(), "access"@);
        let f = issued_claims(user, roles, now, self.refresh_ttl(), "refresh"@);
        &&& pair.expires_in == self.access_ttl()
        &&& pair.access_token@ == hs256_token(a.0, a.1, a.2, a.3, a.4, a.5, self.secret_view())
        &&& pair.refresh_token@ == hs256_token(f.0, f.1, f.2, f.3, f.4, f.5, self.secret_view())
        &&& hs256_payload(pair.access_token@, self.secret_view()) == Some(claims_json(a.0, a.1, a.2, a.3, a.4, a.5))
        &&& hs256_payload(pair.refresh_token@, self.secret_view()) == Some(claims_json(f.0, f.1, f.2, f.3, f.4, f.5))
    }

    /// A service signing with `secret`; access tokens live 15 minutes and
    /// refresh tokens 7 days.
    pub fn new(secret: &str) -> (r: Self)
        ensures
            r.secret_view() == secret@,
            r.access_ttl() == ACCESS_TTL_SECS,
            r.refresh_ttl() == REFRESH_TTL_SECS,
    {
        JwtService {
            secret: secret.to_owned(),
            access_ttl_secs: ACCESS_TTL_SECS,
            refresh_ttl_secs: REFRESH_TTL_SECS,
        }
    }

    /// The claims and the tokens for `user` at time `now`: both tokens carry
    /// the user's id, name and roles and are issued at `now`; the access token
    /// expires after the access lifetime, the refresh token after the refresh
    /// lifetime. A time so late that an expiry would not fit in 64 bits is
    /// reported as `Internal`.
    pub fn issue_at(&self, user: &User, roles: Vec<String>, now: u64) -> (r: Result<TokenPair, AppError>)
        ensures
            r is Err <==> (now > u64::MAX - self.refresh_ttl() || now > u64::MAX - self.access_ttl()),
            r is Err ==> r matches Err(AppError::Internal(_)),
            r matches Ok(pair) ==> self.issued_pair(*user, roles@, now, pair),
    {
        if now > u64::MAX - self.refresh_ttl_secs || now > u64::MAX - self.access_ttl_secs {
            return Err(AppError::Internal("vaqt xatosi".to_owned()));
        }
        let access_exp = now + self.access_ttl_secs;
        let refresh_exp = now + self.refresh_ttl_secs;
        let access_claims = Claims {
            sub: user.id,
            username: user.name.clone(),
            roles: roles.clone(),
            exp: access_exp,
            iat: now,
            token_type: "access".to_owned(),
        };
        let refresh_claims = Claims {
            sub: user.id,
            username: user.name.clone(),
            roles,
            exp: refresh_exp,
            iat: now,
            token_type: "refresh".to_owned(),
        };
        proof {
            assert(access_claims.roles.deep_view() =~= roles@.map_values(|r: String| r@));
            assert(refresh_claims.roles.deep_view() =~= roles@.map_values(|r: String| r@));
        }
        let access_token = match jwt_encode(&access_claims, self.secret.as_str()) {
            Ok(t) => t,
            Err(_) => return Err(AppError::Internal("jwt".to_owned())),
        };
        let refresh_token = match jwt_encode(&refresh_claims, self.secret.as_str()) {
            Ok(t) => t,
            Err(_) => return Err(AppError::Internal("jwt".to_owned())),
        };
        Ok(TokenPair { access_token, refresh_token, expires_in: self.access_ttl_secs })
    }

    /// Issues an access and a refresh token for `user`, at the current time.
    /// A clock that cannot be read (set before 1970), or that is so late that
    /// an expiry would not fit in 64 bits, is reported as `Internal`.
    pub fn issue(&self, user: &User, roles: Vec<String>) -> (r: Result<TokenPair, AppError>)
        ensures
            r is Err ==> r matches Err(AppError::Internal(_)),
            r matches Ok(pair) ==> exists|now: u64| #[trigger] self.issued_pair(*user, roles@, now, pair),
    {
        match now_secs() {
            None => Err(AppError::Internal("vaqt xatosi".to_owned())),
            Some(now) => self.issue_at(user, roles, now),
        }
    }

    /// Checks a token at time `now` and gives its claims when it is valid, of
    /// the expected type and not expired. `parse` turns the payload's JSON
    /// text into claims.
    fn verify_typed_at<F: Fn(&str) -> Option<Claims>>(
        &self,
        token: &str,
        parse: &F,
        expected: &str,
        now: u64,
    ) -> (r: Result<Claims, AppError>)
        requires
            forall|t: &str| #[trigger] parse.requires((t,)),
        ensures
            token_outcome(token@, self.secret_view(), *parse, expected@, now, r),
    {
        match jwt_decode(token, self.secret.as_str()) {
            Err(_) => Err(AppError::Unauthorized),
            Ok(payload) => {
                let text = payload.as_str();
                let parsed = parse(text);
                let r = accept_claims(parsed, expected, now);
                assert(parse.ensures((text,), parsed));
                r
            },
        }
    }

    /// Checks an access token at time `now`. `parse` turns the payload's JSON
    /// text into claims (the JSON decoding of `Claims`). Any failure is
    /// `Unauthorized`: a token that does not decode with this secret, that
    /// does not parse, that is not an access token, or whose `exp` lies more
    /// than the leeway before `now`.
    pub fn verify_access_at<F: Fn(&str) -> Option<Claims>>(&self, token: &str, parse: &F, now: u64) -> (r: Result<Claims, AppError>)
        requires
            forall|t: &str| #[trigger] parse.requires((t,)),
        ensures
            token_outcome(token@, self.secret_view(), *parse, "access"@, now, r),
    {
        self.verify_typed_at(token, parse, "access", now)
    }

    /// Checks a refresh token at time `now`, as `verify_access_at` does an
    /// access token.
    pub fn verify_refresh_at<F: Fn(&str) -> Option<Claims>>(&self, token: &str, parse: &F, now: u64) -> (r: Result<Claims, AppError>)
        requires
            forall|t: &str| #[trigger] parse.requires((t,)),
        ensures
            token_outcome(token@, self.secret_view(), *parse, "refresh"@, now, r),
    {
        self.verify_typed_at(token, parse, "refresh", now)
    }

    /// Checks an access token at the current time (see `verify_access_at`).
    /// A clock that cannot be read is reported as `Internal`.
    pub fn verify_access<F: Fn(&str) -> Option<Claims>>(&self, token: &str, parse: &F) -> (r: Result<Claims, AppError>)
        requires
            forall|t: &str| #[trigger] parse.requires((t,)),
        ensures
            r matches Err(e) ==> e == AppError::Unauthorized || e is Internal,
            hs256_payload(token@, self.secret_view()) is None ==> r is Err,
            r is Ok ==> exists|now: u64| #[trigger] token_outcome(token@, self.secret_view(), *parse, "access"@, now, r),
    {
        match now_secs() {
            None => Err(AppError::Internal("vaqt xatosi".to_owned())),
            Some(now) => self.verify_access_at(token, parse, now),
        }
    }

    /// Checks a refresh token at the current time (see `verify_refresh_at`).
    /// A clock that cannot be read is reported as `Internal`.
    pub fn verify_refresh<F: Fn(&str) -> Option<Claims>>(&self, token: &str, parse: &F) -> (r: Result<Claims, AppError>)
        requires
            forall|t: &str| #[trigger] parse.requires((t,)),
        ensures
            r matches Err(e) ==> e == AppError::Unauthorized || e is Internal,
            hs256_payload(token@, self.secret_view()) is None ==> r is Err,
            r is Ok ==> exists|now: u64| #[trigger] token_outcome(token@, self.secret_view(), *parse, "refresh"@, now, r),
    {
        match now_secs() {
            None => Err(AppError::Internal("vaqt xatosi".to_owned())),
            Some(now) => self.verify_refresh_at(token, parse, now),
        }
    }
}

/// The claims that parse back from the JSON text of `fields`.
pub open spec fn claims_of(
    c: Claims,
    fields: (i32, Seq<char>, Seq<Seq<char>>, u64, u64, Seq<char>),
) -> bool {
    &&& c.sub == fields.0
    &&& c.username@ == fields.1
    &&& c.roles.deep_view() == fields.2
    &&& c.exp == fields.3
    &&& c.iat == fields.4
    &&& c.token_type@ == fields.5
}

/// An access token is never accepted where a refresh token is expected, nor
/// the other way round: the same claims cannot pass both checks.
pub proof fn token_types_are_not_interchangeable(c: Claims, now: u64)
    ensures
        !(claims_outcome(Some(c), "access"@, now) is Ok && claims_outcome(Some(c), "refresh"@, now) is Ok),
        claims_outcome(Some(c), "access"@, now) is Ok ==> claims_outcome(Some(c), "refresh"@, now)
            == Err::<Claims, AppError>(AppError::Unauthorized),
{
    reveal_strlit("access");
    reveal_strlit("refresh");
    assert("access"@.len() != "refresh"@.len());
}

/// `parse` reads the JSON text of `fields` back as `c`, and only as `c`.
pub open spec fn parses_back<F: Fn(&str) -> Option<Claims>>(
    parse: F,
    fields: (i32, Seq<char>, Seq<Seq<char>>, u64, u64, Seq<char>),
    c: Claims,
) -> bool {
    forall|p: &str, parsed: Option<Claims>|
        p@ == claims_json(fields.0, fields.1, fields.2, fields.3, fields.4, fields.5) && #[trigger] parse.ensures(
            (p,),
            parsed,
        ) ==> parsed == Some(c)
}

/// Reading back what was issued: with a parser that reads the JSON text of
/// claims back as those claims, checking the access token of a pair issued at
/// `issued_at` (same secret) as an access token gives its claims until the
/// access lifetime and the leeway have passed, and `Unauthorized` after;
/// checking the refresh token of the pair as an access token is always
/// `Unauthorized`.
pub proof fn issued_tokens_read_back<F: Fn(&str) -> Option<Claims>>(
    s: JwtService,
    user: User,
    roles: Seq<String>,
    issued_at: u64,
    pair: TokenPair,
    parse: F,
    access: Claims,
    refresh: Claims,
    now: u64,
    r_access: Result<Claims, AppError>,
    r_refresh: Result<Claims, AppError>,
)
    requires
        s.issued_pair(user, roles, issued_at, pair),
        issued_at + s.access_ttl() <= u64::MAX,
        issued_at + s.refresh_ttl() <= u64::MAX,
        claims_of(access, issued_claims(user, roles, issued_at, s.access_ttl(), "access"@)),
        claims_of(refresh, issued_claims(user, roles, issued_at, s.refresh_ttl(), "refresh"@)),
        parses_back(parse, issued_claims(user, roles, issued_at, s.access_ttl(), "access"@), access),
        parses_back(parse, issued_claims(user, roles, issued_at, s.refresh_ttl(), "refresh"@), refresh),
        token_outcome(pair.access_token@, s.secret_view(), parse, "access"@, now, r_access),
        token_outcome(pair.refresh_token@, s.secret_view(), parse, "access"@, now, r_refresh),
    ensures
        now <= issued_at + s.access_ttl() + LEEWAY_SECS ==> r_access == Ok::<Claims, AppError>(access),
        now > issued_at + s.access_ttl() + LEEWAY_SECS ==> r_access == Err::<Claims, AppError>(
            AppError::Unauthorized,
        ),
        r_refresh == Err::<Claims, AppError>(AppError::Unauthorized),
{
    reveal_strlit("access");
    reveal_strlit("refresh");
    assert("access"@.len() != "refresh"@.len());
    let a = issued_claims(user, roles, issued_at, s.access_ttl(), "access"@);
    let f = issued_claims(user, roles, issued_at, s.refresh_ttl(), "refresh"@);
    let (pa, parsed_a) = choose|p: &str, parsed: Option<Claims>|
        p@ == claims_json(a.0, a.1, a.2, a.3, a.4, a.5) && #[trigger] parse.ensures((p,), parsed) && r_access
            == claims_outcome(parsed, "access"@, now);
    assert(parsed_a == Some(access));
    let (pf, parsed_f) = choose|p: &str, parsed: Option<Claims>|
        p@ == claims_json(f.0, f.1, f.2, f.3, f.4, f.5) && #[trigger] parse.ensures((p,), parsed) && r_refresh
            == claims_outcome(parsed, "access"@, now);
    assert(parsed_f == Some(refresh));
}

/// A token is accepted exactly when it parsed, carries the expected type and
/// its `exp` plus the sixty seconds of leeway has not passed; then the answer
/// is the claims themselves. Nothing else (such as the age of the token) is
/// held against it.
pub proof fn accepted_claims_are_unexpired_and_typed(parsed: Option<Claims>, expected: Seq<char>, now: u64)
    ensures
        parsed is None ==> claims_outcome(parsed, expected, now) == Err::<Claims, AppError>(AppError::Unauthorized),
        parsed matches Some(c) ==> (if c.token_type@ == expected && now <= c.exp + 60 {
            claims_outcome(parsed, expected, now) == Ok::<Claims, AppError>(c)
        } else {
            claims_outcome(parsed, expected, now) == Err::<Claims, AppError>(AppError::Unauthorized)
        }),
{
}

/// Reading back a refresh token: with a parser that reads the JSON text of
/// claims back as those claims, checking the refresh token of a pair issued at
/// `issued_at` (same secret) as a refresh token gives its claims at every time
/// up to the refresh lifetime plus the leeway, and `Unauthorized` after;
/// checking the access token of the pair as a refresh token is always
/// `Unauthorized`.
pub proof fn issued_refresh_token_reads_back<F: Fn(&str) -> Option<Claims>>(
    s: JwtService,
    user: User,
    roles: Seq<String>,
    issued_at: u64,
    pair: TokenPair,
    parse: F,
    access: Claims,
    refresh: Claims,
    now: u64,
    r_refresh: Result<Claims, AppError>,
    r_access: Result<Claims, AppError>,
)
    requires
        s.issued_pair(user, roles, issued_at, pair),
        issued_at + s.access_ttl() <= u64::MAX,
        issued_at + s.refresh_ttl() <= u64::MAX,
        claims_of(access, issued_claims(user, roles, issued_at, s.access_ttl(), "access"@)),
        claims_of(refresh, issued_claims(user, roles, issued_at, s.refresh_ttl(), "refresh"@)),
        parses_back(parse, issued_claims(user, roles, issued_at, s.access_ttl(), "access"@), access),
        parses_back(parse, issued_claims(user, roles, issued_at, s.refresh_ttl(), "refresh"@), refresh),
        token_outcome(pair.refresh_token@, s.secret_view(), parse, "refresh"@, now, r_refresh),
        token_outcome(pair.access_token@, s.secret_view(), parse, "refresh"@, now, r_access),
    ensures
        now <= issued_at + s.refresh_ttl() + 60 ==> r_refresh == Ok::<Claims, AppError>(refresh),
        now > issued_at + s.refresh_ttl() + 60 ==> r_refresh == Err::<Claims, AppError>(AppError::Unauthorized),
        r_access == Err::<Claims, AppError>(AppError::Unauthorized),
{
    reveal_strlit("access");
    reveal_strlit("refresh");
    assert("access"@.len() != "refresh"@.len());
    let a = issued_claims(user, roles, issued_at, s.access_ttl(), "access"@);
    let f = issued_claims(user, roles, issued_at, s.refresh_ttl(), "refresh"@);
    let (pf, parsed_f) = choose|p: &str, parsed: Option<Claims>|
        p@ == claims_json(f.0, f.1, f.2, f.3, f.4, f.5) && #[trigger] parse.ensures((p,), parsed) && r_refresh
            == claims_outcome(parsed, "refresh"@, now);
    assert(parsed_f == Some(refresh));
    let (pa, parsed_a) = choose|p: &str, parsed: Option<Claims>|
        p@ == claims_json(a.0, a.1, a.2, a.3, a.4, a.5) && #[trigger] parse.ensures((p,), parsed) && r_access
            == claims_outcome(parsed, "refresh"@, now);
    assert(parsed_a == Some(access));
}

/// Access tokens live fifteen minutes, refresh tokens seven days, and both
/// are accepted for a minute past their expiry.
pub proof fn token_lifetimes()
    ensures
        ACCESS_TTL_SECS == 15 * 60,
        REFRESH_TTL_SECS == 7 * 24 * 60 * 60,
        LEEWAY_SECS == 60,
{
}

} // verus!
