//! Authentication bookkeeping: reading the bearer token of a request, picking
//! the signing key a token names, and keeping the service access token fresh.
use vstd::prelude::*;

use std::collections::HashMap;

use jsonwebtoken::{decode, Algorithm, DecodingKey, EncodingKey, Header, Validation};
use serde_json::Value;

use crate::error::{ApplicationError, ApplicationResult};
use crate::text::{decimal, owned, push_char, push_decimal, str_equals};
use crate::user::{UserAuthInfo, UserId};

verus! {

/// Whether `c` has the Unicode `White_Space` property, the whitespace that
/// `str::trim` removes.
pub open spec fn is_white_space(c: char) -> bool {
    ||| '\u{9}' <= c <= '\u{d}'
    ||| c == ' '
    ||| c == '\u{85}'
    ||| c == '\u{a0}'
    ||| c == '\u{1680}'
    ||| '\u{2000}' <= c <= '\u{200a}'
    ||| c == '\u{2028}'
    ||| c == '\u{2029}'
    ||| c == '\u{202f}'
    ||| c == '\u{205f}'
    ||| c == '\u{3000}'
}

/// Whether `c` is whitespace in the sense of [`is_white_space`].
pub fn white_space(c: char) -> (b: bool)
    ensures
        b == is_white_space(c),
{
    ('\u{9}' <= c && c <= '\u{d}') || c == ' ' || c == '\u{85}' || c == '\u{a0}' || c == '\u{1680}'
        || ('\u{2000}' <= c && c <= '\u{200a}') || c == '\u{2028}' || c == '\u{2029}' || c == '\u{202f}'
        || c == '\u{205f}' || c == '\u{3000}'
}

/// `s` without its leading whitespace.
pub open spec fn trim_start(s: Seq<char>) -> Seq<char>
    decreases s.len(),
{
    if s.len() > 0 && is_white_space(s[0]) {
        trim_start(s.drop_first())
    } else {
        s
    }
}

/// `s` without its trailing whitespace.
pub open spec fn trim_end(s: Seq<char>) -> Seq<char>
    decreases s.len(),
{
    if s.len() > 0 && is_white_space(s.last()) {
        trim_end(s.drop_last())
    } else {
        s
    }
}

/// `s` without its leading and trailing whitespace.
pub open spec fn trimmed(s: Seq<char>) -> Seq<char> {
    trim_end(trim_start(s))
}

/// `s` without its leading and trailing whitespace.
pub fn trim(s: &str) -> (t: &str)
    ensures
        t@ == trimmed(s@),
{
    let n = s.unicode_len();
    let mut i: usize = 0;
    assert(s@.subrange(0, n as int) =~= s@);
    while i < n && white_space(s.get_char(i))
        invariant
            i <= n,
            n == s@.len(),
            trim_start(s@) == trim_start(s@.subrange(i as int, n as int)),
        decreases n - i,
    {
        assert(s@.subrange(i as int, n as int).drop_first() =~= s@.subrange(i + 1, n as int));
        i = i + 1;
    }
    let mut j: usize = n;
    assert(trim_start(s@) == s@.subrange(i as int, n as int));
    while j > i && white_space(s.get_char(j - 1))
        invariant
            i <= j <= n,
            n == s@.len(),
            trimmed(s@) == trim_end(s@.subrange(i as int, j as int)),
        decreases j - i,
    {
        assert(s@.subrange(i as int, j as int).drop_last() =~= s@.subrange(i as int, j - 1));
        j = j - 1;
    }
    s.substring_char(i, j)
}

/// Whether `s` starts with `bearer` or `Bearer`.
pub open spec fn has_bearer_prefix(s: Seq<char>) -> bool {
    &&& s.len() >= 6
    &&& (s[0] == 'b' || s[0] == 'B')
    &&& s[1] == 'e'
    &&& s[2] == 'a'
    &&& s[3] == 'r'
    &&& s[4] == 'e'
    &&& s[5] == 'r'
}

/// The token that an `Authorization` header value carries: what follows the
/// word `bearer` (or `Bearer`), without surrounding whitespace. Refused with
/// an authentication error when there is no header (or it is not text) or it
/// does not start with that word.
pub fn token_from_header(header: Option<&str>) -> (r: ApplicationResult<String>)
    ensures
        r is Ok <==> (header matches Some(h) && has_bearer_prefix(h@)),
        r matches Ok(t) ==> (header matches Some(h) && t@ == trimmed(h@.subrange(6, h@.len() as int))),
        r matches Err(e) ==> e is AuthError,
{
    if let Some(h) = header {
        let n = h.unicode_len();
        if n >= 6 {
            let c0 = h.get_char(0);
            if (c0 == 'b' || c0 == 'B') && h.get_char(1) == 'e' && h.get_char(2) == 'a' && h.get_char(3)
                == 'r' && h.get_char(4) == 'e' && h.get_char(5) == 'r' {
                let rest = h.substring_char(6, n);
                return Ok(owned(trim(rest)));
            }
        }
    }
    Err(ApplicationError::AuthError(owned("Token not found!")))
}

impl UserAuthInfo {
    /// The user `id` of a request path together with the token of the
    /// request's `Authorization` header; refused as [`token_from_header`] refuses.
    pub fn from_header(id: UserId, header: Option<&str>) -> (r: ApplicationResult<UserAuthInfo>)
        ensures
            r is Ok <==> (header matches Some(h) && has_bearer_prefix(h@)),
            r matches Ok(a) ==> a.id@ == id@,
            r matches Ok(a) ==> (header matches Some(h) && a.token@ == trimmed(h@.subrange(6, h@.len() as int))),
            r matches Err(e) ==> e is AuthError,
    {
        let token = token_from_header(header)?;
        Ok(UserAuthInfo { id, token })
    }
}

/// A public key of the token issuer, in JSON Web Key form.
pub struct Jwk {
    pub e: String,
    pub alg: String,
    pub kty: String,
    pub kid: String,
    pub n: String,
}

/// The index of the last key of `keys` with the id `kid`: keys are gathered
/// into a map by id, where a later key replaces an earlier one.
pub open spec fn last_key_index(keys: Seq<Jwk>, kid: Seq<char>) -> Option<int>
    decreases keys.len(),
{
    if keys.len() == 0 {
        None
    } else if keys.last().kid@ == kid {
        Some(keys.len() - 1)
    } else {
        last_key_index(keys.drop_last(), kid)
    }
}

/// Picks, among the issuer's `keys`, the one that a token's header names by
/// `kid`. Refused with an authentication error when the header names no key
/// or no key has that id.
pub fn select_key(keys: &Vec<Jwk>, kid: Option<&str>) -> (r: ApplicationResult<usize>)
    ensures
        r is Ok <==> (kid matches Some(k) && last_key_index(keys@, k@) is Some),
        r matches Ok(i) ==> (kid matches Some(k) && last_key_index(keys@, k@) == Some(i as int)),
        r matches Ok(i) ==> i < keys@.len(),
        r matches Err(e) ==> e is AuthenticationError,
{
    let k = match kid {
        Some(k) => k,
        None => {
            return Err(ApplicationError::AuthenticationError(owned("The decoded jwt header didn't contain kid.")));
        },
    };
    let mut i: usize = keys.len();
    assert(keys@.subrange(0, i as int) =~= keys@);
    while i > 0
        invariant
            i <= keys@.len(),
            kid == Some(k),
            last_key_index(keys@, k@) == last_key_index(keys@.subrange(0, i as int), k@),
        decreases i,
    {
        assert(keys@.subrange(0, i as int).last() == keys@[i - 1]);
        if str_equals(keys[i - 1].kid.as_str(), k) {
            return Ok(i - 1);
        }
        assert(keys@.subrange(0, i as int).drop_last() =~= keys@.subrange(0, i - 1));
        i = i - 1;
    }
    Err(ApplicationError::AuthenticationError(owned("The decoded kid not found in jwks response")))
}

/// How long a signed request for an access token stays valid, in seconds.
pub const JWT_EXP_SECONDS: i64 = 60;

/// How much earlier than the service says an access token is taken to
/// expire, in seconds.
pub const API_TOKEN_EXP_OFFSET_SECONDS: i64 = 10;

/// The access token of the identity service, with the time (seconds since
/// the Unix epoch) when it is taken to expire.
pub struct GoogleAccessToken {
    pub token: String,
    pub expires_at: i64,
}

impl GoogleAccessToken {
    /// A token that has already expired, so that it is fetched before first use.
    pub fn new() -> (t: GoogleAccessToken)
        ensures
            t.token@.len() == 0,
            t.expires_at == i64::MIN,
    {
        GoogleAccessToken { token: String::new(), expires_at: i64::MIN }
    }

    /// Whether the token has expired at time `now`.
    pub fn has_expired(&self, now: i64) -> (b: bool)
        ensures
            b == (self.expires_at < now),
    {
        self.expires_at < now
    }

    /// The issue and expiry times of the signed request for a new token made
    /// at time `now`.
    pub fn claims_window(now: i64) -> (w: (i64, i64))
        requires
            now <= i64::MAX - JWT_EXP_SECONDS,
        ensures
            w.0 == now,
            w.1 == now + JWT_EXP_SECONDS,
    {
        (now, now + JWT_EXP_SECONDS)
    }

    /// Takes the answer of the token service, received at time `now`: the
    /// token it gave, if any, and how many seconds it stays valid, if said.
    /// Without a token nothing changes; with a token but no validity the
    /// token is kept and the expiry is not; both are refused as authentication
    /// errors.
    pub fn apply_response(&mut self, access_token: Option<String>, expires_in: Option<i64>, now: i64) -> (r:
        ApplicationResult<()>)
        requires
            expires_in matches Some(s) ==> i64::MIN + API_TOKEN_EXP_OFFSET_SECONDS <= now + s <= i64::MAX,
        ensures
            r is Ok <==> (access_token is Some && expires_in is Some),
            r matches Err(e) ==> e is AuthError,
            access_token matches Some(t) ==> final(self).token@ == t@,
            access_token is None ==> final(self).token@ == old(self).token@,
            match (access_token, expires_in) {
                (Some(_), Some(s)) => final(self).expires_at == now + s - API_TOKEN_EXP_OFFSET_SECONDS,
                _ => final(self).expires_at == old(self).expires_at,
            },
    {
        let t = match access_token {
            Some(t) => t,
            None => {
                return Err(ApplicationError::AuthError(owned("Unable to find access_token in the response")));
            },
        };
        self.token = t;
        let s = match expires_in {
            Some(s) => s,
            None => {
                return Err(ApplicationError::AuthError(owned("Unable to find expires_in in the response")));
            },
        };
        self.expires_at = now + s - API_TOKEN_EXP_OFFSET_SECONDS;
        Ok(())
    }
}

/// The error type of `jsonwebtoken`.
#[verifier::external_type_specification]
#[verifier::external_body]
pub struct ExJwtError(jsonwebtoken::errors::Error);

/// Name for what `jsonwebtoken::decode_header` reads of a token's header:
/// `None` when the header cannot be read, else its `kid` field, if any.
pub uninterp spec fn jwt_header_kid(token: Seq<char>) -> Option<Option<Seq<char>>>;

/// The text of an optional string.
pub open spec fn opt_text(s: Option<String>) -> Option<Seq<char>> {
    match s {
        Some(t) => Some(t@),
        None => None,
    }
}

/// Calls `jsonwebtoken::decode_header` on `token` and takes the header's
/// `kid`. Claimed: an error exactly when the header cannot be read, and the
/// `kid` is a function of the token alone.
#[verifier::external_body]
fn header_kid(token: &str) -> (r: Result<Option<String>, jsonwebtoken::errors::Error>)
    ensures
        r matches Ok(k) ==> jwt_header_kid(token@) == Some(opt_text(k)),
        r is Err ==> jwt_header_kid(token@) is None,
{
    jsonwebtoken::decode_header(token).map(|h| h.kid)
}

/// Calls `Display::to_string` on a `jsonwebtoken` error; nothing is claimed
/// of the text.
#[verifier::external_body]
fn jwt_error_text(e: &jsonwebtoken::errors::Error) -> (t: String) {
    e.to_string()
}

/// The signing algorithms that tokens are made and checked with.
pub enum JwtAlgorithm {
    /// RSASSA-PKCS1-v1_5 with SHA-256.
    RS256,
}

/// Name for the claims with string values that a token carries: its payload
/// (the part between the last two dots) read as base64url without padding
/// and then as a JSON object; where a claim occurs twice the later one
/// counts; empty when the payload is no JSON object.
pub uninterp spec fn jwt_claim_texts(token: Seq<char>) -> Map<Seq<char>, Seq<char>>;

/// Whether the claim `v` read under `name` agrees with the string claims
/// `texts` of the token: a string claim is the one `texts` holds under that
/// name, and any other claim has no entry there.
pub open spec fn claim_matches(v: ClaimValue, texts: Map<Seq<char>, Seq<char>>, name: Seq<char>) -> bool {
    match v {
        ClaimValue::Text(t) => texts.contains_key(name) && texts[name] == t@,
        _ => !texts.contains_key(name),
    }
}

/// The map that a list of name and value pairs gathers into, a later pair
/// replacing an earlier one of the same name.
pub open spec fn pairs_map(pairs: Seq<(Seq<char>, Seq<char>)>) -> Map<Seq<char>, Seq<char>>
    decreases pairs.len(),
{
    if pairs.len() == 0 {
        Map::empty()
    } else {
        pairs_map(pairs.drop_last()).insert(pairs.last().0, pairs.last().1)
    }
}

/// Calls `jsonwebtoken::decode` on `token` with the RSA public key of
/// modulus `n` and exponent `e` (`DecodingKey::from_rsa_components`),
/// requiring algorithm `alg`, issuer `iss` and audience `aud`, and reads the
/// claims `aud`, `iat`, `exp`, `iss`, `sub` and `uid` of the JSON claims
/// (`serde_json::Value::get`, a number as `as_u64`). Claimed: each claim
/// agrees with the token's string claims, and a string issuer or audience
/// is the one required (`validate` refuses any other). Not claimed: whether
/// the token checks out, which also depends on its signature and on the
/// current time (its expiry).
#[verifier::external_body]
fn decode_claims(token: &str, n: &str, e: &str, alg: JwtAlgorithm, iss: &str, aud: &str) -> (r: Result<
    TokenClaims,
    jsonwebtoken::errors::Error,
>)
    ensures
        r matches Ok(c) ==> {
            let texts = jwt_claim_texts(token@);
            &&& claim_matches(c.aud, texts, seq!['a', 'u', 'd'])
            &&& claim_matches(c.iat, texts, seq!['i', 'a', 't'])
            &&& claim_matches(c.exp, texts, seq!['e', 'x', 'p'])
            &&& claim_matches(c.iss, texts, seq!['i', 's', 's'])
            &&& claim_matches(c.sub, texts, seq!['s', 'u', 'b'])
            &&& claim_matches(c.uid, texts, seq!['u', 'i', 'd'])
        },
        r matches Ok(c) ==> (c.iss matches ClaimValue::Text(t) ==> t@ == iss@),
        r matches Ok(c) ==> (c.aud matches ClaimValue::Text(t) ==> t@ == aud@),
{
    let mut validation = Validation::new(match alg { JwtAlgorithm::RS256 => Algorithm::RS256 });
    validation.set_issuer(&[iss]);
    validation.set_audience(&[aud]);
    let c: Value = decode(token, &DecodingKey::from_rsa_components(n, e)?, &validation)?.claims;
    let get = |k| match c.get(k) {
        None => ClaimValue::Absent,
        Some(Value::Null) => ClaimValue::Null,
        Some(Value::String(t)) => ClaimValue::Text(t.clone()),
        Some(Value::Number(x)) => x.as_u64().map_or(ClaimValue::Other, ClaimValue::Unsigned),
        _ => ClaimValue::Other,
    };
    Ok(TokenClaims { aud: get("aud"), iat: get("iat"), exp: get("exp"), iss: get("iss"), sub: get("sub"), uid: get("uid") })
}

/// Calls `jsonwebtoken::encode` with a header of algorithm `alg` and type
/// `typ`, the `claims` gathered into a map (`HashMap`, a later pair replacing
/// an earlier one), and the key that `EncodingKey::from_rsa_pem` reads from
/// `private_key_pem`. Claimed: the token's payload holds exactly those
/// claims (`encode` writes it as the base64url JSON of the map). Not claimed:
/// the header and signature parts, nor the order of the claims in the
/// payload, which the map's hasher decides.
#[verifier::external_body]
fn sign_jwt(alg: JwtAlgorithm, typ: &str, private_key_pem: &str, claims: &Vec<(String, String)>) -> (r: Result<
    String,
    jsonwebtoken::errors::Error,
>)
    ensures
        r matches Ok(t) ==> jwt_claim_texts(t@) == pairs_map(pairs_view(claims@)),
{
    let alg = match alg { JwtAlgorithm::RS256 => Algorithm::RS256 };
    let header = Header { typ: Some(typ.to_string()), alg, ..Default::default() };
    let key = EncodingKey::from_rsa_pem(private_key_pem.as_bytes())?;
    let map: HashMap<&str, &str> = claims.iter().map(|(k, v)| (k.as_str(), v.as_str())).collect();
    jsonwebtoken::encode(&header, &map, &key)
}

/// Reads the `kid` of a token's header: refused with an auth error (the
/// text of the `jsonwebtoken` error) when the header cannot be read, and
/// with an authentication error when it names no key.
pub fn token_kid(token: &str) -> (r: ApplicationResult<String>)
    ensures
        r is Ok <==> jwt_header_kid(token@) matches Some(Some(_)),
        r matches Ok(k) ==> jwt_header_kid(token@) == Some(Some(k@)),
        jwt_header_kid(token@) is None ==> (r matches Err(e) && e is AuthError),
        jwt_header_kid(token@) == Some(None::<Seq<char>>) ==> (r matches Err(e) && e is AuthenticationError),
{
    match header_kid(token) {
        Ok(Some(kid)) => Ok(kid),
        Ok(None) => Err(ApplicationError::AuthenticationError(owned("The decoded jwt header didn't contain kid."))),
        Err(e) => Err(ApplicationError::AuthError(jwt_error_text(&e))),
    }
}

/// The prefix of the issuer that tokens of a project name.
pub open spec fn issuer_prefix() -> Seq<char> {
    seq!['h', 't', 't', 'p', 's', ':', '/', '/', 's', 'e', 'c', 'u', 'r', 'e', 't', 'o', 'k', 'e', 'n', '.', 'g', 'o', 'o', 'g', 'l', 'e', '.', 'c', 'o', 'm', '/']
}

/// The issuer that tokens of project `project_id` must name.
pub fn issuer(project_id: &str) -> (r: String)
    ensures
        r@ == issuer_prefix() + project_id@,
{
    let mut r = owned("https://securetoken.google.com/");
    proof {
        reveal_strlit("https://securetoken.google.com/");
        assert(r@ =~= issuer_prefix());
    }
    r.append(project_id);
    r
}

/// What a token whose header names the key `kid` is checked with: the
/// modulus and exponent of the last of the issuer's `keys` with that id, and
/// the issuer that tokens of project `project_id` name. Refused with an
/// authentication error when no key has that id.
pub fn decode_inputs(kid: &str, keys: &Vec<Jwk>, project_id: &str) -> (r: ApplicationResult<(String, String, String)>)
    ensures
        r is Ok <==> last_key_index(keys@, kid@) is Some,
        r matches Ok((n, e, iss)) ==> (last_key_index(keys@, kid@) matches Some(i) && n@ == keys@[i].n@
            && e@ == keys@[i].e@ && iss@ == issuer_prefix() + project_id@),
        r matches Err(e) ==> e is AuthenticationError,
{
    let i = select_key(keys, Some(kid))?;
    let jwk = &keys[i];
    Ok((owned(jwk.n.as_str()), owned(jwk.e.as_str()), issuer(project_id)))
}

/// A claim of a token, as far as its checks need: absent, null, a string,
/// an unsigned number, or any other value.
pub enum ClaimValue {
    Absent,
    Null,
    Text(String),
    Unsigned(u64),
    Other,
}

/// The claims of an identity token that are read: audience, issue time,
/// expiry, issuer, subject (the user) and the optional user id.
pub struct TokenClaims {
    pub aud: ClaimValue,
    pub iat: ClaimValue,
    pub exp: ClaimValue,
    pub iss: ClaimValue,
    pub sub: ClaimValue,
    pub uid: ClaimValue,
}

/// Whether the claims have the shape an identity token's claims must have:
/// string audience, issuer and subject, unsigned issue and expiry times, and
/// a user id that is absent, null or a string.
pub open spec fn claims_well_formed(c: TokenClaims) -> bool {
    &&& c.aud is Text
    &&& c.iat is Unsigned
    &&& c.exp is Unsigned
    &&& c.iss is Text
    &&& c.sub is Text
    &&& (c.uid is Absent || c.uid is Null || c.uid is Text)
}

/// The text of a string claim (empty for any other claim).
pub open spec fn claim_text(v: ClaimValue) -> Seq<char> {
    match v {
        ClaimValue::Text(t) => t@,
        _ => Seq::empty(),
    }
}

/// The user that a checked token names, from what the check gave: the
/// token's claims, or the text of the error it failed with. Claims of the
/// wrong shape are refused with an auth error.
pub fn subject_result(r: Result<TokenClaims, String>) -> (u: ApplicationResult<UserId>)
    ensures
        r matches Ok(c) ==> (claims_well_formed(c) <==> u is Ok),
        r matches Ok(c) ==> (claims_well_formed(c) ==> (u matches Ok(id) && id@ == claim_text(c.sub))),
        r matches Ok(c) ==> (!claims_well_formed(c) ==> (u matches Err(ApplicationError::AuthError(m)) && m@
            == "The token's claims are malformed."@)),
        r matches Err(t) ==> (u matches Err(ApplicationError::AuthError(m)) && m@ == t@),
{
    match r {
        Ok(c) => {
            let uid_ok = match &c.uid {
                ClaimValue::Absent | ClaimValue::Null | ClaimValue::Text(_) => true,
                _ => false,
            };
            let shape_ok = matches!(c.aud, ClaimValue::Text(_)) && matches!(c.iat, ClaimValue::Unsigned(_))
                && matches!(c.exp, ClaimValue::Unsigned(_)) && matches!(c.iss, ClaimValue::Text(_)) && uid_ok;
            match c.sub {
                ClaimValue::Text(sub) => if shape_ok {
                    Ok(UserId::from_string(sub))
                } else {
                    Err(ApplicationError::AuthError(owned("The token's claims are malformed.")))
                },
                _ => Err(ApplicationError::AuthError(owned("The token's claims are malformed."))),
            }
        },
        Err(text) => Err(ApplicationError::AuthError(text)),
    }
}

/// Whether the string claims `texts` of a token name the audience
/// `project_id`, the issuer of that project and the subject `user`.
pub open spec fn issued_for(texts: Map<Seq<char>, Seq<char>>, project_id: Seq<char>, user: Seq<char>) -> bool {
    &&& texts.contains_key(seq!['a', 'u', 'd'])
    &&& texts[seq!['a', 'u', 'd']] == project_id
    &&& texts.contains_key(seq!['i', 's', 's'])
    &&& texts[seq!['i', 's', 's']] == issuer_prefix() + project_id
    &&& texts.contains_key(seq!['s', 'u', 'b'])
    &&& texts[seq!['s', 'u', 'b']] == user
}

/// Checks `token`, whose header names the key `kid`, against the issuer's
/// `keys` for project `project_id` with the inputs of [`decode_inputs`]
/// (algorithm RS256, audience the project), and gives the user it was
/// issued to (see [`subject_result`]). Refused with an authentication error
/// exactly when no key has that id; with an auth error when the token does
/// not check out or names no user. A token that is accepted names the
/// project as audience, the project's issuer, and the user as subject.
pub fn verify_with_keys(token: &str, kid: &str, keys: &Vec<Jwk>, project_id: &str) -> (r: ApplicationResult<UserId>)
    ensures
        last_key_index(keys@, kid@) is None ==> (r matches Err(e) && e is AuthenticationError),
        (r matches Err(e) && e is AuthenticationError) ==> last_key_index(keys@, kid@) is None,
        r is Ok ==> last_key_index(keys@, kid@) is Some,
        r matches Ok(id) ==> issued_for(jwt_claim_texts(token@), project_id@, id@),
        r matches Err(e) ==> (e is AuthError || e is AuthenticationError),
{
    let (n, e, iss) = decode_inputs(kid, keys, project_id)?;
    let checked = match decode_claims(token, n.as_str(), e.as_str(), JwtAlgorithm::RS256, iss.as_str(), project_id) {
        Ok(claims) => Ok(claims),
        Err(err) => Err(jwt_error_text(&err)),
    };
    subject_result(checked)
}

/// The scope that the service access token is asked for.
pub const API_SCOPE: &'static str = "https://www.googleapis.com/auth/identitytoolkit";

/// The decimal notation of `n`, with a minus sign when negative.
pub open spec fn signed_decimal(n: int) -> Seq<char> {
    if n < 0 {
        seq!['-'] + decimal((-n) as nat)
    } else {
        decimal(n as nat)
    }
}

/// The decimal notation of `n`.
pub fn signed_decimal_text(n: i64) -> (r: String)
    ensures
        r@ == signed_decimal(n as int),
{
    let mut r = String::new();
    if n < 0 {
        push_char(&mut r, '-');
        let mag: u64 = if n == i64::MIN { 9223372036854775808u64 } else { (-n) as u64 };
        push_decimal(&mut r, mag);
    } else {
        push_decimal(&mut r, n as u64);
    }
    r
}

/// The claims of the signed request for a service access token made at
/// time `now`: audience the token service, issuer the service account, issued
/// now, expiring [`JWT_EXP_SECONDS`] later, for [`API_SCOPE`].
pub open spec fn assertion_claims(token_uri: Seq<char>, client_email: Seq<char>, now: int) -> Seq<(Seq<char>, Seq<char>)> {
    seq![
        (seq!['a', 'u', 'd'], token_uri),
        (seq!['i', 's', 's'], client_email),
        (seq!['i', 'a', 't'], signed_decimal(now)),
        (seq!['e', 'x', 'p'], signed_decimal(now + JWT_EXP_SECONDS)),
        (seq!['s', 'c', 'o', 'p', 'e'], API_SCOPE@),
    ]
}

/// A list of text pairs, by their texts.
pub open spec fn pairs_view(v: Seq<(String, String)>) -> Seq<(Seq<char>, Seq<char>)> {
    v.map_values(|p: (String, String)| (p.0@, p.1@))
}

/// The claims of the signed request for a service access token made at `now`.
pub fn assertion_claim_list(token_uri: &str, client_email: &str, now: i64) -> (r: Vec<(String, String)>)
    requires
        now <= i64::MAX - JWT_EXP_SECONDS,
    ensures
        pairs_view(r@) == assertion_claims(token_uri@, client_email@, now as int),
{
    let (iat, exp) = GoogleAccessToken::claims_window(now);
    let mut r: Vec<(String, String)> = Vec::new();
    r.push((owned("aud"), owned(token_uri)));
    r.push((owned("iss"), owned(client_email)));
    r.push((owned("iat"), signed_decimal_text(iat)));
    r.push((owned("exp"), signed_decimal_text(exp)));
    r.push((owned("scope"), owned(API_SCOPE)));
    proof {
        reveal_strlit("aud");
        reveal_strlit("iss");
        reveal_strlit("iat");
        reveal_strlit("exp");
        reveal_strlit("scope");
        let want = assertion_claims(token_uri@, client_email@, now as int);
        let got = pairs_view(r@);
        assert(got.len() == 5);
        assert(got[0] == want[0]);
        assert(got[1] == want[1]);
        assert(got[2] == want[2]);
        assert(got[3] == want[3]);
        assert(got[4] == want[4]);
        assert(got =~= want);
    }
    r
}

/// The signed request (a JWT) for a service access token made at `now` with
/// the service account `client_email` and its PEM private key: a token of
/// type `JWT`, signed with RS256, whose payload holds the claims of
/// [`assertion_claims`]. Refused with an auth error when the key cannot be
/// read or the signing fails.
pub fn sign_assertion(token_uri: &str, client_email: &str, private_key_pem: &str, now: i64) -> (r: ApplicationResult<String>)
    requires
        now <= i64::MAX - JWT_EXP_SECONDS,
    ensures
        r matches Ok(t) ==> jwt_claim_texts(t@) == pairs_map(assertion_claims(token_uri@, client_email@, now as int)),
        r matches Err(e) ==> e is AuthError,
{
    let claims = assertion_claim_list(token_uri, client_email, now);
    match sign_jwt(JwtAlgorithm::RS256, "JWT", private_key_pem, &claims) {
        Ok(jwt) => Ok(jwt),
        Err(e) => Err(ApplicationError::AuthError(jwt_error_text(&e))),
    }
}

/// The address under which the identity service keeps the accounts of
/// project `project_id`.
pub open spec fn accounts_url_spec(project_id: Seq<char>) -> Seq<char> {
    "https://identitytoolkit.googleapis.com/v1/projects/"@ + project_id + "/accounts"@
}

/// The address that creates accounts of project `project_id`.
pub fn accounts_url(project_id: &str) -> (r: String)
    ensures
        r@ == accounts_url_spec(project_id@),
{
    let mut r = owned("https://identitytoolkit.googleapis.com/v1/projects/");
    r.append(project_id);
    r.append("/accounts");
    r
}

/// The address that deletes accounts of project `project_id`.
pub fn accounts_delete_url(project_id: &str) -> (r: String)
    ensures
        r@ == accounts_url_spec(project_id@) + ":delete"@,
{
    let mut r = accounts_url(project_id);
    r.append(":delete");
    r
}

/// The outcome of a call to the identity service that answered with a
/// success status (`success`) or not: refused with an auth error that names
/// the `action` otherwise.
pub fn account_call_result(success: bool, action: &str) -> (r: ApplicationResult<()>)
    ensures
        r is Ok <==> success,
        r matches Err(e) ==> e is AuthError,
{
    if success {
        Ok(())
    } else {
        let mut msg = owned("Failed to ");
        msg.append(action);
        Err(ApplicationError::AuthError(msg))
    }
}

} // verus!
