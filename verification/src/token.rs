use vstd::prelude::*;
use std::collections::BTreeMap;
use hmac::Mac;
use jwt::SignWithKey;
use jwt::VerifyWithKey;

verus! {

/// Spec-level image of [`TokenClaims`].
#[verifier::ext_equal]
pub struct TokenClaimsView {
    pub user: Seq<char>,
    pub password: Seq<char>,
    pub token_time: Seq<char>,
}

/// The claims a bearer token carries, signed as one unit: the username, the
/// password digest in uppercase hex, and the RFC 3339 issue time.
pub struct TokenClaims {
    pub user: String,
    pub password: String,
    pub token_time: String,
}

impl View for TokenClaims {
    type V = TokenClaimsView;

    open spec fn view(&self) -> TokenClaimsView {
        TokenClaimsView { user: self.user@, password: self.password@, token_time: self.token_time@ }
    }
}

/// The compact signed string that signing the claim map {user, password,
/// token_time} under the library's fixed key yields. The rendering is a
/// function of the three claim values alone; its exact form (serialization,
/// base64, MAC) is the jwt crate's business and only carries a name here.
pub uninterp spec fn signed_token(user: Seq<char>, password: Seq<char>, token_time: Seq<char>) -> Seq<char>;

/// Relies on jwt::SignWithKey (with an hmac::Hmac<sha2::Sha256> key): the
/// compact token is computed from the claim map and the fixed key alone.
/// Signing a map of plain strings cannot fail: its JSON serialization is
/// total.
#[verifier::external_body]
pub(crate) fn sign_claims(claims: &TokenClaims) -> (r: String)
    ensures
        r@ == signed_token(claims.user@, claims.password@, claims.token_time@),
{
    let key = <hmac::Hmac<sha2::Sha256> as Mac>::new_from_slice(b"jdf84h5fb#^239hdei#9furf")
        .unwrap();
    let mut map = BTreeMap::new();
    map.insert("user", claims.user.as_str());
    map.insert("password", claims.password.as_str());
    map.insert("token_time", claims.token_time.as_str());
    map.sign_with_key(&key).unwrap()
}

/// What verification reports of a token: whenever the token is the signed
/// form of some claim triple, the triple comes back.
pub open spec fn verify_token_post(token: Seq<char>, r: Option<TokenClaimsView>) -> bool {
    forall|u: Seq<char>, p: Seq<char>, t: Seq<char>|
        token == #[trigger] signed_token(u, p, t) ==> (r matches Some(c) && c.user == u
            && c.password == p && c.token_time == t)
}

/// Relies on jwt::VerifyWithKey (with an hmac::Hmac<sha2::Sha256> key):
/// verifying the token that signing a claim map under the same key produced
/// returns exactly that map — the crate's documented round trip. Any other
/// outcome of parsing, signature check or claim lookup is reported as None.
#[verifier::external_body]
pub(crate) fn verify_token(token: &str) -> (r: Option<TokenClaims>)
    ensures
        verify_token_post(token@, crate::opt_view(r)),
{
    let key = <hmac::Hmac<sha2::Sha256> as Mac>::new_from_slice(b"jdf84h5fb#^239hdei#9furf")
        .unwrap();
    let claims: BTreeMap<String, String> = token.verify_with_key(&key).ok()?;
    Some(TokenClaims {
        user: claims.get("user")?.clone(),
        password: claims.get("password")?.clone(),
        token_time: claims.get("token_time")?.clone(),
    })
}

/// Whether a string is a valid RFC 3339 timestamp, and which Unix second it
/// denotes: a function of the string alone, named rather than restated.
pub uninterp spec fn rfc3339_secs(s: Seq<char>) -> Option<i64>;

/// Relies on chrono::DateTime::parse_from_rfc3339 and
/// chrono::DateTime::timestamp: parsing is a pure function of the string.
#[verifier::external_body]
pub(crate) fn parse_rfc3339_secs(s: &str) -> (r: Option<i64>)
    ensures
        r == rfc3339_secs(s@),
{
    chrono::DateTime::parse_from_rfc3339(s).ok().map(|d| d.timestamp())
}

/// Relies on chrono::Utc::now and chrono::DateTime::to_rfc3339: the clock
/// decides the value, so nothing is promised beyond the crates' documented
/// round trip — the RFC 3339 rendering of a DateTime parses back.
#[verifier::external_body]
pub(crate) fn now_rfc3339() -> (r: String)
    ensures
        rfc3339_secs(r@) is Some,
{
    chrono::Utc::now().to_rfc3339()
}

/// Relies on chrono::Utc::now and chrono::DateTime::timestamp: the clock
/// decides the result, so nothing is promised of it.
#[verifier::external_body]
pub(crate) fn now_timestamp() -> (r: i64) {
    chrono::Utc::now().timestamp()
}

} // verus!
