//! Session tokens: HS256 JSON Web Tokens that carry an account identifier and an expiry time.
use vstd::prelude::*;
use crate::app::models::error::Error;
use crate::app::utils::time::timestamp;
use jsonwebtoken::{Algorithm, DecodingKey, EncodingKey, Header, Validation};

verus! {

/// The claims of a session token: the account it was issued to and when it expires
/// (Unix seconds).
pub struct JWT {
    exp: usize,
    sid: String,
}

/// What a token's claims hold, as mathematical values.
pub struct JwtClaims {
    pub exp: usize,
    pub sid: Seq<char>,
}

impl View for JWT {
    type V = JwtClaims;

    closed spec fn view(&self) -> JwtClaims {
        JwtClaims { exp: self.exp, sid: self.sid@ }
    }
}

const SECRET: &'static str = "thisisasecret";

/// The token that `jsonwebtoken::encode` produces for the claims `{"exp": exp, "sid": sid}`
/// with the header `{"typ": "JWT", "alg": "HS256", "kid": "KOO"}` and the library's secret, or
/// `None` where it reports an error. It is a function of its arguments alone.
pub uninterp spec fn jwt_signed(sid: Seq<char>, exp: usize) -> Option<Seq<char>>;

/// Whether `jsonwebtoken::decode`, with the library's key, accepts `token` as signed: its
/// three `.`-separated parts have a header that names HS256, and the HS256 signature of the
/// first two parts under the library's secret is the third. It is a function of the token
/// alone.
pub uninterp spec fn jwt_key_verifies(token: Seq<char>) -> bool;

/// Signs the claims: `jsonwebtoken::encode` with HS256, key id `KOO` and the library's
/// secret; the claims are written as the JSON object `{"exp": exp, "sid": sid}`. Trusted: the
/// result is named by `jwt_signed`, and its signature is one that the decoder, with the same
/// key, accepts; the text of an error is left unsaid.
#[verifier::external_body]
fn sign_claims(sid: &String, exp: usize) -> (r: Result<String, String>)
    ensures
        match r {
            Ok(token) => jwt_signed(sid@, exp) == Some(token@) && jwt_key_verifies(token@),
            Err(_) => jwt_signed(sid@, exp) is None,
        },
{
    let header = Header { alg: Algorithm::HS256, kid: Some(String::from("KOO")), ..Default::default() };
    let mut claims = serde_json::Map::new();
    claims.insert(String::from("exp"), serde_json::Value::from(exp));
    claims.insert(String::from("sid"), serde_json::Value::from(sid.as_str()));
    let key = EncodingKey::from_secret(SECRET.as_bytes());
    jsonwebtoken::encode(&header, &claims, &key).map_err(|e| e.to_string())
}

/// The claims `c`, read from `token`, are the ones it was signed with, wherever `token` is a
/// token that `sign_claims` made.
pub open spec fn read_back(token: Seq<char>, c: JwtClaims) -> bool {
    forall|sid: Seq<char>, exp: usize|
        #[trigger] jwt_signed(sid, exp) == Some(token) ==> c == (JwtClaims { exp, sid })
}

/// Checks a token and reads its claims: `jsonwebtoken::decode` with HS256 and the library's
/// secret, which checks the signature and refuses a token whose `exp` lies more than the
/// crate's default leeway (60 s) before the clock; `exp` must be an unsigned integer and
/// `sid` a string. Trusted: claims read from a token that `sign_claims` made are the claims
/// it was made with (the token carries them, and the signature made with the same key
/// checks); claims are read only from a token whose signature checks under the library's key
/// (`jwt_key_verifies`), so never from a text without a `.`. Whether a signed token is
/// refused as expired depends on the clock, and is left unsaid.
#[verifier::external_body]
fn decode_claims(token: &String) -> (r: Option<JWT>)
    ensures
        r matches Some(c) ==> read_back(token@, c@),
        r is Some ==> jwt_key_verifies(token@),
        !token@.contains('.') ==> r is None,
{
    let key = DecodingKey::from_secret(SECRET.as_bytes());
    let validation = Validation::new(Algorithm::HS256);
    let data = jsonwebtoken::decode::<serde_json::Map<String, serde_json::Value>>(token, &key, &validation).ok()?;
    let exp = data.claims.get("exp")?.as_u64()?;
    let sid = data.claims.get("sid")?.as_str()?;
    Some(JWT { exp: exp as usize, sid: sid.to_string() })
}

/// The answer to a token whose claims, if it could be read, are `decoded`, at the time `now`:
/// the account identifier while the token is unexpired.
pub open spec fn claims_verdict(decoded: Option<JwtClaims>, now: usize) -> Result<Seq<char>, Seq<char>> {
    match decoded {
        None => Err("error on decoding token"@),
        Some(c) => if c.exp > now {
            Ok(c.sid)
        } else {
            Err("token expired"@)
        },
    }
}

/// `r` is the answer `v` of `claims_verdict`, as a `String` result.
pub open spec fn gives_verdict(r: Result<String, String>, v: Result<Seq<char>, Seq<char>>) -> bool {
    match (r, v) {
        (Ok(sid), Ok(w)) => sid@ == w,
        (Err(e), Err(w)) => e@ == w,
        _ => false,
    }
}

/// `r` answers `token`: it is the verdict, at some time, on the claims read from the token
/// (if any could be read); claims are read only from a token whose signature checks under the
/// library's key, and never from a text without a `.`; claims read from a token that this
/// library signed are the claims it was signed with.
pub open spec fn answers_token(token: Seq<char>, r: Result<String, String>) -> bool {
    exists|decoded: Option<JwtClaims>, now: usize|
        {
            &&& (decoded matches Some(c) ==> read_back(token, c))
            &&& (decoded is Some ==> jwt_key_verifies(token))
            &&& (!token.contains('.') ==> decoded is None)
            &&& #[trigger] gives_verdict(r, claims_verdict(decoded, now))
        }
}

impl JWT {
    pub fn new(sid: String, exp: usize) -> (t: Self)
        ensures
            t@ == (JwtClaims { exp, sid: sid@ }),
    {
        Self { sid, exp }
    }

    pub fn create_token(&self) -> (r: Result<String, Error>)
        ensures
            match r {
                Ok(token) => jwt_signed(self@.sid, self@.exp) == Some(token@),
                Err(e) => jwt_signed(self@.sid, self@.exp) is None && e is CreatingTokenError,
            },
    {
        match sign_claims(&self.sid, self.exp) {
            Ok(token) => Ok(token),
            Err(err) => Err(Error::CreatingTokenError(err)),
        }
    }

    /// Decides on a token's claims read at time `now`: `Ok` with the account identifier while
    /// the token is unexpired, else an error that says why.
    pub fn check_claims(decoded: Option<JWT>, now: usize) -> (r: Result<String, String>)
        ensures
            gives_verdict(r, claims_verdict(view_claims(decoded), now)),
    {
        match decoded {
            None => Err(String::from_str("error on decoding token")),
            Some(claims) => {
                if claims.exp > now {
                    Ok(claims.sid)
                } else {
                    Err(String::from_str("token expired"))
                }
            },
        }
    }

    /// Checks a token against the signature and the clock, and gives the account identifier
    /// it carries. Whatever the token, the answer is what `check_claims` decides on the claims
    /// that `jsonwebtoken` read (if any) and the time the clock gave.
    pub fn verify_token(token: String) -> (r: Result<String, String>)
        ensures
            answers_token(token@, r),
    {
        let decoded = decode_claims(&token);
        let now = timestamp();
        let r = Self::check_claims(decoded, now);
        assert(gives_verdict(r, claims_verdict(view_claims(decoded), now)));
        r
    }
}

/// The claims of an optional token, as mathematical values.
pub open spec fn view_claims(t: Option<JWT>) -> Option<JwtClaims> {
    match t {
        Some(c) => Some(c@),
        None => None,
    }
}

} // verus!
