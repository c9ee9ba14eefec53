//! The credential verifier and the token service.
//!
//! Passwords are hashed and checked by the `argon2` crate, with a fresh random
//! salt from `rand` for each hash. Tokens are signed and their signatures
//! checked by the `jsonwebtoken` crate. What a claim must hold, when it has
//! expired and whose issuer it may name is decided here.

use vstd::prelude::*;
use crate::error::Error;
use crate::text::{same_text, text_result_view, text_view};

verus! {

/// The last instant a token may name, in seconds since the Unix epoch: what a
/// signed 64-bit count of seconds can hold.
pub const MAX_TIMESTAMP: u64 = 9223372036854775807;

/// Who a token speaks of: the inputs of a claim, without its validity window.
pub struct Token {
    pub iss: String,
    pub aud: String,
    pub sub: String,
    pub version: u32,
}

/// A `Token` as plain values.
pub struct TokenView {
    pub iss: Seq<char>,
    pub aud: Seq<char>,
    pub sub: Seq<char>,
    pub version: u32,
}

impl View for Token {
    type V = TokenView;

    open spec fn view(&self) -> TokenView {
        TokenView { iss: self.iss@, aud: self.aud@, sub: self.sub@, version: self.version }
    }
}

/// The assertion a token carries: who, for whom, and from when until when
/// (both in seconds since the Unix epoch).
pub struct Claim {
    pub iss: String,
    pub aud: String,
    pub sub: String,
    pub version: u32,
    pub iat: u64,
    pub exp: u64,
}

/// A `Claim` as plain values.
pub struct ClaimView {
    pub iss: Seq<char>,
    pub aud: Seq<char>,
    pub sub: Seq<char>,
    pub version: u32,
    pub iat: u64,
    pub exp: u64,
}

impl View for Claim {
    type V = ClaimView;

    open spec fn view(&self) -> ClaimView {
        ClaimView {
            iss: self.iss@,
            aud: self.aud@,
            sub: self.sub@,
            version: self.version,
            iat: self.iat,
            exp: self.exp,
        }
    }
}

/// The payload of a token whose signature holds, field by field: `None` where
/// the payload lacks the field or holds it with another type.
pub struct RawClaims {
    pub iss: Option<String>,
    pub aud: Option<String>,
    pub sub: Option<String>,
    pub version: Option<u64>,
    pub iat: Option<u64>,
    pub exp: Option<u64>,
}

/// `RawClaims` as plain values.
pub struct RawClaimsView {
    pub iss: Option<Seq<char>>,
    pub aud: Option<Seq<char>>,
    pub sub: Option<Seq<char>>,
    pub version: Option<u64>,
    pub iat: Option<u64>,
    pub exp: Option<u64>,
}

impl View for RawClaims {
    type V = RawClaimsView;

    open spec fn view(&self) -> RawClaimsView {
        RawClaimsView {
            iss: text_view(self.iss),
            aud: text_view(self.aud),
            sub: text_view(self.sub),
            version: self.version,
            iat: self.iat,
            exp: self.exp,
        }
    }
}

/// The token that `jsonwebtoken::encode` makes of a claim under a secret, with
/// the default header (HS256); `None` where it reports an error.
pub uninterp spec fn jwt_signed(claim: ClaimView, secret: Seq<u8>) -> Option<Seq<char>>;

/// The payload that `jsonwebtoken::decode` finds in a token whose HS256
/// signature holds under a secret; `None` where it reports an error.
pub uninterp spec fn jwt_opened(token: Seq<char>, secret: Seq<u8>) -> Option<RawClaimsView>;

/// Calls `jsonwebtoken::encode` with the default header, the six fields of
/// `claim` as a JSON object and `secret` as an HMAC key. The contract names
/// the outcome and claims nothing else of it.
#[verifier::external_body]
fn sign_claim(claim: &Claim, secret: &[u8]) -> (r: Option<String>)
    ensures
        text_view(r) == jwt_signed(claim@, secret@),
{
    let mut m = serde_json::Map::new();
    m.insert("iss".to_string(), serde_json::Value::from(claim.iss.as_str()));
    m.insert("aud".to_string(), serde_json::Value::from(claim.aud.as_str()));
    m.insert("sub".to_string(), serde_json::Value::from(claim.sub.as_str()));
    m.insert("version".to_string(), serde_json::Value::from(claim.version));
    m.insert("iat".to_string(), serde_json::Value::from(claim.iat));
    m.insert("exp".to_string(), serde_json::Value::from(claim.exp));
    let key = jsonwebtoken::EncodingKey::from_secret(secret);
    jsonwebtoken::encode(&jsonwebtoken::Header::default(), &m, &key).ok()
}

/// Calls `jsonwebtoken::decode` with `secret` as an HMAC key, HS256 as the
/// only algorithm and every check of the payload switched off, so that the
/// outcome depends on the token and the secret alone; then reads the six
/// fields out of the payload. The contract names the outcome and claims
/// nothing else of it. The crate still reads the system clock, though it
/// makes no use of it here, and panics on a machine whose clock stands
/// before the Unix epoch.
#[verifier::external_body]
fn open_token(token: &str, secret: &[u8]) -> (r: Option<RawClaims>)
    ensures
        raw_view(r) == jwt_opened(token@, secret@),
{
    let mut v = jsonwebtoken::Validation::default();
    v.validate_exp = false;
    let key = jsonwebtoken::DecodingKey::from_secret(secret);
    let c = jsonwebtoken::decode::<serde_json::Value>(token, &key, &v).ok()?.claims;
    Some(RawClaims {
        iss: c.get("iss").and_then(serde_json::Value::as_str).map(String::from),
        aud: c.get("aud").and_then(serde_json::Value::as_str).map(String::from),
        sub: c.get("sub").and_then(serde_json::Value::as_str).map(String::from),
        version: c.get("version").and_then(serde_json::Value::as_u64),
        iat: c.get("iat").and_then(serde_json::Value::as_u64),
        exp: c.get("exp").and_then(serde_json::Value::as_u64),
    })
}

/// Reads the system clock: the whole seconds since the Unix epoch, `None`
/// where the clock stands before it. Nothing is claimed of the number.
#[verifier::external_body]
pub(crate) fn unix_now() -> (r: Option<u64>) {
    match std::time::SystemTime::now().duration_since(std::time::UNIX_EPOCH) {
        Ok(d) => Some(d.as_secs()),
        Err(_) => None,
    }
}

/// An optional payload as plain values.
pub open spec fn raw_view(r: Option<RawClaims>) -> Option<RawClaimsView> {
    match r {
        Some(raw) => Some(raw@),
        None => None,
    }
}

/// The claim a payload amounts to: every field present, the version within
/// 32 bits. `None` otherwise.
pub open spec fn claim_of(raw: RawClaimsView) -> Option<ClaimView> {
    if raw.iss is Some && raw.aud is Some && raw.sub is Some && raw.version is Some
        && raw.iat is Some && raw.exp is Some && raw.version->0 <= u32::MAX {
        Some(
            ClaimView {
                iss: raw.iss->0,
                aud: raw.aud->0,
                sub: raw.sub->0,
                version: raw.version->0 as u32,
                iat: raw.iat->0,
                exp: raw.exp->0,
            },
        )
    } else {
        None
    }
}

/// What validation answers at the instant `now` for what the decoder found:
/// the claim, if the signature held, the payload is a whole claim, the expiry
/// lies after `now` and the issuer is the expected one; else the first of
/// these that failed.
pub open spec fn validated(opened: Option<RawClaimsView>, issuer: Seq<char>, now: u64) -> Result<
    ClaimView,
    Error,
> {
    match opened {
        None => Err(Error::BadSignature),
        Some(raw) => match claim_of(raw) {
            None => Err(Error::BadSignature),
            Some(claim) => if claim.exp <= now {
                Err(Error::Expired)
            } else if claim.iss != issuer {
                Err(Error::IssuerMismatch)
            } else {
                Ok(claim)
            },
        },
    }
}

/// Whether validation succeeds at the instant `now`: the signature held, the
/// payload is a whole claim, `now` lies before the expiry and the issuer is
/// the expected one.
pub open spec fn accepted(opened: Option<RawClaimsView>, issuer: Seq<char>, now: u64) -> bool {
    &&& opened is Some
    &&& claim_of(opened->0) is Some
    &&& now < claim_of(opened->0)->0.exp
    &&& claim_of(opened->0)->0.iss == issuer
}

/// A validation result as plain values.
pub open spec fn claim_result_view(r: Result<Claim, Error>) -> Result<ClaimView, Error> {
    match r {
        Ok(claim) => Ok(claim@),
        Err(e) => Err(e),
    }
}

/// Decides on what the decoder found in a token: see `validated`.
pub fn check_claims(opened: Option<RawClaims>, issuer: &str, now: u64) -> (r: Result<Claim, Error>)
    ensures
        claim_result_view(r) == validated(raw_view(opened), issuer@, now),
        r is Ok <==> accepted(raw_view(opened), issuer@, now),
{
    let raw = match opened {
        Some(raw) => raw,
        None => {
            return Err(Error::BadSignature);
        },
    };
    match (raw.iss, raw.aud, raw.sub, raw.version, raw.iat, raw.exp) {
        (Some(iss), Some(aud), Some(sub), Some(version), Some(iat), Some(exp)) => {
            if version > 0xffff_ffff {
                return Err(Error::BadSignature);
            }
            if exp <= now {
                return Err(Error::Expired);
            }
            if !same_text(iss.as_str(), issuer) {
                return Err(Error::IssuerMismatch);
            }
            Ok(Claim { iss, aud, sub, version: version as u32, iat, exp })
        },
        _ => Err(Error::BadSignature),
    }
}

impl Token {
    /// The claim that is issued for this token at `now` with a lifetime of
    /// `ttl_secs` seconds.
    pub open spec fn claim_at(token: TokenView, now: u64, ttl_secs: u64) -> ClaimView
        recommends
            now + ttl_secs <= MAX_TIMESTAMP,
    {
        ClaimView {
            iss: token.iss,
            aud: token.aud,
            sub: token.sub,
            version: token.version,
            iat: now,
            exp: (now + ttl_secs) as u64,
        }
    }

    /// What issuing answers: the signed claim; `TokenDurationTooBig` where the
    /// expiry would lie past `MAX_TIMESTAMP`; `Internal` where the signer
    /// reported an error.
    pub open spec fn issued(token: TokenView, secret: Seq<u8>, now: u64, ttl_secs: u64) -> Result<
        Seq<char>,
        Error,
    > {
        if now + ttl_secs > MAX_TIMESTAMP {
            Err(Error::TokenDurationTooBig)
        } else {
            match jwt_signed(Self::claim_at(token, now, ttl_secs), secret) {
                Some(t) => Ok(t),
                None => Err(Error::Internal),
            }
        }
    }

    /// The claim's inputs again, without its validity window.
    pub open spec fn of_claim(claim: ClaimView) -> TokenView {
        TokenView { iss: claim.iss, aud: claim.aud, sub: claim.sub, version: claim.version }
    }

    /// Issues a token for this identity at the instant `now`, valid for
    /// `ttl_secs` seconds: see `issued`. The sum never wraps.
    pub fn issue_at(&self, secret: &[u8], now: u64, ttl_secs: u64) -> (r: Result<String, Error>)
        ensures
            text_result_view(r) == Self::issued(self@, secret@, now, ttl_secs),
            now + ttl_secs > MAX_TIMESTAMP ==> r matches Err(Error::TokenDurationTooBig),
            r matches Err(Error::TokenDurationTooBig) ==> now + ttl_secs > MAX_TIMESTAMP,
    {
        let exp: u64 = match now.checked_add(ttl_secs) {
            Some(exp) => exp,
            None => {
                return Err(Error::TokenDurationTooBig);
            },
        };
        if exp > MAX_TIMESTAMP {
            return Err(Error::TokenDurationTooBig);
        }
        let claim = Claim {
            iss: self.iss.clone(),
            aud: self.aud.clone(),
            sub: self.sub.clone(),
            version: self.version,
            iat: now,
            exp,
        };
        match sign_claim(&claim, secret) {
            Some(t) => Ok(t),
            None => Err(Error::Internal),
        }
    }

    /// Issues a token for this identity now, valid for `ttl_secs` seconds.
    /// Whatever the clock says, the answer is that of `issue_at` at some
    /// instant, or `Internal` where the clock could not be read.
    pub fn issue(&self, secret: &[u8], ttl_secs: u64) -> (r: Result<String, Error>)
        ensures
            r == Err::<String, Error>(Error::Internal) || exists|now: u64|
                text_result_view(r) == #[trigger] Self::issued(self@, secret@, now, ttl_secs),
            ttl_secs > MAX_TIMESTAMP ==> r is Err,
    {
        match unix_now() {
            Some(now) => self.issue_at(secret, now, ttl_secs),
            None => Err(Error::Internal),
        }
    }

    /// Validates `token` at the instant `now`: see `validated`.
    pub fn validate_at(token: &str, secret: &[u8], iss: &str, now: u64) -> (r: Result<Claim, Error>)
        ensures
            claim_result_view(r) == validated(jwt_opened(token@, secret@), iss@, now),
            r is Ok <==> accepted(jwt_opened(token@, secret@), iss@, now),
    {
        check_claims(open_token(token, secret), iss, now)
    }

    /// Validates `token` now and hands back whom it speaks of. Whatever the
    /// clock says, the answer is that of `validate_at` at some instant, or
    /// `Internal` where the clock could not be read.
    pub fn validate(token: &str, secret: &[u8], iss: &str) -> (r: Result<Token, Error>)
        ensures
            r matches Ok(t) ==> exists|now: u64|
                #[trigger] validated(jwt_opened(token@, secret@), iss@, now) matches Ok(claim)
                    && t@ == Self::of_claim(claim),
            r matches Err(e) ==> e == Error::Internal || exists|now: u64|
                #[trigger] validated(jwt_opened(token@, secret@), iss@, now) == Err::<
                    ClaimView,
                    Error,
                >(e),
    {
        let now: u64 = match unix_now() {
            Some(now) => now,
            None => {
                return Err(Error::Internal);
            },
        };
        match Self::validate_at(token, secret, iss, now) {
            Ok(claim) => {
                let t = Token {
                    iss: claim.iss,
                    aud: claim.aud,
                    sub: claim.sub,
                    version: claim.version,
                };
                assert(validated(jwt_opened(token@, secret@), iss@, now) matches Ok(c) && t@
                    == Self::of_claim(c));
                Ok(t)
            },
            Err(e) => {
                assert(validated(jwt_opened(token@, secret@), iss@, now) == Err::<
                    ClaimView,
                    Error,
                >(e));
                Err(e)
            },
        }
    }
}

/// The length of the salt of a password hash, in bytes.
pub const SALT_LEN: usize = 32;

/// The encoded hash that `argon2::hash_encoded` makes of a password and a
/// salt with the crate's default configuration; `None` where it reports an
/// error.
pub uninterp spec fn argon2_encoded(pass: Seq<u8>, salt: Seq<u8>) -> Option<Seq<char>>;

/// Whether `argon2::verify_encoded` finds that a password matches an encoded
/// hash; `None` where it reports an error.
pub uninterp spec fn argon2_matches(encoded: Seq<char>, pass: Seq<u8>) -> Option<bool>;

/// Asks `rand`'s thread-local generator for `len` random bytes with
/// `Rng::try_fill`; `None` where the generator reports an error. Only the
/// length is claimed.
#[verifier::external_body]
fn random_bytes(len: usize) -> (r: Option<Vec<u8>>)
    ensures
        r matches Some(bytes) ==> bytes@.len() == len,
{
    let mut bytes = vec![0u8; len];
    match rand::Rng::try_fill(&mut rand::thread_rng(), &mut bytes[..]) {
        Ok(()) => Some(bytes),
        Err(_) => None,
    }
}

/// Calls `argon2::hash_encoded` with the crate's default configuration. The
/// contract names the outcome, and says that it is no error when the salt has
/// at least 8 bytes and neither salt nor password has more bytes than 32 bits
/// can count: the only checks that the call makes on them.
#[verifier::external_body]
fn hash_encoded(pass: &[u8], salt: &[u8]) -> (r: Option<String>)
    ensures
        text_view(r) == argon2_encoded(pass@, salt@),
        8 <= salt@.len() <= u32::MAX && pass@.len() <= u32::MAX ==> r is Some,
{
    argon2::hash_encoded(pass, salt, &argon2::Config::default()).ok()
}

/// Calls `argon2::verify_encoded`, which recomputes the hash with the
/// parameters and the salt that `encoded` holds. The contract names the
/// outcome and claims nothing else of it.
#[verifier::external_body]
fn verify_encoded(encoded: &str, pass: &[u8]) -> (r: Option<bool>)
    ensures
        r == argon2_matches(encoded@, pass@),
{
    argon2::verify_encoded(encoded, pass).ok()
}

/// What hashing a password with a given salt answers: the encoded hash, or
/// `Internal` where the hash function reported an error.
pub open spec fn password_hash(pass: Seq<u8>, salt: Seq<u8>) -> Result<Seq<char>, Error> {
    match argon2_encoded(pass, salt) {
        Some(h) => Ok(h),
        None => Err(Error::Internal),
    }
}

/// What checking a password against an encoded hash answers: whether it
/// matches, or `CredentialFormat` where the hash cannot be read.
pub open spec fn password_check(encoded: Seq<char>, pass: Seq<u8>) -> Result<bool, Error> {
    match argon2_matches(encoded, pass) {
        Some(b) => Ok(b),
        None => Err(Error::CredentialFormat),
    }
}

/// Hashes `pass` with the salt `salt` into a self-describing encoded hash.
pub fn encode_password_with_salt(pass: &[u8], salt: &[u8]) -> (r: Result<String, Error>)
    ensures
        text_result_view(r) == password_hash(pass@, salt@),
        8 <= salt@.len() <= u32::MAX && pass@.len() <= u32::MAX ==> r is Ok,
{
    match hash_encoded(pass, salt) {
        Some(h) => Ok(h),
        None => Err(Error::Internal),
    }
}

/// Hashes `pass` with a fresh random salt of `SALT_LEN` bytes. Whatever the
/// salt, the answer is that of `encode_password_with_salt` for it, or
/// `Internal` where no random bytes could be had.
pub fn encode_password(pass: &[u8]) -> (r: Result<String, Error>)
    ensures
        r == Err::<String, Error>(Error::Internal) || exists|salt: Seq<u8>|
            salt.len() == SALT_LEN && text_result_view(r) == #[trigger] password_hash(pass@, salt),
{
    match random_bytes(SALT_LEN) {
        Some(salt) => {
            let r = encode_password_with_salt(pass, salt.as_slice());
            assert(text_result_view(r) == password_hash(pass@, salt@));
            r
        },
        None => Err(Error::Internal),
    }
}

/// Checks `pass` against the encoded hash `encoded`, with the parameters and
/// the salt that the hash itself holds.
pub fn verify_password(encoded: &str, pass: &[u8]) -> (r: Result<bool, Error>)
    ensures
        r == password_check(encoded@, pass@),
{
    match verify_encoded(encoded, pass) {
        Some(b) => Ok(b),
        None => Err(Error::CredentialFormat),
    }
}

} // verus!
