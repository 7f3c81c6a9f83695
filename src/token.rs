//! Issuing and checking signed session tokens, and finding the token in
//! the headers or metadata that a request carries.
use vstd::prelude::*;
use rand::RngCore;
use vstd::string::StringSliceAdditionalSpecFns;

use crate::bytes::copy_range;
use crate::claims::{
    claims_fields, claims_json, in_range, is_claims_json, issuer, lemma_claims_json_injective, Claims,
    TOKEN_VALIDITY_SECS,
};
use crate::error::CpassError;

verus! {

/// jsonwebtoken::errors::Error, the failure of signing or checking a token; carried, never inspected.
#[verifier::external_type_specification]
#[verifier::external_body]
pub struct ExJwtError(jsonwebtoken::errors::Error);

/// The compact HS256 token that signs a payload text with a key.
pub uninterp spec fn jwt_hs256(payload: Seq<char>, key: Seq<u8>) -> Seq<char>;

/// The payload text of an HS256 token whose signature verifies under the
/// key; `None` when it does not, or the token is malformed.
pub uninterp spec fn jwt_hs256_payload(token: Seq<char>, key: Seq<u8>) -> Option<Seq<char>>;

/// Relies on jsonwebtoken::encode with an HS256 header and the payload
/// handed over unchanged as raw JSON (serde_json's RawValue): for the JSON
/// text of claims it cannot fail (the key family matches HS256, the header
/// and a raw JSON payload always serialise, HMAC signing always succeeds),
/// the token depends on the payload and the key alone, and
/// jsonwebtoken::decode with the same key gives the payload text back.
#[verifier::external_body]
fn jwt_encode(payload: &str, key: &[u8]) -> (r: Result<String, jsonwebtoken::errors::Error>)
    requires
        is_claims_json(payload@),
    ensures
        r is Ok,
        r is Ok ==> r->Ok_0@ == jwt_hs256(payload@, key@),
        r is Ok ==> jwt_hs256_payload(r->Ok_0@, key@) == Some(payload@),
{
    let raw = serde_json::value::RawValue::from_string(payload.to_string())?;
    let header = jsonwebtoken::Header::new(jsonwebtoken::Algorithm::HS256);
    jsonwebtoken::encode(&header, &raw, &jsonwebtoken::EncodingKey::from_secret(key))
}

/// Relies on jsonwebtoken::decode with HS256 and the signature check, with
/// no check of registered claims (the expiry is checked by the caller
/// against its own clock): the payload text exactly as it was signed.
#[verifier::external_body]
fn jwt_decode(token: &str, key: &[u8]) -> (r: Result<String, jsonwebtoken::errors::Error>)
    ensures
        r is Ok <==> jwt_hs256_payload(token@, key@) is Some,
        r is Ok ==> jwt_hs256_payload(token@, key@) == Some(r->Ok_0@),
{
    let mut validation = jsonwebtoken::Validation::new(jsonwebtoken::Algorithm::HS256);
    validation.validate_exp = false;
    validation.required_spec_claims.clear();
    let key = jsonwebtoken::DecodingKey::from_secret(key);
    let data = jsonwebtoken::decode::<Box<serde_json::value::RawValue>>(token, &key, &validation)?;
    Ok(data.claims.get().to_string())
}

/// rand::Error, the failure of the operating system generator; carried,
/// never inspected.
#[verifier::external_type_specification]
#[verifier::external_body]
pub struct ExRandError(rand::Error);

/// Relies on rand::rngs::OsRng and RngCore::try_fill_bytes: `number` bytes
/// from the operating system's generator, or a failure.
#[verifier::external_body]
pub fn generate_bytes(number: usize) -> (r: Result<Vec<u8>, rand::Error>)
    ensures
        r is Ok ==> r->Ok_0@.len() == number,
{
    let mut buf: Vec<u8> = vec![0; number];
    rand::rngs::OsRng.try_fill_bytes(&mut buf)?;
    Ok(buf)
}

/// The process-wide key that signs and checks tokens. It is made once at
/// start-up and never changes.
#[derive(Debug, Clone, PartialEq, Eq)]
pub struct SigningKey {
    pub bytes: Vec<u8>,
}

impl SigningKey {
    /// The configured secret's bytes, or 32 fresh random bytes when none is
    /// configured; a failure of the random generator is a hashing error.
    pub fn new(configured: Option<&str>) -> (r: Result<SigningKey, CpassError>)
        ensures
            configured is Some ==> r is Ok && r->Ok_0.bytes@ == configured->Some_0.spec_bytes(),
            configured is None && r is Ok ==> r->Ok_0.bytes@.len() == 32,
            r is Err ==> r == Err::<SigningKey, CpassError>(CpassError::HashingError),
    {
        match configured {
            Some(s) => {
                let b = s.as_bytes();
                let bytes = copy_range(b, 0, b.len());
                assert(b@.subrange(0, b@.len() as int) =~= b@);
                Ok(SigningKey { bytes })
            },
            None => match generate_bytes(32) {
                Ok(bytes) => Ok(SigningKey { bytes }),
                Err(_) => Err(CpassError::HashingError),
            },
        }
    }
}

/// What a token says when it is checked at `now`: its subject, issue time
/// and expiry, when the signature verifies, the payload is claims of this
/// issuer, and `now` is before the expiry.
pub open spec fn token_outcome(token: Seq<char>, key: Seq<u8>, now: nat) -> Option<(nat, nat, nat)> {
    match jwt_hs256_payload(token, key) {
        Some(p) => match claims_fields(p) {
            Some(c) => if now < c.2 {
                Some(c)
            } else {
                None
            },
            None => None,
        },
        None => None,
    }
}

/// Validity window: a token whose signed payload is the claims issued to
/// `sub` at `t` checks out at every instant before `t` plus the window,
/// giving that subject, issue time and expiry, and fails at every instant
/// from then on.
pub proof fn lemma_validity_window(token: Seq<char>, key: Seq<u8>, sub: u128, t: u64, now: nat)
    requires
        t + TOKEN_VALIDITY_SECS <= u64::MAX,
        jwt_hs256_payload(token, key) == Some(
            claims_json(sub as nat, t as nat, (t + TOKEN_VALIDITY_SECS) as nat),
        ),
    ensures
        token_outcome(token, key, now) == if now < t + TOKEN_VALIDITY_SECS {
            Some((sub as nat, t as nat, (t + TOKEN_VALIDITY_SECS) as nat))
        } else {
            None
        },
{
    let x = (sub as nat, t as nat, (t + TOKEN_VALIDITY_SECS) as nat);
    let p = claims_json(x.0, x.1, x.2);
    assert(in_range(x));
    assert(is_claims_json(p));
    let c = choose|y: (nat, nat, nat)| in_range(y) && p == #[trigger] claims_json(y.0, y.1, y.2);
    lemma_claims_json_injective(c, x);
    assert(claims_fields(p) == Some(x));
}

/// Issues a token for `user_id` at `now`, valid for one window. The token
/// depends on the user, `now` and the key alone; it checks out at every
/// instant before `now` plus the window and fails at every instant from
/// then on.
pub fn create_token(user_id: u128, now: u64, key: &SigningKey) -> (r: Result<String, CpassError>)
    requires
        now + TOKEN_VALIDITY_SECS <= u64::MAX,
    ensures
        r is Ok ==> r->Ok_0@ == jwt_hs256(
            claims_json(user_id as nat, now as nat, (now + TOKEN_VALIDITY_SECS) as nat),
            key.bytes@,
        ),
        r is Ok ==> forall|t: nat|
            #![trigger token_outcome(r->Ok_0@, key.bytes@, t)]
            token_outcome(r->Ok_0@, key.bytes@, t) == if t < now + TOKEN_VALIDITY_SECS {
                Some((user_id as nat, now as nat, (now + TOKEN_VALIDITY_SECS) as nat))
            } else {
                None
            },
        r is Ok,
{
    let claims = Claims::new(user_id, now);
    let payload = claims.to_json();
    let ghost x = (user_id as nat, now as nat, (now + TOKEN_VALIDITY_SECS) as nat);
    assert(claims_json(x.0, x.1, x.2) == payload@);
    assert(in_range(x));
    assert(is_claims_json(payload@));
    match jwt_encode(payload.as_str(), &key.bytes) {
        Ok(t) => {
            proof {
                assert forall|now2: nat| #![trigger token_outcome(t@, key.bytes@, now2)]
                    token_outcome(t@, key.bytes@, now2) == if now2 < now + TOKEN_VALIDITY_SECS {
                        Some(x)
                    } else {
                        None
                    } by {
                    lemma_validity_window(t@, key.bytes@, user_id, now, now2);
                }
            }
            Ok(t)
        },
        Err(_) => Err(CpassError::InvalidToken),
    }
}

/// Checks a token at `now`: the signature, the form of the claims and the
/// expiry. Every failure is the same `InvalidToken`.
pub fn validate_token(token: &str, key: &SigningKey, now: u64) -> (r: Result<Claims, CpassError>)
    ensures
        match token_outcome(token@, key.bytes@, now as nat) {
            Some(c) => r is Ok && r->Ok_0.sub == c.0 && r->Ok_0.iat == c.1 && r->Ok_0.exp == c.2
                && r->Ok_0.iss@ == issuer(),
            None => r == Err::<Claims, CpassError>(CpassError::InvalidToken),
        },
{
    let payload = match jwt_decode(token, &key.bytes) {
        Ok(p) => p,
        Err(_) => return Err(CpassError::InvalidToken),
    };
    let claims = match Claims::from_json(payload.as_str()) {
        Some(c) => c,
        None => {
            return Err(CpassError::InvalidToken);
        },
    };
    proof {
        let x = (claims.sub as nat, claims.iat as nat, claims.exp as nat);
        assert(payload@ == claims_json(x.0, x.1, x.2));
        assert(in_range(x));
        assert(is_claims_json(payload@));
        let c = choose|y: (nat, nat, nat)| in_range(y) && payload@ == #[trigger] claims_json(y.0, y.1, y.2);
        lemma_claims_json_injective(c, x);
    }
    if now < claims.exp {
        Ok(claims)
    } else {
        Err(CpassError::InvalidToken)
    }
}

} // verus!
