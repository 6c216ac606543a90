use vstd::prelude::*;
use jsonwebtoken::errors::ErrorKind;

verus! {

/// A decoded signed claim: a subject (the username the token was issued
/// for) bound to an expiry timestamp in seconds since the Unix epoch.
///
/// A claim is transient: it is recomputed from the token on every request
/// and never stored.
pub struct Claim {
    pub sub: String,
    pub exp: u64,
}

/// Why the codec rejected a token.
#[derive(Debug, Clone, Copy, PartialEq, Eq, Structural)]
pub enum VerifyError {
    /// The signed expiry is in the past.
    Expired,
    /// The signed subject differs from the expected one.
    SubjectMismatch,
    /// The token is not a validly signed claim under the key: tampered
    /// with, truncated, or signed with another key.
    Malformed,
    /// The codec itself failed, which indicates key misconfiguration.
    /// Unlike the other cases this is an internal error, not a normal
    /// end of a session.
    Unknown,
}

/// The signed token that encoding produces for a subject, an expiry and a
/// secret key. Encoding is a deterministic function of these three alone.
pub uninterp spec fn signed_token(sub: Seq<char>, exp: u64, key: Seq<u8>) -> Seq<char>;

/// What decoding yields for a token and a key: `Ok(Some((sub, exp)))` with
/// the signed claim of a validly signed token, `Ok(None)` for a token that
/// fails the signature or shape checks, `Err` when the codec fails on the
/// key itself. Decoding is a deterministic function of token and key.
pub uninterp spec fn decoded_claim(token: Seq<char>, key: Seq<u8>) -> Result<
    Option<(Seq<char>, u64)>,
    (),
>;

/// Relies on jsonwebtoken::encode with the default header (HS256): the
/// token is built from the serialized claims and the secret alone, so it
/// is a deterministic function of them, and jsonwebtoken::decode with the
/// same key yields the claims back. With a raw HMAC secret the call
/// cannot fail: the key constructor is infallible, the HMAC signer
/// accepts any key length and signs unconditionally, and serializing the
/// two claims cannot fail, so success is promised.
#[verifier::external_body]
fn encode_claim(sub: &String, exp: u64, key: &Vec<u8>) -> (r: Result<String, ()>)
    ensures
        r is Ok,
        r matches Ok(t) ==> (t@ == signed_token(sub@, exp, key@) && decoded_claim(t@, key@)
            == Ok::<Option<(Seq<char>, u64)>, ()>(Some((sub@, exp)))),
{
    let mut claims = serde_json::Map::new();
    claims.insert(String::from("sub"), serde_json::Value::String(sub.clone()));
    claims.insert(String::from("exp"), serde_json::Value::from(exp));
    let encoding_key = jsonwebtoken::EncodingKey::from_secret(key);
    jsonwebtoken::encode(&jsonwebtoken::Header::default(), &serde_json::Value::Object(claims), &encoding_key)
        .map_err(|_| ())
}

/// Relies on jsonwebtoken::decode (HS256, no time or subject validation:
/// those checks are done here, in verified code): the outcome depends on
/// the token and the key alone. A token that fails the signature or shape
/// checks comes back `Ok(None)`; only a failure of the codec itself on the
/// key is `Err`.
#[verifier::external_body]
fn decode_token(token: &String, key: &Vec<u8>) -> (r: Result<Option<Claim>, ()>)
    ensures
        match r {
            Ok(Some(c)) => decoded_claim(token@, key@) == Ok::<Option<(Seq<char>, u64)>, ()>(
                Some((c.sub@, c.exp)),
            ),
            Ok(None) => decoded_claim(token@, key@) == Ok::<Option<(Seq<char>, u64)>, ()>(None),
            Err(_) => decoded_claim(token@, key@) is Err,
        },
{
    let mut v = jsonwebtoken::Validation::default();
    v.validate_exp = false;
    v.required_spec_claims.clear();
    match jsonwebtoken::decode::<serde_json::Value>(token, &jsonwebtoken::DecodingKey::from_secret(key), &v) {
        Ok(d) => Ok(
            match (d.claims.get("sub").and_then(|c| c.as_str()), d.claims.get("exp").and_then(|c| c.as_u64())) {
                (Some(s), Some(e)) => Some(Claim { sub: s.to_string(), exp: e }),
                _ => None,
            },
        ),
        Err(e) => match e.kind() {
            ErrorKind::InvalidKeyFormat | ErrorKind::Provider(_) => Err(()),
            _ => Ok(None),
        },
    }
}

/// The codec's verdict on a decode outcome, an expected subject and the
/// current time. Expiry is checked before the subject, so a token that is
/// both expired and bound to another subject reports `Expired`. A claim
/// is live through its expiry second and expired once that second is in
/// the past.
pub open spec fn spec_verify(
    decoded: Result<Option<(Seq<char>, u64)>, ()>,
    expected_subject: Seq<char>,
    now: u64,
) -> Result<(), VerifyError> {
    match decoded {
        Err(_) => Err(VerifyError::Unknown),
        Ok(None) => Err(VerifyError::Malformed),
        Ok(Some((sub, exp))) => if exp < now {
            Err(VerifyError::Expired)
        } else if sub != expected_subject {
            Err(VerifyError::SubjectMismatch)
        } else {
            Ok(())
        },
    }
}

/// Checks that `token` is a validly signed claim under `key` that has not
/// expired at `now` (seconds since the epoch) and whose subject is
/// `expected_subject`. Pure: no store access, no side effect.
pub fn verify(token: &String, expected_subject: &String, now: u64, key: &Vec<u8>) -> (r: Result<
    (),
    VerifyError,
>)
    ensures
        r == spec_verify(decoded_claim(token@, key@), expected_subject@, now),
{
    match decode_token(token, key) {
        Err(_) => Err(VerifyError::Unknown),
        Ok(None) => Err(VerifyError::Malformed),
        Ok(Some(claim)) => {
            if claim.exp < now {
                Err(VerifyError::Expired)
            } else if !(claim.sub == *expected_subject) {
                Err(VerifyError::SubjectMismatch)
            } else {
                Ok(())
            }
        },
    }
}

/// Issues a signed claim binding `username` to the expiry `now +
/// ttl_seconds`. The time-to-live is a deployment-time policy choice
/// handed in by the caller. Success is owed on every input: encoding a
/// claim under a raw HMAC secret cannot fail.
pub fn issue(username: &String, now: u64, ttl_seconds: u64, key: &Vec<u8>) -> (r: Result<
    String,
    VerifyError,
>)
    requires
        now + ttl_seconds <= u64::MAX,
    ensures
        r is Ok,
        r matches Ok(t) ==> t@ == signed_token(username@, (now + ttl_seconds) as u64, key@),
        r matches Ok(t) ==> decoded_claim(t@, key@) == Ok::<Option<(Seq<char>, u64)>, ()>(
            Some((username@, (now + ttl_seconds) as u64)),
        ),
{
    let exp = now + ttl_seconds;
    match encode_claim(username, exp, key) {
        Ok(t) => Ok(t),
        Err(_) => Err(VerifyError::Unknown),
    }
}

/// Law: a validly signed claim whose expiry is in the past verifies as
/// `Expired`, whatever subject the caller expects.
pub proof fn lemma_expired_token_rejected(
    token: Seq<char>,
    key: Seq<u8>,
    sub: Seq<char>,
    exp: u64,
    expected: Seq<char>,
    now: u64,
)
    requires
        decoded_claim(token, key) == Ok::<Option<(Seq<char>, u64)>, ()>(Some((sub, exp))),
        exp < now,
    ensures
        spec_verify(decoded_claim(token, key), expected, now) == Err::<(), VerifyError>(
            VerifyError::Expired,
        ),
{
}

/// Law: a validly signed, unexpired claim verifies exactly for the subject
/// it was issued for. If the expected subject has since become any other
/// name, verification reports `SubjectMismatch`: a token is bound to the
/// identity at issuance.
pub proof fn lemma_subject_binding(
    token: Seq<char>,
    key: Seq<u8>,
    sub: Seq<char>,
    exp: u64,
    expected: Seq<char>,
    now: u64,
)
    requires
        decoded_claim(token, key) == Ok::<Option<(Seq<char>, u64)>, ()>(Some((sub, exp))),
        now <= exp,
    ensures
        expected == sub ==> spec_verify(decoded_claim(token, key), expected, now) == Ok::<
            (),
            VerifyError,
        >(()),
        expected != sub ==> spec_verify(decoded_claim(token, key), expected, now) == Err::<
            (),
            VerifyError,
        >(VerifyError::SubjectMismatch),
{
}

} // verus!
