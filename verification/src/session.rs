use vstd::prelude::*;
use crate::codec;
use crate::codec::VerifyError;

verus! {

/// The outcome of authentication evaluation for one request: anonymous, or
/// authenticated with the account's activation flag. Derived per request
/// from cookie, store and codec; never stored.
#[derive(Debug, Clone, Copy, PartialEq, Eq, Structural)]
pub enum Verdict {
    Anonymous,
    Authenticated { user_id: i32, activated: bool },
}

/// What the transport layer must do with the session cookie after
/// validation.
#[derive(Debug, Clone, Copy, PartialEq, Eq, Structural)]
pub enum CookieAction {
    Keep,
    Clear,
}

/// What the credential store must do with the token's row after
/// validation. Deleting is delete-if-exists: deleting a row that is
/// already gone is a no-op, so concurrent revokes are safe.
#[derive(Debug, Clone, Copy, PartialEq, Eq, Structural)]
pub enum StoreAction {
    Nothing,
    DeleteToken,
}

/// The full result of validating one request's session.
#[derive(Debug, Clone, Copy, PartialEq, Eq, Structural)]
pub struct SessionOutcome {
    pub verdict: Verdict,
    pub cookie: CookieAction,
    pub store: StoreAction,
}

/// An unexpected failure while validating: the codec failed on the key.
/// This must surface as an internal error, never be downgraded to an
/// anonymous verdict.
#[derive(Debug, Clone, Copy, PartialEq, Eq, Structural)]
pub enum SessionError {
    CodecFailure,
}

/// First validator step, on the request's cookie jar alone: without a
/// cookie the request is anonymous, terminally, and in particular no store
/// lookup happens for it.
pub enum CookieCheck {
    NoCookie,
    HaveToken(String),
}

pub fn check_cookie(cookie: Option<String>) -> (r: CookieCheck)
    ensures
        match cookie {
            None => r is NoCookie,
            Some(t) => r matches CookieCheck::HaveToken(u) && u == t,
        },
{
    match cookie {
        None => CookieCheck::NoCookie,
        Some(t) => CookieCheck::HaveToken(t),
    }
}

/// Second validator step, on the store's lookup of the token: a token the
/// store does not know makes the cookie stale, so it is cleared and the
/// request is anonymous, terminally.
pub enum RowCheck {
    StaleCookie,
    Bound(i32),
}

pub fn check_token_row(row: Option<i32>) -> (r: RowCheck)
    ensures
        match row {
            None => r is StaleCookie,
            Some(user_id) => r matches RowCheck::Bound(u) && u == user_id,
        },
{
    match row {
        None => RowCheck::StaleCookie,
        Some(user_id) => RowCheck::Bound(user_id),
    }
}

/// The outcome once the token's bound user record is loaded, as a function
/// of the codec's decode outcome: success authenticates; an expired,
/// mismatched or malformed token revokes both the store row and the cookie
/// and leaves the request anonymous; a codec failure is an internal error.
pub open spec fn spec_evaluate_session(
    decoded: Result<Option<(Seq<char>, u64)>, ()>,
    username: Seq<char>,
    user_id: i32,
    activated: bool,
    now: u64,
) -> Result<SessionOutcome, SessionError> {
    match codec::spec_verify(decoded, username, now) {
        Ok(()) => Ok(
            SessionOutcome {
                verdict: Verdict::Authenticated { user_id, activated },
                cookie: CookieAction::Keep,
                store: StoreAction::Nothing,
            },
        ),
        Err(VerifyError::Unknown) => Err(SessionError::CodecFailure),
        Err(_) => Ok(
            SessionOutcome {
                verdict: Verdict::Anonymous,
                cookie: CookieAction::Clear,
                store: StoreAction::DeleteToken,
            },
        ),
    }
}

/// Third and last validator step: runs the codec on the token with the
/// bound user's current username as the expected subject, and decides
/// verdict, cookie fate and store fate.
pub fn evaluate_session(
    token: &String,
    user_id: i32,
    username: &String,
    activated: bool,
    now: u64,
    key: &Vec<u8>,
) -> (r: Result<SessionOutcome, SessionError>)
    ensures
        r == spec_evaluate_session(
            codec::decoded_claim(token@, key@),
            username@,
            user_id,
            activated,
            now,
        ),
{
    match codec::verify(token, username, now, key) {
        Ok(()) => Ok(
            SessionOutcome {
                verdict: Verdict::Authenticated { user_id, activated },
                cookie: CookieAction::Keep,
                store: StoreAction::Nothing,
            },
        ),
        Err(VerifyError::Unknown) => Err(SessionError::CodecFailure),
        Err(_) => Ok(
            SessionOutcome {
                verdict: Verdict::Anonymous,
                cookie: CookieAction::Clear,
                store: StoreAction::DeleteToken,
            },
        ),
    }
}

/// The whole per-request state machine over a model of the credential
/// store: `tokens` maps live opaque tokens to user ids, `users` maps user
/// ids to the current username and activation flag. A missing user row for
/// a live token cannot be answered here (the store itself failed its
/// foreign key), so that case is the codec-free internal error.
pub open spec fn spec_session_verdict(
    cookie: Option<Seq<char>>,
    tokens: Map<Seq<char>, i32>,
    users: Map<i32, (Seq<char>, bool)>,
    now: u64,
    key: Seq<u8>,
) -> Result<SessionOutcome, SessionError> {
    match cookie {
        None => Ok(
            SessionOutcome {
                verdict: Verdict::Anonymous,
                cookie: CookieAction::Keep,
                store: StoreAction::Nothing,
            },
        ),
        Some(token) => if !tokens.contains_key(token) {
            Ok(
                SessionOutcome {
                    verdict: Verdict::Anonymous,
                    cookie: CookieAction::Clear,
                    store: StoreAction::Nothing,
                },
            )
        } else if !users.contains_key(tokens[token]) {
            Err(SessionError::CodecFailure)
        } else {
            spec_evaluate_session(
                codec::decoded_claim(token, key),
                users[tokens[token]].0,
                tokens[token],
                users[tokens[token]].1,
                now,
            )
        },
    }
}

/// What the store holds after honouring a validator's store action for the
/// request's token.
pub open spec fn apply_store_action(
    tokens: Map<Seq<char>, i32>,
    token: Seq<char>,
    action: StoreAction,
) -> Map<Seq<char>, i32> {
    match action {
        StoreAction::Nothing => tokens,
        StoreAction::DeleteToken => tokens.remove(token),
    }
}

/// Law: a request without a cookie is anonymous whatever the store holds;
/// the validator decides it without consulting the token table or the user
/// table, and asks for no cleanup.
pub proof fn lemma_no_cookie_anonymous(
    tokens: Map<Seq<char>, i32>,
    users: Map<i32, (Seq<char>, bool)>,
    now: u64,
    key: Seq<u8>,
)
    ensures
        spec_session_verdict(None, tokens, users, now, key) == Ok::<SessionOutcome, SessionError>(
            SessionOutcome {
                verdict: Verdict::Anonymous,
                cookie: CookieAction::Keep,
                store: StoreAction::Nothing,
            },
        ),
{
}

/// Law: a live token whose signed expiry has passed is revoked on its next
/// use: the validator deletes its store row, clears the cookie, and the
/// request is anonymous. Afterwards the token is no longer in the store.
pub proof fn lemma_expired_session_revoked(
    token: Seq<char>,
    tokens: Map<Seq<char>, i32>,
    users: Map<i32, (Seq<char>, bool)>,
    sub: Seq<char>,
    exp: u64,
    now: u64,
    key: Seq<u8>,
)
    requires
        tokens.contains_key(token),
        users.contains_key(tokens[token]),
        codec::decoded_claim(token, key) == Ok::<Option<(Seq<char>, u64)>, ()>(Some((sub, exp))),
        exp < now,
    ensures
        spec_session_verdict(Some(token), tokens, users, now, key) == Ok::<
            SessionOutcome,
            SessionError,
        >(
            SessionOutcome {
                verdict: Verdict::Anonymous,
                cookie: CookieAction::Clear,
                store: StoreAction::DeleteToken,
            },
        ),
        !apply_store_action(tokens, token, StoreAction::DeleteToken).contains_key(token),
{
}

/// Law: a live, validly signed, unexpired token authenticates its user
/// exactly while the bound account still carries the token's subject as
/// its username. If the username differs from the subject at issuance,
/// the validator revokes the token instead: store row and cookie go, and
/// the request is anonymous.
pub proof fn lemma_session_subject_binding(
    token: Seq<char>,
    tokens: Map<Seq<char>, i32>,
    users: Map<i32, (Seq<char>, bool)>,
    sub: Seq<char>,
    exp: u64,
    now: u64,
    key: Seq<u8>,
)
    requires
        tokens.contains_key(token),
        users.contains_key(tokens[token]),
        codec::decoded_claim(token, key) == Ok::<Option<(Seq<char>, u64)>, ()>(Some((sub, exp))),
        now <= exp,
    ensures
        users[tokens[token]].0 == sub ==> spec_session_verdict(Some(token), tokens, users, now, key)
            == Ok::<SessionOutcome, SessionError>(
            SessionOutcome {
                verdict: Verdict::Authenticated {
                    user_id: tokens[token],
                    activated: users[tokens[token]].1,
                },
                cookie: CookieAction::Keep,
                store: StoreAction::Nothing,
            },
        ),
        users[tokens[token]].0 != sub ==> spec_session_verdict(Some(token), tokens, users, now, key)
            == Ok::<SessionOutcome, SessionError>(
            SessionOutcome {
                verdict: Verdict::Anonymous,
                cookie: CookieAction::Clear,
                store: StoreAction::DeleteToken,
            },
        ),
{
}

/// Law: revoking is idempotent. Deleting a token row that is already
/// absent changes nothing, and a second delete after a first is a no-op,
/// so the race of two requests revoking the same expired token is safe.
pub proof fn lemma_revoke_idempotent(tokens: Map<Seq<char>, i32>, token: Seq<char>)
    ensures
        !tokens.contains_key(token) ==> tokens.remove(token) == tokens,
        tokens.remove(token).remove(token) == tokens.remove(token),
{
    if !tokens.contains_key(token) {
        assert(tokens.remove(token) =~= tokens);
    }
    assert(tokens.remove(token).remove(token) =~= tokens.remove(token));
}


/// A route-level rejection from a gate. Both conditions answer the request
/// with 401 Unauthorized; they are distinct so the client can tell "log
/// in" from "activate your account".
#[derive(Debug, Clone, Copy, PartialEq, Eq, Structural)]
pub enum GateError {
    Unauthenticated,
    NotActivated,
}

/// The HTTP status a gate rejection maps to.
pub fn gate_status(e: GateError) -> (r: u16)
    ensures
        r == 401,
{
    401
}

/// The optional gate: never fails, hands the route the verdict's content.
#[derive(Debug)]
pub struct ExtractOptionalAuth(pub Option<(i32, bool)>);

impl ExtractOptionalAuth {
    pub fn from_verdict(v: Verdict) -> (r: Self)
        ensures
            r.0 == match v {
                Verdict::Anonymous => None::<(i32, bool)>,
                Verdict::Authenticated { user_id, activated } => Some((user_id, activated)),
            },
    {
        match v {
            Verdict::Anonymous => ExtractOptionalAuth(None),
            Verdict::Authenticated { user_id, activated } => ExtractOptionalAuth(
                Some((user_id, activated)),
            ),
        }
    }
}

/// The optional-but-activated gate: anonymous requests pass as `None`, an
/// activated account passes as its id, and a logged-in but unactivated
/// account is rejected.
#[derive(Debug)]
pub struct ExtractOptionalActivatedAuth(pub Option<i32>);

impl ExtractOptionalActivatedAuth {
    pub fn from_verdict(v: Verdict) -> (r: Result<Self, GateError>)
        ensures
            match v {
                Verdict::Anonymous => r matches Ok(g) && g.0 is None,
                Verdict::Authenticated { user_id, activated } => if activated {
                    r matches Ok(g) && g.0 == Some(user_id)
                } else {
                    r == Err::<Self, GateError>(GateError::NotActivated)
                },
            },
    {
        match v {
            Verdict::Anonymous => Ok(ExtractOptionalActivatedAuth(None)),
            Verdict::Authenticated { user_id, activated } => if activated {
                Ok(ExtractOptionalActivatedAuth(Some(user_id)))
            } else {
                Err(GateError::NotActivated)
            },
        }
    }
}

/// The required-and-activated gate that protects the write and streaming
/// endpoints: only a logged-in, activated account passes. Anonymous
/// requests are rejected as unauthenticated before any further work, and
/// unactivated accounts are rejected before any subscription is created.
#[derive(Debug)]
pub struct ExtractActivatedAuth(pub i32);

impl ExtractActivatedAuth {
    pub fn from_verdict(v: Verdict) -> (r: Result<Self, GateError>)
        ensures
            match v {
                Verdict::Anonymous => r == Err::<Self, GateError>(GateError::Unauthenticated),
                Verdict::Authenticated { user_id, activated } => if activated {
                    r matches Ok(g) && g.0 == user_id
                } else {
                    r == Err::<Self, GateError>(GateError::NotActivated)
                },
            },
    {
        match v {
            Verdict::Anonymous => Err(GateError::Unauthenticated),
            Verdict::Authenticated { user_id, activated } => if activated {
                Ok(ExtractActivatedAuth(user_id))
            } else {
                Err(GateError::NotActivated)
            },
        }
    }
}

/// The plain required gate: every logged-in account is admitted and
/// handed on with its activation flag, activated or not; only a request
/// that is not logged in at all is rejected, as unauthenticated. Routes
/// that also need activation use [`ExtractActivatedAuth`] instead.
#[derive(Debug)]
pub struct ExtractAuth(pub i32, pub bool);

impl ExtractAuth {
    pub fn from_verdict(v: Verdict) -> (r: Result<Self, GateError>)
        ensures
            match v {
                Verdict::Anonymous => r == Err::<Self, GateError>(GateError::Unauthenticated),
                Verdict::Authenticated { user_id, activated } => r matches Ok(g) && g.0 == user_id
                    && g.1 == activated,
            },
    {
        match v {
            Verdict::Anonymous => Err(GateError::Unauthenticated),
            Verdict::Authenticated { user_id, activated } => Ok(ExtractAuth(user_id, activated)),
        }
    }
}

/// Law: the protected endpoints admit no anonymous and no unactivated
/// caller: whenever the required-and-activated gate yields an id, that id
/// belongs to an authenticated, activated account.
pub proof fn lemma_gate_only_activated(v: Verdict, r: Result<ExtractActivatedAuth, GateError>)
    requires
        match v {
            Verdict::Anonymous => r == Err::<ExtractActivatedAuth, GateError>(
                GateError::Unauthenticated,
            ),
            Verdict::Authenticated { user_id, activated } => if activated {
                r matches Ok(g) && g.0 == user_id
            } else {
                r == Err::<ExtractActivatedAuth, GateError>(GateError::NotActivated)
            },
        },
    ensures
        r is Ok ==> (v matches Verdict::Authenticated { user_id, activated } && activated
            && r->Ok_0.0 == user_id),
{
}


/// Deletes every row carrying `token` from a fetched token table.
/// Delete-if-exists, never delete-or-fail: with the token absent the
/// table comes back unchanged, and deleting twice is the same as deleting
/// once, so the concurrent-revoke race is safe.
pub fn delete_token_rows(rows: Vec<(String, i32)>, token: &String) -> (r: Vec<(String, i32)>)
    ensures
        r@ == rows@.filter(|p: (String, i32)| p.0@ != token@),
{
    let ghost all = rows@;
    let ghost pred = |p: (String, i32)| p.0@ != token@;
    let mut rest = rows;
    let mut out: Vec<(String, i32)> = Vec::new();
    while rest.len() > 0
        invariant
            rest@.len() <= all.len(),
            rest@ =~= all.subrange(all.len() - rest@.len(), all.len() as int),
            out@ =~= all.subrange(0, all.len() - rest@.len()).filter(pred),
            pred == (|p: (String, i32)| p.0@ != token@),
        decreases rest.len(),
    {
        let ghost i = all.len() - rest@.len();
        let p = rest.remove(0);
        proof {
            assert(p == all[i]);
            assert(rest@ =~= all.subrange(i + 1, all.len() as int));
            assert(all.subrange(0, i + 1) =~= all.subrange(0, i).push(all[i]));
            reveal(Seq::filter);
            let q = all.subrange(0, i);
            assert(q.push(all[i]).drop_last() =~= q);
            assert(q.push(all[i]).last() == all[i]);
            assert(q.push(all[i]).filter(pred) == (if pred(all[i]) {
                q.filter(pred).push(all[i])
            } else {
                q.filter(pred)
            }));
        }
        if !(p.0 == *token) {
            out.push(p);
        }
    }
    proof {
        assert(all.subrange(0, all.len() as int) =~= all);
    }
    out
}

} // verus!
