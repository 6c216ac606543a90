use web_chat_app::codec::issue;
use web_chat_app::session::{
    check_cookie, check_token_row, delete_token_rows, evaluate_session, gate_status, CookieAction,
    CookieCheck, ExtractActivatedAuth, ExtractAuth, ExtractOptionalActivatedAuth,
    ExtractOptionalAuth, GateError, RowCheck, SessionOutcome, StoreAction, Verdict,
};

fn key() -> Vec<u8> {
    b"test-secret-key-0123456789".to_vec()
}

const NOW: u64 = 1_700_000_000;

#[test]
fn no_cookie_is_anonymous_terminally() {
    match check_cookie(None) {
        CookieCheck::NoCookie => {}
        CookieCheck::HaveToken(_) => panic!("no cookie must not produce a token"),
    }
}

#[test]
fn cookie_token_is_passed_on() {
    match check_cookie(Some(String::from("tok"))) {
        CookieCheck::HaveToken(t) => assert_eq!(t, "tok"),
        CookieCheck::NoCookie => panic!("cookie lost"),
    }
}

#[test]
fn unknown_token_row_is_stale() {
    assert!(matches!(check_token_row(None), RowCheck::StaleCookie));
    assert!(matches!(check_token_row(Some(7)), RowCheck::Bound(7)));
}

#[test]
fn valid_session_authenticates_and_keeps_everything() {
    let token = issue(&String::from("alice"), NOW, 3600, &key()).unwrap();
    let outcome = evaluate_session(&token, 1, &String::from("alice"), true, NOW, &key()).unwrap();
    assert_eq!(
        outcome,
        SessionOutcome {
            verdict: Verdict::Authenticated { user_id: 1, activated: true },
            cookie: CookieAction::Keep,
            store: StoreAction::Nothing,
        }
    );
}

#[test]
fn expired_session_is_revoked() {
    let token = issue(&String::from("alice"), NOW, 60, &key()).unwrap();
    let outcome =
        evaluate_session(&token, 1, &String::from("alice"), true, NOW + 61, &key()).unwrap();
    assert_eq!(
        outcome,
        SessionOutcome {
            verdict: Verdict::Anonymous,
            cookie: CookieAction::Clear,
            store: StoreAction::DeleteToken,
        }
    );
}

#[test]
fn renamed_user_session_is_revoked() {
    let token = issue(&String::from("alice"), NOW, 3600, &key()).unwrap();
    let outcome =
        evaluate_session(&token, 1, &String::from("alicia"), true, NOW, &key()).unwrap();
    assert_eq!(
        outcome,
        SessionOutcome {
            verdict: Verdict::Anonymous,
            cookie: CookieAction::Clear,
            store: StoreAction::DeleteToken,
        }
    );
}

#[test]
fn tampered_token_session_is_revoked_not_500() {
    let outcome =
        evaluate_session(&String::from("garbage"), 1, &String::from("alice"), true, NOW, &key())
            .unwrap();
    assert_eq!(outcome.verdict, Verdict::Anonymous);
    assert_eq!(outcome.cookie, CookieAction::Clear);
    assert_eq!(outcome.store, StoreAction::DeleteToken);
}

#[test]
fn optional_gate_never_fails() {
    assert_eq!(ExtractOptionalAuth::from_verdict(Verdict::Anonymous).0, None);
    assert_eq!(
        ExtractOptionalAuth::from_verdict(Verdict::Authenticated { user_id: 3, activated: false })
            .0,
        Some((3, false))
    );
}

#[test]
fn optional_activated_gate_rejects_unactivated() {
    assert_eq!(
        ExtractOptionalActivatedAuth::from_verdict(Verdict::Anonymous)
            .unwrap()
            .0,
        None
    );
    assert_eq!(
        ExtractOptionalActivatedAuth::from_verdict(Verdict::Authenticated {
            user_id: 3,
            activated: true
        })
        .unwrap()
        .0,
        Some(3)
    );
    assert_eq!(
        ExtractOptionalActivatedAuth::from_verdict(Verdict::Authenticated {
            user_id: 3,
            activated: false
        })
        .err(),
        Some(GateError::NotActivated)
    );
}

#[test]
fn required_activated_gate_rejects_anonymous_and_unactivated() {
    assert_eq!(
        ExtractActivatedAuth::from_verdict(Verdict::Anonymous).err(),
        Some(GateError::Unauthenticated)
    );
    assert_eq!(
        ExtractActivatedAuth::from_verdict(Verdict::Authenticated {
            user_id: 9,
            activated: false
        })
        .err(),
        Some(GateError::NotActivated)
    );
    assert_eq!(
        ExtractActivatedAuth::from_verdict(Verdict::Authenticated {
            user_id: 9,
            activated: true
        })
        .unwrap()
        .0,
        9
    );
}

#[test]
fn required_gate_admits_any_logged_in_account() {
    assert_eq!(
        ExtractAuth::from_verdict(Verdict::Anonymous).err(),
        Some(GateError::Unauthenticated)
    );
    let g = ExtractAuth::from_verdict(Verdict::Authenticated { user_id: 9, activated: false })
        .unwrap();
    assert_eq!((g.0, g.1), (9, false));
    let g = ExtractAuth::from_verdict(Verdict::Authenticated { user_id: 9, activated: true })
        .unwrap();
    assert_eq!((g.0, g.1), (9, true));
}

#[test]
fn gate_rejections_are_401() {
    assert_eq!(gate_status(GateError::Unauthenticated), 401);
    assert_eq!(gate_status(GateError::NotActivated), 401);
}

#[test]
fn deleting_absent_token_row_is_a_no_op() {
    let rows = vec![(String::from("tok-a"), 1), (String::from("tok-b"), 2)];
    let after = delete_token_rows(rows.clone(), &String::from("tok-c"));
    assert_eq!(after, rows);
}

#[test]
fn deleting_twice_equals_deleting_once() {
    let rows = vec![(String::from("tok-a"), 1), (String::from("tok-b"), 2)];
    let once = delete_token_rows(rows, &String::from("tok-a"));
    assert_eq!(once, vec![(String::from("tok-b"), 2)]);
    let twice = delete_token_rows(once.clone(), &String::from("tok-a"));
    assert_eq!(twice, once);
}
