//! End-to-end scenarios driving the verified core the way the transport
//! layer does: an in-memory credential store stands in for the database,
//! and a real watch channel carries the bus events.

use std::collections::HashMap;

use web_chat_app::bus::publish;
use web_chat_app::chat::{prepare_post, ChatMessage, ChatWindowInfo};
use web_chat_app::codec::issue;
use web_chat_app::session::{
    check_cookie, check_token_row, evaluate_session, gate_status, CookieAction, CookieCheck,
    ExtractActivatedAuth, GateError, RowCheck, StoreAction, Verdict,
};
use web_chat_app::stream::next_update;
use web_chat_app::username::Username;

const NOW: u64 = 1_700_000_000;

fn key() -> Vec<u8> {
    b"scenario-secret-key".to_vec()
}

/// The stand-in credential store: user records and the token table.
struct Store {
    /// id -> (username, activated)
    users: HashMap<i32, (String, bool)>,
    /// token -> user id
    tokens: HashMap<String, i32>,
    /// the durable chat messages
    messages: Vec<ChatMessage>,
    /// how often the token table was consulted
    token_lookups: usize,
}

impl Store {
    fn new() -> Self {
        let mut users = HashMap::new();
        users.insert(1, (String::from("alice"), true));
        users.insert(2, (String::from("bob"), true));
        users.insert(3, (String::from("carol"), true));
        Store { users, tokens: HashMap::new(), messages: Vec::new(), token_lookups: 0 }
    }

    fn login(&mut self, user_id: i32) -> String {
        let username = self.users[&user_id].0.clone();
        let token = issue(&username, NOW, 3600, &key()).unwrap();
        self.tokens.insert(token.clone(), user_id);
        token
    }

    fn user_id_by_name(&self, name: &str) -> Option<i32> {
        self.users.iter().find(|(_, u)| u.0 == name).map(|(id, _)| *id)
    }
}

/// Runs the validator's request-time machine exactly as a route does.
fn validate(store: &mut Store, cookie: Option<String>) -> Verdict {
    let token = match check_cookie(cookie) {
        CookieCheck::NoCookie => return Verdict::Anonymous,
        CookieCheck::HaveToken(t) => t,
    };
    store.token_lookups += 1;
    let row = store.tokens.get(&token).copied();
    let user_id = match check_token_row(row) {
        RowCheck::StaleCookie => return Verdict::Anonymous,
        RowCheck::Bound(id) => id,
    };
    let (username, activated) = store.users[&user_id].clone();
    let outcome = evaluate_session(&token, user_id, &username, activated, NOW, &key()).unwrap();
    if outcome.cookie == CookieAction::Clear && outcome.store == StoreAction::DeleteToken {
        store.tokens.remove(&token);
    }
    outcome.verdict
}

/// One open stream's reaction to a wake-up: the filtered event and, on a
/// match, the freshly re-rendered window.
fn wake_stream(
    store: &Store,
    listener: &tokio::sync::watch::Receiver<(i32, i32)>,
    viewer_id: i32,
    partner_id: i32,
) -> Option<ChatWindowInfo> {
    let _event = next_update(listener, viewer_id, partner_id)?;
    let rows: Vec<ChatMessage> = store
        .messages
        .iter()
        .filter(|m| {
            (m.sender_id == viewer_id && m.recipient_id == partner_id)
                || (m.sender_id == partner_id && m.recipient_id == viewer_id)
        })
        .map(|m| ChatMessage {
            sender_id: m.sender_id,
            recipient_id: m.recipient_id,
            msg: m.msg.clone(),
            sent_at: m.sent_at,
        })
        .collect();
    let partner_name = store.users[&partner_id].0.clone();
    let names = vec![
        (viewer_id, Username::new(store.users[&viewer_id].0.clone(), None)),
        (partner_id, Username::new(partner_name.clone(), None)),
    ];
    Some(ChatWindowInfo::new(partner_name, names, rows))
}

#[test]
fn alice_posts_hi_to_bob_and_exactly_their_streams_see_it() {
    let mut store = Store::new();
    let cookie = store.login(1);
    let (tx, rx) = tokio::sync::watch::channel((-1, -1));

    // the write endpoint: gate, resolve, persist, announce
    let verdict = validate(&mut store, Some(cookie));
    let gate = ExtractActivatedAuth::from_verdict(verdict).unwrap();
    assert_eq!(gate.0, 1);
    let recipient = store.user_id_by_name("bob");
    let row = prepare_post(gate.0, recipient, String::from("hi"), NOW as i64).unwrap();
    assert_eq!((row.sender_id, row.recipient_id, row.msg.as_str()), (1, 2, "hi"));
    store.messages.push(ChatMessage {
        sender_id: row.sender_id,
        recipient_id: row.recipient_id,
        msg: row.msg.clone(),
        sent_at: row.sent_at,
    });
    publish(&tx, row.sender_id, row.recipient_id);

    // alice's stream of the conversation with bob gets one frame with "hi"
    let frame = wake_stream(&store, &rx, 1, 2).expect("alice's stream must wake");
    assert_eq!(frame.messages.len(), 1);
    assert_eq!(frame.messages[0].msg, "hi");

    // bob's stream of the conversation with alice gets it too
    let frame = wake_stream(&store, &rx, 2, 1).expect("bob's stream must wake");
    assert_eq!(frame.messages[0].msg, "hi");

    // a stream of alice's conversation with carol stays silent
    assert!(wake_stream(&store, &rx, 1, 3).is_none());
}

#[test]
fn write_without_cookie_is_401_without_touching_the_token_table() {
    let mut store = Store::new();
    let verdict = validate(&mut store, None);
    let rejection = ExtractActivatedAuth::from_verdict(verdict).unwrap_err();
    assert_eq!(rejection, GateError::Unauthenticated);
    assert_eq!(gate_status(rejection), 401);
    assert_eq!(store.token_lookups, 0);
    assert!(store.messages.is_empty());
}

#[test]
fn unactivated_user_is_rejected_before_any_subscription() {
    let mut store = Store::new();
    store.users.insert(4, (String::from("dave"), false));
    let cookie = store.login(4);
    let (tx, initial_rx) = tokio::sync::watch::channel((-1, -1));
    drop(initial_rx);

    let verdict = validate(&mut store, Some(cookie));
    assert_eq!(verdict, Verdict::Authenticated { user_id: 4, activated: false });
    let rejection = ExtractActivatedAuth::from_verdict(verdict).unwrap_err();
    assert_eq!(rejection, GateError::NotActivated);
    assert_eq!(gate_status(rejection), 401);
    // the rejection came first, so no subscription exists
    assert_eq!(tx.receiver_count(), 0);
}

#[test]
fn expired_cookie_is_revoked_on_its_next_use() {
    let mut store = Store::new();
    let username = store.users[&1].0.clone();
    let stale = issue(&username, NOW - 7200, 3600, &key()).unwrap();
    store.tokens.insert(stale.clone(), 1);

    let verdict = validate(&mut store, Some(stale.clone()));
    assert_eq!(verdict, Verdict::Anonymous);
    // the store row is gone; the next request with the same cookie is
    // anonymous without reaching the codec
    assert!(!store.tokens.contains_key(&stale));
    let verdict = validate(&mut store, Some(stale));
    assert_eq!(verdict, Verdict::Anonymous);
}
