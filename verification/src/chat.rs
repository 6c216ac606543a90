use vstd::prelude::*;
use vstd::seq_lib::group_to_multiset_ensures;
use tokio::sync::watch::Sender;
use crate::bus;
use crate::username::Username;

verus! {

/// One durable chat message row: who sent it, to whom, its text, and when
/// it was sent (seconds since the epoch).
#[derive(Debug)]
pub struct ChatMessage {
    pub sender_id: i32,
    pub recipient_id: i32,
    pub msg: String,
    pub sent_at: i64,
}

/// Why a post was rejected. An unresolved partner username is the
/// user-correctable 400-class failure of the write endpoint.
#[derive(Debug, Clone, Copy, PartialEq, Eq, Structural)]
pub enum PostError {
    UnknownRecipient,
}

/// The write-endpoint core, after the required-and-activated gate: given
/// the store's resolution of the partner username, either the durable row
/// to persist, or the rejection. Succeeds exactly when the partner
/// resolved.
pub fn prepare_post(sender_id: i32, recipient: Option<i32>, msg: String, sent_at: i64) -> (r:
    Result<ChatMessage, PostError>)
    ensures
        match recipient {
            Some(recipient_id) => r matches Ok(m) && m.sender_id == sender_id && m.recipient_id
                == recipient_id && m.msg == msg && m.sent_at == sent_at,
            None => r == Err::<ChatMessage, PostError>(PostError::UnknownRecipient),
        },
{
    match recipient {
        Some(recipient_id) => Ok(ChatMessage { sender_id, recipient_id, msg, sent_at }),
        None => Err(PostError::UnknownRecipient),
    }
}

/// Announces a persisted message on the event bus as its `(sender,
/// recipient)` pair. Called after the row is durable: subscribers re-read
/// state, they are not handed the text. Cannot fail and does not block,
/// also with zero subscribers.
pub fn announce(bus: &Sender<(i32, i32)>, m: &ChatMessage) {
    bus::publish(bus, m.sender_id, m.recipient_id);
}

/// The rows of a conversation in the order the window shows them: by send
/// time, oldest first.
pub open spec fn rows_time_sorted(s: Seq<ChatMessage>) -> bool {
    forall|i: int, j: int| 0 <= i < j < s.len() ==> s[i].sent_at <= s[j].sent_at
}

/// Sorts fetched conversation rows by send time, oldest first. The result
/// holds exactly the given rows.
pub fn sort_rows_by_time(rows: Vec<ChatMessage>) -> (r: Vec<ChatMessage>)
    ensures
        rows_time_sorted(r@),
        r@.to_multiset() == rows@.to_multiset(),
{
    broadcast use group_to_multiset_ensures, vstd::multiset::group_multiset_axioms;

    let ghost orig = rows@;
    let mut rest = rows;
    let mut out: Vec<ChatMessage> = Vec::new();
    while rest.len() > 0
        invariant
            rows_time_sorted(out@),
            out@.to_multiset().add(rest@.to_multiset()) == orig.to_multiset(),
            forall|k: int, l: int|
                0 <= k < out@.len() && 0 <= l < rest@.len() ==> out@[k].sent_at
                    <= rest@[l].sent_at,
        decreases rest.len(),
    {
        let mut m: usize = 0;
        let mut j: usize = 1;
        while j < rest.len()
            invariant
                m < rest.len(),
                j <= rest.len(),
                forall|l: int| 0 <= l < j ==> rest@[m as int].sent_at <= rest@[l].sent_at,
            decreases rest.len() - j,
        {
            if rest[j].sent_at < rest[m].sent_at {
                m = j;
            }
            j = j + 1;
        }
        let ghost rest_before = rest@;
        let row = rest.remove(m);
        proof {
            broadcast use group_to_multiset_ensures, vstd::multiset::group_multiset_axioms;

            assert(rest@ == rest_before.remove(m as int));
            assert(rest_before.remove(m as int).to_multiset() =~= rest_before.to_multiset()
                .remove(rest_before[m as int]));
            assert(forall|l: int|
                0 <= l < rest@.len() ==> rest@[l] == (if l < m as int {
                    rest_before[l]
                } else {
                    rest_before[l + 1]
                }));
        }
        let ghost out_before = out@;
        out.push(row);
        proof {
            broadcast use group_to_multiset_ensures, vstd::multiset::group_multiset_axioms;

            assert(out@ == out_before.push(row));
            assert(out_before.push(row).to_multiset() =~= out_before.to_multiset().insert(row));
            assert(rest_before.to_multiset().contains(row));
            assert(out@.to_multiset().add(rest@.to_multiset()) =~= orig.to_multiset());
        }
    }
    out
}

/// Each user id appears at most once in a participants list, as it does
/// in the store's user table, so attribution of a message to a name by
/// its sender id is unambiguous.
pub open spec fn distinct_user_ids(s: Seq<(i32, Username)>) -> bool {
    forall|a: int, b: int| 0 <= a < b < s.len() ==> s[a].0 != s[b].0
}

/// Everything the chat window shows for a conversation: the ordered
/// message history, the participants' names for attribution (one entry
/// per id), and the partner's handle.
pub struct ChatWindowInfo {
    pub messages: Vec<ChatMessage>,
    pub usernames: Vec<(i32, Username)>,
    pub recipient_name: String,
}

impl ChatWindowInfo {
    /// Builds the window content from the store's fetched rows (in any
    /// order) and the resolved participant names: the rows are put in
    /// send-time order and nothing is added or dropped, and the
    /// participants list keys each id once.
    pub fn new(recipient_name: String, usernames: Vec<(i32, Username)>, rows: Vec<ChatMessage>)
        -> (r: Self)
        requires
            distinct_user_ids(usernames@),
        ensures
            rows_time_sorted(r.messages@),
            r.messages@.to_multiset() == rows@.to_multiset(),
            r.usernames == usernames,
            distinct_user_ids(r.usernames@),
            r.recipient_name == recipient_name,
    {
        ChatWindowInfo { messages: sort_rows_by_time(rows), usernames, recipient_name }
    }
}

} // verus!
