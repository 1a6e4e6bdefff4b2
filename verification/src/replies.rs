//! Replies built from what the database returned: stored history, search
//! hits, and the messages that waited for a user while offline.

use vstd::prelude::*;

use crate::clock::{parse_rfc3339, rfc3339_instant};
use crate::database::MessageRecord;
use crate::model::{clone_opt, AckKind, ChatMessage, MessageView, SearchResult, StoredMessage, Timestamp};
use crate::text::{concat2, concat3, decimal, decimal_string};

verus! {

/// A stored message as the history reply shows it.
pub open spec fn stored_of(r: MessageRecord) -> StoredMessage {
    StoredMessage {
        id: r.id,
        from_user: r.from_user,
        to_user: r.to_user,
        room: r.room,
        content: r.content,
        timestamp: r.timestamp,
        message_id: r.message_id,
        message_type: r.message_type,
    }
}

/// The reply to a history request: the messages found, or the failure.
pub fn history_reply(result: Result<Vec<MessageRecord>, String>) -> (m: ChatMessage)
    ensures
        match result {
            Ok(rows) => m matches ChatMessage::HistoryResponse { messages } && messages@ == rows@.map_values(
                |r: MessageRecord| stored_of(r),
            ),
            Err(e) => m@ == MessageView::Error("Falha ao buscar histórico: "@ + e@),
        },
{
    match result {
        Ok(rows) => {
            let mut messages: Vec<StoredMessage> = Vec::new();
            let mut i: usize = 0;
            while i < rows.len()
                invariant
                    i <= rows@.len(),
                    messages@ == rows@.subrange(0, i as int).map_values(|r: MessageRecord| stored_of(r)),
                decreases rows@.len() - i,
            {
                let r = &rows[i];
                let s = StoredMessage {
                    id: r.id,
                    from_user: r.from_user.clone(),
                    to_user: r.to_user.clone(),
                    room: r.room.clone(),
                    content: r.content.clone(),
                    timestamp: r.timestamp.clone(),
                    message_id: r.message_id.clone(),
                    message_type: r.message_type.clone(),
                };
                messages.push(s);
                proof {
                    assert(rows@.subrange(0, i as int + 1).map_values(|r: MessageRecord| stored_of(r)) =~= rows@.subrange(
                        0,
                        i as int,
                    ).map_values(|r: MessageRecord| stored_of(r)).push(stored_of(rows@[i as int])));
                }
                i = i + 1;
            }
            proof {
                assert(rows@.subrange(0, rows@.len() as int) =~= rows@);
            }
            ChatMessage::HistoryResponse { messages }
        },
        Err(e) => ChatMessage::Error(concat2("Falha ao buscar histórico: ", e.as_str())),
    }
}

/// The reply to a search: the hits and how many there are, or the failure.
pub fn search_reply(result: Result<Vec<SearchResult>, String>) -> (m: ChatMessage)
    ensures
        match result {
            Ok(hits) => m matches ChatMessage::SearchResponse { messages, total } && messages@ == hits@ && total
                == hits@.len(),
            Err(e) => m@ == MessageView::Error("Erro na busca: "@ + e@),
        },
{
    match result {
        Ok(hits) => {
            let total = hits.len();
            ChatMessage::SearchResponse { messages: hits, total }
        },
        Err(e) => ChatMessage::Error(concat2("Erro na busca: ", e.as_str())),
    }
}

/// The instant a waiting message carries: the one written in its record,
/// or `now` when that does not parse.
pub open spec fn waiting_instant(r: MessageRecord, now: Timestamp) -> Timestamp {
    match rfc3339_instant(r.timestamp@) {
        Some(t) => t,
        None => now,
    }
}

/// A waiting message as it is delivered to `user`.
pub open spec fn waiting_message(user: Seq<char>, r: MessageRecord, now: Timestamp) -> MessageView {
    MessageView::Private {
        from: r.from_user@,
        to: user,
        content: r.content@,
        timestamp: waiting_instant(r, now),
        message_id: crate::model::opt_view(r.message_id),
    }
}

/// What `user` receives on login about the `n` messages that waited.
pub open spec fn waiting_notice(n: nat) -> MessageView {
    MessageView::Ack {
        kind: AckKind::System,
        info: "📬 Você tem "@ + decimal(n) + " mensagens novas recebidas enquanto estava fora:"@,
        message_id: None,
    }
}

/// The delivery of the messages that waited for `user`: a notice first
/// (none when nothing waited), then each message with the record id to
/// mark once it is taken, in order.
pub fn pending_delivery(user: &str, pending: &Vec<MessageRecord>, now: Timestamp) -> (r: (Option<ChatMessage>, Vec<(i64, ChatMessage)>))
    ensures
        pending@.len() == 0 ==> r.0 is None,
        pending@.len() > 0 ==> (r.0 matches Some(m) && m@ == waiting_notice(pending@.len())),
        r.1@.len() == pending@.len(),
        forall|i: int| 0 <= i < pending@.len() ==> #[trigger] r.1@[i].0 == pending@[i].id && r.1@[i].1@ == waiting_message(
            user@,
            pending@[i],
            now,
        ),
{
    let notice = if pending.len() == 0 {
        None
    } else {
        let n = decimal_string(pending.len() as u64);
        Some(
            ChatMessage::Ack {
                kind: AckKind::System,
                info: concat3("📬 Você tem ", n.as_str(), " mensagens novas recebidas enquanto estava fora:"),
                message_id: None,
            },
        )
    };
    let mut out: Vec<(i64, ChatMessage)> = Vec::new();
    let mut i: usize = 0;
    while i < pending.len()
        invariant
            i <= pending@.len(),
            out@.len() == i,
            forall|j: int| #![trigger out@[j]] 0 <= j < i ==> out@[j].0 == pending@[j].id && out@[j].1@ == waiting_message(
                user@,
                pending@[j],
                now,
            ),
        decreases pending@.len() - i,
    {
        let rec = &pending[i];
        let ts = match parse_rfc3339(rec.timestamp.as_str()) {
            Some(t) => t,
            None => now,
        };
        let msg = ChatMessage::Private {
            from: rec.from_user.clone(),
            to: user.to_owned(),
            content: rec.content.clone(),
            timestamp: ts,
            message_id: clone_opt(&rec.message_id),
        };
        let ghost before = out@;
        out.push((rec.id, msg));
        proof {
            assert(out@[i as int].1@ == waiting_message(user@, pending@[i as int], now));
            assert forall|j: int| #![trigger out@[j]] 0 <= j < i + 1 implies out@[j].0 == pending@[j].id && out@[j].1@ == waiting_message(
                user@,
                pending@[j],
                now,
            ) by {
                if j < i {
                    assert(out@[j] == before[j]);
                }
            }
        }
        i = i + 1;
    }
    (notice, out)
}

} // verus!
