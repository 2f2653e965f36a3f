//! Laws of a gesture's lifecycle, stated over the contracts of the drag and
//! drop contexts.

use vstd::prelude::*;

use crate::drag::PlatformDragContext;
use crate::drop::{
    annotated, decoded_items, decoded_items_upto, reply_operation, state_after_drop, state_after_enter, state_after_leave, state_after_replies,
    state_after_reply, DropState,
};
use crate::model::{is_text_format, DragAction, DragNotification, DropOperation, DragSessionId, DropSessionId, NativeDragEvent, MIME_TYPE_TEXT_PLAIN};
use crate::codec::base64_decoded;
use crate::reader::ContentView;

verus! {

/// A second enter without a leave or drop in between changes nothing: the
/// gesture keeps its one session.
pub proof fn lemma_enter_twice_keeps_one_session(s: DropState)
    ensures
        state_after_enter(s).current is Some,
        state_after_enter(state_after_enter(s)) == state_after_enter(s),
{
}

proof fn lemma_replies_keep_session(s: DropState, id: DropSessionId, replies: Seq<Option<DropOperation>>)
    requires
        s.current is Some,
        s.current->Some_0.id == id,
    ensures
        state_after_replies(s, id, replies).current is Some,
        state_after_replies(s, id, replies).current->Some_0.id == id,
        state_after_replies(s, id, replies).counter == s.counter,
        replies.len() > 0 ==> state_after_replies(s, id, replies).current->Some_0.last_operation
            == reply_operation(replies.last()),
    decreases replies.len(),
{
    if replies.len() > 0 {
        lemma_replies_keep_session(s, id, replies.drop_last());
    }
}

/// Through enter, any number of answered moves and a drop, a context that
/// had no session holds exactly one, the same throughout, until the drop;
/// the drop clears it, whether it delivers or discards.
pub proof fn lemma_one_session_per_gesture(s: DropState, replies: Seq<Option<DropOperation>>)
    requires
        s.current is None,
    ensures
        ({
            let entered = state_after_enter(s);
            let id = entered.current->Some_0.id;
            &&& entered.current is Some
            &&& forall|k: int| 0 <= k <= replies.len() ==> {
                &&& (#[trigger] state_after_replies(entered, id, replies.subrange(0, k))).current is Some
                &&& state_after_replies(entered, id, replies.subrange(0, k)).current->Some_0.id == id
            }
            &&& state_after_drop(state_after_replies(entered, id, replies)).current is None
        }),
{
    let entered = state_after_enter(s);
    let id = entered.current->Some_0.id;
    assert forall|k: int| 0 <= k <= replies.len() implies {
        &&& (#[trigger] state_after_replies(entered, id, replies.subrange(0, k))).current is Some
        &&& state_after_replies(entered, id, replies.subrange(0, k)).current->Some_0.id == id
    } by {
        lemma_replies_keep_session(entered, id, replies.subrange(0, k));
    }
    lemma_replies_keep_session(entered, id, replies);
}

/// A leave after enter leaves no session, and the next enter opens a new
/// one with no operation recorded yet.
pub proof fn lemma_leave_closes_session(s: DropState)
    ensures
        state_after_leave(state_after_enter(s)).current is None,
        state_after_enter(state_after_leave(state_after_enter(s))).current is Some,
        state_after_enter(state_after_leave(state_after_enter(s))).current->Some_0.last_operation
            == DropOperation::NoOperation,
{
}

/// Until the id counter wraps, each session a context opens gets an id
/// above every id it handed out before.
pub proof fn lemma_fresh_session_id(s: DropState)
    requires
        s.current is None,
        s.counter < i64::MAX,
    ensures
        state_after_enter(s).current->Some_0.id > s.counter,
        state_after_enter(s).counter == state_after_enter(s).current->Some_0.id,
{
}

/// Once the delegate's answer is recorded in every drag context, the context
/// whose gesture it concerns reports that operation when the gesture ends
/// successfully.
pub proof fn lemma_reply_reaches_every_drag_end<L, H>(
    before: Seq<PlatformDragContext<L, H>>,
    after: Seq<PlatformDragContext<L, H>>,
    session_id: DragSessionId,
    reply: Option<DropOperation>,
    event: NativeDragEvent,
)
    requires
        before.len() == after.len(),
        forall|j: int| 0 <= j < before.len() ==> annotated(
            before[j],
            #[trigger] after[j],
            Some(session_id),
            reply_operation(reply),
        ),
        event.result,
    ensures
        forall|j: int| 0 <= j < before.len() && before[j].wf() && before[j].current_session() == Some(session_id)
            ==> (#[trigger] after[j]).notification_for(event, DragAction::DragEnd) == Some(
                DragNotification::EndedWithOperation {
                    context_id: before[j].spec_id(),
                    session_id,
                    operation: reply_operation(reply),
                },
            ),
{
    assert forall|j: int| 0 <= j < before.len() && before[j].wf() && before[j].current_session() == Some(session_id)
        implies (#[trigger] after[j]).notification_for(event, DragAction::DragEnd) == Some(
            DragNotification::EndedWithOperation {
                context_id: before[j].spec_id(),
                session_id,
                operation: reply_operation(reply),
            },
        ) by {
        lemma_reply_reaches_drag_end(before[j], after[j], session_id, reply, event);
    }
}

/// The operation decided at drop time is the one from the last answered
/// move of the live session.
pub proof fn lemma_last_reply_decides(s: DropState, replies: Seq<Option<DropOperation>>)
    requires
        s.current is Some,
        replies.len() > 0,
    ensures
        state_after_replies(s, s.current->Some_0.id, replies).current->Some_0.last_operation
            == reply_operation(replies.last()),
{
    lemma_replies_keep_session(s, s.current->Some_0.id, replies);
}

/// An answer that arrives after its session was dropped, or for another
/// session than the live one, changes nothing.
pub proof fn lemma_late_reply_is_ignored(s: DropState, drop_session_id: DropSessionId, reply: Option<DropOperation>)
    requires
        s.current is None || s.current->Some_0.id != drop_session_id,
    ensures
        state_after_reply(s, drop_session_id, reply) == s,
{
}

/// A registered drag session stays registered through every signal but the
/// end of its own gesture, which removes it and clears the current session.
pub proof fn lemma_drag_session_lifetime<L, H>(c: PlatformDragContext<L, H>, id: DragSessionId, action: DragAction)
    requires
        c.sessions().contains_key(id),
    ensures
        !(action is DragEnd) ==> c.sessions_after(action) == c.sessions(),
        c.current_session() != Some(id) ==> c.sessions_after(action).contains_key(id),
        c.current_session() == Some(id) && action is DragEnd ==> {
            &&& !c.sessions_after(action).contains_key(id)
            &&& c.current_after(action) is None
        },
{
}

/// The operation that a delegate's answer records in a drag context is the
/// one that context reports when its gesture ends successfully.
pub proof fn lemma_reply_reaches_drag_end<L, H>(
    before: PlatformDragContext<L, H>,
    after: PlatformDragContext<L, H>,
    session_id: DragSessionId,
    reply: Option<DropOperation>,
    event: NativeDragEvent,
)
    requires
        before.wf(),
        before.current_session() == Some(session_id),
        annotated(before, after, Some(session_id), reply_operation(reply)),
        event.result,
    ensures
        after.notification_for(event, DragAction::DragEnd) == Some(DragNotification::EndedWithOperation {
            context_id: before.spec_id(),
            session_id,
            operation: reply_operation(reply),
        }),
{
}

/// A plain-text item surfaces as its own text, with no base64 decoding.
pub proof fn lemma_plain_text_passes_through(event: NativeDragEvent)
    requires
        event.formats.len() == 1,
        event.contents.len() == 1,
        event.formats[0]@ == MIME_TYPE_TEXT_PLAIN@,
    ensures
        decoded_items(event) == seq![(event.formats[0]@, ContentView::Text(event.contents[0]@))],
{
    assert(is_text_format(event.formats[0]@));
    assert(decoded_items_upto(event.formats@, event.contents@, 0) =~= Seq::empty());
    assert(decoded_items(event) =~= seq![(event.formats[0]@, ContentView::Text(event.contents[0]@))]);
}

/// An item of any other format surfaces as the bytes its content encodes in
/// base64, and is skipped where the content is no such encoding.
pub proof fn lemma_binary_item_is_base64_decoded(event: NativeDragEvent)
    requires
        event.formats.len() == 1,
        event.contents.len() == 1,
        !is_text_format(event.formats[0]@),
    ensures
        decoded_items(event) == (match base64_decoded(event.contents[0]@) {
            Some(bytes) => seq![(event.formats[0]@, ContentView::Bytes(bytes))],
            None => Seq::empty(),
        }),
{
    assert(decoded_items_upto(event.formats@, event.contents@, 0) =~= Seq::empty());
    match base64_decoded(event.contents[0]@) {
        Some(bytes) => {
            assert(decoded_items(event) =~= seq![(event.formats[0]@, ContentView::Bytes(bytes))]);
        },
        None => {
            assert(decoded_items(event) =~= Seq::empty());
        },
    }
}

} // verus!
