//! The drop side: one incoming gesture at a time, turned into an
//! authorization round-trip with the delegate and, if accepted, one delivered
//! drop.

use vstd::prelude::*;

use crate::codec::{base64_decoded, decode_base64};
use crate::drag::PlatformDragContext;
use crate::model::{
    copy_operations, copy_strings, is_text_format, is_text_format_exec, DragAction, DragItem,
    DragNotification, DragSessionId, DropOperation, DropSessionId, NativeDragEvent,
    NativeExtensionsError, PlatformDropContextId, Point,
};
use crate::reader::{ContentItem, ContentView, ItemContent, PlatformDataReader};

verus! {

/// The last session id of the drag contexts in `ctxs[..n]` that have one: the
/// same-process drag that an incoming gesture belongs to.
pub open spec fn correlated_upto<L, H>(ctxs: Seq<PlatformDragContext<L, H>>, n: int) -> Option<DragSessionId>
    decreases n,
{
    if n <= 0 {
        None
    } else {
        match ctxs[n - 1].current_session() {
            Some(s) => Some(s),
            None => correlated_upto(ctxs, n - 1),
        }
    }
}

pub open spec fn correlated_session<L, H>(ctxs: Seq<PlatformDragContext<L, H>>) -> Option<DragSessionId> {
    correlated_upto(ctxs, ctxs.len() as int)
}

/// The delegate calls that routing one signal to `ctxs[..n]` owes, in order.
pub open spec fn notifications_upto<L, H>(
    ctxs: Seq<PlatformDragContext<L, H>>,
    event: NativeDragEvent,
    action: DragAction,
    n: int,
) -> Seq<DragNotification>
    decreases n,
{
    if n <= 0 {
        seq![]
    } else {
        let prev = notifications_upto(ctxs, event, action, n - 1);
        match ctxs[n - 1].notification_for(event, action) {
            Some(x) => prev.push(x),
            None => prev,
        }
    }
}

pub open spec fn drag_notifications<L, H>(
    ctxs: Seq<PlatformDragContext<L, H>>,
    event: NativeDragEvent,
    action: DragAction,
) -> Seq<DragNotification> {
    notifications_upto(ctxs, event, action, ctxs.len() as int)
}

/// The index of the first drag context in `ctxs[..n]` that has session `id`.
pub open spec fn first_holder_upto<L, H>(ctxs: Seq<PlatformDragContext<L, H>>, id: DragSessionId, n: int) -> Option<int>
    decreases n,
{
    if n <= 0 {
        None
    } else {
        match first_holder_upto(ctxs, id, n - 1) {
            Some(k) => Some(k),
            None => if ctxs[n - 1].sessions().contains_key(id) {
                Some(n - 1)
            } else {
                None
            },
        }
    }
}

/// The registered drag session `session_id` names, as the first drag context
/// that has it knows it.
pub open spec fn source_session<L, H>(ctxs: Seq<PlatformDragContext<L, H>>, session_id: Option<DragSessionId>)
    -> Option<crate::drag::DragSession<L, H>>
{
    match session_id {
        Some(id) => match first_holder_upto(ctxs, id, ctxs.len() as int) {
            Some(k) => Some(ctxs[k].sessions()[id]),
            None => None,
        },
        None => None,
    }
}

/// The operations a drop may perform: those of the source drag, or copy when
/// the drag comes from elsewhere.
pub open spec fn allowed_operations_for<L, H>(ctxs: Seq<PlatformDragContext<L, H>>, session_id: Option<DragSessionId>)
    -> Seq<DropOperation>
{
    match source_session(ctxs, session_id) {
        Some(s) => s.configuration.allowed_operations@,
        None => seq![DropOperation::Copy],
    }
}

/// The source drag's items, whose local data a drop carries.
pub open spec fn source_items<L, H>(ctxs: Seq<PlatformDragContext<L, H>>, session_id: Option<DragSessionId>)
    -> Seq<DragItem<L>>
{
    match source_session(ctxs, session_id) {
        Some(s) => s.configuration.items@,
        None => seq![],
    }
}

/// The source drag's provider handles.
pub open spec fn source_handles<L, H>(ctxs: Seq<PlatformDragContext<L, H>>, session_id: Option<DragSessionId>) -> Seq<H> {
    match source_session(ctxs, session_id) {
        Some(s) => s.data_providers@,
        None => seq![],
    }
}

/// How a drag context reads after a signal has been routed to it.
pub open spec fn routed<L, H>(before: PlatformDragContext<L, H>, after: PlatformDragContext<L, H>, action: DragAction) -> bool {
    &&& after.sessions() == before.sessions_after(action)
    &&& after.current_session() == before.current_after(action)
    &&& after.spec_id() == before.spec_id()
    &&& after.spec_engine_handle() == before.spec_engine_handle()
}

/// Routes one native signal to every drag context. Returns the correlated
/// drag session and the delegate calls owed, in context order.
pub fn route_to_drag_contexts<L: Clone, H: Clone>(
    drag_contexts: &mut Vec<PlatformDragContext<L, H>>,
    event: &NativeDragEvent,
    action: DragAction,
) -> (r: (Option<DragSessionId>, Vec<DragNotification>))
    ensures
        r.0 == correlated_session(old(drag_contexts)@),
        r.1@ == drag_notifications(old(drag_contexts)@, *event, action),
        final(drag_contexts).len() == old(drag_contexts).len(),
        forall|j: int| 0 <= j < old(drag_contexts).len()
            ==> routed(old(drag_contexts)[j], #[trigger] final(drag_contexts)[j], action),
{
    let ghost before = drag_contexts@;
    let mut session_id: Option<DragSessionId> = None;
    let mut notifications: Vec<DragNotification> = Vec::new();
    let mut i: usize = 0;
    while i < drag_contexts.len()
        invariant
            drag_contexts.len() == before.len(),
            i <= before.len(),
            session_id == correlated_upto(before, i as int),
            notifications@ == notifications_upto(before, *event, action, i as int),
            forall|j: int| 0 <= j < i ==> routed(before[j], #[trigger] drag_contexts[j], action),
            forall|j: int| i <= j < before.len() ==> #[trigger] drag_contexts[j] == before[j],
        decreases before.len() - i,
    {
        let (id, notification) = drag_contexts[i].on_drop_event(event, action);
        if id.is_some() {
            session_id = id;
        }
        match notification {
            Some(n) => notifications.push(n),
            None => {},
        }
        i += 1;
    }
    (session_id, notifications)
}

/// The operations a drop may perform, looked up in the drag contexts.
pub fn get_allowed_operations<L: Clone, H: Clone>(
    session_id: Option<DragSessionId>,
    drag_contexts: &Vec<PlatformDragContext<L, H>>,
) -> (r: Vec<DropOperation>)
    ensures
        r@ == allowed_operations_for(drag_contexts@, session_id),
{
    match session_id {
        Some(id) => {
            let mut found: Option<Vec<DropOperation>> = None;
            let mut i: usize = 0;
            while i < drag_contexts.len()
                invariant
                    i <= drag_contexts.len(),
                    match first_holder_upto(drag_contexts@, id, i as int) {
                        Some(k) => found is Some && found->Some_0@
                            == drag_contexts@[k].sessions()[id].configuration.allowed_operations@,
                        None => found is None,
                    },
                    forall|k: int| #![auto] first_holder_upto(drag_contexts@, id, i as int) == Some(k)
                        ==> 0 <= k < i && drag_contexts@[k].sessions().contains_key(id),
                decreases drag_contexts.len() - i,
            {
                if found.is_none() {
                    found = drag_contexts[i].get_allowed_operations(id);
                }
                i += 1;
            }
            match found {
                Some(ops) => ops,
                None => vec![DropOperation::Copy],
            }
        },
        None => vec![DropOperation::Copy],
    }
}

/// The local data of the source drag's items, looked up in the drag contexts.
pub fn get_local_data<L: Clone, H: Clone>(
    session_id: Option<DragSessionId>,
    drag_contexts: &Vec<PlatformDragContext<L, H>>,
) -> (r: Vec<L>)
    ensures
        r.len() == source_items(drag_contexts@, session_id).len(),
        forall|j: int| 0 <= j < r.len()
            ==> cloned(source_items(drag_contexts@, session_id)[j].local_data, #[trigger] r[j]),
{
    match session_id {
        Some(id) => {
            let mut found: Option<Vec<L>> = None;
            let mut i: usize = 0;
            while i < drag_contexts.len()
                invariant
                    i <= drag_contexts.len(),
                    match first_holder_upto(drag_contexts@, id, i as int) {
                        Some(k) => {
                            let items = drag_contexts@[k].sessions()[id].configuration.items;
                            &&& found is Some
                            &&& found->Some_0.len() == items.len()
                            &&& forall|j: int| 0 <= j < items.len()
                                ==> cloned(items[j].local_data, #[trigger] found->Some_0[j])
                        },
                        None => found is None,
                    },
                    forall|k: int| #![auto] first_holder_upto(drag_contexts@, id, i as int) == Some(k)
                        ==> 0 <= k < i && drag_contexts@[k].sessions().contains_key(id),
                decreases drag_contexts.len() - i,
            {
                if found.is_none() {
                    match drag_contexts[i].get_local_data_for_session_id(id) {
                        Ok(data) => {
                            found = Some(data);
                        },
                        Err(_) => {},
                    }
                }
                i += 1;
            }
            match found {
                Some(data) => data,
                None => Vec::new(),
            }
        },
        None => Vec::new(),
    }
}

/// The provider handles of the source drag, looked up in the drag contexts.
pub fn get_data_provider_handles<L: Clone, H: Clone>(
    session_id: Option<DragSessionId>,
    drag_contexts: &Vec<PlatformDragContext<L, H>>,
) -> (r: Vec<H>)
    ensures
        r.len() == source_handles(drag_contexts@, session_id).len(),
        forall|j: int| 0 <= j < r.len() ==> cloned(source_handles(drag_contexts@, session_id)[j], #[trigger] r[j]),
{
    match session_id {
        Some(id) => {
            let mut found: Option<Vec<H>> = None;
            let mut i: usize = 0;
            while i < drag_contexts.len()
                invariant
                    i <= drag_contexts.len(),
                    match first_holder_upto(drag_contexts@, id, i as int) {
                        Some(k) => {
                            let handles = drag_contexts@[k].sessions()[id].data_providers;
                            &&& found is Some
                            &&& found->Some_0.len() == handles.len()
                            &&& forall|j: int| 0 <= j < handles.len() ==> cloned(handles[j], #[trigger] found->Some_0[j])
                        },
                        None => found is None,
                    },
                    forall|k: int| #![auto] first_holder_upto(drag_contexts@, id, i as int) == Some(k)
                        ==> 0 <= k < i && drag_contexts@[k].sessions().contains_key(id),
                decreases drag_contexts.len() - i,
            {
                if found.is_none() {
                    found = drag_contexts[i].get_data_provider_handles(id);
                }
                i += 1;
            }
            match found {
                Some(handles) => handles,
                None => Vec::new(),
            }
        },
        None => Vec::new(),
    }
}

/// What a wire payload decodes to: text formats pass through, others are
/// standard base64; none where that decoding fails.
pub open spec fn decoded_content(format: Seq<char>, content: Seq<char>) -> Option<ContentView> {
    if is_text_format(format) {
        Some(ContentView::Text(content))
    } else {
        match base64_decoded(content) {
            Some(bytes) => Some(ContentView::Bytes(bytes)),
            None => None,
        }
    }
}

/// The decodable items among the first `n` offered (format, content) pairs,
/// in order; an item that does not decode is skipped.
pub open spec fn decoded_items_upto(formats: Seq<String>, contents: Seq<String>, n: int) -> Seq<(Seq<char>, ContentView)>
    decreases n,
{
    if n <= 0 {
        seq![]
    } else {
        let prev = decoded_items_upto(formats, contents, n - 1);
        match decoded_content(formats[n - 1]@, contents[n - 1]@) {
            Some(c) => prev.push((formats[n - 1]@, c)),
            None => prev,
        }
    }
}

/// The number of (format, content) pairs a native event carries.
pub open spec fn offered_count(event: NativeDragEvent) -> int {
    if event.formats.len() <= event.contents.len() {
        event.formats.len() as int
    } else {
        event.contents.len() as int
    }
}

pub open spec fn decoded_items(event: NativeDragEvent) -> Seq<(Seq<char>, ContentView)> {
    decoded_items_upto(event.formats@, event.contents@, offered_count(event))
}

/// Decodes one wire payload.
pub fn decode_content(format: &String, content: &String) -> (r: Option<ItemContent>)
    ensures
        match r {
            Some(c) => decoded_content(format@, content@) == Some(c@),
            None => decoded_content(format@, content@) is None,
        },
{
    if is_text_format_exec(format) {
        Some(ItemContent::Text(content.clone()))
    } else {
        match decode_base64(content.as_str()) {
            Some(bytes) => Some(ItemContent::Bytes(bytes)),
            None => None,
        }
    }
}

/// Decodes every offered item of a native event, skipping those that do not
/// decode.
pub fn decode_items(event: &NativeDragEvent) -> (r: Vec<ContentItem>)
    ensures
        r.len() == decoded_items(*event).len(),
        forall|j: int| 0 <= j < r.len() ==> {
            &&& (#[trigger] r[j]).format@ == decoded_items(*event)[j].0
            &&& r[j].content@ == decoded_items(*event)[j].1
            &&& r[j].content_format@ == Seq::<char>::empty()
        },
{
    let n: usize = if event.formats.len() <= event.contents.len() {
        event.formats.len()
    } else {
        event.contents.len()
    };
    let mut items: Vec<ContentItem> = Vec::new();
    let mut i: usize = 0;
    while i < n
        invariant
            i <= n,
            n == offered_count(*event),
            n <= event.formats.len(),
            n <= event.contents.len(),
            items.len() == decoded_items_upto(event.formats@, event.contents@, i as int).len(),
            forall|j: int| 0 <= j < items.len() ==> {
                &&& (#[trigger] items[j]).format@ == decoded_items_upto(event.formats@, event.contents@, i as int)[j].0
                &&& items[j].content@ == decoded_items_upto(event.formats@, event.contents@, i as int)[j].1
                &&& items[j].content_format@ == Seq::<char>::empty()
            },
        decreases n - i,
    {
        let format = &event.formats[i];
        match decode_content(format, &event.contents[i]) {
            Some(content) => {
                items.push(ContentItem { format: format.clone(), content_format: String::new(), content });
            },
            None => {},
        }
        i += 1;
    }
    items
}

/// One item of a drop event.
#[derive(Clone, Debug)]
pub struct DropItem<L> {
    pub item_id: i64,
    pub formats: Vec<String>,
    pub local_data: Option<L>,
}

/// The snapshot of an incoming gesture that the delegate sees.
#[derive(Clone, Debug)]
pub struct DropEvent<L> {
    pub session_id: DropSessionId,
    pub location_in_view: Point,
    pub allowed_operations: Vec<DropOperation>,
    pub items: Vec<DropItem<L>>,
    pub accepted_operation: Option<DropOperation>,
}

#[derive(Clone, Copy, Debug, PartialEq, Eq, Structural)]
pub struct BaseDropEvent {
    pub session_id: DropSessionId,
}

/// The items of an update: one per local data entry (at least one), each
/// offering every format of the event.
pub fn items_for_update<L>(formats: &Vec<String>, local_data: Vec<L>) -> (r: Vec<DropItem<L>>)
    ensures
        local_data.len() == 0 ==> {
            &&& r.len() == 1
            &&& r[0].item_id == 0
            &&& r[0].formats@ == formats@
            &&& r[0].local_data is None
        },
        local_data.len() > 0 ==> {
            &&& r.len() == local_data.len()
            &&& forall|j: int| 0 <= j < r.len() ==> {
                &&& (#[trigger] r[j]).item_id == j as i64
                &&& r[j].formats@ == formats@
                &&& r[j].local_data == Some(local_data[j])
            }
        },
{
    let mut items: Vec<DropItem<L>> = Vec::new();
    if local_data.len() == 0 {
        items.push(DropItem { item_id: 0, formats: copy_strings(formats), local_data: None });
        return items;
    }
    let ghost input = local_data@;
    let mut rest = local_data;
    let mut index: usize = 0;
    while rest.len() > 0
        invariant
            index == items.len(),
            index <= input.len(),
            input.len() <= usize::MAX,
            rest@ == input.subrange(index as int, input.len() as int),
            forall|j: int| 0 <= j < items.len() ==> {
                &&& (#[trigger] items[j]).item_id == j as i64
                &&& items[j].formats@ == formats@
                &&& items[j].local_data == Some(input[j])
            },
        decreases rest.len(),
    {
        let data = rest.remove(0);
        items.push(DropItem { item_id: index as i64, formats: copy_strings(formats), local_data: Some(data) });
        index += 1;
        proof {
            assert(rest@ =~= input.subrange(index as int, input.len() as int));
        }
    }
    items
}

/// The items of a drop: one per reader item, with that item's formats and
/// the local data at its index, if any.
pub fn items_for_reader<L, H>(reader: &PlatformDataReader<H>, local_data: Vec<L>) -> (r: Vec<DropItem<L>>)
    ensures
        r.len() == (if reader.spec_size() > 0 { reader.spec_size() as int } else { 0 }),
        forall|j: int| 0 <= j < r.len() ==> {
            &&& (#[trigger] r[j]).item_id == j as i64
            &&& match reader.item_at(j as i64) {
                Some(it) => r[j].formats.len() == 1 && r[j].formats[0]@ == it.format@,
                None => r[j].formats.len() == 0,
            }
            &&& r[j].local_data == (if j < local_data.len() {
                Some(local_data[j])
            } else {
                None
            })
        },
{
    let ghost input = local_data@;
    let ids = match reader.get_items_sync() {
        Ok(ids) => ids,
        Err(_) => Vec::new(),
    };
    let mut rest = local_data;
    let mut items: Vec<DropItem<L>> = Vec::new();
    let mut index: usize = 0;
    while index < ids.len()
        invariant
            index == items.len(),
            index <= ids.len(),
            ids@ == Seq::new(
                if reader.spec_size() > 0 { reader.spec_size() as nat } else { 0 },
                |i: int| i as i64,
            ),
            index <= input.len() ==> rest@ == input.subrange(index as int, input.len() as int),
            index > input.len() ==> rest.len() == 0,
            forall|j: int| 0 <= j < items.len() ==> {
                &&& (#[trigger] items[j]).item_id == j as i64
                &&& match reader.item_at(j as i64) {
                    Some(it) => items[j].formats.len() == 1 && items[j].formats[0]@ == it.format@,
                    None => items[j].formats.len() == 0,
                }
                &&& items[j].local_data == (if j < input.len() {
                    Some(input[j])
                } else {
                    None
                })
            },
        decreases ids.len() - index,
    {
        let id = ids[index];
        let formats = match reader.get_formats_for_item_sync(id) {
            Ok(formats) => formats,
            Err(_) => Vec::new(),
        };
        let data = if rest.len() > 0 {
            Some(rest.remove(0))
        } else {
            None
        };
        items.push(DropItem { item_id: id, formats, local_data: data });
        index += 1;
        proof {
            if index <= input.len() {
                assert(rest@ =~= input.subrange(index as int, input.len() as int));
            }
        }
    }
    items
}

/// Builds the snapshot that the delegate sees. Without a reader the items
/// come from the local data and offer the event's formats; with one they
/// are the reader's items.
pub fn translate_drop_event<L, H>(
    event: &NativeDragEvent,
    session_id: DropSessionId,
    local_data: Vec<L>,
    allowed_operations: Vec<DropOperation>,
    accepted_operation: Option<DropOperation>,
    reader: Option<&PlatformDataReader<H>>,
) -> (r: Result<DropEvent<L>, NativeExtensionsError>)
    ensures
        r is Ok,
        r->Ok_0.session_id == session_id,
        r->Ok_0.location_in_view == event.location(),
        r->Ok_0.allowed_operations == allowed_operations,
        r->Ok_0.accepted_operation == accepted_operation,
        reader is None && local_data.len() == 0 ==> {
            let items = r->Ok_0.items;
            &&& items.len() == 1
            &&& items[0].item_id == 0
            &&& items[0].formats@ == event.formats@
            &&& items[0].local_data is None
        },
        reader is None && local_data.len() > 0 ==> {
            let items = r->Ok_0.items;
            &&& items.len() == local_data.len()
            &&& forall|j: int| 0 <= j < items.len() ==> {
                &&& (#[trigger] items[j]).item_id == j as i64
                &&& items[j].formats@ == event.formats@
                &&& items[j].local_data == Some(local_data[j])
            }
        },
        reader is Some ==> {
            let rd = reader->Some_0;
            let items = r->Ok_0.items;
            &&& items.len() == (if rd.spec_size() > 0 { rd.spec_size() as int } else { 0 })
            &&& forall|j: int| 0 <= j < items.len() ==> {
                &&& (#[trigger] items[j]).item_id == j as i64
                &&& match rd.item_at(j as i64) {
                    Some(it) => items[j].formats.len() == 1 && items[j].formats[0]@ == it.format@,
                    None => items[j].formats.len() == 0,
                }
                &&& items[j].local_data == (if j < local_data.len() {
                    Some(local_data[j])
                } else {
                    None
                })
            }
        },
{
    let items = match reader {
        Some(rd) => items_for_reader(rd, local_data),
        None => items_for_update(&event.formats, local_data),
    };
    Ok(DropEvent {
        session_id,
        location_in_view: Point { x: event.x, y: event.y },
        allowed_operations,
        items,
        accepted_operation,
    })
}

/// Decoding keeps at most one item per offered pair.
pub proof fn lemma_decoded_items_len(formats: Seq<String>, contents: Seq<String>, n: int)
    requires
        0 <= n,
    ensures
        decoded_items_upto(formats, contents, n).len() <= n,
    decreases n,
{
    if n > 0 {
        lemma_decoded_items_len(formats, contents, n - 1);
    }
}

/// The incoming gesture in progress and the operation last negotiated for it.
#[derive(Clone, Copy, Debug, PartialEq, Eq, Structural)]
pub struct DropSession {
    pub id: DropSessionId,
    pub last_operation: DropOperation,
}

/// The id a drop context gives its next session; ids count up and wrap.
pub open spec fn next_session_id(counter: i64) -> i64 {
    if counter == i64::MAX {
        i64::MIN
    } else {
        (counter + 1) as i64
    }
}

/// The part of a drop context that the gesture changes.
pub struct DropState {
    pub counter: i64,
    pub current: Option<DropSession>,
}

/// The drop state after an enter signal.
pub open spec fn state_after_enter(s: DropState) -> DropState {
    match s.current {
        Some(_) => s,
        None => DropState {
            counter: next_session_id(s.counter),
            current: Some(DropSession { id: next_session_id(s.counter), last_operation: DropOperation::NoOperation }),
        },
    }
}

/// The drop state after the delegate answered the update sent for drop
/// session `drop_session_id`.
pub open spec fn state_after_reply(s: DropState, drop_session_id: DropSessionId, reply: Option<DropOperation>) -> DropState {
    DropState {
        counter: s.counter,
        current: match s.current {
            Some(c) => if c.id == drop_session_id {
                Some(DropSession { id: c.id, last_operation: reply_operation(reply) })
            } else {
                Some(c)
            },
            None => None,
        },
    }
}

/// The drop state once a leave has been handled: the session is closed.
pub open spec fn state_after_leave(s: DropState) -> DropState {
    DropState { counter: s.counter, current: None }
}

/// The drop state after a drop signal: the session closes, whether the drop
/// is delivered or discarded.
pub open spec fn state_after_drop(s: DropState) -> DropState {
    DropState { counter: s.counter, current: None }
}

/// The drop state after the delegate answered, in order, each update sent
/// for drop session `drop_session_id`.
pub open spec fn state_after_replies(s: DropState, drop_session_id: DropSessionId, replies: Seq<Option<DropOperation>>)
    -> DropState
    decreases replies.len(),
{
    if replies.len() == 0 {
        s
    } else {
        state_after_reply(state_after_replies(s, drop_session_id, replies.drop_last()), drop_session_id, replies.last())
    }
}

/// What a pointer move hands to the application: the calls owed to drag
/// contexts' delegates, the correlated drag session (to annotate once the
/// delegate answers) and the event to send for authorization.
pub struct DropUpdate<L> {
    pub drag_notifications: Vec<DragNotification>,
    pub drag_session_id: Option<DragSessionId>,
    pub event: DropEvent<L>,
}

/// What an accepted drop hands to the application: the reader to register,
/// the event to perform the drop with, and the end-of-drop notice.
pub struct DropDelivery<L, H> {
    pub event: DropEvent<L>,
    pub reader: PlatformDataReader<H>,
    pub ended: BaseDropEvent,
}

/// Whether a native move is worth forwarding: a move to the point last
/// forwarded is dropped.
pub fn should_forward_move(last_point: Option<Point>, point: Point) -> (r: bool)
    ensures
        r == (last_point != Some(point)),
{
    match last_point {
        Some(p) => !(p.x == point.x && p.y == point.y),
        None => true,
    }
}

/// The drop side of one view.
pub struct PlatformDropContext {
    id: PlatformDropContextId,
    engine_handle: i64,
    next_session_id: i64,
    current_session: Option<DropSession>,
}

impl PlatformDropContext {
    pub closed spec fn spec_id(&self) -> PlatformDropContextId {
        self.id
    }

    pub closed spec fn spec_engine_handle(&self) -> i64 {
        self.engine_handle
    }

    /// The id counter; the next session gets `next_session_id(counter)`.
    pub closed spec fn counter(&self) -> i64 {
        self.next_session_id
    }

    /// The live drop session, if any.
    pub closed spec fn current(&self) -> Option<DropSession> {
        self.current_session
    }

    pub open spec fn state(&self) -> DropState {
        DropState { counter: self.counter(), current: self.current() }
    }

    pub fn new(id: PlatformDropContextId, engine_handle: i64) -> (r: Result<Self, NativeExtensionsError>)
        ensures
            r is Ok,
            r->Ok_0.spec_id() == id,
            r->Ok_0.spec_engine_handle() == engine_handle,
            r->Ok_0.counter() == 0,
            r->Ok_0.current() is None,
    {
        Ok(PlatformDropContext { id, engine_handle, next_session_id: 0, current_session: None })
    }

    pub fn id(&self) -> (r: PlatformDropContextId)
        ensures
            r == self.spec_id(),
    {
        self.id
    }

    pub fn engine_handle(&self) -> (r: i64)
        ensures
            r == self.spec_engine_handle(),
    {
        self.engine_handle
    }

    pub fn current_session(&self) -> (r: Option<DropSession>)
        ensures
            r == self.current(),
    {
        self.current_session
    }

    /// Every format is accepted; nothing to register.
    pub fn register_drop_formats(&self, formats: &[String]) -> (r: Result<(), NativeExtensionsError>)
        ensures
            r is Ok,
    {
        Ok(())
    }

    /// Opens a drop session unless one is live; a second enter changes nothing.
    pub fn on_drag_enter(&mut self, event: &NativeDragEvent) -> (r: Result<(), NativeExtensionsError>)
        ensures
            r is Ok,
            final(self).spec_id() == old(self).spec_id(),
            final(self).spec_engine_handle() == old(self).spec_engine_handle(),
            final(self).state() == state_after_enter(old(self).state()),
            old(self).current() is None && old(self).counter() < i64::MAX
                ==> final(self).current()->Some_0.id > old(self).counter(),
            old(self).current() is Some ==> *final(self) == *old(self),
            old(self).current() is None ==> {
                &&& final(self).counter() == next_session_id(old(self).counter())
                &&& final(self).current() == Some(DropSession {
                    id: next_session_id(old(self).counter()),
                    last_operation: DropOperation::NoOperation,
                })
            },
    {
        if self.current_session.is_none() {
            let id = if self.next_session_id == i64::MAX {
                i64::MIN
            } else {
                self.next_session_id + 1
            };
            self.next_session_id = id;
            self.current_session = Some(DropSession { id, last_operation: DropOperation::NoOperation });
        }
        Ok(())
    }

    /// A pointer move: routes it to the drag contexts and builds the event to
    /// send for authorization. Without a live session nothing happens.
    pub fn on_drag_move<L: Clone, H: Clone>(
        &self,
        event: &NativeDragEvent,
        drag_contexts: &mut Vec<PlatformDragContext<L, H>>,
    ) -> (r: Option<DropUpdate<L>>)
        ensures
            r is None <==> self.current() is None,
            r is None ==> *final(drag_contexts) == *old(drag_contexts),
            r is Some ==> {
                let u = r->Some_0;
                let ctxs = old(drag_contexts)@;
                let sid = correlated_session(ctxs);
                let source = source_items(ctxs, sid);
                &&& final(drag_contexts).len() == old(drag_contexts).len()
                &&& forall|j: int| 0 <= j < ctxs.len()
                    ==> routed(ctxs[j], #[trigger] final(drag_contexts)[j], DragAction::DragMove)
                &&& u.drag_notifications@ == drag_notifications(ctxs, *event, DragAction::DragMove)
                &&& u.drag_session_id == sid
                &&& u.event.session_id == self.current()->Some_0.id
                &&& u.event.location_in_view == event.location()
                &&& u.event.allowed_operations@ == allowed_operations_for(ctxs, sid)
                &&& u.event.accepted_operation is None
                &&& source.len() == 0 ==> {
                    &&& u.event.items.len() == 1
                    &&& u.event.items[0].item_id == 0
                    &&& u.event.items[0].formats@ == event.formats@
                    &&& u.event.items[0].local_data is None
                }
                &&& source.len() > 0 ==> {
                    &&& u.event.items.len() == source.len()
                    &&& forall|j: int| 0 <= j < source.len() ==> {
                        &&& (#[trigger] u.event.items[j]).item_id == j as i64
                        &&& u.event.items[j].formats@ == event.formats@
                        &&& u.event.items[j].local_data is Some
                        &&& cloned(source[j].local_data, u.event.items[j].local_data->Some_0)
                    }
                }
            },
    {
        let current = match self.current_session {
            Some(current) => current,
            None => return None,
        };
        let (drag_session_id, drag_notifications) = route_to_drag_contexts(drag_contexts, event, DragAction::DragMove);
        proof {
            assert forall|j: int| 0 <= j < drag_contexts.len() implies #[trigger] drag_contexts@[j].sessions()
                == old(drag_contexts)@[j].sessions() && drag_contexts@[j].current_session()
                == old(drag_contexts)@[j].current_session() by {
                assert(routed(old(drag_contexts)@[j], drag_contexts@[j], DragAction::DragMove));
            }
            lemma_lookups_agree(old(drag_contexts)@, drag_contexts@, drag_session_id);
        }
        let local_data = get_local_data(drag_session_id, drag_contexts);
        let allowed_operations = get_allowed_operations(drag_session_id, drag_contexts);
        let event = match translate_drop_event::<L, H>(event, current.id, local_data, allowed_operations, None, None) {
            Ok(e) => e,
            Err(_) => {
                assert(false);
                return None;
            },
        };
        Some(DropUpdate { drag_notifications, drag_session_id, event })
    }
}

/// The operation a delegate's answer to an update amounts to; a failed
/// answer counts as no operation.
pub open spec fn reply_operation(reply: Option<DropOperation>) -> DropOperation {
    match reply {
        Some(op) => op,
        None => DropOperation::NoOperation,
    }
}

/// How a drag context reads after the operation negotiated for
/// `session_id` has been recorded in it.
pub open spec fn annotated<L, H>(
    before: PlatformDragContext<L, H>,
    after: PlatformDragContext<L, H>,
    session_id: Option<DragSessionId>,
    operation: DropOperation,
) -> bool {
    &&& after.sessions() == (match session_id {
        Some(s) => if before.sessions().contains_key(s) {
            before.sessions().insert(s, (crate::drag::DragSession {
                last_drop_operation: Some(operation),
                ..before.sessions()[s]
            }))
        } else {
            before.sessions()
        },
        None => before.sessions(),
    })
    &&& after.current_session() == before.current_session()
    &&& after.spec_id() == before.spec_id()
    &&& after.spec_engine_handle() == before.spec_engine_handle()
}

impl PlatformDropContext {
    /// The delegate's answer to the update sent for drop session
    /// `drop_session_id`: records the operation in the correlated drag
    /// session of every drag context and, if that drop session is still the
    /// live one, as its last operation.
    pub fn on_drop_update_result<L: Clone, H: Clone>(
        &mut self,
        drop_session_id: DropSessionId,
        drag_session_id: Option<DragSessionId>,
        reply: Option<DropOperation>,
        drag_contexts: &mut Vec<PlatformDragContext<L, H>>,
    )
        ensures
            final(drag_contexts).len() == old(drag_contexts).len(),
            forall|j: int| 0 <= j < old(drag_contexts).len() ==> annotated(
                old(drag_contexts)[j],
                #[trigger] final(drag_contexts)[j],
                drag_session_id,
                reply_operation(reply),
            ),
            final(self).spec_id() == old(self).spec_id(),
            final(self).spec_engine_handle() == old(self).spec_engine_handle(),
            final(self).state() == state_after_reply(old(self).state(), drop_session_id, reply),
            final(self).counter() == old(self).counter(),
            final(self).current() == (match old(self).current() {
                Some(c) => if c.id == drop_session_id {
                    Some(DropSession { id: c.id, last_operation: reply_operation(reply) })
                } else {
                    Some(c)
                },
                None => None,
            }),
    {
        let operation = match reply {
            Some(op) => op,
            None => DropOperation::NoOperation,
        };
        let ghost before = drag_contexts@;
        let mut i: usize = 0;
        while i < drag_contexts.len()
            invariant
                drag_contexts.len() == before.len(),
                i <= before.len(),
                forall|j: int| 0 <= j < i ==> annotated(before[j], #[trigger] drag_contexts[j], drag_session_id, operation),
                forall|j: int| i <= j < before.len() ==> #[trigger] drag_contexts[j] == before[j],
            decreases before.len() - i,
        {
            match drag_session_id {
                Some(s) => drag_contexts[i].replace_last_operation(s, operation),
                None => {},
            }
            i += 1;
        }
        match self.current_session {
            Some(c) => {
                if c.id == drop_session_id {
                    self.current_session = Some(DropSession { id: c.id, last_operation: operation });
                }
            },
            None => {},
        }
    }

    /// The pointer left the view: the live session's leave notice. This does
    /// not retire the session; the caller closes it with `end_drop_session`
    /// once the notice is sent.
    pub fn on_drag_leave(&self, event: &NativeDragEvent) -> (r: Option<BaseDropEvent>)
        ensures
            match self.current() {
                Some(c) => r == Some(BaseDropEvent { session_id: c.id }),
                None => r is None,
            },
    {
        match self.current_session {
            Some(c) => Some(BaseDropEvent { session_id: c.id }),
            None => None,
        }
    }

    /// Closes the live drop session, if any, after a leave.
    pub fn end_drop_session(&mut self)
        ensures
            final(self).state() == state_after_leave(old(self).state()),
            final(self).current() is None,
            final(self).counter() == old(self).counter(),
            final(self).spec_id() == old(self).spec_id(),
            final(self).spec_engine_handle() == old(self).spec_engine_handle(),
    {
        self.current_session = None;
    }

    /// The native drag ended: routes the end to every drag context, which
    /// retires its current session. The drop session is left as it is.
    pub fn on_drag_end<L: Clone, H: Clone>(
        &self,
        event: &NativeDragEvent,
        drag_contexts: &mut Vec<PlatformDragContext<L, H>>,
    ) -> (r: Vec<DragNotification>)
        ensures
            r@ == drag_notifications(old(drag_contexts)@, *event, DragAction::DragEnd),
            final(drag_contexts).len() == old(drag_contexts).len(),
            forall|j: int| 0 <= j < old(drag_contexts).len()
                ==> routed(old(drag_contexts)[j], #[trigger] final(drag_contexts)[j], DragAction::DragEnd),
    {
        let (_, notifications) = route_to_drag_contexts(drag_contexts, event, DragAction::DragEnd);
        notifications
    }

    /// The pointer released over the view. Under a rejecting last operation
    /// (or without a live session) the drop is discarded and nothing is
    /// delivered. Otherwise the offered items are decoded into a reader that
    /// keeps the source drag's provider handles alive and the event to
    /// perform the drop with is built. Either way the session is closed.
    pub fn on_drop<L: Clone, H: Clone>(
        &mut self,
        event: &NativeDragEvent,
        drag_contexts: &mut Vec<PlatformDragContext<L, H>>,
    ) -> (r: Option<DropDelivery<L, H>>)
        requires
            event.formats.len() <= i64::MAX,
        ensures
            final(self).spec_id() == old(self).spec_id(),
            final(self).spec_engine_handle() == old(self).spec_engine_handle(),
            final(self).counter() == old(self).counter(),
            final(self).state() == state_after_drop(old(self).state()),
            r is None <==> (old(self).current() is None || old(self).current()->Some_0.last_operation.spec_is_rejecting()),
            old(self).current() is None ==> *final(drag_contexts) == *old(drag_contexts),
            final(self).current() is None,
            old(self).current() is Some ==> {
                &&& final(drag_contexts).len() == old(drag_contexts).len()
                &&& forall|j: int| 0 <= j < old(drag_contexts).len()
                    ==> routed(old(drag_contexts)[j], #[trigger] final(drag_contexts)[j], DragAction::Drop)
            },
            r is Some ==> {
                let d = r->Some_0;
                let c = old(self).current()->Some_0;
                let ctxs = old(drag_contexts)@;
                let sid = correlated_session(ctxs);
                let decoded = decoded_items(*event);
                let source = source_items(ctxs, sid);
                let handles = source_handles(ctxs, sid);
                &&& final(self).current() is None
                &&& d.ended == BaseDropEvent { session_id: c.id }
                &&& d.event.session_id == c.id
                &&& d.event.location_in_view == event.location()
                &&& d.event.allowed_operations@ == allowed_operations_for(ctxs, sid)
                &&& d.event.accepted_operation == Some(c.last_operation)
                &&& d.event.items.len() == decoded.len()
                &&& forall|j: int| 0 <= j < decoded.len() ==> {
                    &&& (#[trigger] d.event.items[j]).item_id == j as i64
                    &&& d.event.items[j].formats.len() == 1
                    &&& d.event.items[j].formats[0]@ == decoded[j].0
                    &&& j < source.len() ==> d.event.items[j].local_data is Some
                        && cloned(source[j].local_data, d.event.items[j].local_data->Some_0)
                    &&& j >= source.len() ==> d.event.items[j].local_data is None
                }
                &&& d.reader.spec_size() == decoded.len()
                &&& d.reader.spec_items() is Some
                &&& d.reader.spec_items()->Some_0.len() == decoded.len()
                &&& forall|j: int| 0 <= j < decoded.len() ==> {
                    &&& (#[trigger] d.reader.spec_items()->Some_0[j]).format@ == decoded[j].0
                    &&& d.reader.spec_items()->Some_0[j].content@ == decoded[j].1
                }
                &&& d.reader.spec_source_handles() is Some
                &&& d.reader.spec_source_handles()->Some_0.len() == handles.len()
                &&& forall|j: int| 0 <= j < handles.len()
                    ==> cloned(handles[j], #[trigger] d.reader.spec_source_handles()->Some_0[j])
            },
    {
        let current = match self.current_session {
            Some(current) => current,
            None => return None,
        };
        let (drag_session_id, _) = route_to_drag_contexts(drag_contexts, event, DragAction::Drop);
        proof {
            assert forall|j: int| 0 <= j < drag_contexts.len() implies #[trigger] drag_contexts@[j].sessions()
                == old(drag_contexts)@[j].sessions() by {
                assert(routed(old(drag_contexts)@[j], drag_contexts@[j], DragAction::Drop));
            }
            lemma_lookups_agree(old(drag_contexts)@, drag_contexts@, drag_session_id);
        }
        let accepted_operation = current.last_operation;
        if accepted_operation.is_rejecting() {
            self.current_session = None;
            return None;
        }
        let local_data = get_local_data(drag_session_id, drag_contexts);
        let data_provider_handles = get_data_provider_handles(drag_session_id, drag_contexts);
        let content_items = decode_items(event);
        proof {
            lemma_decoded_items_len(event.formats@, event.contents@, offered_count(*event));
        }
        let num = content_items.len() as i64;
        let ghost items_view = content_items@;
        let reader = match PlatformDataReader::from_clip_data(Some(content_items), num, Some(data_provider_handles)) {
            Ok(reader) => reader,
            Err(_) => {
                assert(false);
                return None;
            },
        };
        let allowed_operations = get_allowed_operations(drag_session_id, drag_contexts);
        let drop_event = match translate_drop_event(
            event,
            current.id,
            local_data,
            allowed_operations,
            Some(accepted_operation),
            Some(&reader),
        ) {
            Ok(e) => e,
            Err(_) => {
                assert(false);
                return None;
            },
        };
        proof {
            assert forall|j: int| 0 <= j < items_view.len() implies reader.item_at(j as i64) == Some(items_view[j]) by {}
        }
        self.current_session = None;
        Some(DropDelivery { event: drop_event, reader, ended: BaseDropEvent { session_id: current.id } })
    }
}

/// Lookups by session id read the same in two lists of drag contexts whose
/// sessions agree.
pub proof fn lemma_lookups_agree<L, H>(
    a: Seq<PlatformDragContext<L, H>>,
    b: Seq<PlatformDragContext<L, H>>,
    session_id: Option<DragSessionId>,
)
    requires
        a.len() == b.len(),
        forall|j: int| 0 <= j < a.len() ==> #[trigger] b[j].sessions() == a[j].sessions(),
    ensures
        source_session(b, session_id) == source_session(a, session_id),
{
    match session_id {
        Some(id) => {
            lemma_first_holder_agree(a, b, id, a.len() as int);
        },
        None => {},
    }
}

proof fn lemma_first_holder_agree<L, H>(
    a: Seq<PlatformDragContext<L, H>>,
    b: Seq<PlatformDragContext<L, H>>,
    id: DragSessionId,
    n: int,
)
    requires
        a.len() == b.len(),
        n <= a.len(),
        forall|j: int| 0 <= j < a.len() ==> #[trigger] b[j].sessions() == a[j].sessions(),
    ensures
        first_holder_upto(b, id, n) == first_holder_upto(a, id, n),
        first_holder_upto(a, id, n) matches Some(k) ==> 0 <= k < n,
    decreases n,
{
    if n > 0 {
        lemma_first_holder_agree(a, b, id, n - 1);
        assert(b[n - 1].sessions() == a[n - 1].sessions());
    }
}

} // verus!
