//! The drag side: outgoing sessions of one drag context, with at most one
//! current session per native gesture.

use std::collections::HashMap;
use vstd::prelude::*;

use crate::model::{
    copy_operations, DragAction, DragConfiguration, DragNotification, DragRequest,
    DragSessionId, DropOperation, NativeDragEvent, NativeExtensionsError, PlatformDragContextId,
    Point,
};

verus! {

broadcast use vstd::std_specs::hash::group_hash_axioms;

/// One outgoing drag. `data_providers` keeps the lazily resolved data
/// sources alive for as long as the session is registered.
pub struct DragSession<L, H> {
    pub platform_context_id: PlatformDragContextId,
    pub configuration: DragConfiguration<L>,
    pub data_providers: Vec<H>,
    pub last_drop_operation: Option<DropOperation>,
}

/// What a native signal does to the session it reaches.
#[derive(Clone, Copy, Debug, PartialEq, Eq, Structural)]
pub enum HandleEventResult {
    KeepSession,
    RemoveSession,
}

/// The operation reported when a drag ends: the last negotiated one (copy if
/// none was) when the platform reports success, no operation otherwise.
pub open spec fn final_operation(result: bool, last: Option<DropOperation>) -> DropOperation {
    if result {
        match last {
            Some(op) => op,
            None => DropOperation::Copy,
        }
    } else {
        DropOperation::NoOperation
    }
}

impl<L, H> DragSession<L, H> {

    /// The delegate call that a native signal owes, as `handle_event` decides it.
    pub open spec fn handle_event_notification(self, session_id: DragSessionId, event: NativeDragEvent, action: DragAction)
        -> Option<DragNotification>
    {
        match action {
            DragAction::DragMove => Some(DragNotification::MovedToLocation {
                context_id: self.platform_context_id,
                session_id,
                location: event.location(),
            }),
            DragAction::DragEnd => Some(DragNotification::EndedWithOperation {
                context_id: self.platform_context_id,
                session_id,
                operation: final_operation(event.result, self.last_drop_operation),
            }),
            DragAction::Drop => None,
        }
    }

    /// Decides what a native signal means for this session: which delegate
    /// call it owes and whether the session ends.
    pub fn handle_event(&self, session_id: DragSessionId, event: &NativeDragEvent, action: DragAction)
        -> (r: (Option<DragNotification>, HandleEventResult))
        ensures
            r == (match action {
                DragAction::DragMove => (Some(DragNotification::MovedToLocation {
                    context_id: self.platform_context_id,
                    session_id,
                    location: event.location(),
                }), HandleEventResult::KeepSession),
                DragAction::DragEnd => (Some(DragNotification::EndedWithOperation {
                    context_id: self.platform_context_id,
                    session_id,
                    operation: final_operation(event.result, self.last_drop_operation),
                }), HandleEventResult::RemoveSession),
                DragAction::Drop => (None, HandleEventResult::KeepSession),
            }),
    {
        match action {
            DragAction::DragMove => {
                let location = Point { x: event.x, y: event.y };
                (
                    Some(DragNotification::MovedToLocation {
                        context_id: self.platform_context_id,
                        session_id,
                        location,
                    }),
                    HandleEventResult::KeepSession,
                )
            },
            DragAction::DragEnd => {
                let operation = if event.result {
                    match self.last_drop_operation {
                        Some(op) => op,
                        None => DropOperation::Copy,
                    }
                } else {
                    DropOperation::NoOperation
                };
                (
                    Some(DragNotification::EndedWithOperation {
                        context_id: self.platform_context_id,
                        session_id,
                        operation,
                    }),
                    HandleEventResult::RemoveSession,
                )
            },
            DragAction::Drop => (None, HandleEventResult::KeepSession),
        }
    }
}

/// The drag side of one view: registered sessions by id, and the id of the
/// session that the current native gesture belongs to.
pub struct PlatformDragContext<L, H> {
    id: PlatformDragContextId,
    engine_handle: i64,
    sessions: HashMap<DragSessionId, DragSession<L, H>>,
    current_session_id: Option<DragSessionId>,
}

impl<L, H> PlatformDragContext<L, H> {
    pub closed spec fn spec_id(&self) -> PlatformDragContextId {
        self.id
    }

    pub closed spec fn spec_engine_handle(&self) -> i64 {
        self.engine_handle
    }

    /// The registered sessions.
    pub closed spec fn sessions(&self) -> Map<DragSessionId, DragSession<L, H>> {
        self.sessions@
    }

    /// The session of the gesture in progress, if any.
    pub closed spec fn current_session(&self) -> Option<DragSessionId> {
        self.current_session_id
    }

    /// Every registered session names this context, and the current id, if
    /// any, names a registered session.
    pub open spec fn wf(&self) -> bool {
        &&& forall|s: DragSessionId| #[trigger] self.sessions().contains_key(s)
            ==> self.sessions()[s].platform_context_id == self.spec_id()
        &&& self.current_session() matches Some(s) ==> self.sessions().contains_key(s)
    }

    /// The delegate call that a forced end of the current session owes.
    pub open spec fn forced_end_notification(&self) -> Option<DragNotification> {
        match self.routed_session() {
            Some(s) => Some(DragNotification::EndedWithOperation {
                context_id: self.sessions()[s].platform_context_id,
                session_id: s,
                operation: DropOperation::NoOperation,
            }),
            None => None,
        }
    }

    /// The current session, where it is registered.
    pub open spec fn routed_session(&self) -> Option<DragSessionId> {
        match self.current_session() {
            Some(s) => if self.sessions().contains_key(s) {
                Some(s)
            } else {
                None
            },
            None => None,
        }
    }

    /// The delegate call that a native signal owes.
    pub open spec fn notification_for(&self, event: NativeDragEvent, action: DragAction) -> Option<DragNotification> {
        match self.routed_session() {
            Some(s) => self.sessions()[s].handle_event_notification(s, event, action),
            None => None,
        }
    }

    /// The registered sessions once a native signal has been routed.
    pub open spec fn sessions_after(&self, action: DragAction) -> Map<DragSessionId, DragSession<L, H>> {
        match self.routed_session() {
            Some(s) => if action is DragEnd {
                self.sessions().remove(s)
            } else {
                self.sessions()
            },
            None => self.sessions(),
        }
    }

    /// The current session once a native signal has been routed.
    pub open spec fn current_after(&self, action: DragAction) -> Option<DragSessionId> {
        match self.routed_session() {
            Some(s) => if action is DragEnd {
                None
            } else {
                self.current_session()
            },
            None => self.current_session(),
        }
    }

}

impl<L: Clone, H: Clone> PlatformDragContext<L, H> {
    pub fn new(id: PlatformDragContextId, engine_handle: i64) -> (r: Result<Self, NativeExtensionsError>)
        ensures
            r is Ok,
            r->Ok_0.spec_id() == id,
            r->Ok_0.spec_engine_handle() == engine_handle,
            r->Ok_0.sessions() == Map::<DragSessionId, DragSession<L, H>>::empty(),
            r->Ok_0.current_session() is None,
            r->Ok_0.wf(),
    {
        Ok(PlatformDragContext { id, engine_handle, sessions: HashMap::new(), current_session_id: None })
    }

    pub fn id(&self) -> (r: PlatformDragContextId)
        ensures
            r == self.spec_id(),
    {
        self.id
    }

    pub fn engine_handle(&self) -> (r: i64)
        ensures
            r == self.spec_engine_handle(),
    {
        self.engine_handle
    }

    pub fn current_session_id(&self) -> (r: Option<DragSessionId>)
        ensures
            r == self.current_session(),
    {
        self.current_session_id
    }

    /// This platform always drags one preview image for all items.
    pub fn needs_combined_drag_image() -> (r: bool)
        ensures
            r,
    {
        true
    }
    /// Registers a new session for `session_id` and makes it current unless a
    /// session already is. A request without a combined preview image is
    /// refused and changes nothing.
    pub fn start_drag(&mut self, request: DragRequest<L>, provider_handles: Vec<H>, session_id: DragSessionId)
        -> (r: Result<(), NativeExtensionsError>)
        ensures
            request.combined_drag_image is None ==> {
                &&& r == Err::<(), NativeExtensionsError>(NativeExtensionsError::MissingCombinedDragImage)
                &&& *final(self) == *old(self)
            },
            request.combined_drag_image is Some ==> {
                &&& r is Ok
                &&& final(self).sessions() == old(self).sessions().insert(session_id, (DragSession {
                        platform_context_id: old(self).spec_id(),
                        configuration: request.configuration,
                        data_providers: provider_handles,
                        last_drop_operation: None,
                    }))
                &&& final(self).current_session() == (match old(self).current_session() {
                        Some(s) => Some(s),
                        None => Some(session_id),
                    })
                &&& final(self).spec_id() == old(self).spec_id()
                &&& final(self).spec_engine_handle() == old(self).spec_engine_handle()
            },
            old(self).wf() ==> final(self).wf(),
    {
        if request.combined_drag_image.is_none() {
            return Err(NativeExtensionsError::MissingCombinedDragImage);
        }
        let session = DragSession {
            platform_context_id: self.id,
            configuration: request.configuration,
            data_providers: provider_handles,
            last_drop_operation: None,
        };
        self.sessions.insert(session_id, session);
        if self.current_session_id.is_none() {
            self.current_session_id = Some(session_id);
        }
        Ok(())
    }

    /// Routes a native signal to the current session. Returns the current
    /// session id, if any, and the delegate call that the signal owes. A
    /// drag end removes the session and clears the current id.
    pub fn on_drop_event(&mut self, event: &NativeDragEvent, action: DragAction)
        -> (r: (Option<DragSessionId>, Option<DragNotification>))
        ensures
            r.0 == old(self).current_session(),
            r.1 == old(self).notification_for(*event, action),
            final(self).sessions() == old(self).sessions_after(action),
            final(self).current_session() == old(self).current_after(action),
            final(self).spec_id() == old(self).spec_id(),
            final(self).spec_engine_handle() == old(self).spec_engine_handle(),
            old(self).wf() ==> final(self).wf(),
    {
        match self.current_session_id {
            None => (None, None),
            Some(session_id) => {
                let outcome = match self.sessions.get(&session_id) {
                    Some(session) => Some(session.handle_event(session_id, event, action)),
                    None => None,
                };
                match outcome {
                    Some((notification, result)) => {
                        if result == HandleEventResult::RemoveSession {
                            self.sessions.remove(&session_id);
                            self.current_session_id = None;
                        }
                        (Some(session_id), notification)
                    },
                    None => (Some(session_id), None),
                }
            },
        }
    }

    /// Ends the current session without a native end signal, reporting no
    /// operation. Returns the id that was current, if any.
    pub fn drag_session_did_end(&mut self) -> (r: (Option<DragSessionId>, Option<DragNotification>))
        ensures
            r.0 == old(self).current_session(),
            r.1 == old(self).forced_end_notification(),
            old(self).wf() ==> final(self).wf(),
            final(self).spec_id() == old(self).spec_id(),
            final(self).spec_engine_handle() == old(self).spec_engine_handle(),
            match old(self).current_session() {
                Some(s) if old(self).sessions().contains_key(s) => {
                    &&& r.1 == Some(DragNotification::EndedWithOperation {
                        context_id: old(self).sessions()[s].platform_context_id,
                        session_id: s,
                        operation: DropOperation::NoOperation,
                    })
                    &&& final(self).sessions() == old(self).sessions().remove(s)
                    &&& final(self).current_session() is None
                },
                _ => r.1 is None && *final(self) == *old(self),
            },
    {
        match self.current_session_id {
            None => (None, None),
            Some(session_id) => {
                let context_id = match self.sessions.get(&session_id) {
                    Some(session) => Some(session.platform_context_id),
                    None => None,
                };
                match context_id {
                    Some(context_id) => {
                        self.sessions.remove(&session_id);
                        self.current_session_id = None;
                        (
                            Some(session_id),
                            Some(DragNotification::EndedWithOperation {
                                context_id,
                                session_id,
                                operation: DropOperation::NoOperation,
                            }),
                        )
                    },
                    None => (Some(session_id), None),
                }
            },
        }
    }

    /// The operations that a registered session allows.
    pub fn get_allowed_operations(&self, session_id: DragSessionId) -> (r: Option<Vec<DropOperation>>)
        ensures
            r is Some <==> self.sessions().contains_key(session_id),
            r is Some ==> r->Some_0@ == self.sessions()[session_id].configuration.allowed_operations@,
    {
        match self.sessions.get(&session_id) {
            Some(session) => Some(copy_operations(&session.configuration.allowed_operations)),
            None => None,
        }
    }

    /// Records the operation last negotiated for a registered session; an
    /// unknown id changes nothing.
    pub fn replace_last_operation(&mut self, session_id: DragSessionId, operation: DropOperation)
        ensures
            final(self).spec_id() == old(self).spec_id(),
            final(self).spec_engine_handle() == old(self).spec_engine_handle(),
            final(self).current_session() == old(self).current_session(),
            old(self).wf() ==> final(self).wf(),
            final(self).sessions() == (if old(self).sessions().contains_key(session_id) {
                old(self).sessions().insert(session_id, (DragSession {
                    last_drop_operation: Some(operation),
                    ..old(self).sessions()[session_id]
                }))
            } else {
                old(self).sessions()
            }),
    {
        match self.sessions.remove(&session_id) {
            Some(mut session) => {
                session.last_drop_operation = Some(operation);
                self.sessions.insert(session_id, session);
                proof {
                    assert(self.sessions@ =~= old(self).sessions@.insert(session_id, session));
                }
            },
            None => {},
        }
    }

    /// The local data of a registered session's items, in item order.
    pub fn get_local_data_for_session_id(&self, session_id: DragSessionId) -> (r: Result<Vec<L>, NativeExtensionsError>)
        ensures
            r is Err <==> !self.sessions().contains_key(session_id),
            r is Err ==> r->Err_0 == NativeExtensionsError::DragSessionNotFound,
            r is Ok ==> {
                let items = self.sessions()[session_id].configuration.items;
                &&& r->Ok_0.len() == items.len()
                &&& forall|i: int| 0 <= i < items.len() ==> cloned(items[i].local_data, #[trigger] r->Ok_0[i])
            },
    {
        match self.sessions.get(&session_id) {
            Some(session) => Ok(session.configuration.get_local_data()),
            None => Err(NativeExtensionsError::DragSessionNotFound),
        }
    }

    /// The data provider handles that a registered session keeps alive.
    pub fn get_data_provider_handles(&self, session_id: DragSessionId) -> (r: Option<Vec<H>>)
        ensures
            r is Some <==> self.sessions().contains_key(session_id),
            r is Some ==> {
                let handles = self.sessions()[session_id].data_providers;
                &&& r->Some_0.len() == handles.len()
                &&& forall|i: int| 0 <= i < handles.len() ==> cloned(handles[i], #[trigger] r->Some_0[i])
            },
    {
        match self.sessions.get(&session_id) {
            Some(session) => Some(session.data_providers.clone()),
            None => None,
        }
    }
}

/// The delegate calls that forcibly ending the sessions of `ctxs[..n]` owes:
/// an end with no operation for each context that has a current session.
pub open spec fn forced_end_notifications_upto<L, H>(ctxs: Seq<PlatformDragContext<L, H>>, n: int) -> Seq<DragNotification>
    decreases n,
{
    if n <= 0 {
        seq![]
    } else {
        let prev = forced_end_notifications_upto(ctxs, n - 1);
        match ctxs[n - 1].forced_end_notification() {
            Some(x) => prev.push(x),
            None => prev,
        }
    }
}

/// Ends the current session of every drag context, as when the data
/// providers behind them go away before any native end arrives. Returns the
/// delegate calls owed, in context order.
pub fn end_drag_sessions<L: Clone, H: Clone>(drag_contexts: &mut Vec<PlatformDragContext<L, H>>) -> (r: Vec<DragNotification>)
    ensures
        final(drag_contexts).len() == old(drag_contexts).len(),
        r@ == forced_end_notifications_upto(old(drag_contexts)@, old(drag_contexts).len() as int),
        forall|j: int| 0 <= j < old(drag_contexts).len() ==> {
            let before = old(drag_contexts)[j];
            let after = #[trigger] final(drag_contexts)[j];
            &&& after.spec_id() == before.spec_id()
            &&& before.wf() ==> after.wf()
            &&& match before.routed_session() {
                Some(s) => after.sessions() == before.sessions().remove(s) && after.current_session() is None,
                None => after.sessions() == before.sessions() && after.current_session() == before.current_session(),
            }
        },
{
    let ghost before = drag_contexts@;
    let mut notifications: Vec<DragNotification> = Vec::new();
    let mut i: usize = 0;
    while i < drag_contexts.len()
        invariant
            drag_contexts.len() == before.len(),
            i <= before.len(),
            notifications@ == forced_end_notifications_upto(before, i as int),
            forall|j: int| 0 <= j < i ==> {
                let after = #[trigger] drag_contexts[j];
                &&& after.spec_id() == before[j].spec_id()
                &&& before[j].wf() ==> after.wf()
                &&& match before[j].routed_session() {
                    Some(s) => after.sessions() == before[j].sessions().remove(s) && after.current_session() is None,
                    None => after.sessions() == before[j].sessions() && after.current_session() == before[j].current_session(),
                }
            },
            forall|j: int| i <= j < before.len() ==> #[trigger] drag_contexts[j] == before[j],
        decreases before.len() - i,
    {
        let (_, notification) = drag_contexts[i].drag_session_did_end();
        match notification {
            Some(n) => notifications.push(n),
            None => {},
        }
        i += 1;
    }
    notifications
}

} // verus!
