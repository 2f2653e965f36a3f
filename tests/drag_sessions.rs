use drag_drop_session::drag::PlatformDragContext;
use drag_drop_session::model::{
    DragAction, DragConfiguration, DragItem, DragNotification, DragRequest, DropOperation,
    ImageData, NativeDragEvent, NativeExtensionsError, Point,
};

fn image() -> ImageData {
    ImageData { width: 2, height: 1, bytes_per_row: 8, data: vec![0; 8] }
}

fn request(with_image: bool) -> DragRequest<String> {
    DragRequest {
        configuration: DragConfiguration {
            items: vec![
                DragItem { data_provider_id: 10, local_data: "first".to_string() },
                DragItem { data_provider_id: 11, local_data: "second".to_string() },
            ],
            allowed_operations: vec![DropOperation::Copy, DropOperation::Move],
        },
        combined_drag_image: if with_image { Some(image()) } else { None },
    }
}

fn event(x: i32, y: i32, result: bool) -> NativeDragEvent {
    NativeDragEvent { x, y, result, formats: Vec::new(), contents: Vec::new() }
}

fn context() -> PlatformDragContext<String, u32> {
    PlatformDragContext::new(3, 99).unwrap()
}

#[test]
fn start_drag_without_preview_image_fails() {
    let mut ctx = context();
    let r = ctx.start_drag(request(false), vec![1, 2], 7);
    assert_eq!(r, Err(NativeExtensionsError::MissingCombinedDragImage));
    assert_eq!(ctx.current_session_id(), None);
    assert_eq!(ctx.get_allowed_operations(7), None);
    assert_eq!(ctx.get_data_provider_handles(7), None);
}

#[test]
fn started_session_is_retrievable() {
    let mut ctx = context();
    assert_eq!(ctx.start_drag(request(true), vec![1, 2], 7), Ok(()));
    assert_eq!(ctx.current_session_id(), Some(7));
    assert_eq!(ctx.get_allowed_operations(7), Some(vec![DropOperation::Copy, DropOperation::Move]));
    assert_eq!(ctx.get_local_data_for_session_id(7), Ok(vec!["first".to_string(), "second".to_string()]));
    assert_eq!(ctx.get_data_provider_handles(7), Some(vec![1, 2]));
    assert_eq!(ctx.get_local_data_for_session_id(8), Err(NativeExtensionsError::DragSessionNotFound));
}

#[test]
fn first_started_session_stays_current() {
    let mut ctx = context();
    ctx.start_drag(request(true), vec![1], 7).unwrap();
    ctx.start_drag(request(true), vec![2], 8).unwrap();
    assert_eq!(ctx.current_session_id(), Some(7));
    assert_eq!(ctx.get_data_provider_handles(8), Some(vec![2]));
}

#[test]
fn move_keeps_session_and_reports_location() {
    let mut ctx = context();
    ctx.start_drag(request(true), vec![1], 7).unwrap();
    let (id, note) = ctx.on_drop_event(&event(5, 6, false), DragAction::DragMove);
    assert_eq!(id, Some(7));
    assert_eq!(
        note,
        Some(DragNotification::MovedToLocation { context_id: 3, session_id: 7, location: Point { x: 5, y: 6 } })
    );
    assert_eq!(ctx.current_session_id(), Some(7));
    let (id, note) = ctx.on_drop_event(&event(5, 6, false), DragAction::Drop);
    assert_eq!(id, Some(7));
    assert_eq!(note, None);
    assert!(ctx.get_allowed_operations(7).is_some());
}

#[test]
fn successful_end_reports_last_operation_and_removes_session() {
    let mut ctx = context();
    ctx.start_drag(request(true), vec![1], 7).unwrap();
    ctx.replace_last_operation(7, DropOperation::Move);
    let (id, note) = ctx.on_drop_event(&event(0, 0, true), DragAction::DragEnd);
    assert_eq!(id, Some(7));
    assert_eq!(
        note,
        Some(DragNotification::EndedWithOperation { context_id: 3, session_id: 7, operation: DropOperation::Move })
    );
    assert_eq!(ctx.current_session_id(), None);
    assert_eq!(ctx.get_allowed_operations(7), None);
    assert_eq!(ctx.get_data_provider_handles(7), None);
    assert_eq!(ctx.get_local_data_for_session_id(7), Err(NativeExtensionsError::DragSessionNotFound));
}

#[test]
fn successful_end_without_negotiation_reports_copy() {
    let mut ctx = context();
    ctx.start_drag(request(true), vec![1], 7).unwrap();
    let (_, note) = ctx.on_drop_event(&event(0, 0, true), DragAction::DragEnd);
    assert_eq!(
        note,
        Some(DragNotification::EndedWithOperation { context_id: 3, session_id: 7, operation: DropOperation::Copy })
    );
}

#[test]
fn failed_end_reports_no_operation() {
    let mut ctx = context();
    ctx.start_drag(request(true), vec![1], 7).unwrap();
    ctx.replace_last_operation(7, DropOperation::Move);
    let (_, note) = ctx.on_drop_event(&event(0, 0, false), DragAction::DragEnd);
    assert_eq!(
        note,
        Some(DragNotification::EndedWithOperation {
            context_id: 3,
            session_id: 7,
            operation: DropOperation::NoOperation
        })
    );
}

#[test]
fn signal_without_session_is_ignored() {
    let mut ctx = context();
    assert_eq!(ctx.on_drop_event(&event(0, 0, true), DragAction::DragEnd), (None, None));
    assert_eq!(ctx.drag_session_did_end(), (None, None));
}

#[test]
fn forced_end_reports_no_operation() {
    let mut ctx = context();
    ctx.start_drag(request(true), vec![1], 7).unwrap();
    ctx.replace_last_operation(7, DropOperation::Copy);
    let (id, note) = ctx.drag_session_did_end();
    assert_eq!(id, Some(7));
    assert_eq!(
        note,
        Some(DragNotification::EndedWithOperation {
            context_id: 3,
            session_id: 7,
            operation: DropOperation::NoOperation
        })
    );
    assert_eq!(ctx.current_session_id(), None);
    assert_eq!(ctx.get_allowed_operations(7), None);
}

#[test]
fn replace_last_operation_on_unknown_session_changes_nothing() {
    let mut ctx = context();
    ctx.start_drag(request(true), vec![1], 7).unwrap();
    ctx.replace_last_operation(8, DropOperation::Move);
    let (_, note) = ctx.on_drop_event(&event(0, 0, true), DragAction::DragEnd);
    assert_eq!(
        note,
        Some(DragNotification::EndedWithOperation { context_id: 3, session_id: 7, operation: DropOperation::Copy })
    );
}

#[test]
fn drag_context_needs_combined_image() {
    assert!(PlatformDragContext::<String, u32>::needs_combined_drag_image());
    let ctx = context();
    assert_eq!(ctx.id(), 3);
    assert_eq!(ctx.engine_handle(), 99);
}

#[test]
fn ending_all_drag_sessions_reports_no_operation() {
    let mut first = context();
    first.start_drag(request(true), vec![1], 7).unwrap();
    let idle = context();
    let mut ctxs = vec![first, idle];
    let notes = drag_drop_session::drag::end_drag_sessions(&mut ctxs);
    assert_eq!(
        notes,
        vec![DragNotification::EndedWithOperation {
            context_id: 3,
            session_id: 7,
            operation: DropOperation::NoOperation
        }]
    );
    assert_eq!(ctxs[0].current_session_id(), None);
    assert_eq!(ctxs[0].get_allowed_operations(7), None);
}
