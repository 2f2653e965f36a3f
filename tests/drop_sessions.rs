use drag_drop_session::drag::PlatformDragContext;
use drag_drop_session::drop::{decode_content, PlatformDropContext};
use drag_drop_session::model::{
    DragAction, DragConfiguration, DragItem, DragNotification, DragRequest, DropOperation,
    ImageData, NativeDragEvent, Point,
};
use drag_drop_session::reader::ItemContent;

fn event(formats: &[&str], contents: &[&str]) -> NativeDragEvent {
    NativeDragEvent {
        x: 10,
        y: 20,
        result: false,
        formats: formats.iter().map(|s| s.to_string()).collect(),
        contents: contents.iter().map(|s| s.to_string()).collect(),
    }
}

fn source_context(session_id: i64) -> PlatformDragContext<String, u32> {
    let mut ctx = PlatformDragContext::new(4, 0).unwrap();
    let request = DragRequest {
        configuration: DragConfiguration {
            items: vec![DragItem { data_provider_id: 1, local_data: "local".to_string() }],
            allowed_operations: vec![DropOperation::Move],
        },
        combined_drag_image: Some(ImageData { width: 1, height: 1, bytes_per_row: 4, data: vec![0; 4] }),
    };
    ctx.start_drag(request, vec![42], session_id).unwrap();
    ctx
}

fn entered() -> PlatformDropContext {
    let mut drop = PlatformDropContext::new(1, 0).unwrap();
    drop.on_drag_enter(&event(&[], &[])).unwrap();
    drop
}

#[test]
fn second_enter_keeps_single_session() {
    let mut drop = PlatformDropContext::new(1, 0).unwrap();
    assert!(drop.current_session().is_none());
    drop.on_drag_enter(&event(&[], &[])).unwrap();
    let first = drop.current_session();
    assert!(first.is_some());
    drop.on_drag_enter(&event(&[], &[])).unwrap();
    assert_eq!(drop.current_session(), first);
}

#[test]
fn enter_moves_and_accepted_drop_clear_the_session() {
    let mut drop = entered();
    let id = drop.current_session().unwrap().id;
    let mut ctxs: Vec<PlatformDragContext<String, u32>> = Vec::new();
    for op in [DropOperation::Copy, DropOperation::Move] {
        let update = drop.on_drag_move(&event(&["general.plain-text"], &["x"]), &mut ctxs).unwrap();
        assert_eq!(update.event.session_id, id);
        drop.on_drop_update_result(id, update.drag_session_id, Some(op), &mut ctxs);
        assert_eq!(drop.current_session().unwrap().id, id);
    }
    let delivery = drop.on_drop(&event(&["general.plain-text"], &["x"]), &mut ctxs).unwrap();
    assert_eq!(delivery.ended.session_id, id);
    assert!(drop.current_session().is_none());
}

#[test]
fn leave_reports_session_then_closes_it() {
    let mut drop = entered();
    let id = drop.current_session().unwrap().id;
    let mut ctxs: Vec<PlatformDragContext<String, u32>> = Vec::new();
    drop.on_drop_update_result(id, None, Some(DropOperation::Move), &mut ctxs);
    assert_eq!(drop.on_drag_leave(&event(&[], &[])).unwrap().session_id, id);
    assert_eq!(drop.current_session().unwrap().id, id);
    drop.end_drop_session();
    assert!(drop.current_session().is_none());
    drop.on_drag_enter(&event(&[], &[])).unwrap();
    let next = drop.current_session().unwrap();
    assert_ne!(next.id, id);
    assert_eq!(next.last_operation, DropOperation::NoOperation);
    let fresh = PlatformDropContext::new(2, 0).unwrap();
    assert!(fresh.on_drag_leave(&event(&[], &[])).is_none());
}

#[test]
fn last_move_reply_decides_the_drop() {
    let mut drop = entered();
    let id = drop.current_session().unwrap().id;
    let mut ctxs: Vec<PlatformDragContext<String, u32>> = Vec::new();
    drop.on_drop_update_result(id, None, Some(DropOperation::Forbidden), &mut ctxs);
    drop.on_drop_update_result(id, None, Some(DropOperation::Link), &mut ctxs);
    let delivery = drop.on_drop(&event(&[], &[]), &mut ctxs).unwrap();
    assert_eq!(delivery.event.accepted_operation, Some(DropOperation::Link));
}

#[test]
fn failed_reply_counts_as_no_operation() {
    let mut drop = entered();
    let id = drop.current_session().unwrap().id;
    let mut ctxs: Vec<PlatformDragContext<String, u32>> = Vec::new();
    drop.on_drop_update_result(id, None, Some(DropOperation::Copy), &mut ctxs);
    drop.on_drop_update_result(id, None, None, &mut ctxs);
    assert_eq!(drop.current_session().unwrap().last_operation, DropOperation::NoOperation);
    assert!(drop.on_drop(&event(&[], &[]), &mut ctxs).is_none());
}

#[test]
fn late_reply_for_dropped_session_is_ignored() {
    let mut drop = entered();
    let id = drop.current_session().unwrap().id;
    let mut ctxs: Vec<PlatformDragContext<String, u32>> = Vec::new();
    drop.on_drop_update_result(id, None, Some(DropOperation::Copy), &mut ctxs);
    drop.on_drop(&event(&[], &[]), &mut ctxs).unwrap();
    drop.on_drag_enter(&event(&[], &[])).unwrap();
    let next = drop.current_session().unwrap();
    assert_ne!(next.id, id);
    drop.on_drop_update_result(id, None, Some(DropOperation::Move), &mut ctxs);
    assert_eq!(drop.current_session(), Some(next));
    assert_eq!(next.last_operation, DropOperation::NoOperation);
}

#[test]
fn rejecting_operations_discard_the_drop() {
    for op in [DropOperation::NoOperation, DropOperation::UserCancelled, DropOperation::Forbidden] {
        let mut drop = entered();
        let id = drop.current_session().unwrap().id;
        let mut ctxs: Vec<PlatformDragContext<String, u32>> = Vec::new();
        drop.on_drop_update_result(id, None, Some(op), &mut ctxs);
        assert!(drop.on_drop(&event(&["general.plain-text"], &["hello"]), &mut ctxs).is_none());
        assert!(drop.current_session().is_none());
        drop.on_drag_enter(&event(&[], &[])).unwrap();
        let next = drop.current_session().unwrap();
        assert_ne!(next.id, id);
        assert_eq!(next.last_operation, DropOperation::NoOperation);
    }
}

#[test]
fn drop_without_session_delivers_nothing() {
    let mut drop = PlatformDropContext::new(1, 0).unwrap();
    let mut ctxs: Vec<PlatformDragContext<String, u32>> = Vec::new();
    assert!(drop.on_drop(&event(&[], &[]), &mut ctxs).is_none());
    assert!(drop.on_drag_move(&event(&[], &[]), &mut ctxs).is_none());
}

#[test]
fn plain_text_item_round_trip() {
    let mut drop = entered();
    let id = drop.current_session().unwrap().id;
    let mut ctxs: Vec<PlatformDragContext<String, u32>> = Vec::new();
    drop.on_drop_update_result(id, None, Some(DropOperation::Copy), &mut ctxs);
    let delivery = drop.on_drop(&event(&["general.plain-text"], &["hello"]), &mut ctxs).unwrap();
    assert_eq!(delivery.event.items.len(), 1);
    assert_eq!(delivery.event.items[0].formats, vec!["general.plain-text".to_string()]);
    match delivery.reader.get_data_for_item(0, &"general.plain-text".to_string()).unwrap() {
        Some(ItemContent::Text(s)) => assert_eq!(s, "hello"),
        other => panic!("unexpected content {:?}", other),
    }
}

#[test]
fn binary_item_round_trip() {
    let mut drop = entered();
    let id = drop.current_session().unwrap().id;
    let mut ctxs: Vec<PlatformDragContext<String, u32>> = Vec::new();
    drop.on_drop_update_result(id, None, Some(DropOperation::Copy), &mut ctxs);
    let delivery = drop.on_drop(&event(&["public.png"], &["AQID"]), &mut ctxs).unwrap();
    assert_eq!(delivery.event.items.len(), 1);
    match delivery.reader.get_data_for_item(0, &"public.png".to_string()).unwrap() {
        Some(ItemContent::Bytes(b)) => assert_eq!(b, vec![1u8, 2, 3]),
        other => panic!("unexpected content {:?}", other),
    }
}

#[test]
fn undecodable_item_is_skipped() {
    let mut drop = entered();
    let id = drop.current_session().unwrap().id;
    let mut ctxs: Vec<PlatformDragContext<String, u32>> = Vec::new();
    drop.on_drop_update_result(id, None, Some(DropOperation::Copy), &mut ctxs);
    let delivery = drop
        .on_drop(&event(&["public.png", "general.html"], &["not base64!", "<b>x</b>"]), &mut ctxs)
        .unwrap();
    assert_eq!(delivery.event.items.len(), 1);
    assert_eq!(delivery.event.items[0].formats, vec!["general.html".to_string()]);
}

#[test]
fn decode_content_by_format() {
    let text = decode_content(&"general.hyperlink".to_string(), &"https://a.b/c".to_string());
    assert!(matches!(text, Some(ItemContent::Text(ref s)) if s == "https://a.b/c"));
    let bytes = decode_content(&"image/png".to_string(), &"AAEC".to_string());
    assert!(matches!(bytes, Some(ItemContent::Bytes(ref b)) if *b == vec![0u8, 1, 2]));
    assert!(decode_content(&"image/png".to_string(), &"@@".to_string()).is_none());
}

#[test]
fn move_correlates_same_process_drag() {
    let mut drop = entered();
    let mut ctxs = vec![source_context(7)];
    let update = drop.on_drag_move(&event(&["general.plain-text"], &["x"]), &mut ctxs).unwrap();
    assert_eq!(update.drag_session_id, Some(7));
    assert_eq!(
        update.drag_notifications,
        vec![DragNotification::MovedToLocation { context_id: 4, session_id: 7, location: Point { x: 10, y: 20 } }]
    );
    assert_eq!(update.event.allowed_operations, vec![DropOperation::Move]);
    assert_eq!(update.event.items.len(), 1);
    assert_eq!(update.event.items[0].local_data, Some("local".to_string()));
    assert_eq!(update.event.items[0].formats, vec!["general.plain-text".to_string()]);
    assert_eq!(update.event.location_in_view, Point { x: 10, y: 20 });
    assert_eq!(update.event.accepted_operation, None);

    let id = drop.current_session().unwrap().id;
    drop.on_drop_update_result(id, update.drag_session_id, Some(DropOperation::Move), &mut ctxs);
    let notes = drop.on_drag_end(&NativeDragEvent { x: 0, y: 0, result: true, formats: vec![], contents: vec![] }, &mut ctxs);
    assert_eq!(
        notes,
        vec![DragNotification::EndedWithOperation { context_id: 4, session_id: 7, operation: DropOperation::Move }]
    );
    assert_eq!(ctxs[0].current_session_id(), None);
}

#[test]
fn move_from_elsewhere_allows_copy() {
    let drop = entered();
    let mut ctxs: Vec<PlatformDragContext<String, u32>> = Vec::new();
    let update = drop.on_drag_move(&event(&["general.html"], &["x"]), &mut ctxs).unwrap();
    assert_eq!(update.drag_session_id, None);
    assert!(update.drag_notifications.is_empty());
    assert_eq!(update.event.allowed_operations, vec![DropOperation::Copy]);
    assert_eq!(update.event.items.len(), 1);
    assert_eq!(update.event.items[0].local_data, None);
    assert_eq!(update.event.items[0].item_id, 0);
}

#[test]
fn drop_keeps_source_handles_and_local_data() {
    let mut drop = entered();
    let mut ctxs = vec![source_context(7)];
    let id = drop.current_session().unwrap().id;
    drop.on_drop_update_result(id, Some(7), Some(DropOperation::Move), &mut ctxs);
    let delivery = drop.on_drop(&event(&["general.plain-text", "general.html"], &["a", "b"]), &mut ctxs).unwrap();
    assert_eq!(delivery.event.accepted_operation, Some(DropOperation::Move));
    assert_eq!(delivery.event.allowed_operations, vec![DropOperation::Move]);
    assert_eq!(delivery.event.items.len(), 2);
    assert_eq!(delivery.event.items[0].local_data, Some("local".to_string()));
    assert_eq!(delivery.event.items[1].local_data, None);
    assert_eq!(delivery.event.items[1].item_id, 1);
    assert_eq!(delivery.reader.get_items_sync().unwrap(), vec![0, 1]);
    let (_, note) = ctxs[0].on_drop_event(&event(&[], &[]), DragAction::DragMove);
    assert!(note.is_some());
}

#[test]
fn reply_reaches_source_drag_end() {
    let mut drop = entered();
    let mut ctxs = vec![source_context(7), PlatformDragContext::new(5, 0).unwrap()];
    let update = drop.on_drag_move(&event(&["general.plain-text"], &["x"]), &mut ctxs).unwrap();
    let id = drop.current_session().unwrap().id;
    drop.on_drop_update_result(id, update.drag_session_id, Some(DropOperation::Link), &mut ctxs);
    let end = NativeDragEvent { x: 0, y: 0, result: true, formats: vec![], contents: vec![] };
    let notes = drop.on_drag_end(&end, &mut ctxs);
    assert_eq!(
        notes,
        vec![DragNotification::EndedWithOperation { context_id: 4, session_id: 7, operation: DropOperation::Link }]
    );
}
