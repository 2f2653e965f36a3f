use drag_drop_session::data_provider::{
    collect_raw_data, platform_stream_write, record_kind_for_format, RecordKind, ResolvedRepresentation,
};
use drag_drop_session::hot_key::{HotKeyCreateRequest, PlatformHotKeyManager};
use drag_drop_session::menu::PlatformMenuContext;
use drag_drop_session::model::{contains, ImageData, NativeExtensionsError};
use drag_drop_session::reader::{last_path_segment, ContentItem, ItemContent, PlatformDataReader};

fn reader_with(items: Vec<(&str, ItemContent)>) -> PlatformDataReader<u32> {
    let n = items.len() as i64;
    let items: Vec<ContentItem> = items
        .into_iter()
        .map(|(f, c)| ContentItem::from_event(f.to_string(), String::new(), c).unwrap())
        .collect();
    PlatformDataReader::from_clip_data(Some(items), n, None).unwrap()
}

#[test]
fn suggested_name_is_last_url_segment() {
    let reader = reader_with(vec![(
        "general.hyperlink",
        ItemContent::Text("https://example.com/files/report.pdf".to_string()),
    )]);
    assert_eq!(reader.get_suggested_name_for_item(0), Ok(Some("report.pdf".to_string())));
}

#[test]
fn suggested_name_needs_non_empty_segment() {
    let reader = reader_with(vec![(
        "general.hyperlink",
        ItemContent::Text("https://example.com/files/".to_string()),
    )]);
    assert_eq!(reader.get_suggested_name_for_item(0), Ok(None));
    let not_a_link = reader_with(vec![("general.plain-text", ItemContent::Text("https://e.com/a".to_string()))]);
    assert_eq!(not_a_link.get_suggested_name_for_item(0), Ok(None));
    let unparsable = reader_with(vec![("general.hyperlink", ItemContent::Text("not a url".to_string()))]);
    assert_eq!(unparsable.get_suggested_name_for_item(0), Ok(None));
}

#[test]
fn last_path_segment_picks_last() {
    assert_eq!(last_path_segment(Some(vec!["a".to_string(), "b".to_string()])), Some("b".to_string()));
    assert_eq!(last_path_segment(Some(vec!["a".to_string(), String::new()])), None);
    assert_eq!(last_path_segment(None), None);
}

#[test]
fn reader_items_and_formats() {
    let reader = reader_with(vec![
        ("general.plain-text", ItemContent::Text("a".to_string())),
        ("image/png", ItemContent::Bytes(vec![9])),
    ]);
    assert_eq!(reader.get_items_sync(), Ok(vec![0, 1]));
    assert_eq!(reader.get_formats_for_item_sync(1), Ok(vec!["image/png".to_string()]));
    assert_eq!(reader.get_formats_for_item_sync(2), Ok(vec![]));
    assert!(matches!(reader.get_data_for_item(1, &String::new()), Ok(Some(ItemContent::Bytes(ref b))) if *b == vec![9u8]));
    assert!(matches!(reader.get_data_for_item(5, &String::new()), Ok(None)));
    assert_eq!(reader.item_format_is_synthesized(0, "x"), Ok(false));
    assert_eq!(reader.can_read_virtual_file_for_item(0, "x"), Ok(false));
    assert_eq!(reader.can_copy_virtual_file_for_item(0, "x"), Ok(false));
    assert_eq!(reader.get_item_format_for_uri(0), Ok(None));
    assert!(matches!(reader.create_virtual_file_reader_for_item(0, "x"), Ok(None)));
    assert_eq!(
        reader.copy_virtual_file_for_item(0, "x", "/tmp"),
        Err(NativeExtensionsError::UnsupportedOperation)
    );
}

#[test]
fn clipboard_reader_is_empty() {
    let reader = PlatformDataReader::<u32>::new_clipboard_reader().unwrap();
    assert_eq!(reader.get_items_sync(), Ok(vec![]));
    assert_eq!(reader.get_formats_for_item_sync(0), Ok(vec![]));
}

#[test]
fn raw_data_keeps_resolved_representations() {
    let raw = collect_raw_data(vec![
        ResolvedRepresentation { format: "general.plain-text".to_string(), data: Some(b"a".to_vec()) },
        ResolvedRepresentation { format: "general.html".to_string(), data: None },
        ResolvedRepresentation { format: "general.plain-text".to_string(), data: Some(b"b".to_vec()) },
        ResolvedRepresentation { format: "image/png".to_string(), data: Some(vec![1]) },
    ]);
    assert_eq!(raw.formats, vec!["general.plain-text".to_string(), "image/png".to_string()]);
    assert_eq!(raw.data.len(), 3);
    assert_eq!(raw.data[1].data, b"b".to_vec());
    assert_eq!(raw.data[2].format, "image/png");
}

#[test]
fn record_kinds_by_format() {
    assert_eq!(record_kind_for_format(&"general.plain-text".to_string()), RecordKind::PlainText);
    assert_eq!(record_kind_for_format(&"general.html".to_string()), RecordKind::Html);
    assert_eq!(record_kind_for_format(&"general.hyperlink".to_string()), RecordKind::Hyperlink);
    assert_eq!(record_kind_for_format(&"image/png".to_string()), RecordKind::FileUri);
}

#[test]
fn contains_finds_format() {
    let formats = vec!["a".to_string(), "b".to_string()];
    assert!(contains(&formats, &"b".to_string()));
    assert!(!contains(&formats, &"c".to_string()));
}

#[test]
fn unsupported_platform_features() {
    let hot_keys = PlatformHotKeyManager::new();
    let request = HotKeyCreateRequest { alt: true, shift: false, meta: false, control: true, platform_code: 65 };
    assert_eq!(hot_keys.create_hot_key(1, request), Err(NativeExtensionsError::UnsupportedOperation));
    assert_eq!(hot_keys.destroy_hot_key(1), Err(NativeExtensionsError::UnsupportedOperation));
    let menu = PlatformMenuContext::new(1, 0).unwrap();
    let image = ImageData { width: 1, height: 1, bytes_per_row: 4, data: vec![0; 4] };
    assert_eq!(menu.update_preview_image(3, image), Err(NativeExtensionsError::UnsupportedOperation));
    assert_eq!(menu.show_context_menu(), Err(NativeExtensionsError::UnsupportedOperation));
    assert_eq!(platform_stream_write(1, &[1, 2]), 1);
}
