//! The reader handed to the application for a finished drop: the decoded
//! items, and the drag side's provider handles that it keeps alive.

use vstd::prelude::*;

use crate::codec::{optional_strings_view, strings_view, url_path_segments, url_path_segments_of};
use crate::model::{contains, NativeExtensionsError, MIME_TYPE_URI_LIST};

verus! {

/// A decoded payload: text formats stay text, others are raw bytes.
#[derive(Clone, Debug)]
pub enum ItemContent {
    Text(String),
    Bytes(Vec<u8>),
}

pub enum ContentView {
    Text(Seq<char>),
    Bytes(Seq<u8>),
}

impl View for ItemContent {
    type V = ContentView;

    open spec fn view(&self) -> ContentView {
        match self {
            ItemContent::Text(s) => ContentView::Text(s@),
            ItemContent::Bytes(b) => ContentView::Bytes(b@),
        }
    }
}

impl ItemContent {
    /// A copy with the same contents.
    pub fn duplicate(&self) -> (r: ItemContent)
        ensures
            r@ == self@,
    {
        match self {
            ItemContent::Text(s) => ItemContent::Text(s.clone()),
            ItemContent::Bytes(b) => {
                let mut copy: Vec<u8> = Vec::new();
                let mut i: usize = 0;
                while i < b.len()
                    invariant
                        i <= b.len(),
                        copy@ == b@.subrange(0, i as int),
                    decreases b.len() - i,
                {
                    copy.push(b[i]);
                    i += 1;
                    proof {
                        assert(copy@ =~= b@.subrange(0, i as int));
                    }
                }
                assert(copy@ =~= b@);
                ItemContent::Bytes(copy)
            },
        }
    }
}

/// One dropped item in one format.
#[derive(Clone, Debug)]
pub struct ContentItem {
    pub format: String,
    pub content_format: String,
    pub content: ItemContent,
}

impl ContentItem {
    pub fn from_event(format: String, content_format: String, content: ItemContent) -> (r: Result<ContentItem, NativeExtensionsError>)
        ensures
            r is Ok,
            r->Ok_0.format == format,
            r->Ok_0.content_format == content_format,
            r->Ok_0.content == content,
    {
        Ok(ContentItem { format, content_format, content })
    }
}

/// The name suggested for an item offered as a hyperlink: the last path
/// segment of its URL, when that segment is not empty.
pub open spec fn last_segment_name(segments: Option<Seq<Seq<char>>>) -> Option<Seq<char>> {
    match segments {
        Some(s) => if s.len() > 0 && s.last().len() > 0 {
            Some(s.last())
        } else {
            None
        },
        None => None,
    }
}

/// Picks the suggested name out of a URL's path segments.
pub fn last_path_segment(segments: Option<Vec<String>>) -> (r: Option<String>)
    ensures
        match r {
            Some(name) => last_segment_name(optional_strings_view(segments)) == Some(name@),
            None => last_segment_name(optional_strings_view(segments)) is None,
        },
{
    match segments {
        Some(v) => {
            let n = v.len();
            if n > 0 && !v[n - 1].as_str().is_empty() {
                assert(strings_view(v).last() == v@[n - 1]@);
                Some(v[n - 1].clone())
            } else {
                proof {
                    if n > 0 {
                        assert(strings_view(v).last() == v@[n - 1]@);
                    }
                }
                None
            }
        },
        None => None,
    }
}

/// A reader of a file that the source offers without a path of its own.
/// This platform has none to give.
#[derive(Debug)]
pub struct VirtualFileReader {}

/// Reads the items of one drop.
pub struct PlatformDataReader<H> {
    items: Option<Vec<ContentItem>>,
    size: i64,
    source_handles: Option<Vec<H>>,
}

impl<H> PlatformDataReader<H> {
    pub closed spec fn spec_items(&self) -> Option<Seq<ContentItem>> {
        match self.items {
            Some(v) => Some(v@),
            None => None,
        }
    }

    pub closed spec fn spec_size(&self) -> i64 {
        self.size
    }

    /// The provider handles kept alive for as long as the reader exists.
    pub closed spec fn spec_source_handles(&self) -> Option<Seq<H>> {
        match self.source_handles {
            Some(v) => Some(v@),
            None => None,
        }
    }

    /// The item at `item`, where there is one.
    pub open spec fn item_at(&self, item: i64) -> Option<ContentItem> {
        match self.spec_items() {
            Some(items) => if 0 <= item < items.len() {
                Some(items[item as int])
            } else {
                None
            },
            None => None,
        }
    }

    pub fn from_clip_data(content_items: Option<Vec<ContentItem>>, size: i64, source_handles: Option<Vec<H>>)
        -> (r: Result<PlatformDataReader<H>, NativeExtensionsError>)
        ensures
            r is Ok,
            r->Ok_0.spec_items() == (match content_items {
                Some(v) => Some(v@),
                None => None,
            }),
            r->Ok_0.spec_size() == size,
            r->Ok_0.spec_source_handles() == (match source_handles {
                Some(v) => Some(v@),
                None => None,
            }),
    {
        Ok(PlatformDataReader { items: content_items, size, source_handles })
    }

    /// A reader with no items.
    pub fn new_clipboard_reader() -> (r: Result<PlatformDataReader<H>, NativeExtensionsError>)
        ensures
            r is Ok,
            r->Ok_0.spec_items() is None,
            r->Ok_0.spec_size() == 0,
            r->Ok_0.spec_source_handles() is None,
    {
        Ok(PlatformDataReader { items: None, size: 0, source_handles: None })
    }

    /// The item ids `0 .. size`.
    pub fn get_items_sync(&self) -> (r: Result<Vec<i64>, NativeExtensionsError>)
        ensures
            r is Ok,
            r->Ok_0@ == Seq::new(
                if self.spec_size() > 0 { self.spec_size() as nat } else { 0 },
                |i: int| i as i64,
            ),
    {
        let mut ids: Vec<i64> = Vec::new();
        let mut i: i64 = 0;
        while i < self.size
            invariant
                0 <= i,
                i <= self.size || i == 0,
                ids@ == Seq::new(i as nat, |j: int| j as i64),
            decreases self.size - i,
        {
            ids.push(i);
            i += 1;
            proof {
                assert(ids@ =~= Seq::new(i as nat, |j: int| j as i64));
            }
        }
        assert(ids@ =~= Seq::new(
            if self.size > 0 { self.size as nat } else { 0 },
            |j: int| j as i64,
        ));
        Ok(ids)
    }

    pub fn get_items(&self) -> (r: Result<Vec<i64>, NativeExtensionsError>)
        ensures
            r is Ok,
            r->Ok_0@ == Seq::new(
                if self.spec_size() > 0 { self.spec_size() as nat } else { 0 },
                |i: int| i as i64,
            ),
    {
        self.get_items_sync()
    }

    /// The one format of an item; none for an unknown item.
    pub fn get_formats_for_item_sync(&self, item: i64) -> (r: Result<Vec<String>, NativeExtensionsError>)
        ensures
            r is Ok,
            match self.item_at(item) {
                Some(it) => r->Ok_0.len() == 1 && r->Ok_0[0]@ == it.format@,
                None => r->Ok_0.len() == 0,
            },
    {
        let mut formats: Vec<String> = Vec::new();
        match &self.items {
            Some(items) => {
                if 0 <= item && (item as u64) < (items.len() as u64) {
                    formats.push(items[item as usize].format.clone());
                }
            },
            None => {},
        }
        Ok(formats)
    }

    pub fn get_formats_for_item(&self, item: i64) -> (r: Result<Vec<String>, NativeExtensionsError>)
        ensures
            r is Ok,
            match self.item_at(item) {
                Some(it) => r->Ok_0.len() == 1 && r->Ok_0[0]@ == it.format@,
                None => r->Ok_0.len() == 0,
            },
    {
        self.get_formats_for_item_sync(item)
    }

    /// The content of an item; none for an unknown item.
    pub fn get_data_for_item(&self, item: i64, format: &String) -> (r: Result<Option<ItemContent>, NativeExtensionsError>)
        ensures
            r is Ok,
            match self.item_at(item) {
                Some(it) => r->Ok_0 is Some && r->Ok_0->Some_0@ == it.content@,
                None => r->Ok_0 is None,
            },
    {
        match &self.items {
            Some(items) => {
                if 0 <= item && (item as u64) < (items.len() as u64) {
                    Ok(Some(items[item as usize].content.duplicate()))
                } else {
                    Ok(None)
                }
            },
            None => Ok(None),
        }
    }

    /// For an item offered as a hyperlink, the last non-empty path segment of
    /// its URL.
    pub fn get_suggested_name_for_item(&self, item: i64) -> (r: Result<Option<String>, NativeExtensionsError>)
        ensures
            r is Ok,
            match self.item_at(item) {
                Some(it) => match it.content@ {
                    ContentView::Text(url) if it.format@ == MIME_TYPE_URI_LIST@ => match r->Ok_0 {
                        Some(name) => last_segment_name(url_path_segments_of(url)) == Some(name@),
                        None => last_segment_name(url_path_segments_of(url)) is None,
                    },
                    _ => r->Ok_0 is None,
                },
                None => r->Ok_0 is None,
            },
    {
        let formats = self.get_formats_for_item_sync(item)?;
        let uri_list = MIME_TYPE_URI_LIST.to_owned();
        if contains(&formats, &uri_list) {
            let data = self.get_data_for_item(item, &uri_list)?;
            match data {
                Some(ItemContent::Text(url)) => {
                    let segments = url_path_segments(url.as_str());
                    Ok(last_path_segment(segments))
                },
                _ => Ok(None),
            }
        } else {
            Ok(None)
        }
    }

    pub fn get_item_format_for_uri(&self, item: i64) -> (r: Result<Option<String>, NativeExtensionsError>)
        ensures
            r == Ok::<Option<String>, NativeExtensionsError>(None),
    {
        Ok(None)
    }

    /// Formats are never synthesized on this platform.
    pub fn item_format_is_synthesized(&self, item: i64, format: &str) -> (r: Result<bool, NativeExtensionsError>)
        ensures
            r == Ok::<bool, NativeExtensionsError>(false),
    {
        Ok(false)
    }

    /// Virtual files are not supported on this platform.
    pub fn can_read_virtual_file_for_item(&self, item: i64, format: &str) -> (r: Result<bool, NativeExtensionsError>)
        ensures
            r == Ok::<bool, NativeExtensionsError>(false),
    {
        Ok(false)
    }

    /// Virtual files are not supported on this platform.
    pub fn create_virtual_file_reader_for_item(&self, item: i64, format: &str)
        -> (r: Result<Option<VirtualFileReader>, NativeExtensionsError>)
        ensures
            r is Ok,
            r->Ok_0 is None,
    {
        Ok(None)
    }

    /// Virtual files are not supported on this platform.
    pub fn copy_virtual_file_for_item(&self, item: i64, format: &str, target_folder: &str) -> (r: Result<String, NativeExtensionsError>)
        ensures
            r == Err::<String, NativeExtensionsError>(NativeExtensionsError::UnsupportedOperation),
    {
        Err(NativeExtensionsError::UnsupportedOperation)
    }

    /// Virtual files are not supported on this platform.
    pub fn can_copy_virtual_file_for_item(&self, item: i64, format: &str) -> (r: Result<bool, NativeExtensionsError>)
        ensures
            r == Ok::<bool, NativeExtensionsError>(false),
    {
        Ok(false)
    }
}

} // verus!
