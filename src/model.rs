//! Plain data shared by the drag and the drop side.

use vstd::prelude::*;

verus! {

pub type PlatformDragContextId = i64;

pub type PlatformDropContextId = i64;

pub type DragSessionId = i64;

pub type DropSessionId = i64;

pub type DataProviderId = i64;

/// What a drop does with the dragged data, as negotiated with the delegate.
#[derive(Clone, Copy, Debug, PartialEq, Eq, Structural)]
pub enum DropOperation {
    NoOperation,
    UserCancelled,
    Forbidden,
    Copy,
    Move,
    Link,
}

impl DropOperation {
    /// An operation under which a drop is discarded.
    pub open spec fn spec_is_rejecting(self) -> bool {
        self is NoOperation || self is UserCancelled || self is Forbidden
    }

    pub fn is_rejecting(&self) -> (r: bool)
        ensures
            r == self.spec_is_rejecting(),
    {
        match self {
            DropOperation::NoOperation | DropOperation::UserCancelled | DropOperation::Forbidden => true,
            _ => false,
        }
    }
}

/// A pointer position in the view's coordinates.
#[derive(Clone, Copy, Debug, PartialEq, Eq, Structural)]
pub struct Point {
    pub x: i32,
    pub y: i32,
}

#[derive(Clone, Copy, Debug, PartialEq, Eq, Structural)]
pub enum NativeExtensionsError {
    /// The platform has no such capability.
    UnsupportedOperation,
    /// No drag session is registered under the given id.
    DragSessionNotFound,
    /// A drag was requested without the combined preview image it needs.
    MissingCombinedDragImage,
}

/// One native drag signal: pointer position, the end-of-drag result flag and
/// the parallel lists of offered formats and their wire contents.
#[derive(Clone, Debug)]
pub struct NativeDragEvent {
    pub x: i32,
    pub y: i32,
    pub result: bool,
    pub formats: Vec<String>,
    pub contents: Vec<String>,
}

impl NativeDragEvent {
    pub open spec fn location(self) -> Point {
        Point { x: self.x, y: self.y }
    }
}

/// Raw pixels of a preview image.
#[derive(Clone, Debug)]
pub struct ImageData {
    pub width: i32,
    pub height: i32,
    pub bytes_per_row: i32,
    pub data: Vec<u8>,
}

/// One dragged item: where its data comes from and what stays in-process.
#[derive(Clone, Debug)]
pub struct DragItem<L> {
    pub data_provider_id: DataProviderId,
    pub local_data: L,
}

/// The immutable description of a drag.
#[derive(Clone, Debug)]
pub struct DragConfiguration<L> {
    pub items: Vec<DragItem<L>>,
    pub allowed_operations: Vec<DropOperation>,
}

impl<L: Clone> DragConfiguration<L> {
    /// The local data of every item, in item order.
    pub fn get_local_data(&self) -> (r: Vec<L>)
        ensures
            r.len() == self.items.len(),
            forall|i: int| 0 <= i < r.len() ==> cloned(self.items[i].local_data, #[trigger] r[i]),
    {
        let mut r: Vec<L> = Vec::new();
        let mut i: usize = 0;
        while i < self.items.len()
            invariant
                i <= self.items.len(),
                r.len() == i,
                forall|j: int| 0 <= j < i ==> cloned(self.items[j].local_data, #[trigger] r[j]),
            decreases self.items.len() - i,
        {
            r.push(self.items[i].local_data.clone());
            i += 1;
        }
        r
    }
}

/// A request to start a drag.
#[derive(Clone, Debug)]
pub struct DragRequest<L> {
    pub configuration: DragConfiguration<L>,
    pub combined_drag_image: Option<ImageData>,
}

/// The kind of native signal routed into a drag session.
#[derive(Clone, Copy, Debug, PartialEq, Eq, Structural)]
pub enum DragAction {
    DragMove,
    DragEnd,
    Drop,
}

/// A call owed to a drag context's delegate.
#[derive(Clone, Copy, Debug, PartialEq, Eq, Structural)]
pub enum DragNotification {
    MovedToLocation {
        context_id: PlatformDragContextId,
        session_id: DragSessionId,
        location: Point,
    },
    EndedWithOperation {
        context_id: PlatformDragContextId,
        session_id: DragSessionId,
        operation: DropOperation,
    },
}

/// A copy of a list of operations.
pub fn copy_operations(v: &Vec<DropOperation>) -> (r: Vec<DropOperation>)
    ensures
        r@ == v@,
{
    let mut r: Vec<DropOperation> = Vec::new();
    let mut i: usize = 0;
    while i < v.len()
        invariant
            i <= v.len(),
            r@ == v@.subrange(0, i as int),
        decreases v.len() - i,
    {
        r.push(v[i]);
        i += 1;
        proof {
            assert(r@ =~= v@.subrange(0, i as int));
        }
    }
    assert(r@ =~= v@);
    r
}

} // verus!

verus! {

pub const MIME_TYPE_TEXT_PLAIN: &'static str = "general.plain-text";

pub const MIME_TYPE_TEXT_HTML: &'static str = "general.html";

pub const MIME_TYPE_URI_LIST: &'static str = "general.hyperlink";

pub const MIME_TYPE_FILE_URI: &'static str = "general.file";

/// Formats whose wire content is the text itself; any other format travels
/// base64-encoded.
pub open spec fn is_text_format(format: Seq<char>) -> bool {
    format == MIME_TYPE_TEXT_PLAIN@ || format == MIME_TYPE_TEXT_HTML@ || format == MIME_TYPE_URI_LIST@
        || format == MIME_TYPE_FILE_URI@
}

/// Whether `format` is one of `formats`.
pub fn contains(formats: &Vec<String>, format: &String) -> (r: bool)
    ensures
        r == exists|i: int| 0 <= i < formats.len() && #[trigger] formats[i]@ == format@,
{
    let mut i: usize = 0;
    while i < formats.len()
        invariant
            i <= formats.len(),
            forall|j: int| 0 <= j < i ==> #[trigger] formats[j]@ != format@,
        decreases formats.len() - i,
    {
        if formats[i] == *format {
            return true;
        }
        i += 1;
    }
    false
}

/// A copy of a list of strings.
pub fn copy_strings(v: &Vec<String>) -> (r: Vec<String>)
    ensures
        r@ == v@,
{
    let mut r: Vec<String> = Vec::new();
    let mut i: usize = 0;
    while i < v.len()
        invariant
            i <= v.len(),
            r@ == v@.subrange(0, i as int),
        decreases v.len() - i,
    {
        r.push(v[i].clone());
        i += 1;
        proof {
            assert(r@ =~= v@.subrange(0, i as int));
        }
    }
    assert(r@ =~= v@);
    r
}

/// Whether a format's wire content is passed through as text.
pub fn is_text_format_exec(format: &String) -> (r: bool)
    ensures
        r == is_text_format(format@),
{
    let plain = MIME_TYPE_TEXT_PLAIN.to_owned();
    let html = MIME_TYPE_TEXT_HTML.to_owned();
    let uri_list = MIME_TYPE_URI_LIST.to_owned();
    let file_uri = MIME_TYPE_FILE_URI.to_owned();
    *format == plain || *format == html || *format == uri_list || *format == file_uri
}

} // verus!
