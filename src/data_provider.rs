//! The drag side's payload: which representations of a data provider are
//! handed to the platform, and as which kind of record.

use vstd::prelude::*;

use crate::model::{contains, MIME_TYPE_TEXT_HTML, MIME_TYPE_TEXT_PLAIN, MIME_TYPE_URI_LIST};

verus! {

/// The kind of platform record a representation becomes.
#[derive(Clone, Copy, Debug, PartialEq, Eq, Structural)]
pub enum RecordKind {
    PlainText,
    Html,
    Hyperlink,
    FileUri,
}

pub open spec fn record_kind_of(format: Seq<char>) -> RecordKind {
    if format == MIME_TYPE_TEXT_PLAIN@ {
        RecordKind::PlainText
    } else if format == MIME_TYPE_TEXT_HTML@ {
        RecordKind::Html
    } else if format == MIME_TYPE_URI_LIST@ {
        RecordKind::Hyperlink
    } else {
        RecordKind::FileUri
    }
}

/// Plain text, HTML and hyperlinks get records of their own; anything else
/// is handed over as a file URI.
pub fn record_kind_for_format(format: &String) -> (r: RecordKind)
    ensures
        r == record_kind_of(format@),
{
    if *format == MIME_TYPE_TEXT_PLAIN.to_owned() {
        RecordKind::PlainText
    } else if *format == MIME_TYPE_TEXT_HTML.to_owned() {
        RecordKind::Html
    } else if *format == MIME_TYPE_URI_LIST.to_owned() {
        RecordKind::Hyperlink
    } else {
        RecordKind::FileUri
    }
}

/// One representation's bytes in one format.
#[derive(Clone, Debug)]
pub struct SingleData {
    pub format: String,
    pub data: Vec<u8>,
}

/// What a data provider resolved to: its formats, each once in order of
/// first appearance, and every representation that produced bytes.
#[derive(Clone, Debug)]
pub struct RawData {
    pub formats: Vec<String>,
    pub data: Vec<SingleData>,
}

/// A representation as resolved: its format and its bytes, none where it
/// could not be turned into bytes or its lazy value was cancelled.
pub struct ResolvedRepresentation {
    pub format: String,
    pub data: Option<Vec<u8>>,
}

/// The (format, bytes) pairs kept from the first `n` representations.
pub open spec fn kept_data_upto(resolved: Seq<ResolvedRepresentation>, n: int) -> Seq<(Seq<char>, Seq<u8>)>
    decreases n,
{
    if n <= 0 {
        seq![]
    } else {
        let prev = kept_data_upto(resolved, n - 1);
        match resolved[n - 1].data {
            Some(d) => prev.push((resolved[n - 1].format@, d@)),
            None => prev,
        }
    }
}

/// The formats of the kept representations among the first `n`, each once.
pub open spec fn kept_formats_upto(resolved: Seq<ResolvedRepresentation>, n: int) -> Seq<Seq<char>>
    decreases n,
{
    if n <= 0 {
        seq![]
    } else {
        let prev = kept_formats_upto(resolved, n - 1);
        if resolved[n - 1].data is Some && !prev.contains(resolved[n - 1].format@) {
            prev.push(resolved[n - 1].format@)
        } else {
            prev
        }
    }
}

/// Gathers the representations that produced bytes, skipping the others.
pub fn collect_raw_data(resolved: Vec<ResolvedRepresentation>) -> (r: RawData)
    ensures
        r.formats@.map_values(|f: String| f@) == kept_formats_upto(resolved@, resolved.len() as int),
        r.data@.map_values(|d: SingleData| (d.format@, d.data@)) == kept_data_upto(resolved@, resolved.len() as int),
{
    let ghost input = resolved@;
    let mut rest = resolved;
    let mut formats: Vec<String> = Vec::new();
    let mut data: Vec<SingleData> = Vec::new();
    let mut index: usize = 0;
    let total = rest.len();
    assert(input.len() == total);
    while rest.len() > 0
        invariant
            index <= input.len(),
            input.len() <= usize::MAX,
            rest@ == input.subrange(index as int, input.len() as int),
            formats@.map_values(|f: String| f@) == kept_formats_upto(input, index as int),
            data@.map_values(|d: SingleData| (d.format@, d.data@)) == kept_data_upto(input, index as int),
        decreases rest.len(),
    {
        let repr = rest.remove(0);
        assert(repr == input[index as int]);
        match repr.data {
            Some(bytes) => {
                if !contains(&formats, &repr.format) {
                    proof {
                        assert forall|i: int| 0 <= i < formats.len() implies formats[i]@ != repr.format@ by {}
                        assert(!formats@.map_values(|f: String| f@).contains(repr.format@));
                    }
                    formats.push(repr.format.clone());
                } else {
                    proof {
                        let i = choose|i: int| 0 <= i < formats.len() && #[trigger] formats[i]@ == repr.format@;
                        assert(formats@.map_values(|f: String| f@)[i] == repr.format@);
                    }
                }
                data.push(SingleData { format: repr.format, data: bytes });
            },
            None => {},
        }
        index += 1;
        proof {
            assert(rest@ =~= input.subrange(index as int, input.len() as int));
            assert(formats@.map_values(|f: String| f@) =~= kept_formats_upto(input, index as int));
            assert(data@.map_values(|d: SingleData| (d.format@, d.data@)) =~= kept_data_upto(input, index as int));
        }
    }
    RawData { formats, data }
}

/// Streams are not used on this platform; a write reports one byte taken.
pub fn platform_stream_write(handle: i32, data: &[u8]) -> (r: i32)
    ensures
        r == 1,
{
    1
}

pub fn platform_stream_close(handle: i32, delete: bool) {
}

} // verus!
