//! The two outside decoders that the drop side relies on: standard base64
//! for binary payloads and URL parsing for suggested file names.

use base64::Engine;
use vstd::prelude::*;

verus! {

/// The bytes whose standard (padded) base64 encoding is `s`; none where `s`
/// is not such an encoding.
pub uninterp spec fn base64_decoded(s: Seq<char>) -> Option<Seq<u8>>;

/// The path segments of `s` parsed as an absolute URL; none where `s` does
/// not parse or its URL cannot be a base.
pub uninterp spec fn url_path_segments_of(s: Seq<char>) -> Option<Seq<Seq<char>>>;

pub open spec fn strings_view(v: Vec<String>) -> Seq<Seq<char>> {
    v@.map_values(|x: String| x@)
}

pub open spec fn optional_strings_view(o: Option<Vec<String>>) -> Option<Seq<Seq<char>>> {
    match o {
        Some(v) => Some(strings_view(v)),
        None => None,
    }
}

/// Relies on `base64::engine::general_purpose::STANDARD.decode`: its result
/// depends on the input alone, and an input that is not valid base64 gives an
/// error (no panic).
#[verifier::external_body]
pub(crate) fn decode_base64(s: &str) -> (r: Option<Vec<u8>>)
    ensures
        match r {
            Some(bytes) => base64_decoded(s@) == Some(bytes@),
            None => base64_decoded(s@) is None,
        },
{
    base64::engine::general_purpose::STANDARD.decode(s).ok()
}

/// Relies on `url::Url::parse` and `Url::path_segments`: the segments depend
/// on the input alone; a parse error or a cannot-be-a-base URL gives none.
#[verifier::external_body]
pub(crate) fn url_path_segments(s: &str) -> (r: Option<Vec<String>>)
    ensures
        optional_strings_view(r) == url_path_segments_of(s@),
{
    url::Url::parse(s).ok().and_then(|u| u.path_segments().map(|p| p.map(|x| x.to_string()).collect()))
}

} // verus!
