//! Derives the identifier of a video from the address that links to it.

use crate::text::{
    after_first, before_first, chars_of, find_between, lemma_position, occurs, position,
};
use vstd::prelude::*;
use vstd::string::StrSliceExecFns;

verus! {

/// The marker after which the identifier stands in a link.
pub open spec fn watch_marker() -> Seq<char> {
    "watch?v="@
}

/// The marker before which the identifier ends.
pub open spec fn list_marker() -> Seq<char> {
    "&list="@
}

/// Whether a link holds both markers in their order: `watch?v=`, and
/// `&list=` somewhere after its first occurrence.
pub open spec fn has_id_markers(link: Seq<char>) -> bool {
    occurs(link, watch_marker()) && occurs(after_first(link, watch_marker()), list_marker())
}

/// The identifier in a link that holds both markers: what stands after the
/// first `watch?v=`, up to the next marker of either kind.
pub open spec fn video_id(link: Seq<char>) -> Seq<char> {
    before_first(before_first(after_first(link, watch_marker()), watch_marker()), list_marker())
}

/// Where the identifier stands in a link, as the indices of its first
/// character and of the character after its last.
fn id_span(link: &Vec<char>) -> (span: Option<(usize, usize)>)
    ensures
        match span {
            Some((from, to)) => {
                &&& has_id_markers(link@)
                &&& from <= to <= link.len()
                &&& link@.subrange(from as int, to as int) == video_id(link@)
            },
            None => !has_id_markers(link@),
        },
{
    let watch = chars_of("watch?v=");
    let list = chars_of("&list=");
    let len = link.len();
    proof {
        assert(link@.subrange(0, len as int) == link@);
        lemma_position(link@, watch_marker());
    }
    let from = match find_between(link, &watch, 0, len) {
        Some(at) => at + watch.len(),
        None => {
            return None;
        },
    };
    let ghost rest = link@.subrange(from as int, len as int);
    proof {
        assert(rest == after_first(link@, watch_marker()));
        lemma_position(rest, list_marker());
        lemma_position(rest, watch_marker());
    }
    if find_between(link, &list, from, len).is_none() {
        return None;
    }
    let stop = match find_between(link, &watch, from, len) {
        Some(at) => from + at,
        None => len,
    };
    let ghost segment = link@.subrange(from as int, stop as int);
    proof {
        assert(segment == before_first(rest, watch_marker())) by {
            if stop < len {
                assert(rest.take(stop - from) == segment);
            } else {
                assert(rest == segment);
            }
        }
        lemma_position(segment, list_marker());
    }
    let to = match find_between(link, &list, from, stop) {
        Some(at) => from + at,
        None => stop,
    };
    proof {
        assert(link@.subrange(from as int, to as int) == video_id(link@)) by {
            assert(segment.take(to - from) == link@.subrange(from as int, to as int));
        }
    }
    Some((from, to))
}

/// Tells whether a link holds both markers in their order.
pub fn has_video_id(link: &str) -> (present: bool)
    ensures
        present == has_id_markers(link@),
{
    let chars = chars_of(link);
    id_span(&chars).is_some()
}

/// The video identifier in a link that holds both markers in their order.
/// Of a link that lacks one of them, or holds them in the other order,
/// nothing is said: see `find_video_id`.
pub fn split_video_id(link: &str) -> (id: String)
    requires
        has_id_markers(link@),
    ensures
        id@ == video_id(link@),
{
    let chars = chars_of(link);
    let (from, to) = id_span(&chars).unwrap();
    link.substring_char(from, to).to_owned()
}

/// The video identifier in a link, where the link holds both markers in
/// their order.
pub fn find_video_id(link: &str) -> (id: Option<String>)
    ensures
        match id {
            Some(id) => has_id_markers(link@) && id@ == video_id(link@),
            None => !has_id_markers(link@),
        },
{
    let chars = chars_of(link);
    match id_span(&chars) {
        Some((from, to)) => Some(link.substring_char(from, to).to_owned()),
        None => None,
    }
}

} // verus!
