//! Duplicate detection on edge references and tag resolution against a
//! solid's recorded path segments.

use vstd::prelude::*;

use crate::types::EdgeRefView;
use crate::types::EdgeReference;
use crate::types::ExtrudeGroup;
use crate::types::SegView;

verus! {

/// Whether two positions of `tags` hold the same reference by value.
/// Two different tags that would resolve to the same edge are not
/// duplicates in this sense.
pub open spec fn has_duplicate(tags: Seq<EdgeRefView>) -> bool {
    exists|i: int, j: int| 0 <= i < j < tags.len() && tags[i] == tags[j]
}

/// The geometry identifier of the first segment at or after position
/// `i` whose name is `name`, scanning in recorded order.
pub open spec fn first_match_from(segs: Seq<SegView>, name: Seq<char>, i: int) -> Option<u128>
    decreases segs.len() - i,
{
    if i < 0 || i >= segs.len() {
        None
    } else if segs[i].name == name {
        Some(segs[i].edge_id)
    } else {
        first_match_from(segs, name, i + 1)
    }
}

/// The geometry identifier of the first recorded segment named `name`,
/// if any.
pub open spec fn first_match(segs: Seq<SegView>, name: Seq<char>) -> Option<u128> {
    first_match_from(segs, name, 0)
}

/// What an edge reference resolves to against the segments `segs`: a
/// concrete identifier passes through unchanged, a tag takes the first
/// matching segment's identifier, and a tag with no match resolves to
/// nothing.
pub open spec fn resolve_ref(r: EdgeRefView, segs: Seq<SegView>) -> Option<u128> {
    match r {
        EdgeRefView::Id(u) => Some(u),
        EdgeRefView::Tag(name) => first_match(segs, name),
    }
}

/// The tag name carried by a reference; the empty sequence for a
/// concrete identifier, which always resolves and so never needs one.
pub open spec fn tag_name(r: EdgeRefView) -> Seq<char> {
    match r {
        EdgeRefView::Tag(name) => name,
        EdgeRefView::Id(_) => Seq::empty(),
    }
}

/// Value equality of two edge references.
pub fn edge_ref_eq(a: &EdgeReference, b: &EdgeReference) -> (r: bool)
    ensures
        r == (a@ == b@),
{
    match (a, b) {
        (EdgeReference::Uuid(x), EdgeReference::Uuid(y)) => x == y,
        (EdgeReference::Tag(s), EdgeReference::Tag(t)) => <String as PartialEq>::eq(s, t),
        _ => false,
    }
}

/// Whether `tags` holds the same reference twice, by value.
pub fn has_duplicate_refs(tags: &Vec<EdgeReference>) -> (r: bool)
    ensures
        r == has_duplicate(tags.deep_view()),
{
    let ghost tagsv = tags.deep_view();
    let n = tags.len();
    let mut i: usize = 0;
    while i < n
        invariant
            n == tags@.len(),
            tagsv == tags.deep_view(),
            i <= n,
            forall|p: int, q: int| 0 <= p < q < n && p < i ==> tagsv[p] != tagsv[q],
        decreases n - i,
    {
        let mut j: usize = i + 1;
        while j < n
            invariant
                n == tags@.len(),
                tagsv == tags.deep_view(),
                i < j <= n,
                forall|q: int| i < q < j ==> tagsv[i as int] != tagsv[q],
            decreases n - j,
        {
            if edge_ref_eq(&tags[i], &tags[j]) {
                assert(tagsv[i as int] == tagsv[j as int]);
                return true;
            }
            j += 1;
        }
        i += 1;
    }
    false
}

/// The concrete edge identifier a reference stands for, read against
/// the solid's recorded path segments: the first segment whose name
/// equals the tag wins; a concrete identifier passes through.
pub fn resolve_edge_reference(r: &EdgeReference, group: &ExtrudeGroup) -> (res: Option<u128>)
    ensures
        res == resolve_ref(r@, group@.segments),
{
    match r {
        EdgeReference::Uuid(u) => Some(*u),
        EdgeReference::Tag(tag) => {
            let ghost segs = group@.segments;
            let n = group.sketch_group_values.len();
            let mut i: usize = 0;
            while i < n
                invariant
                    r@ == EdgeRefView::Tag(tag@),
                    n == group.sketch_group_values@.len(),
                    segs == group@.segments,
                    segs.len() == n,
                    i <= n,
                    first_match(segs, tag@) == first_match_from(segs, tag@, i as int),
                decreases n - i,
            {
                let seg = &group.sketch_group_values[i];
                if <String as PartialEq>::eq(&seg.name, tag) {
                    return Some(seg.edge_id);
                }
                i += 1;
            }
            None
        },
    }
}

} // verus!
