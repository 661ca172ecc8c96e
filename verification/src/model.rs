//! The mathematical model of one chamfer operation, and the laws the
//! protocol obeys.
//!
//! [`chamfer_model`] maps the operation's inputs — the edge references,
//! the solid's recorded segments, and the kernel's verdicts, one per
//! command that would be sent — to the operation's outcome and the
//! number of commands sent before it stopped. The executable pipeline
//! in [`crate::dispatch`] is proved to agree with this model.

use vstd::prelude::*;

use crate::resolve::first_match_from;
use crate::resolve::has_duplicate;
use crate::resolve::resolve_ref;
use crate::resolve::tag_name;
use crate::types::EdgeRefView;
use crate::types::RespView;
use crate::types::SegView;

verus! {

/// How a chamfer operation ends.
pub enum OutcomeView {
    /// Every reference resolved and the kernel accepted every command.
    Success,
    /// Two references were equal by value; nothing was sent.
    DuplicateReference,
    /// A tag matched no recorded segment; dispatch stopped there.
    UnresolvedTag { tag: Seq<char> },
    /// The kernel rejected a command with this message.
    KernelCommandFailed { message: Seq<char> },
}

/// The kernel's verdict on the command for position `i`; positions the
/// model never reaches may be left unlisted and default to acceptance.
pub open spec fn resp_at(resps: Seq<RespView>, i: int) -> RespView {
    if 0 <= i < resps.len() {
        resps[i]
    } else {
        RespView::Success
    }
}

/// The outcome and the number of commands sent when dispatch starts at
/// position `i` of `tags`: each reference is resolved and its command
/// sent in input order, one at a time, stopping at the first tag that
/// does not resolve or the first command the kernel rejects.
pub open spec fn run_model_from(
    tags: Seq<EdgeRefView>,
    segs: Seq<SegView>,
    resps: Seq<RespView>,
    i: int,
) -> (OutcomeView, int)
    decreases tags.len() - i,
{
    if i < 0 || i >= tags.len() {
        (OutcomeView::Success, 0)
    } else {
        match resolve_ref(tags[i], segs) {
            None => (OutcomeView::UnresolvedTag { tag: tag_name(tags[i]) }, 0),
            Some(_) => match resp_at(resps, i) {
                RespView::Success => {
                    let rest = run_model_from(tags, segs, resps, i + 1);
                    (rest.0, rest.1 + 1)
                },
                RespView::Failure(m) => (OutcomeView::KernelCommandFailed { message: m }, 1),
            },
        }
    }
}

/// The outcome and the number of commands sent by a whole chamfer
/// operation: a request with a duplicate reference is rejected before
/// anything is sent; otherwise dispatch runs from the first reference.
pub open spec fn chamfer_model(
    tags: Seq<EdgeRefView>,
    segs: Seq<SegView>,
    resps: Seq<RespView>,
) -> (OutcomeView, int) {
    if has_duplicate(tags) {
        (OutcomeView::DuplicateReference, 0)
    } else {
        run_model_from(tags, segs, resps, 0)
    }
}

/// A request with a duplicate edge reference (by value) fails with
/// `DuplicateReference`, and zero kernel commands are sent.
pub proof fn law_duplicate_rejected(
    tags: Seq<EdgeRefView>,
    segs: Seq<SegView>,
    resps: Seq<RespView>,
)
    requires
        has_duplicate(tags),
    ensures
        chamfer_model(tags, segs, resps).0 == OutcomeView::DuplicateReference,
        chamfer_model(tags, segs, resps).1 == 0,
{
}

proof fn lemma_run_all_succeed_from(
    tags: Seq<EdgeRefView>,
    segs: Seq<SegView>,
    resps: Seq<RespView>,
    i: int,
)
    requires
        0 <= i <= tags.len(),
        forall|k: int| i <= k < tags.len() ==> resolve_ref(tags[k], segs) is Some,
        forall|k: int| i <= k < tags.len() ==> resp_at(resps, k) == RespView::Success,
    ensures
        run_model_from(tags, segs, resps, i) == (OutcomeView::Success, tags.len() - i),
    decreases tags.len() - i,
{
    if i < tags.len() {
        lemma_run_all_succeed_from(tags, segs, resps, i + 1);
    }
}

/// A request whose references all resolve and whose kernel calls all
/// succeed sends exactly one kernel command per edge reference and
/// succeeds. (That each command carries a distinct request identifier,
/// and that the solid handle is returned unchanged, are stated on the
/// executable dispatcher: see `crate::dispatch`.)
pub proof fn law_one_command_per_reference(
    tags: Seq<EdgeRefView>,
    segs: Seq<SegView>,
    resps: Seq<RespView>,
)
    requires
        !has_duplicate(tags),
        forall|k: int| 0 <= k < tags.len() ==> resolve_ref(tags[k], segs) is Some,
        forall|k: int| 0 <= k < tags.len() ==> resp_at(resps, k) == RespView::Success,
    ensures
        chamfer_model(tags, segs, resps).0 == OutcomeView::Success,
        chamfer_model(tags, segs, resps).1 == tags.len(),
{
    lemma_run_all_succeed_from(tags, segs, resps, 0);
}

proof fn lemma_run_stops_from(
    tags: Seq<EdgeRefView>,
    segs: Seq<SegView>,
    resps: Seq<RespView>,
    i: int,
    j: int,
)
    requires
        0 <= i <= j < tags.len(),
        forall|k: int| i <= k < j ==> resolve_ref(tags[k], segs) is Some,
        forall|k: int| i <= k < j ==> resp_at(resps, k) == RespView::Success,
    ensures
        resolve_ref(tags[j], segs) is None ==> run_model_from(tags, segs, resps, i) == (
            OutcomeView::UnresolvedTag { tag: tag_name(tags[j]) },
            j - i,
        ),
        (resolve_ref(tags[j], segs) is Some && resp_at(resps, j) is Failure)
            ==> run_model_from(tags, segs, resps, i) == (
            OutcomeView::KernelCommandFailed { message: resp_at(resps, j)->Failure_0 },
            j - i + 1,
        ),
    decreases j - i,
{
    if i < j {
        lemma_run_stops_from(tags, segs, resps, i + 1, j);
    }
}

/// A request holding a tag that resolves to no recorded segment, where
/// everything before that tag resolved and was accepted, fails with
/// `UnresolvedTag` naming that tag, and commands are sent only for the
/// references positioned before it in input order.
pub proof fn law_unresolved_tag_stops_dispatch(
    tags: Seq<EdgeRefView>,
    segs: Seq<SegView>,
    resps: Seq<RespView>,
    j: int,
)
    requires
        !has_duplicate(tags),
        0 <= j < tags.len(),
        forall|k: int| 0 <= k < j ==> resolve_ref(tags[k], segs) is Some,
        forall|k: int| 0 <= k < j ==> resp_at(resps, k) == RespView::Success,
        resolve_ref(tags[j], segs) is None,
    ensures
        chamfer_model(tags, segs, resps).0 == (OutcomeView::UnresolvedTag {
            tag: tag_name(tags[j]),
        }),
        chamfer_model(tags, segs, resps).1 == j,
{
    lemma_run_stops_from(tags, segs, resps, 0, j);
}

/// If the kernel rejects the command at position `k` (counting from
/// zero), after resolving and accepting everything before it, the
/// request fails with `KernelCommandFailed` carrying the kernel's
/// message; the `k + 1` commands up to and including the rejected one
/// were sent, and no later command is ever sent.
pub proof fn law_kernel_failure_stops_dispatch(
    tags: Seq<EdgeRefView>,
    segs: Seq<SegView>,
    resps: Seq<RespView>,
    k: int,
)
    requires
        !has_duplicate(tags),
        0 <= k < tags.len(),
        forall|p: int| 0 <= p <= k ==> resolve_ref(tags[p], segs) is Some,
        forall|p: int| 0 <= p < k ==> resp_at(resps, p) == RespView::Success,
        resp_at(resps, k) is Failure,
    ensures
        chamfer_model(tags, segs, resps).0 == (OutcomeView::KernelCommandFailed {
            message: resp_at(resps, k)->Failure_0,
        }),
        chamfer_model(tags, segs, resps).1 == k + 1,
{
    lemma_run_stops_from(tags, segs, resps, 0, k);
}

} // verus!

