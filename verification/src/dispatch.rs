//! The command dispatcher: validates a chamfer request, resolves each
//! edge reference in input order, and issues one edge-cut command per
//! reference, stopping at the first failure.
//!
//! The kernel itself is an external collaborator, so the dispatcher is
//! a state machine: the caller asks for the next command, delivers it,
//! and hands the kernel's verdict back. Every step is verified against
//! the model in [`crate::model`], and [`inner_chamfer`] proves that the
//! steps compose to that model for any sequence of verdicts.

use vstd::prelude::*;

use crate::model::OutcomeView;
use crate::model::chamfer_model;
use crate::model::resp_at;
use crate::model::run_model_from;
use crate::resolve::has_duplicate;
use crate::resolve::has_duplicate_refs;
use crate::resolve::resolve_edge_reference;
use crate::resolve::resolve_ref;
use crate::resolve::tag_name;
use crate::types::ChamferData;
use crate::types::ChamferError;
use crate::types::CutType;
use crate::types::DEFAULT_TOLERANCE_BITS;
use crate::types::EdgeCutCommand;
use crate::types::EdgeReference;
use crate::types::ErrorView;
use crate::types::ExtrudeGroup;
use crate::types::KernelResponse;
use crate::types::RespView;
use crate::types::SourceRange;

verus! {

/// Relies on `uuid::Uuid::new_v4`: a freshly drawn random version-4
/// UUID, handed on as its 128-bit value. The value is random, so
/// nothing is assumed of it.
#[verifier::external_body]
fn random_request_id_base() -> u128 {
    uuid::Uuid::new_v4().as_u128()
}

/// Adding two different offsets to one base, wrapping, gives two
/// different values: within a request, no identifier repeats.
proof fn lemma_wrapping_ids_distinct(base: u128, p: u128, q: u128)
    requires
        p < q,
    ensures
        vstd::wrapping::u128_specs::wrapping_add(base, p) != vstd::wrapping::u128_specs::wrapping_add(
            base,
            q,
        ),
{
}

/// Where a dispatch stands. Any failure is terminal for the request:
/// there is no retry state.
#[derive(Debug, Clone, Copy, PartialEq, Eq, Structural)]
pub enum Phase {
    /// Commands may still be issued.
    Running,
    /// Every reference was dispatched and accepted.
    Succeeded,
    /// A failure was reported; nothing further will be issued.
    Failed,
}

/// The dispatcher for one validated chamfer request. It issues one
/// command per edge reference, in input order, one at a time; the
/// caller delivers each command to the kernel and hands the verdict
/// back before asking for the next.
#[derive(Debug)]
pub struct ChamferDispatch {
    /// The chamfer radius forwarded with every command, as IEEE-754 bits.
    pub radius: u64,
    /// The kernel identifier of the solid being edited.
    pub object_id: u128,
    /// The base of this request's identifiers, drawn at random once per
    /// request; the command for position `k` carries `base + k`
    /// (wrapping), so no identifier repeats within a request.
    pub request_base: u128,
    /// The validated edge references, in input order.
    pub tags: Vec<EdgeReference>,
    /// How many references have had their command issued.
    pub next_index: usize,
    /// The request identifiers issued so far, in issue order.
    pub issued: Vec<u128>,
    /// The call site, attached to every error.
    pub source_range: SourceRange,
    /// Where the dispatch stands.
    pub phase: Phase,
}

impl ChamferDispatch {
    /// The dispatcher's invariant: references are free of duplicates,
    /// and one distinct request identifier was issued per command.
    pub open spec fn wf(&self) -> bool {
        &&& self.next_index <= self.tags@.len()
        &&& self.issued@.len() == self.next_index
        &&& forall|k: int|
            0 <= k < self.issued@.len() ==> self.issued@[k]
                == vstd::wrapping::u128_specs::wrapping_add(self.request_base, k as u128)
        &&& forall|p: int, q: int|
            0 <= p < q < self.issued@.len() ==> self.issued@[p] != self.issued@[q]
        &&& !has_duplicate(self.tags.deep_view())
    }

    /// Validates a request and sets up its dispatch. Fails with
    /// `DuplicateReference` if and only if two references are equal by
    /// value; no command is ever issued for such a request.
    pub fn new(data: ChamferData, group: &ExtrudeGroup, source_range: SourceRange) -> (r: Result<
        ChamferDispatch,
        ChamferError,
    >)
        ensures
            r is Ok <==> !has_duplicate(data.tags.deep_view()),
            r matches Err(e) ==> e@ == (ErrorView::DuplicateReference { source_range }),
            r matches Ok(d) ==> {
                &&& d.wf()
                &&& d.phase == Phase::Running
                &&& d.radius == data.radius
                &&& d.object_id == group.id
                &&& d.tags.deep_view() == data.tags.deep_view()
                &&& d.next_index == 0
                &&& d.issued@ == Seq::<u128>::empty()
                &&& d.source_range == source_range
            },
    {
        if has_duplicate_refs(&data.tags) {
            return Err(ChamferError::DuplicateReference { source_range });
        }
        Ok(
            ChamferDispatch {
                radius: data.radius,
                object_id: group.id,
                request_base: random_request_id_base(),
                tags: data.tags,
                next_index: 0,
                issued: Vec::new(),
                source_range,
                phase: Phase::Running,
            },
        )
    }

    /// Resolves the next edge reference against `group`'s recorded
    /// segments and issues its command, or reports with `Ok(None)` that
    /// every reference has been dispatched. A tag matching no segment
    /// fails with `UnresolvedTag`, naming the tag; the dispatch is then
    /// terminal and nothing further is issued.
    pub fn next_command(&mut self, group: &ExtrudeGroup) -> (r: Result<
        Option<EdgeCutCommand>,
        ChamferError,
    >)
        requires
            old(self).wf(),
            old(self).phase == Phase::Running,
        ensures
            final(self).wf(),
            final(self).radius == old(self).radius,
            final(self).object_id == old(self).object_id,
            final(self).request_base == old(self).request_base,
            final(self).tags == old(self).tags,
            final(self).source_range == old(self).source_range,
            old(self).next_index == old(self).tags@.len() ==> {
                &&& r matches Ok(None)
                &&& final(self).phase == Phase::Succeeded
                &&& final(self).next_index == old(self).next_index
                &&& final(self).issued == old(self).issued
            },
            old(self).next_index < old(self).tags@.len() ==> ({
                let t = old(self).tags.deep_view()[old(self).next_index as int];
                match resolve_ref(t, group@.segments) {
                    Some(eid) => {
                        &&& r matches Ok(Some(cmd)) && {
                            &&& cmd.object_id == old(self).object_id
                            &&& cmd.edge_id == eid
                            &&& cmd.radius == old(self).radius
                            &&& cmd.tolerance == DEFAULT_TOLERANCE_BITS
                            &&& cmd.cut_type == CutType::Chamfer
                            &&& !old(self).issued@.contains(cmd.request_id)
                            &&& final(self).issued@ == old(self).issued@.push(cmd.request_id)
                        }
                        &&& final(self).next_index == old(self).next_index + 1
                        &&& final(self).phase == Phase::Running
                    },
                    None => {
                        &&& r matches Err(e) && e@ == (ErrorView::UnresolvedTag {
                            tag: tag_name(t),
                            source_range: old(self).source_range,
                        })
                        &&& final(self).phase == Phase::Failed
                        &&& final(self).next_index == old(self).next_index
                        &&& final(self).issued == old(self).issued
                    },
                }
            }),
    {
        if self.next_index == self.tags.len() {
            self.phase = Phase::Succeeded;
            return Ok(None);
        }
        let resolved = resolve_edge_reference(&self.tags[self.next_index], group);
        match resolved {
            None => {
                // Only a tag can fail to resolve: a concrete identifier
                // always passes through.
                let tagname = match &self.tags[self.next_index] {
                    EdgeReference::Tag(s) => s.clone(),
                    EdgeReference::Uuid(_) => String::new(),
                };
                self.phase = Phase::Failed;
                Err(ChamferError::UnresolvedTag { tag: tagname, source_range: self.source_range })
            },
            Some(eid) => {
                let rid = self.request_base.wrapping_add(self.next_index as u128);
                proof {
                    assert forall|p: int| 0 <= p < self.issued@.len() implies self.issued@[p]
                        != rid by {
                        lemma_wrapping_ids_distinct(
                            self.request_base,
                            p as u128,
                            self.next_index as u128,
                        );
                    }
                    assert(!self.issued@.contains(rid));
                }
                self.issued.push(rid);
                self.next_index += 1;
                Ok(
                    Some(
                        EdgeCutCommand {
                            request_id: rid,
                            object_id: self.object_id,
                            edge_id: eid,
                            radius: self.radius,
                            tolerance: DEFAULT_TOLERANCE_BITS,
                            cut_type: CutType::Chamfer,
                        },
                    ),
                )
            },
        }
    }

    /// Records the kernel's verdict on the command issued last. An
    /// accepted command leaves the dispatch exactly as it was; a
    /// rejected one is terminal, and its message is propagated verbatim
    /// with the call site attached.
    pub fn handle_response(&mut self, resp: &KernelResponse) -> (r: Result<(), ChamferError>)
        requires
            old(self).wf(),
            old(self).phase == Phase::Running,
        ensures
            final(self).wf(),
            r is Ok <==> resp@ is Success,
            resp@ is Success ==> *final(self) == *old(self),
            resp@ matches RespView::Failure(m) ==> {
                &&& r matches Err(e) && e@ == (ErrorView::KernelCommandFailed {
                    message: m,
                    source_range: old(self).source_range,
                })
                &&& final(self).phase == Phase::Failed
                &&& final(self).next_index == old(self).next_index
                &&& final(self).issued == old(self).issued
                &&& final(self).tags == old(self).tags
                &&& final(self).radius == old(self).radius
                &&& final(self).object_id == old(self).object_id
                &&& final(self).request_base == old(self).request_base
                &&& final(self).source_range == old(self).source_range
            },
    {
        match resp {
            KernelResponse::Success => Ok(()),
            KernelResponse::Failure(m) => {
                self.phase = Phase::Failed;
                Err(
                    ChamferError::KernelCommandFailed {
                        message: m.clone(),
                        source_range: self.source_range,
                    },
                )
            },
        }
    }
}

/// What one whole chamfer operation did: the commands issued for the
/// kernel, in issue order, and how the operation ended. The solid is
/// only ever read; on success the caller keeps using the same handle.
#[derive(Debug, PartialEq)]
pub struct DispatchOutcome {
    /// The commands issued, one per reference dispatched.
    pub commands: Vec<EdgeCutCommand>,
    /// Success, or the first failure encountered.
    pub result: Result<(), ChamferError>,
}

/// Whether an operation's result is the one the model prescribes.
pub open spec fn outcome_matches(
    res: Result<(), ChamferError>,
    o: OutcomeView,
    sr: SourceRange,
) -> bool {
    match o {
        OutcomeView::Success => res is Ok,
        OutcomeView::DuplicateReference => res matches Err(e) && e@ == (
        ErrorView::DuplicateReference { source_range: sr }),
        OutcomeView::UnresolvedTag { tag } => res matches Err(e) && e@ == (
        ErrorView::UnresolvedTag { tag, source_range: sr }),
        OutcomeView::KernelCommandFailed { message } => res matches Err(e) && e@ == (
        ErrorView::KernelCommandFailed { message, source_range: sr }),
    }
}

/// Creates chamfers on the tagged paths of `extrude_group`: validates
/// the request, then resolves each reference and issues its command in
/// input order, one at a time, stopping at the first failure.
///
/// The kernel's verdicts are taken as an argument, one per command
/// position, so every behaviour of the kernel is covered: the verdict
/// for the command of reference `k` is `responses[k]`. The returned
/// outcome agrees with [`chamfer_model`] on the commands issued and on
/// how the operation ended. The solid is only read — on success the
/// caller keeps the very handle it passed — and a failure after `k`
/// accepted commands leaves those `k` edges already cut: there is no
/// rollback.
#[verifier::loop_isolation(false)]
pub fn inner_chamfer(
    data: ChamferData,
    extrude_group: &ExtrudeGroup,
    source_range: SourceRange,
    responses: &Vec<KernelResponse>,
) -> (r: DispatchOutcome)
    requires
        responses@.len() >= data.tags@.len(),
    ensures
        ({
            let m = chamfer_model(
                data.tags.deep_view(),
                extrude_group@.segments,
                responses.deep_view(),
            );
            &&& r.commands@.len() == m.1
            &&& outcome_matches(r.result, m.0, source_range)
            &&& forall|k: int|
                0 <= k < r.commands@.len() ==> {
                    &&& r.commands@[k].object_id == extrude_group.id
                    &&& r.commands@[k].radius == data.radius
                    &&& r.commands@[k].tolerance == DEFAULT_TOLERANCE_BITS
                    &&& r.commands@[k].cut_type == CutType::Chamfer
                    &&& Some(r.commands@[k].edge_id) == resolve_ref(
                        data.tags.deep_view()[k],
                        extrude_group@.segments,
                    )
                }
            &&& forall|p: int, q: int|
                0 <= p < q < r.commands@.len() ==> r.commands@[p].request_id
                    != r.commands@[q].request_id
        }),
{
    let ghost tagsv = data.tags.deep_view();
    let ghost segs = extrude_group@.segments;
    let ghost respsv = responses.deep_view();
    let ghost radiusv = data.radius;
    let mut commands: Vec<EdgeCutCommand> = Vec::new();
    let mut dispatch = match ChamferDispatch::new(data, extrude_group, source_range) {
        Err(e) => {
            return DispatchOutcome { commands, result: Err(e) };
        },
        Ok(d) => d,
    };
    loop
        invariant
            dispatch.wf(),
            dispatch.phase == Phase::Running,
            dispatch.tags.deep_view() == tagsv,
            dispatch.object_id == extrude_group.id,
            dispatch.radius == radiusv,
            dispatch.source_range == source_range,
            segs == extrude_group@.segments,
            respsv == responses.deep_view(),
            respsv.len() == responses@.len(),
            respsv.len() >= tagsv.len(),
            tagsv.len() == dispatch.tags@.len(),
            !has_duplicate(tagsv),
            commands@.len() == dispatch.next_index,
            forall|k: int|
                0 <= k < commands@.len() ==> {
                    &&& commands@[k].object_id == extrude_group.id
                    &&& commands@[k].radius == radiusv
                    &&& commands@[k].tolerance == DEFAULT_TOLERANCE_BITS
                    &&& commands@[k].cut_type == CutType::Chamfer
                    &&& Some(commands@[k].edge_id) == resolve_ref(tagsv[k], segs)
                },
            forall|k: int| 0 <= k < commands@.len() ==> commands@[k].request_id
                == dispatch.issued@[k],
            forall|p: int, q: int|
                0 <= p < q < commands@.len() ==> commands@[p].request_id
                    != commands@[q].request_id,
            forall|k: int| 0 <= k < dispatch.next_index ==> resolve_ref(tagsv[k], segs) is Some,
            forall|k: int|
                0 <= k < dispatch.next_index ==> resp_at(respsv, k) == RespView::Success,
            run_model_from(tagsv, segs, respsv, 0) == ({
                let rest = run_model_from(tagsv, segs, respsv, dispatch.next_index as int);
                (rest.0, rest.1 + dispatch.next_index)
            }),
        decreases dispatch.tags@.len() - dispatch.next_index,
    {
        let ghost prev_issued = dispatch.issued@;
        match dispatch.next_command(extrude_group) {
            Err(e) => {
                return DispatchOutcome { commands, result: Err(e) };
            },
            Ok(None) => {
                return DispatchOutcome { commands, result: Ok(()) };
            },
            Ok(Some(cmd)) => {
                let i = dispatch.next_index - 1;
                commands.push(cmd);
                proof {
                    assert forall|p: int, q: int|
                        0 <= p < q < commands@.len() implies commands@[p].request_id
                            != commands@[q].request_id by {
                        if q == commands@.len() - 1 {
                            assert(commands@[p].request_id == prev_issued[p]);
                            assert(prev_issued[p] != cmd.request_id);
                        }
                    }
                }
                let resp = &responses[i];
                match dispatch.handle_response(resp) {
                    Err(e) => {
                        return DispatchOutcome { commands, result: Err(e) };
                    },
                    Ok(()) => {},
                }
            },
        }
    }
}

} // verus!
