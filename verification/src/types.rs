//! The data the chamfer operation works on, with its mathematical views.
//!
//! Real-valued quantities (the chamfer radius, the kernel tolerance) are
//! carried as the 64 bits of their IEEE-754 representation: this crate
//! never interprets them, it only forwards them to the modeling kernel.

use vstd::prelude::*;

verus! {

/// The bit pattern of the kernel's default numerical tolerance,
/// `0.0000001` as an IEEE-754 double. A named configuration default,
/// not interpreted here; the kernel receives it with every command.
pub const DEFAULT_TOLERANCE_BITS: u64 = 0x3E7AD7F29ABCAF48;

/// A user-facing reference to an edge of a solid: either an opaque
/// 128-bit edge identifier, or a symbolic tag naming a path segment
/// recorded when the solid's sketch was built.
#[derive(Debug, Clone, PartialEq, Eq, PartialOrd, Ord, Hash)]
pub enum EdgeReference {
    /// The 128-bit identifier of an edge, assigned by the kernel.
    Uuid(u128),
    /// A tag name of an edge.
    Tag(String),
}

/// The mathematical value of an [`EdgeReference`].
pub enum EdgeRefView {
    Id(u128),
    Tag(Seq<char>),
}

impl View for EdgeReference {
    type V = EdgeRefView;

    open spec fn view(&self) -> EdgeRefView {
        match self {
            EdgeReference::Uuid(u) => EdgeRefView::Id(*u),
            EdgeReference::Tag(s) => EdgeRefView::Tag(s@),
        }
    }
}

impl DeepView for EdgeReference {
    type V = EdgeRefView;

    open spec fn deep_view(&self) -> EdgeRefView {
        self.view()
    }
}

/// The arguments of one chamfer operation: a radius and the edge
/// references to cut. Order reflects user intent; duplicates are an
/// input error.
#[derive(Debug, Clone, PartialEq)]
pub struct ChamferData {
    /// The radius of the chamfer, as the bits of an IEEE-754 double.
    /// Opaque to this crate; validated, if at all, by the kernel.
    pub radius: u64,
    /// The tags of the paths to chamfer.
    pub tags: Vec<EdgeReference>,
}

/// One recorded path segment of a solid: the name it was tagged with
/// and the geometry identifier the kernel assigned to it.
#[derive(Debug, Clone, PartialEq)]
pub struct PathSegment {
    /// The tag name bound to this segment at sketch time.
    pub name: String,
    /// The kernel-assigned identifier of the segment's edge.
    pub edge_id: u128,
}

/// The mathematical value of a [`PathSegment`].
pub struct SegView {
    pub name: Seq<char>,
    pub edge_id: u128,
}

impl View for PathSegment {
    type V = SegView;

    open spec fn view(&self) -> SegView {
        SegView { name: self.name@, edge_id: self.edge_id }
    }
}

impl DeepView for PathSegment {
    type V = SegView;

    open spec fn deep_view(&self) -> SegView {
        self.view()
    }
}

/// The solid the operation targets: its kernel-side object identifier
/// and the path segments recorded when it was sketched. The chamfer
/// operation only reads this; the kernel is the sole authority on the
/// geometry itself.
#[derive(Debug, Clone, PartialEq)]
pub struct ExtrudeGroup {
    /// The kernel-assigned identifier of the solid.
    pub id: u128,
    /// The recorded path segments, in the order they were drawn.
    pub sketch_group_values: Vec<PathSegment>,
}

/// The mathematical value of an [`ExtrudeGroup`].
pub struct GroupView {
    pub id: u128,
    pub segments: Seq<SegView>,
}

impl View for ExtrudeGroup {
    type V = GroupView;

    open spec fn view(&self) -> GroupView {
        GroupView { id: self.id, segments: self.sketch_group_values.deep_view() }
    }
}

/// A region of the user's source program, attached to every error so
/// the host language can attribute a failure to user code.
#[derive(Debug, Clone, Copy, PartialEq, Eq, Structural)]
pub struct SourceRange {
    pub start: u64,
    pub end: u64,
}

/// Why a chamfer operation failed. Every failure is terminal for the
/// operation and carries the source range of the call site.
#[derive(Debug, Clone, PartialEq)]
pub enum ChamferError {
    /// Two edge references in the request were equal by value.
    DuplicateReference { source_range: SourceRange },
    /// A tag matched no recorded path segment of the solid.
    UnresolvedTag { tag: String, source_range: SourceRange },
    /// The kernel (or its transport) rejected a command; the message is
    /// propagated verbatim.
    KernelCommandFailed { message: String, source_range: SourceRange },
}

/// The mathematical value of a [`ChamferError`].
pub enum ErrorView {
    DuplicateReference { source_range: SourceRange },
    UnresolvedTag { tag: Seq<char>, source_range: SourceRange },
    KernelCommandFailed { message: Seq<char>, source_range: SourceRange },
}

impl View for ChamferError {
    type V = ErrorView;

    open spec fn view(&self) -> ErrorView {
        match self {
            ChamferError::DuplicateReference { source_range } => ErrorView::DuplicateReference {
                source_range: *source_range,
            },
            ChamferError::UnresolvedTag { tag, source_range } => ErrorView::UnresolvedTag {
                tag: tag@,
                source_range: *source_range,
            },
            ChamferError::KernelCommandFailed { message, source_range } => (
                ErrorView::KernelCommandFailed { message: message@, source_range: *source_range }
            ),
        }
    }
}

/// The kernel's verdict on one command: accepted, or rejected with a
/// message.
#[derive(Debug, Clone, PartialEq)]
pub enum KernelResponse {
    /// The kernel applied the edit.
    Success,
    /// The kernel or the transport reported an error.
    Failure(String),
}

/// The mathematical value of a [`KernelResponse`].
pub enum RespView {
    Success,
    Failure(Seq<char>),
}

impl View for KernelResponse {
    type V = RespView;

    open spec fn view(&self) -> RespView {
        match self {
            KernelResponse::Success => RespView::Success,
            KernelResponse::Failure(m) => RespView::Failure(m@),
        }
    }
}

impl DeepView for KernelResponse {
    type V = RespView;

    open spec fn deep_view(&self) -> RespView {
        self.view()
    }
}

/// The discriminator of an edge-cut command: the same command shape is
/// used for chamfers and fillets.
#[derive(Debug, Clone, Copy, PartialEq, Eq, Structural)]
pub enum CutType {
    Chamfer,
    Fillet,
}

/// One geometry-edit command for the modeling kernel, as plain values.
/// The caller's transport turns it into a wire message and sends it.
#[derive(Debug, Clone, Copy, PartialEq, Eq, Structural)]
pub struct EdgeCutCommand {
    /// A fresh client-generated identifier for this command, used by the
    /// kernel for idempotency and tracing; never reused within a request.
    pub request_id: u128,
    /// The kernel identifier of the solid being edited.
    pub object_id: u128,
    /// The resolved identifier of the edge to cut.
    pub edge_id: u128,
    /// The requested radius, as the bits of an IEEE-754 double.
    pub radius: u64,
    /// The tolerance for the edit, as the bits of an IEEE-754 double.
    pub tolerance: u64,
    /// Which cut to perform.
    pub cut_type: CutType,
}

} // verus!
