//! The error taxonomy of the reload pipeline.

use vstd::prelude::*;

verus! {

/// Everything that can go wrong between a settled viewport and a finished
/// mesh.
///
/// `SourceUnavailable`, `HeaderCorrupt` and `TransportError` arise at the
/// feature-source boundary (opening a file or stream, parsing its header,
/// fetching bytes remotely) and abort a whole reload; the transport variant
/// is retryable by the caller. `GeometryMalformed` and `TessellationFailure`
/// are per-feature respectively per-polygon conditions: the affected feature
/// or polygon is skipped and the reload continues.
#[derive(Clone, Copy, PartialEq, Eq, Structural, Debug)]
pub enum MapError {
    /// The feature source could not be opened.
    SourceUnavailable,
    /// The source's header or spatial-index metadata could not be parsed.
    HeaderCorrupt,
    /// A feature's event stream violates the assembly rules (wrong ordering,
    /// a ring with fewer than three points, a hole before any exterior ring,
    /// or a coordinate outside the representable fixed-point window).
    GeometryMalformed,
    /// A remote fetch failed; the caller may retry the reload.
    TransportError,
    /// A polygon violated the tessellation strategy's precondition (for
    /// example a self-intersecting outline); the polygon is skipped.
    TessellationFailure,
}

} // verus!
