//! Locus Resolver: the representative genomic coordinate and strand of a
//! read under a selectable position policy.

use vstd::prelude::*;
use crate::model::{AlignedRead, EngineError, PositionPolicy, ResolvedLocus, Strand};

verus! {

/// The position a policy selects for a read with 1-based start `s` and span
/// `n`, as a mathematical integer (0-based).
pub open spec fn spec_position(s: u64, n: u64, reverse: bool, policy: PositionPolicy) -> int {
    match policy {
        PositionPolicy::Left => s - 1,
        PositionPolicy::Middle => s - 1 + n / 2,
        PositionPolicy::Start => if reverse {
            s - 1 + n - 1
        } else {
            s - 1
        },
    }
}

/// The position `resolve` yields for `read`, defined when the read carries
/// both alignment coordinates.
pub open spec fn spec_resolve(read: AlignedRead, policy: PositionPolicy) -> int {
    spec_position(read.alignment_start->0, read.alignment_span->0, read.is_reverse_strand, policy)
}

/// Resolves a read's representative 0-based coordinate under `policy`.
///
/// `Left` is the 0-based left edge, `Middle` the midpoint (integer division),
/// and `Start` the 5' end in sequencing direction: the right edge for a
/// reverse-strand read, the left edge otherwise. Fails with
/// `MissingAlignmentData` exactly when the start or the span is absent.
pub fn resolve(read: &AlignedRead, policy: PositionPolicy) -> (r: Result<u64, EngineError>)
    requires
        read.wf(),
    ensures
        read.has_alignment_data() ==> r == Ok::<u64, EngineError>(
            spec_resolve(*read, policy) as u64,
        ),
        !read.has_alignment_data() ==> r == Err::<u64, EngineError>(
            EngineError::MissingAlignmentData,
        ),
{
    match (read.alignment_start, read.alignment_span) {
        (Some(s), Some(n)) => {
            let base = s - 1;
            match policy {
                PositionPolicy::Left => Ok(base),
                PositionPolicy::Middle => Ok(base + n / 2),
                PositionPolicy::Start => {
                    if read.is_reverse_strand {
                        Ok(base + n - 1)
                    } else {
                        Ok(base)
                    }
                },
            }
        },
        _ => Err(EngineError::MissingAlignmentData),
    }
}

/// Strand of a read: `Reverse` iff its reverse-strand flag is set.
pub fn strand_of(read: &AlignedRead) -> (r: Strand)
    ensures
        r == read.spec_strand(),
{
    if read.is_reverse_strand {
        Strand::Reverse
    } else {
        Strand::Forward
    }
}

/// Resolves position and strand together.
pub fn resolve_locus(read: &AlignedRead, policy: PositionPolicy) -> (r: Result<
    ResolvedLocus,
    EngineError,
>)
    requires
        read.wf(),
    ensures
        read.has_alignment_data() ==> r == Ok::<ResolvedLocus, EngineError>(
            ResolvedLocus {
                position: spec_resolve(*read, policy) as u64,
                strand: read.spec_strand(),
            },
        ),
        !read.has_alignment_data() ==> r == Err::<ResolvedLocus, EngineError>(
            EngineError::MissingAlignmentData,
        ),
{
    let position = resolve(read, policy)?;
    Ok(ResolvedLocus { position, strand: strand_of(read) })
}

} // verus!
