//! Core data model: genomic intervals (restriction fragments), aligned reads,
//! strands, position policies, interaction categories and the classified-pair
//! output record.

use vstd::prelude::*;

verus! {

/// Upper bound on genomic coordinates accepted by the engine.
///
/// Every coordinate (fragment boundary, resolved read position) is kept at or
/// below this bound so that the sum of two coordinate differences in the
/// metric calculator always fits in a `u64`: a machine limit, not a rule of
/// the domain.
pub const COORD_LIMIT: u64 = 0x7fff_ffff_ffff_ffff;

/// Strand of an alignment relative to the reference.
#[derive(Clone, Copy, Debug, PartialEq, Eq, Structural)]
pub enum Strand {
    Forward,
    Reverse,
}

/// Policy selecting which coordinate of an alignment stands for the read.
#[derive(Clone, Copy, Debug, PartialEq, Eq, Structural)]
pub enum PositionPolicy {
    /// The 5' end of the read in sequencing direction.
    Start,
    /// The midpoint of the alignment.
    Middle,
    /// The left edge of the alignment.
    Left,
}

/// Orientation signature of a canonically ordered pair:
/// strand of the upstream read, then strand of the downstream read.
#[derive(Clone, Copy, Debug, PartialEq, Eq, Structural)]
pub enum StrandPattern {
    FF,
    RR,
    FR,
    RF,
}

/// Interaction category of a read pair.
#[derive(Clone, Copy, Debug, PartialEq, Eq, Structural)]
pub enum Category {
    /// Outward-pointing reads on a single fragment that circularized.
    SelfCircle,
    /// Inward-pointing reads on a single undigested fragment.
    DanglingEnd,
    /// Two genomically adjacent fragments re-ligated in original order.
    Religation,
    /// Genuine 3D-contact evidence, tagged with its strand pattern.
    ValidInteraction(StrandPattern),
    /// The pair could not be classified (unresolvable or unassignable).
    Filtered,
}

/// Recoverable failures of the classification core. None is fatal: a pair
/// that raises one of these is classified `Filtered`, never aborts a stream.
#[derive(Clone, Copy, Debug, PartialEq, Eq, Structural)]
pub enum EngineError {
    /// An alignment lacks the start or span needed to resolve a position.
    MissingAlignmentData,
    /// More than one fragment overlaps a read's locus.
    AmbiguousFragmentAssignment,
    /// No fragment overlaps a read's locus.
    NoFragmentCoverage,
    /// Canonical ordering of the pair cannot be established.
    UnorderablePair,
}

/// A half-open genomic interval `[start, end)` on a named chromosome;
/// the unit of restriction digestion.
#[derive(Debug)]
pub struct GenomicInterval {
    pub chromosome: String,
    /// 0-based, inclusive.
    pub start: u64,
    /// Exclusive.
    pub end: u64,
}

impl GenomicInterval {
    /// A non-empty interval within the coordinate bound.
    pub open spec fn wf(&self) -> bool {
        self.start < self.end && self.end <= COORD_LIMIT
    }

    /// Value equality of two intervals: same chromosome and same coordinates.
    pub open spec fn same_as(&self, other: &GenomicInterval) -> bool {
        self.chromosome@ == other.chromosome@ && self.start == other.start && self.end
            == other.end
    }

    /// Whether this interval contains the point `p`.
    pub open spec fn spec_covers(&self, p: u64) -> bool {
        self.start <= p < self.end
    }
}

impl Clone for GenomicInterval {
    fn clone(&self) -> (r: GenomicInterval)
        ensures
            r == *self,
    {
        GenomicInterval {
            chromosome: self.chromosome.clone(),
            start: self.start,
            end: self.end,
        }
    }
}

/// One aligned read, as delivered by the alignment source. The engine reads
/// it and never mutates it.
#[derive(Debug)]
pub struct AlignedRead {
    /// Identity of the reference chromosome; absent for unplaced reads.
    /// Comparable, not necessarily contiguous.
    pub chromosome_id: Option<u64>,
    /// 1-based leftmost coordinate of the alignment; absent when unaligned.
    pub alignment_start: Option<u64>,
    /// Number of reference bases covered by the alignment.
    pub alignment_span: Option<u64>,
    pub is_unmapped: bool,
    pub is_reverse_strand: bool,
    pub is_first_segment: bool,
    /// Read name, carried for diagnostics only.
    pub name: String,
}

impl AlignedRead {
    /// Coordinates of a plausible alignment: a 1-based start, a positive
    /// span, and a right edge within the coordinate bound (the bound is a
    /// machine limit keeping derived positions within `u64` arithmetic).
    pub open spec fn wf(&self) -> bool {
        &&& (self.alignment_start matches Some(s) ==> 1 <= s)
        &&& (self.alignment_span matches Some(n) ==> 1 <= n)
        &&& (self.alignment_start is Some && self.alignment_span is Some ==>
            self.alignment_start->0 - 1 + self.alignment_span->0 <= COORD_LIMIT)
    }

    /// Both coordinates needed for position resolution are present.
    pub open spec fn has_alignment_data(&self) -> bool {
        self.alignment_start is Some && self.alignment_span is Some
    }

    /// Strand of this read: `Reverse` iff the reverse-strand flag is set.
    pub open spec fn spec_strand(&self) -> Strand {
        if self.is_reverse_strand {
            Strand::Reverse
        } else {
            Strand::Forward
        }
    }
}

impl Clone for AlignedRead {
    fn clone(&self) -> (r: AlignedRead)
        ensures
            r == *self,
    {
        AlignedRead {
            chromosome_id: self.chromosome_id,
            alignment_start: self.alignment_start,
            alignment_span: self.alignment_span,
            is_unmapped: self.is_unmapped,
            is_reverse_strand: self.is_reverse_strand,
            is_first_segment: self.is_first_segment,
            name: self.name.clone(),
        }
    }
}

/// A read's representative coordinate and strand under some position policy.
#[derive(Clone, Copy, Debug, PartialEq, Eq, Structural)]
pub struct ResolvedLocus {
    /// 0-based position.
    pub position: u64,
    pub strand: Strand,
}

/// Output record for one input pair.
#[derive(Clone, Debug)]
pub struct ClassifiedPair {
    pub category: Category,
    /// Category-specific size or distance; absent for filtered pairs.
    pub size_or_distance: Option<u64>,
    /// Fragment assigned to the first input read, when unique.
    pub read1_fragment: Option<GenomicInterval>,
    /// Fragment assigned to the second input read, when unique.
    pub read2_fragment: Option<GenomicInterval>,
}

} // verus!
