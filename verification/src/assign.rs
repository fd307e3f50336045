//! Fragment Assigner: maps a read to the unique restriction fragment
//! containing its alignment midpoint, or signals absence or ambiguity; and
//! the per-pair driver combining assignment, classification and the size
//! metric into one output record.

use vstd::prelude::*;
use crate::model::{AlignedRead, Category, ClassifiedPair, EngineError, GenomicInterval, PositionPolicy};
use crate::index::{covers, num_matching, FragmentIndex};
use crate::locus::resolve;
use crate::classify::{classify, order_pair, precedes, spec_classify, spec_middle};
use crate::metrics::{measure, spec_measure};

verus! {

/// Outcome of assigning a read to a restriction fragment. Absence and
/// ambiguity are data-quality signals, never fatal.
#[derive(Clone, Debug)]
pub enum FragmentAssignment {
    /// Exactly one fragment contains the read's midpoint.
    Assigned(GenomicInterval),
    /// This many (more than one) fragments overlap the midpoint.
    Ambiguous(usize),
    /// No fragment covers the midpoint.
    Absent,
}

impl FragmentAssignment {
    /// The assignment as a result, naming the failure: more than one
    /// overlapping fragment is `AmbiguousFragmentAssignment`, none is
    /// `NoFragmentCoverage`. Both are recoverable; the pair they belong to
    /// is classified `Filtered`.
    pub fn into_result(self) -> (r: Result<GenomicInterval, EngineError>)
        ensures
            self matches FragmentAssignment::Assigned(f) ==> r == Ok::<GenomicInterval,
                EngineError,
            >(f),
            self matches FragmentAssignment::Ambiguous(k) ==> r == Err::<GenomicInterval,
                EngineError,
            >(EngineError::AmbiguousFragmentAssignment),
            self matches FragmentAssignment::Absent ==> r == Err::<GenomicInterval, EngineError>(
                EngineError::NoFragmentCoverage,
            ),
    {
        match self {
            FragmentAssignment::Assigned(f) => Ok(f),
            FragmentAssignment::Ambiguous(_) => Err(EngineError::AmbiguousFragmentAssignment),
            FragmentAssignment::Absent => Err(EngineError::NoFragmentCoverage),
        }
    }
}

/// Assigns a read to the fragment containing its alignment midpoint.
///
/// The index is queried for the single-base interval at the midpoint: zero
/// matches is `Absent`, exactly one is `Assigned` with that fragment, more
/// than one is `Ambiguous` with the count. Unmapped reads are filtered
/// upstream, so the read carries its alignment coordinates.
pub fn assign(index: &FragmentIndex, chromosome: &str, read: &AlignedRead) -> (r:
    FragmentAssignment)
    requires
        index.wf(),
        read.wf(),
        read.has_alignment_data(),
    ensures
        ({
            let p = spec_middle(*read) as u64;
            let m = num_matching(index@, chromosome@, p);
            &&& (r matches FragmentAssignment::Assigned(f) ==> m == 1 && covers(f, chromosome@, p)
                && index@.contains(f) && f.wf())
            &&& (m == 1 ==> r matches FragmentAssignment::Assigned(_))
            &&& ((r matches FragmentAssignment::Absent) <==> m == 0)
            &&& (r matches FragmentAssignment::Ambiguous(k) ==> m == k && k > 1)
            &&& (m > 1 ==> r matches FragmentAssignment::Ambiguous(_))
        }),
{
    let p = match resolve(read, PositionPolicy::Middle) {
        Ok(p) => p,
        Err(_) => {
            proof {
                assert(false);
            }
            return FragmentAssignment::Absent;
        },
    };
    let matches = index.query(chromosome, p);
    if matches.len() == 0 {
        FragmentAssignment::Absent
    } else if matches.len() == 1 {
        FragmentAssignment::Assigned(matches[0].clone())
    } else {
        FragmentAssignment::Ambiguous(matches.len())
    }
}

/// The fragment slot of the output record is faithful to the index: filled
/// exactly when one fragment contains the read's midpoint, and then with a
/// fragment of the index covering that midpoint.
pub open spec fn fragment_slot(
    frags: Seq<GenomicInterval>,
    c: Seq<char>,
    read: AlignedRead,
    f: Option<GenomicInterval>,
) -> bool {
    let p = spec_middle(read) as u64;
    &&& ((f is Some) <==> num_matching(frags, c, p) == 1)
    &&& (f matches Some(g) ==> covers(g, c, p) && frags.contains(g))
}

/// Processes one read pair end to end: assigns each read to a fragment by
/// its midpoint, classifies the pair, and derives the category's size
/// metric. `chrom1` and `chrom2` name the chromosomes the two reads aligned
/// to, as the index knows them.
pub fn process_pair(
    index: &FragmentIndex,
    chrom1: &str,
    chrom2: &str,
    read1: &AlignedRead,
    read2: &AlignedRead,
) -> (out: ClassifiedPair)
    requires
        index.wf(),
        read1.wf(),
        read2.wf(),
    ensures
        out.category == spec_classify(*read1, *read2, out.read1_fragment, out.read2_fragment),
        read1.has_alignment_data() ==> fragment_slot(
            index@,
            chrom1@,
            *read1,
            out.read1_fragment,
        ),
        !read1.has_alignment_data() ==> out.read1_fragment is None,
        read2.has_alignment_data() ==> fragment_slot(
            index@,
            chrom2@,
            *read2,
            out.read2_fragment,
        ),
        !read2.has_alignment_data() ==> out.read2_fragment is None,
        out.category == Category::Filtered ==> out.size_or_distance is None,
        out.category != Category::Filtered ==> ({
            let up_first = precedes(*read1, *read2);
            &&& (up_first ==> out.size_or_distance == spec_measure(
                *read1,
                *read2,
                out.read1_fragment->0,
                out.read2_fragment->0,
                out.category,
            ))
            &&& (!up_first ==> out.size_or_distance == spec_measure(
                *read2,
                *read1,
                out.read2_fragment->0,
                out.read1_fragment->0,
                out.category,
            ))
        }),
{
    let f1: Option<GenomicInterval> = if read1.alignment_start.is_some()
        && read1.alignment_span.is_some() {
        match assign(index, chrom1, read1) {
            FragmentAssignment::Assigned(g) => Some(g),
            _ => None,
        }
    } else {
        None
    };
    let f2: Option<GenomicInterval> = if read2.alignment_start.is_some()
        && read2.alignment_span.is_some() {
        match assign(index, chrom2, read2) {
            FragmentAssignment::Assigned(g) => Some(g),
            _ => None,
        }
    } else {
        None
    };
    let category = classify(read1, read2, &f1, &f2);
    let size_or_distance: Option<u64> = match category {
        Category::Filtered => None,
        _ => {
            let swapped = match order_pair(read1, read2) {
                Ok(s) => s,
                Err(_) => {
                    proof {
                        assert(false);
                    }
                    false
                },
            };
            match (&f1, &f2) {
                (Some(g1), Some(g2)) => {
                    if swapped {
                        measure(read2, read1, g2, g1, &category)
                    } else {
                        measure(read1, read2, g1, g2, &category)
                    }
                },
                _ => {
                    proof {
                        assert(false);
                    }
                    None
                },
            }
        },
    };
    ClassifiedPair { category, size_or_distance, read1_fragment: f1, read2_fragment: f2 }
}

} // verus!
