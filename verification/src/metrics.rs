//! Metric Calculator: category-specific sizes and distances derived from
//! resolved loci and fragment boundaries. Every subtraction saturates at
//! zero, so no coordinate relationship can underflow.

use vstd::prelude::*;
use crate::model::{AlignedRead, Category, GenomicInterval};
use crate::classify::{same_chromosome, spec_middle};
use crate::locus::resolve;
use crate::model::PositionPolicy;

verus! {

/// Subtraction clamped at zero.
pub open spec fn sat_sub(a: int, b: int) -> int {
    if a >= b {
        a - b
    } else {
        0
    }
}

/// Distance from a read's midpoint to the boundary of its fragment that lies
/// in the direction the read points: the fragment end for a forward read,
/// the fragment start for a reverse read.
pub open spec fn spec_directed_distance(read: AlignedRead, frag: GenomicInterval) -> int {
    if read.is_reverse_strand {
        sat_sub(spec_middle(read), frag.start as int)
    } else {
        sat_sub(frag.end as int, spec_middle(read))
    }
}

/// The size metric of a canonically ordered, fragment-assigned pair:
/// - dangling end / religation: the cis span between the two midpoints;
/// - self-circle: each read's distance to its own fragment's far boundary,
///   summed;
/// - valid interaction: each read's directed distance to its fragment
///   boundary, summed;
/// - filtered: absent.
pub open spec fn spec_measure(
    up: AlignedRead,
    down: AlignedRead,
    fup: GenomicInterval,
    fdown: GenomicInterval,
    category: Category,
) -> Option<u64> {
    match category {
        Category::DanglingEnd | Category::Religation => Some(
            sat_sub(spec_middle(down), spec_middle(up)) as u64,
        ),
        Category::SelfCircle => Some(
            (sat_sub(spec_middle(up), fup.start as int) + sat_sub(
                fdown.end as int,
                spec_middle(down),
            )) as u64,
        ),
        Category::ValidInteraction(_) => Some(
            (spec_directed_distance(up, fup) + spec_directed_distance(down, fdown)) as u64,
        ),
        Category::Filtered => None,
    }
}

/// The plain cis contact distance: the absolute difference of the two
/// midpoints when both reads are mapped on one chromosome, absent otherwise
/// (or when a midpoint cannot be resolved).
pub open spec fn spec_cis_distance(r1: AlignedRead, r2: AlignedRead) -> Option<u64> {
    if !r1.is_unmapped && !r2.is_unmapped && same_chromosome(r1, r2) && r1.has_alignment_data()
        && r2.has_alignment_data() {
        if spec_middle(r1) >= spec_middle(r2) {
            Some((spec_middle(r1) - spec_middle(r2)) as u64)
        } else {
            Some((spec_middle(r2) - spec_middle(r1)) as u64)
        }
    } else {
        None
    }
}

/// `u64` subtraction clamped at zero.
pub fn saturating_sub_u64(a: u64, b: u64) -> (r: u64)
    ensures
        r == sat_sub(a as int, b as int),
{
    if a >= b {
        a - b
    } else {
        0
    }
}

/// Computes the size metric of a canonically ordered pair `(up, down)`
/// assigned to fragments `(fup, fdown)` under `category`.
pub fn measure(
    up: &AlignedRead,
    down: &AlignedRead,
    fup: &GenomicInterval,
    fdown: &GenomicInterval,
    category: &Category,
) -> (r: Option<u64>)
    requires
        up.wf(),
        down.wf(),
        fup.wf(),
        fdown.wf(),
        up.has_alignment_data(),
        down.has_alignment_data(),
    ensures
        r == spec_measure(*up, *down, *fup, *fdown, *category),
{
    let pu = match resolve(up, PositionPolicy::Middle) {
        Ok(p) => p,
        Err(_) => { return None },
    };
    let pd = match resolve(down, PositionPolicy::Middle) {
        Ok(p) => p,
        Err(_) => { return None },
    };
    match category {
        Category::DanglingEnd | Category::Religation => Some(saturating_sub_u64(pd, pu)),
        Category::SelfCircle => {
            let d1 = saturating_sub_u64(pu, fup.start);
            let d2 = saturating_sub_u64(fdown.end, pd);
            Some(d1 + d2)
        },
        Category::ValidInteraction(_) => {
            let d1 = if up.is_reverse_strand {
                saturating_sub_u64(pu, fup.start)
            } else {
                saturating_sub_u64(fup.end, pu)
            };
            let d2 = if down.is_reverse_strand {
                saturating_sub_u64(pd, fdown.start)
            } else {
                saturating_sub_u64(fdown.end, pd)
            };
            Some(d1 + d2)
        },
        Category::Filtered => None,
    }
}

/// Computes the plain cis contact distance of a pair, independent of its
/// category, for downstream quality control.
pub fn cis_distance(read1: &AlignedRead, read2: &AlignedRead) -> (r: Option<u64>)
    requires
        read1.wf(),
        read2.wf(),
    ensures
        r == spec_cis_distance(*read1, *read2),
{
    if read1.is_unmapped || read2.is_unmapped {
        return None;
    }
    let same = match (read1.chromosome_id, read2.chromosome_id) {
        (Some(a), Some(b)) => a == b,
        _ => false,
    };
    if !same {
        return None;
    }
    let m1 = match resolve(read1, PositionPolicy::Middle) {
        Ok(p) => p,
        Err(_) => { return None },
    };
    let m2 = match resolve(read2, PositionPolicy::Middle) {
        Ok(p) => p,
        Err(_) => { return None },
    };
    if m1 >= m2 {
        Some(m1 - m2)
    } else {
        Some(m2 - m1)
    }
}

/// Every size the Metric Calculator yields is non-negative, whatever the
/// coordinate relationships of its inputs: each difference saturates at
/// zero, and sums of non-negative terms stay non-negative.
pub proof fn lemma_measure_nonnegative(
    up: AlignedRead,
    down: AlignedRead,
    fup: GenomicInterval,
    fdown: GenomicInterval,
    category: Category,
)
    ensures
        spec_measure(up, down, fup, fdown, category) matches Some(v) ==> v >= 0,
        spec_cis_distance(up, down) matches Some(v) ==> v >= 0,
{
}

} // verus!
