//! Pair Classifier: canonical ordering of a read pair, its strand pattern,
//! and the four-way classification against fragment identity and adjacency.

use vstd::prelude::*;
use crate::model::{AlignedRead, Category, EngineError, GenomicInterval, PositionPolicy, Strand,
    StrandPattern};
use crate::locus::{resolve, spec_resolve, strand_of};

verus! {

/// Midpoint of a read's alignment, the coordinate all pair-level decisions
/// are made on.
pub open spec fn spec_middle(read: AlignedRead) -> int {
    spec_resolve(read, PositionPolicy::Middle)
}

/// Both reads expose everything canonical ordering needs: a chromosome
/// identity and the coordinates of a midpoint.
pub open spec fn orderable(r1: AlignedRead, r2: AlignedRead) -> bool {
    &&& r1.chromosome_id is Some
    &&& r2.chromosome_id is Some
    &&& r1.has_alignment_data()
    &&& r2.has_alignment_data()
}

/// Canonical order: `r1` comes first when its chromosome identity is lower,
/// or on the same chromosome when its midpoint is not further right.
pub open spec fn precedes(r1: AlignedRead, r2: AlignedRead) -> bool {
    ||| r1.chromosome_id->0 < r2.chromosome_id->0
    ||| (r1.chromosome_id->0 == r2.chromosome_id->0 && spec_middle(r1) <= spec_middle(r2))
}

/// Both reads carry a chromosome identity and the identities are equal.
pub open spec fn same_chromosome(r1: AlignedRead, r2: AlignedRead) -> bool {
    r1.chromosome_id is Some && r2.chromosome_id is Some && r1.chromosome_id->0
        == r2.chromosome_id->0
}

/// Orientation signature of the canonically ordered pair `(up, down)`.
pub open spec fn spec_pattern(up: AlignedRead, down: AlignedRead) -> StrandPattern {
    match (up.spec_strand(), down.spec_strand()) {
        (Strand::Forward, Strand::Forward) => StrandPattern::FF,
        (Strand::Reverse, Strand::Reverse) => StrandPattern::RR,
        (Strand::Forward, Strand::Reverse) => StrandPattern::FR,
        (Strand::Reverse, Strand::Forward) => StrandPattern::RF,
    }
}

/// Pattern of the pair after canonical ordering, whatever order the two
/// reads were handed in.
pub open spec fn canonical_pattern(r1: AlignedRead, r2: AlignedRead) -> StrandPattern {
    if precedes(r1, r2) {
        spec_pattern(r1, r2)
    } else {
        spec_pattern(r2, r1)
    }
}

/// Two fragments are physically contiguous on the genome: same chromosome,
/// and one ends exactly where the other starts.
pub open spec fn adjacent(f1: GenomicInterval, f2: GenomicInterval) -> bool {
    f1.chromosome@ == f2.chromosome@ && (f1.end == f2.start || f2.end == f1.start)
}

/// Category of a canonically ordered pair `(up, down)` assigned to fragments
/// `(fup, fdown)`: the same-fragment strand test, then the adjacency test,
/// then valid by default.
pub open spec fn classify_ordered(
    up: AlignedRead,
    down: AlignedRead,
    fup: GenomicInterval,
    fdown: GenomicInterval,
) -> Category {
    if fup.same_as(&fdown) && same_chromosome(up, down) {
        match spec_pattern(up, down) {
            StrandPattern::RF => Category::DanglingEnd,
            StrandPattern::FR => Category::SelfCircle,
            _ => Category::Filtered,
        }
    } else if adjacent(fup, fdown) {
        Category::Religation
    } else {
        Category::ValidInteraction(spec_pattern(up, down))
    }
}

/// Category of a pair as handed in: `Filtered` when the pair cannot be
/// ordered or either fragment is absent, otherwise the classification of the
/// canonically ordered pair.
pub open spec fn spec_classify(
    r1: AlignedRead,
    r2: AlignedRead,
    f1: Option<GenomicInterval>,
    f2: Option<GenomicInterval>,
) -> Category {
    if !orderable(r1, r2) {
        Category::Filtered
    } else if f1 is None || f2 is None {
        Category::Filtered
    } else if precedes(r1, r2) {
        classify_ordered(r1, r2, f1->0, f2->0)
    } else {
        classify_ordered(r2, r1, f2->0, f1->0)
    }
}

/// Decides the canonical order of a pair by value comparison: chromosome
/// identity first, then midpoint. `Ok(true)` means the pair must be swapped
/// (the second read is the upstream one); fails with `UnorderablePair`
/// exactly when a chromosome identity or a midpoint is unresolvable.
pub fn order_pair(read1: &AlignedRead, read2: &AlignedRead) -> (r: Result<bool, EngineError>)
    requires
        read1.wf(),
        read2.wf(),
    ensures
        orderable(*read1, *read2) ==> r == Ok::<bool, EngineError>(!precedes(*read1, *read2)),
        !orderable(*read1, *read2) ==> r == Err::<bool, EngineError>(EngineError::UnorderablePair),
{
    match (read1.chromosome_id, read2.chromosome_id) {
        (Some(tid1), Some(tid2)) => {
            let m1 = match resolve(read1, PositionPolicy::Middle) {
                Ok(m) => m,
                Err(_) => { return Err(EngineError::UnorderablePair) },
            };
            let m2 = match resolve(read2, PositionPolicy::Middle) {
                Ok(m) => m,
                Err(_) => { return Err(EngineError::UnorderablePair) },
            };
            if tid1 < tid2 {
                Ok(false)
            } else if tid1 > tid2 {
                Ok(true)
            } else {
                Ok(!(m1 <= m2))
            }
        },
        _ => Err(EngineError::UnorderablePair),
    }
}

/// Whether the two reads aligned to one chromosome: both carry a chromosome
/// identity and the identities are equal.
pub fn on_same_chromosome(read1: &AlignedRead, read2: &AlignedRead) -> (r: bool)
    ensures
        r == same_chromosome(*read1, *read2),
{
    match (read1.chromosome_id, read2.chromosome_id) {
        (Some(a), Some(b)) => a == b,
        _ => false,
    }
}

/// Strand pattern of a canonically ordered pair.
pub fn strand_pattern(up: &AlignedRead, down: &AlignedRead) -> (r: StrandPattern)
    ensures
        r == spec_pattern(*up, *down),
{
    match (strand_of(up), strand_of(down)) {
        (Strand::Forward, Strand::Forward) => StrandPattern::FF,
        (Strand::Reverse, Strand::Reverse) => StrandPattern::RR,
        (Strand::Forward, Strand::Reverse) => StrandPattern::FR,
        (Strand::Reverse, Strand::Forward) => StrandPattern::RF,
    }
}

/// Whether two fragments are equal by coordinates: same chromosome name,
/// same start, same end.
pub fn fragments_equal(f1: &GenomicInterval, f2: &GenomicInterval) -> (r: bool)
    ensures
        r == f1.same_as(f2),
{
    f1.chromosome == f2.chromosome && f1.start == f2.start && f1.end == f2.end
}

/// Whether two fragments are physically contiguous on the genome.
pub fn fragments_adjacent(f1: &GenomicInterval, f2: &GenomicInterval) -> (r: bool)
    ensures
        r == adjacent(*f1, *f2),
{
    f1.chromosome == f2.chromosome && (f1.end == f2.start || f2.end == f1.start)
}

/// Classifies a read pair with its per-read fragment assignments.
///
/// The pair is first ordered canonically; an unorderable pair or an absent
/// fragment yields `Filtered`. Two reads of one chromosome on one fragment
/// are tested for the artifact orientations (`RF` a dangling end, `FR` a
/// self-circle, anything else filtered); distinct adjacent fragments are a
/// religation whatever the orientation; anything else is a valid interaction
/// tagged with the pair's strand pattern.
pub fn classify(
    read1: &AlignedRead,
    read2: &AlignedRead,
    frag1: &Option<GenomicInterval>,
    frag2: &Option<GenomicInterval>,
) -> (c: Category)
    requires
        read1.wf(),
        read2.wf(),
    ensures
        c == spec_classify(*read1, *read2, *frag1, *frag2),
{
    let swapped = match order_pair(read1, read2) {
        Ok(s) => s,
        Err(_) => { return Category::Filtered },
    };
    match (frag1, frag2) {
        (Some(g1), Some(g2)) => {
            let (up, down, fup, fdown) = if swapped {
                (read2, read1, g2, g1)
            } else {
                (read1, read2, g1, g2)
            };
            let same_chrom = match (up.chromosome_id, down.chromosome_id) {
                (Some(a), Some(b)) => a == b,
                _ => false,
            };
            if fragments_equal(fup, fdown) && same_chrom {
                match strand_pattern(up, down) {
                    StrandPattern::RF => Category::DanglingEnd,
                    StrandPattern::FR => Category::SelfCircle,
                    _ => Category::Filtered,
                }
            } else if fragments_adjacent(fup, fdown) {
                Category::Religation
            } else {
                Category::ValidInteraction(strand_pattern(up, down))
            }
        },
        _ => Category::Filtered,
    }
}

/// Classification is symmetric under swapping `(read1, frag1)` with
/// `(read2, frag2)`: canonical ordering neutralizes the input order.
///
/// Excluded are exact ties — two reads of one chromosome with one midpoint —
/// whose strands differ: there no canonical order exists and either reading
/// of the pair is legitimate.
pub proof fn lemma_classify_symmetric(
    r1: AlignedRead,
    r2: AlignedRead,
    f1: Option<GenomicInterval>,
    f2: Option<GenomicInterval>,
)
    requires
        (orderable(r1, r2) && same_chromosome(r1, r2) && spec_middle(r1) == spec_middle(r2))
            ==> r1.is_reverse_strand == r2.is_reverse_strand,
    ensures
        spec_classify(r1, r2, f1, f2) == spec_classify(r2, r1, f2, f1),
{
}

/// Same-fragment pairs of one chromosome classify by orientation alone:
/// `RF` is always a dangling end, `FR` always a self-circle, and `FF` or
/// `RR` is always filtered.
pub proof fn lemma_same_fragment_categories(
    r1: AlignedRead,
    r2: AlignedRead,
    g1: GenomicInterval,
    g2: GenomicInterval,
)
    requires
        orderable(r1, r2),
        same_chromosome(r1, r2),
        g1.same_as(&g2),
    ensures
        canonical_pattern(r1, r2) == StrandPattern::RF ==> spec_classify(
            r1,
            r2,
            Some(g1),
            Some(g2),
        ) == Category::DanglingEnd,
        canonical_pattern(r1, r2) == StrandPattern::FR ==> spec_classify(
            r1,
            r2,
            Some(g1),
            Some(g2),
        ) == Category::SelfCircle,
        canonical_pattern(r1, r2) == StrandPattern::FF || canonical_pattern(r1, r2)
            == StrandPattern::RR ==> spec_classify(r1, r2, Some(g1), Some(g2))
            == Category::Filtered,
{
}

/// Adjacent but distinct fragments always yield a religation, irrespective
/// of the strand pattern.
pub proof fn lemma_adjacent_religation(
    r1: AlignedRead,
    r2: AlignedRead,
    g1: GenomicInterval,
    g2: GenomicInterval,
)
    requires
        orderable(r1, r2),
        !g1.same_as(&g2),
        adjacent(g1, g2),
    ensures
        spec_classify(r1, r2, Some(g1), Some(g2)) == Category::Religation,
{
}

/// Distinct, non-adjacent fragments — on one chromosome or on two — always
/// yield a valid interaction whose sub-category is the pair's canonical
/// strand pattern.
pub proof fn lemma_distinct_valid_interaction(
    r1: AlignedRead,
    r2: AlignedRead,
    g1: GenomicInterval,
    g2: GenomicInterval,
)
    requires
        orderable(r1, r2),
        !g1.same_as(&g2),
        !adjacent(g1, g2),
    ensures
        spec_classify(r1, r2, Some(g1), Some(g2)) == Category::ValidInteraction(
            canonical_pattern(r1, r2),
        ),
{
}

} // verus!
