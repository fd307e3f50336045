use hic2frag::assign::{assign, process_pair, FragmentAssignment};
use hic2frag::classify::{classify, on_same_chromosome, order_pair, strand_pattern};
use hic2frag::index::FragmentIndex;
use hic2frag::locus::{resolve, resolve_locus, strand_of};
use hic2frag::metrics::{cis_distance, measure, saturating_sub_u64};
use hic2frag::model::{
    AlignedRead, Category, EngineError, GenomicInterval, PositionPolicy, Strand, StrandPattern,
};

fn frag(chromosome: &str, start: u64, end: u64) -> GenomicInterval {
    GenomicInterval { chromosome: chromosome.to_string(), start, end }
}

fn read(chrom_id: u64, start: u64, span: u64, reverse: bool) -> AlignedRead {
    AlignedRead {
        chromosome_id: Some(chrom_id),
        alignment_start: Some(start),
        alignment_span: Some(span),
        is_unmapped: false,
        is_reverse_strand: reverse,
        is_first_segment: true,
        name: "r".to_string(),
    }
}

// A read whose alignment midpoint is `mid` on the forward computation
// (start - 1) + span / 2 with span 20.
fn read_at(chrom_id: u64, mid: u64, reverse: bool) -> AlignedRead {
    read(chrom_id, mid - 9, 20, reverse)
}

#[test]
fn resolve_left_is_zero_based_start() {
    let r = read(0, 101, 50, false);
    assert_eq!(resolve(&r, PositionPolicy::Left), Ok(100));
}

#[test]
fn resolve_middle_is_midpoint() {
    let r = read(0, 101, 50, false);
    assert_eq!(resolve(&r, PositionPolicy::Middle), Ok(125));
}

#[test]
fn resolve_start_is_five_prime_end() {
    let fwd = read(0, 101, 50, false);
    let rev = read(0, 101, 50, true);
    assert_eq!(resolve(&fwd, PositionPolicy::Start), Ok(100));
    assert_eq!(resolve(&rev, PositionPolicy::Start), Ok(149));
}

#[test]
fn resolve_missing_span_is_error() {
    let mut r = read(0, 101, 50, false);
    r.alignment_span = None;
    assert_eq!(resolve(&r, PositionPolicy::Middle), Err(EngineError::MissingAlignmentData));
    let mut r2 = read(0, 101, 50, false);
    r2.alignment_start = None;
    assert_eq!(resolve(&r2, PositionPolicy::Left), Err(EngineError::MissingAlignmentData));
}

#[test]
fn resolve_locus_carries_strand() {
    let r = read(0, 101, 50, true);
    let locus = resolve_locus(&r, PositionPolicy::Middle).unwrap();
    assert_eq!(locus.position, 125);
    assert_eq!(locus.strand, Strand::Reverse);
    assert_eq!(strand_of(&read(0, 1, 1, false)), Strand::Forward);
}

#[test]
fn query_is_sound_and_complete() {
    let frags = vec![frag("chr1", 0, 100), frag("chr1", 100, 250), frag("chr2", 0, 50)];
    let index = FragmentIndex::build(frags);
    let hits = index.query("chr1", 99);
    assert_eq!(hits.len(), 1);
    assert_eq!(hits[0].start, 0);
    assert_eq!(hits[0].end, 100);
    // The boundary point 100 lies only in the second, half-open fragment.
    let hits = index.query("chr1", 100);
    assert_eq!(hits.len(), 1);
    assert_eq!(hits[0].start, 100);
    assert_eq!(hits[0].end, 250);
    assert_eq!(hits[0].chromosome, "chr1");
    let hits = index.query("chr2", 10);
    assert_eq!(hits.len(), 1);
    assert_eq!(hits[0].end, 50);
    assert_eq!(index.query("chr1", 250).len(), 0);
    assert_eq!(index.query("chr3", 10).len(), 0);
}

#[test]
fn assign_unique_overlap() {
    let index = FragmentIndex::build(vec![frag("chr1", 0, 100), frag("chr1", 100, 250)]);
    let r = read_at(0, 40, false);
    match assign(&index, "chr1", &r) {
        FragmentAssignment::Assigned(f) => {
            assert_eq!(f.start, 0);
            assert_eq!(f.end, 100);
        },
        other => panic!("expected an assignment, got {:?}", other),
    }
}

#[test]
fn assign_ambiguous_overlap() {
    // Two overlapping fragment definitions both contain the midpoint 60.
    let index = FragmentIndex::build(vec![frag("chr1", 0, 100), frag("chr1", 50, 150)]);
    let r = read_at(0, 60, false);
    assert!(matches!(assign(&index, "chr1", &r), FragmentAssignment::Ambiguous(2)));
}

#[test]
fn assign_no_coverage() {
    let index = FragmentIndex::build(vec![frag("chr1", 0, 100)]);
    assert!(matches!(assign(&index, "chr1", &read_at(0, 300, false)), FragmentAssignment::Absent));
    assert!(matches!(assign(&index, "chrX", &read_at(0, 40, false)), FragmentAssignment::Absent));
}

#[test]
fn assignment_failures_name_their_error() {
    let index = FragmentIndex::build(vec![frag("chr1", 0, 100), frag("chr1", 50, 150)]);
    let ambiguous = assign(&index, "chr1", &read_at(0, 60, false));
    assert_eq!(ambiguous.into_result().unwrap_err(), EngineError::AmbiguousFragmentAssignment);
    let absent = assign(&index, "chr1", &read_at(0, 400, false));
    assert_eq!(absent.into_result().unwrap_err(), EngineError::NoFragmentCoverage);
    let assigned = assign(&index, "chr1", &read_at(0, 20, false));
    let f = assigned.into_result().unwrap();
    assert_eq!((f.start, f.end), (0, 100));
}

#[test]
fn religation_example() {
    // Fragment A=[0,100) and B=[100,250) on chr1; read1 at middle 40 Forward
    // on A, read2 at middle 120 Reverse on B: adjacent, FR, Religation, 80.
    let index = FragmentIndex::build(vec![frag("chr1", 0, 100), frag("chr1", 100, 250)]);
    let r1 = read_at(0, 40, false);
    let r2 = read_at(0, 120, true);
    let out = process_pair(&index, "chr1", "chr1", &r1, &r2);
    assert_eq!(out.category, Category::Religation);
    assert_eq!(out.size_or_distance, Some(80));
    let f1 = out.read1_fragment.unwrap();
    assert_eq!((f1.start, f1.end), (0, 100));
    let f2 = out.read2_fragment.unwrap();
    assert_eq!((f2.start, f2.end), (100, 250));
}

#[test]
fn classification_is_input_order_independent() {
    let index = FragmentIndex::build(vec![frag("chr1", 0, 100), frag("chr1", 100, 250)]);
    let r1 = read_at(0, 40, false);
    let r2 = read_at(0, 120, true);
    let a = process_pair(&index, "chr1", "chr1", &r1, &r2);
    let b = process_pair(&index, "chr1", "chr1", &r2, &r1);
    assert_eq!(a.category, b.category);
    assert_eq!(a.size_or_distance, b.size_or_distance);
}

#[test]
fn dangling_end_example() {
    // Single fragment [500,900); read1 at 520 Reverse, read2 at 860 Forward:
    // pattern RF on one fragment is a dangling end of size 340.
    let index = FragmentIndex::build(vec![frag("chr1", 500, 900)]);
    let r1 = read_at(0, 520, true);
    let r2 = read_at(0, 860, false);
    let out = process_pair(&index, "chr1", "chr1", &r1, &r2);
    assert_eq!(out.category, Category::DanglingEnd);
    assert_eq!(out.size_or_distance, Some(340));
}

#[test]
fn self_circle_example() {
    // Outward orientation FR on a single fragment: a self-circle whose size
    // sums each read's distance to its fragment's far boundary.
    let index = FragmentIndex::build(vec![frag("chr1", 500, 900)]);
    let r1 = read_at(0, 520, false);
    let r2 = read_at(0, 860, true);
    let out = process_pair(&index, "chr1", "chr1", &r1, &r2);
    assert_eq!(out.category, Category::SelfCircle);
    assert_eq!(out.size_or_distance, Some(20 + 40));
}

#[test]
fn same_fragment_parallel_strands_filtered() {
    let index = FragmentIndex::build(vec![frag("chr1", 500, 900)]);
    let out = process_pair(&index, "chr1", "chr1", &read_at(0, 520, false), &read_at(0, 860, false));
    assert_eq!(out.category, Category::Filtered);
    assert_eq!(out.size_or_distance, None);
    let out = process_pair(&index, "chr1", "chr1", &read_at(0, 520, true), &read_at(0, 860, true));
    assert_eq!(out.category, Category::Filtered);
}

#[test]
fn ambiguous_assignment_filters_pair() {
    // A read whose locus overlaps two distinct fragments cannot be assigned:
    // the pair is filtered with no size.
    let index = FragmentIndex::build(vec![frag("chr1", 0, 100), frag("chr1", 50, 150)]);
    let r1 = read_at(0, 60, false);
    let r2 = read_at(0, 60, true);
    let out = process_pair(&index, "chr1", "chr1", &r1, &r2);
    assert_eq!(out.category, Category::Filtered);
    assert_eq!(out.size_or_distance, None);
    assert!(out.read1_fragment.is_none());
    assert!(out.read2_fragment.is_none());
}

#[test]
fn valid_interaction_across_chromosomes() {
    let index = FragmentIndex::build(vec![frag("chr1", 0, 100), frag("chr2", 200, 300)]);
    let r1 = read_at(0, 40, false);
    let r2 = read_at(1, 250, true);
    let out = process_pair(&index, "chr1", "chr2", &r1, &r2);
    assert_eq!(out.category, Category::ValidInteraction(StrandPattern::FR));
    // Forward read: distance to fragment end (60); reverse read: distance to
    // fragment start (50).
    assert_eq!(out.size_or_distance, Some(110));
}

#[test]
fn valid_interaction_nonadjacent_same_chromosome() {
    let index = FragmentIndex::build(vec![frag("chr1", 0, 100), frag("chr1", 150, 300)]);
    let r1 = read_at(0, 40, true);
    let r2 = read_at(0, 250, true);
    let out = process_pair(&index, "chr1", "chr1", &r1, &r2);
    assert_eq!(out.category, Category::ValidInteraction(StrandPattern::RR));
    // Both reverse: each read's distance to its fragment start.
    assert_eq!(out.size_or_distance, Some(40 + 100));
}

#[test]
fn unorderable_pair_is_filtered() {
    let index = FragmentIndex::build(vec![frag("chr1", 0, 100)]);
    let mut r1 = read_at(0, 40, false);
    r1.chromosome_id = None;
    let r2 = read_at(0, 60, true);
    let out = process_pair(&index, "chr1", "chr1", &r1, &r2);
    assert_eq!(out.category, Category::Filtered);
    assert_eq!(out.size_or_distance, None);
    assert_eq!(order_pair(&r1, &r2), Err(EngineError::UnorderablePair));
}

#[test]
fn order_pair_by_chromosome_then_position() {
    assert_eq!(order_pair(&read_at(0, 40, false), &read_at(1, 10, false)), Ok(false));
    assert_eq!(order_pair(&read_at(1, 10, false), &read_at(0, 40, false)), Ok(true));
    assert_eq!(order_pair(&read_at(0, 120, false), &read_at(0, 40, false)), Ok(true));
    assert_eq!(order_pair(&read_at(0, 40, false), &read_at(0, 40, true)), Ok(false));
}

#[test]
fn same_chromosome_compares_the_two_identities() {
    assert!(on_same_chromosome(&read_at(3, 10, false), &read_at(3, 40, true)));
    assert!(!on_same_chromosome(&read_at(3, 10, false), &read_at(4, 40, true)));
    let mut r = read_at(3, 10, false);
    r.chromosome_id = None;
    assert!(!on_same_chromosome(&r, &read_at(3, 40, true)));
}

#[test]
fn strand_pattern_of_ordered_reads() {
    assert_eq!(strand_pattern(&read_at(0, 1, false), &read_at(0, 2, false)), StrandPattern::FF);
    assert_eq!(strand_pattern(&read_at(0, 1, true), &read_at(0, 2, true)), StrandPattern::RR);
    assert_eq!(strand_pattern(&read_at(0, 1, false), &read_at(0, 2, true)), StrandPattern::FR);
    assert_eq!(strand_pattern(&read_at(0, 1, true), &read_at(0, 2, false)), StrandPattern::RF);
}

#[test]
fn classify_absent_fragment_is_filtered() {
    let r1 = read_at(0, 40, false);
    let r2 = read_at(0, 120, true);
    let f = Some(frag("chr1", 0, 100));
    assert_eq!(classify(&r1, &r2, &f, &None), Category::Filtered);
    assert_eq!(classify(&r1, &r2, &None, &None), Category::Filtered);
}

#[test]
fn measure_saturates_at_zero() {
    // A dangling-end span measured against the canonical order can never
    // underflow: a reversed coordinate relationship clamps to zero.
    let f = frag("chr1", 500, 900);
    let up = read_at(0, 860, true);
    let down = read_at(0, 520, false);
    let size = measure(&up, &down, &f, &f, &Category::DanglingEnd);
    assert_eq!(size, Some(0));
    assert_eq!(saturating_sub_u64(3, 10), 0);
    assert_eq!(saturating_sub_u64(10, 3), 7);
}

#[test]
fn measure_filtered_is_absent() {
    let f = frag("chr1", 500, 900);
    assert_eq!(
        measure(&read_at(0, 520, false), &read_at(0, 860, false), &f, &f, &Category::Filtered),
        None
    );
}

#[test]
fn cis_distance_same_chromosome_only() {
    let r1 = read_at(0, 40, false);
    let r2 = read_at(0, 120, true);
    assert_eq!(cis_distance(&r1, &r2), Some(80));
    assert_eq!(cis_distance(&r2, &r1), Some(80));
    let r3 = read_at(1, 120, true);
    assert_eq!(cis_distance(&r1, &r3), None);
    let mut unmapped = read_at(0, 120, false);
    unmapped.is_unmapped = true;
    assert_eq!(cis_distance(&r1, &unmapped), None);
}

#[test]
fn build_groups_interleaved_chromosomes() {
    let index = FragmentIndex::build(vec![
        frag("chr1", 0, 100),
        frag("chr2", 0, 100),
        frag("chr1", 100, 200),
        frag("chr2", 100, 180),
    ]);
    let hits = index.query("chr1", 150);
    assert_eq!(hits.len(), 1);
    assert_eq!((hits[0].start, hits[0].end), (100, 200));
    let hits = index.query("chr2", 150);
    assert_eq!(hits.len(), 1);
    assert_eq!((hits[0].start, hits[0].end), (100, 180));
    assert_eq!(index.query("chr2", 180).len(), 0);
}

#[test]
fn build_keeps_every_fragment_per_chromosome() {
    // Duplicate fragment definitions are kept, not deduplicated: a point in
    // both copies reports an ambiguous (two-fold) match.
    let index = FragmentIndex::build(vec![frag("chr1", 0, 100), frag("chr1", 0, 100)]);
    assert_eq!(index.query("chr1", 50).len(), 2);
    let empty = FragmentIndex::build(Vec::new());
    assert_eq!(empty.query("chr1", 0).len(), 0);
}
