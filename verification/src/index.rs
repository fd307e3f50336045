//! Fragment Index: a per-chromosome interval-overlap structure over the
//! restriction fragments, built once and queried read-only afterwards.
//!
//! The overlap structure itself is `bed_utils`'s `Lapper`; the index stores
//! one per chromosome, holding for each interval the position of its
//! fragment in the fragment list. What a `Lapper` holds is modelled by the
//! uninterpreted `lapper_contents`, and everything else about the index is
//! verified against that model.

use vstd::prelude::*;
use vstd::multiset::Multiset;
use bed_utils::intervaltree::{Interval, Lapper};
use crate::model::GenomicInterval;

verus! {

broadcast use vstd::seq_lib::group_to_multiset_ensures;

#[verifier::external_type_specification]
#[verifier::external_body]
#[verifier::reject_recursive_types(I)]
#[verifier::reject_recursive_types(T)]
pub struct ExLapper<I, T>(Lapper<I, T>);

/// The intervals a `Lapper` holds, each a `(start, stop, value)` triple.
pub uninterp spec fn lapper_contents(l: Lapper<u64, usize>) -> Multiset<(u64, u64, usize)>;

/// Relies on `bed_utils`'s `Lapper::new`: it sorts the given intervals and
/// keeps every one of them, so the built structure holds exactly the
/// intervals it was given.
#[verifier::external_body]
fn lapper_new(intervals: Vec<(u64, u64, usize)>) -> (l: Lapper<u64, usize>)
    ensures
        lapper_contents(l) == intervals@.to_multiset(),
{
    Lapper::new(
        intervals.into_iter().map(|(start, stop, val)| Interval { start, stop, val }).collect(),
    )
}

/// Relies on `bed_utils`'s `Lapper::find`: it yields exactly the stored
/// intervals overlapping the half-open query range `[start, stop)`, i.e.
/// those with `interval.start < stop && interval.stop > start`.
#[verifier::external_body]
fn lapper_find(l: &Lapper<u64, usize>, start: u64, stop: u64) -> (r: Vec<(u64, u64, usize)>)
    ensures
        forall|t: (u64, u64, usize)| #[trigger] r@.to_multiset().count(t) == (if t.0 < stop && t.1
            > start {
            lapper_contents(*l).count(t)
        } else {
            0nat
        }),
{
    l.find(start, stop).map(|iv| (iv.start, iv.stop, iv.val)).collect()
}

/// The name `c` occurs among the chromosome names `chroms`.
pub open spec fn has_chrom(chroms: Seq<String>, c: Seq<char>) -> bool {
    exists|i: int| 0 <= i < chroms.len() && (#[trigger] chroms[i])@ == c
}

/// Every fragment's chromosome occurs among `chroms`.
pub open spec fn chroms_cover(frags: Seq<GenomicInterval>, chroms: Seq<String>) -> bool {
    forall|k: int| 0 <= k < frags.len() ==> has_chrom(chroms, (#[trigger] frags[k]).chromosome@)
}

/// A name present among some chromosome names stays present when one more
/// name is appended.
proof fn lemma_has_chrom_push(chroms: Seq<String>, x: String, c: Seq<char>)
    requires
        has_chrom(chroms, c),
    ensures
        has_chrom(chroms.push(x), c),
{
    let w = choose|w: int| 0 <= w < chroms.len() && (#[trigger] chroms[w])@ == c;
    assert(chroms.push(x)[w]@ == c);
}

/// Fragment `f` lies on chromosome `c` and contains the point `p`.
pub open spec fn covers(f: GenomicInterval, c: Seq<char>, p: u64) -> bool {
    f.chromosome@ == c && f.start <= p < f.end
}

/// The interval triples of the first `n` fragments that lie on chromosome
/// `c`: one `(start, end, position)` triple per such fragment.
pub open spec fn chrom_triples(frags: Seq<GenomicInterval>, c: Seq<char>, n: int) -> Multiset<
    (u64, u64, usize),
>
    decreases n,
{
    if n <= 0 {
        Multiset::empty()
    } else if frags[n - 1].chromosome@ == c {
        chrom_triples(frags, c, n - 1).insert(
            (frags[n - 1].start, frags[n - 1].end, (n - 1) as usize),
        )
    } else {
        chrom_triples(frags, c, n - 1)
    }
}

/// The interval triples of the first `n` fragments that lie on chromosome
/// `c` and contain the point `p`.
pub open spec fn matching_triples(
    frags: Seq<GenomicInterval>,
    c: Seq<char>,
    p: u64,
    n: int,
) -> Multiset<(u64, u64, usize)>
    decreases n,
{
    if n <= 0 {
        Multiset::empty()
    } else if covers(frags[n - 1], c, p) {
        matching_triples(frags, c, p, n - 1).insert(
            (frags[n - 1].start, frags[n - 1].end, (n - 1) as usize),
        )
    } else {
        matching_triples(frags, c, p, n - 1)
    }
}

/// How many fragments lie on chromosome `c` and contain the point `p`.
pub open spec fn num_matching(frags: Seq<GenomicInterval>, c: Seq<char>, p: u64) -> nat {
    matching_triples(frags, c, p, frags.len() as int).len()
}

/// Pointwise multiplicity of `chrom_triples`: a triple occurs once when it
/// is the triple of a fragment on `c` among the first `n`, never otherwise.
proof fn lemma_chrom_triples_count(
    frags: Seq<GenomicInterval>,
    c: Seq<char>,
    n: int,
    t: (u64, u64, usize),
)
    requires
        0 <= n <= frags.len(),
        n <= usize::MAX,
    ensures
        chrom_triples(frags, c, n).count(t) == (if t.2 < n && frags[t.2 as int].chromosome@ == c
            && t.0 == frags[t.2 as int].start && t.1 == frags[t.2 as int].end {
            1nat
        } else {
            0nat
        }),
    decreases n,
{
    if n > 0 {
        lemma_chrom_triples_count(frags, c, n - 1, t);
    }
}

/// Pointwise multiplicity of `matching_triples`: a triple occurs once when
/// it is the triple of a fragment among the first `n` that covers `p` on
/// `c`, never otherwise.
proof fn lemma_matching_triples_count(
    frags: Seq<GenomicInterval>,
    c: Seq<char>,
    p: u64,
    n: int,
    t: (u64, u64, usize),
)
    requires
        0 <= n <= frags.len(),
        n <= usize::MAX,
    ensures
        matching_triples(frags, c, p, n).count(t) == (if t.2 < n && covers(
            frags[t.2 as int],
            c,
            p,
        ) && t.0 == frags[t.2 as int].start && t.1 == frags[t.2 as int].end {
            1nat
        } else {
            0nat
        }),
    decreases n,
{
    if n > 0 {
        lemma_matching_triples_count(frags, c, p, n - 1, t);
    }
}

/// On a chromosome where no fragment covers `p`, nothing matches.
proof fn lemma_no_cover_no_matching(frags: Seq<GenomicInterval>, c: Seq<char>, p: u64, n: int)
    requires
        0 <= n <= frags.len(),
        forall|j: int| 0 <= j < n ==> !covers(#[trigger] frags[j], c, p),
    ensures
        matching_triples(frags, c, p, n).len() == 0,
    decreases n,
{
    if n > 0 {
        lemma_no_cover_no_matching(frags, c, p, n - 1);
    }
}

/// Mapping from chromosome to an interval-overlap structure over the
/// restriction fragments of that chromosome. Built once from the full
/// fragment set; read-only afterwards.
pub struct FragmentIndex {
    fragments: Vec<GenomicInterval>,
    chroms: Vec<String>,
    lappers: Vec<Lapper<u64, usize>>,
}

impl View for FragmentIndex {
    type V = Seq<GenomicInterval>;

    /// The index abstracts to the sequence of fragments it was built from.
    closed spec fn view(&self) -> Seq<GenomicInterval> {
        self.fragments@
    }
}

impl FragmentIndex {
    /// Internal consistency: every fragment is well formed and appears, with
    /// its position, in the overlap structure of its own chromosome, and in
    /// no other.
    pub closed spec fn wf(&self) -> bool {
        &&& self.chroms@.len() == self.lappers@.len()
        &&& forall|k: int|
            0 <= k < self.fragments@.len() ==> (#[trigger] self.fragments@[k]).wf()
        &&& chroms_cover(self.fragments@, self.chroms@)
        &&& forall|i: int|
            0 <= i < self.chroms@.len() ==> lapper_contents(#[trigger] self.lappers@[i])
                == chrom_triples(self.fragments@, self.chroms@[i]@, self.fragments@.len() as int)
    }

    /// Builds the index from the full fragment set, grouping the fragments
    /// by chromosome. No fragment is dropped; an empty set is a no-op, not
    /// an error.
    pub fn build(fragments: Vec<GenomicInterval>) -> (idx: FragmentIndex)
        requires
            forall|k: int| 0 <= k < fragments@.len() ==> (#[trigger] fragments@[k]).wf(),
        ensures
            idx.wf(),
            idx@ == fragments@,
    {
        let n = fragments.len();
        let mut chroms: Vec<String> = Vec::new();
        let mut i: usize = 0;
        while i < n
            invariant
                n == fragments@.len(),
                forall|k: int|
                    0 <= k < i ==> has_chrom(chroms@, (#[trigger] fragments@[k]).chromosome@),
            decreases n - i,
        {
            let ghost pre = chroms@;
            if !contains_chrom(&chroms, &fragments[i].chromosome) {
                chroms.push(fragments[i].chromosome.clone());
                proof {
                    assert(chroms@[pre.len() as int]@ == fragments@[i as int].chromosome@);
                    assert forall|k: int|
                        0 <= k < i + 1 implies has_chrom(
                        chroms@,
                        (#[trigger] fragments@[k]).chromosome@,
                    ) by {
                        if k < i {
                            lemma_has_chrom_push(
                                pre,
                                fragments@[i as int].chromosome,
                                fragments@[k].chromosome@,
                            );
                        }
                    }
                }
            }
            i += 1;
        }
        proof {
            assert(chroms_cover(fragments@, chroms@));
        }
        let mut lappers: Vec<Lapper<u64, usize>> = Vec::new();
        let mut c: usize = 0;
        while c < chroms.len()
            invariant
                n == fragments@.len(),
                lappers@.len() == c,
                c <= chroms@.len(),
                forall|k: int| 0 <= k < fragments@.len() ==> (#[trigger] fragments@[k]).wf(),
                chroms_cover(fragments@, chroms@),
                forall|ci: int|
                    0 <= ci < c ==> lapper_contents(#[trigger] lappers@[ci]) == chrom_triples(
                        fragments@,
                        chroms@[ci]@,
                        n as int,
                    ),
            decreases chroms@.len() - c,
        {
            let mut ivs: Vec<(u64, u64, usize)> = Vec::new();
            let mut j: usize = 0;
            while j < n
                invariant
                    n == fragments@.len(),
                    j <= n,
                    c < chroms@.len(),
                    ivs@.to_multiset() == chrom_triples(fragments@, chroms@[c as int]@, j as int),
                decreases n - j,
            {
                if fragments[j].chromosome == chroms[c] {
                    ivs.push((fragments[j].start, fragments[j].end, j));
                }
                j += 1;
            }
            lappers.push(lapper_new(ivs));
            c += 1;
        }
        FragmentIndex { fragments, chroms, lappers }
    }

    /// Finds the position of `key` among the index's chromosomes.
    fn find_chrom(&self, key: &String) -> (r: Option<usize>)
        ensures
            r matches Some(i) ==> i < self.chroms@.len() && self.chroms@[i as int]@ == key@,
            r is None ==> !has_chrom(self.chroms@, key@),
    {
        let mut i: usize = 0;
        while i < self.chroms.len()
            invariant
                i <= self.chroms@.len(),
                forall|j: int| 0 <= j < i ==> self.chroms@[j]@ != key@,
            decreases self.chroms@.len() - i,
        {
            if self.chroms[i] == *key {
                return Some(i);
            }
            i += 1;
        }
        None
    }

    /// Queries the index for every fragment of `chromosome` containing the
    /// point: sound (each returned fragment is one of the index's and covers
    /// the point) and complete (every such fragment is returned), with the
    /// exact number of matches as the result's length.
    pub fn query(&self, chromosome: &str, point: u64) -> (r: Vec<GenomicInterval>)
        requires
            self.wf(),
            point < u64::MAX,
        ensures
            r@.len() == num_matching(self@, chromosome@, point),
            forall|k: int|
                0 <= k < r@.len() ==> covers(#[trigger] r@[k], chromosome@, point)
                    && self@.contains(r@[k]) && r@[k].wf(),
            forall|j: int|
                0 <= j < self@.len() && covers(#[trigger] self@[j], chromosome@, point)
                    ==> r@.contains(self@[j]),
    {
        let n = self.fragments.len();
        let key = chromosome.to_owned();
        let ci = match self.find_chrom(&key) {
            Some(ci) => ci,
            None => {
                proof {
                    assert forall|j: int| 0 <= j < n implies !covers(
                        #[trigger] self.fragments@[j],
                        chromosome@,
                        point,
                    ) by {
                        assert(has_chrom(self.chroms@, self.fragments@[j].chromosome@));
                    }
                    lemma_no_cover_no_matching(self.fragments@, chromosome@, point, n as int);
                }
                return Vec::new();
            },
        };
        let triples = lapper_find(&self.lappers[ci], point, point + 1);
        proof {
            let frags = self.fragments@;
            let c = chromosome@;
            assert forall|t: (u64, u64, usize)| #[trigger] triples@.to_multiset().count(t)
                == matching_triples(frags, c, point, n as int).count(t) by {
                lemma_chrom_triples_count(frags, c, n as int, t);
                lemma_matching_triples_count(frags, c, point, n as int, t);
            }
            assert(triples@.to_multiset() =~= matching_triples(frags, c, point, n as int));
        }
        let m = triples.len();
        let mut out: Vec<GenomicInterval> = Vec::new();
        let mut k: usize = 0;
        while k < m
            invariant
                self.wf(),
                m == triples@.len(),
                n == self.fragments@.len(),
                k <= m,
                out@.len() == k,
                triples@.to_multiset() =~= matching_triples(
                    self.fragments@,
                    chromosome@,
                    point,
                    n as int,
                ),
                forall|q: int|
                    0 <= q < k ==> triples@[q].2 < n && out@[q] == self.fragments@[#[trigger] triples@[q].2 as int],
            decreases m - k,
        {
            let t = triples[k];
            proof {
                assert(triples@.to_multiset().count(t) > 0);
                lemma_matching_triples_count(
                    self.fragments@,
                    chromosome@,
                    point,
                    n as int,
                    t,
                );
            }
            out.push(self.fragments[t.2].clone());
            k += 1;
        }
        proof {
            let frags = self.fragments@;
            let c = chromosome@;
            assert forall|q: int| 0 <= q < out@.len() implies covers(
                #[trigger] out@[q],
                c,
                point,
            ) && frags.contains(out@[q]) by {
                assert(triples@.to_multiset().count(triples@[q]) > 0);
                lemma_matching_triples_count(frags, c, point, n as int, triples@[q]);
            }
            assert forall|j: int| 0 <= j < frags.len() && covers(#[trigger] frags[j], c, point)
                implies out@.contains(frags[j]) by {
                let t = (frags[j].start, frags[j].end, j as usize);
                lemma_matching_triples_count(frags, c, point, n as int, t);
                assert(triples@.to_multiset().count(t) > 0);
                assert(triples@.contains(t));
                let q = choose|q: int| 0 <= q < triples@.len() && triples@[q] == t;
                assert(out@[q] == frags[j]);
            }
        }
        out
    }
}

/// Whether one of the collected chromosome names equals `c`.
fn contains_chrom(chroms: &Vec<String>, c: &String) -> (r: bool)
    ensures
        r == has_chrom(chroms@, c@),
{
    let mut i: usize = 0;
    while i < chroms.len()
        invariant
            i <= chroms@.len(),
            forall|j: int| 0 <= j < i ==> chroms@[j]@ != c@,
        decreases chroms@.len() - i,
    {
        if chroms[i] == *c {
            proof {
                assert(chroms@[i as int]@ == c@);
            }
            return true;
        }
        i += 1;
    }
    false
}

} // verus!
