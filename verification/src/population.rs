//! Populations: generating collections of fresh chromosomes, evaluating
//! them, and sorting them by fitness.

use vstd::prelude::*;
use crate::chromosome::{Chromosome, WORD_COUNT};
use crate::fitness::score_spec;
use crate::GaError;

verus! {

/// The fitness score of an evaluated chromosome, as a plain integer.
pub open spec fn fitness_key(c: Chromosome) -> int
    recommends
        c.fitness is Some,
{
    c.fitness.unwrap() as int
}

/// Every chromosome of the sequence has been evaluated.
pub open spec fn all_scored(s: Seq<Chromosome>) -> bool {
    forall|i: int| 0 <= i < s.len() ==> (#[trigger] s[i]).fitness is Some
}

/// Every chromosome of the sequence is well-formed.
pub open spec fn all_wf(s: Seq<Chromosome>) -> bool {
    forall|i: int| 0 <= i < s.len() ==> (#[trigger] s[i]).wf()
}

/// The fitness never increases along the sequence.
pub open spec fn sorted_descending(s: Seq<Chromosome>) -> bool {
    forall|i: int, j: int| 0 <= i < j < s.len() ==> fitness_key(s[i]) >= fitness_key(s[j])
}

/// The subsequence of chromosomes whose fitness is exactly `k`, in the
/// order they appear. A sort is stable precisely when it leaves every
/// such subsequence unchanged.
pub open spec fn with_score(s: Seq<Chromosome>, k: int) -> Seq<Chromosome>
    decreases s.len(),
{
    if s.len() == 0 {
        Seq::empty()
    } else if fitness_key(s.first()) == k {
        seq![s.first()] + with_score(s.drop_first(), k)
    } else {
        with_score(s.drop_first(), k)
    }
}

/// A score class of a concatenation is the concatenation of the score
/// classes.
proof fn lemma_with_score_add(a: Seq<Chromosome>, b: Seq<Chromosome>, k: int)
    ensures
        with_score(a + b, k) == with_score(a, k) + with_score(b, k),
    decreases a.len(),
{
    if a.len() == 0 {
        assert(a + b =~= b);
        assert(with_score(a, k) + with_score(b, k) =~= with_score(b, k));
    } else {
        lemma_with_score_add(a.drop_first(), b, k);
        assert((a + b).drop_first() =~= a.drop_first() + b);
        assert((a + b).first() == a.first());
        if fitness_key(a.first()) == k {
            assert(with_score(a, k) + with_score(b, k) =~= seq![a.first()] + (with_score(
                a.drop_first(),
                k,
            ) + with_score(b, k)));
        }
    }
}

/// A sequence with no chromosome of score `k` has an empty `k` class.
proof fn lemma_with_score_none(s: Seq<Chromosome>, k: int)
    requires
        forall|q: int| 0 <= q < s.len() ==> fitness_key(#[trigger] s[q]) != k,
    ensures
        with_score(s, k) == Seq::<Chromosome>::empty(),
    decreases s.len(),
{
    if s.len() > 0 {
        assert(s[0] == s.first());
        assert(forall|q: int|
            0 <= q < s.drop_first().len() ==> #[trigger] s.drop_first()[q] == s[q + 1]);
        lemma_with_score_none(s.drop_first(), k);
    }
}

/// The score classes of a single chromosome.
proof fn lemma_with_score_single(c: Chromosome, k: int)
    ensures
        with_score(seq![c], k) == (if fitness_key(c) == k {
            seq![c]
        } else {
            Seq::<Chromosome>::empty()
        }),
{
    assert(seq![c].first() == c);
    assert(seq![c].drop_first() =~= Seq::<Chromosome>::empty());
    assert(with_score(Seq::<Chromosome>::empty(), k) == Seq::<Chromosome>::empty());
    assert(with_score(seq![c].drop_first(), k) == Seq::<Chromosome>::empty());
    if fitness_key(c) == k {
        assert(with_score(seq![c], k) =~= seq![c]);
    }
}

/// Moving one chromosome from position `i` back to position `p`, across
/// neighbours none of which shares its score, changes no score class: the
/// move is invisible to every `with_score` subsequence.
proof fn lemma_stable_insert(s: Seq<Chromosome>, p: int, i: int, c: Chromosome)
    requires
        0 <= p <= i <= s.len(),
        forall|q: int| p <= q < i ==> fitness_key(#[trigger] s[q]) != fitness_key(c),
    ensures
        forall|k: int| #[trigger] with_score(s.insert(p, c), k) == with_score(s.insert(i, c), k),
{
    let a = s.subrange(0, p);
    let b = s.subrange(p, i);
    let d = s.subrange(i, s.len() as int);
    assert forall|k: int| #[trigger] with_score(s.insert(p, c), k) == with_score(
        s.insert(i, c),
        k,
    ) by {
        assert(s.insert(p, c) =~= a + (seq![c] + (b + d)));
        assert(s.insert(i, c) =~= a + (b + (seq![c] + d)));
        lemma_with_score_add(a, seq![c] + (b + d), k);
        lemma_with_score_add(seq![c], b + d, k);
        lemma_with_score_add(b, d, k);
        lemma_with_score_add(a, b + (seq![c] + d), k);
        lemma_with_score_add(b, seq![c] + d, k);
        lemma_with_score_add(seq![c], d, k);
        lemma_with_score_single(c, k);
        if k == fitness_key(c) {
            assert forall|q: int| 0 <= q < b.len() implies fitness_key(#[trigger] b[q]) != k by {
                assert(b[q] == s[p + q]);
            }
            lemma_with_score_none(b, k);
        }
        assert(with_score(a, k) + (with_score(seq![c], k) + (with_score(b, k) + with_score(d, k)))
            =~= with_score(a, k) + (with_score(b, k) + (with_score(seq![c], k) + with_score(
            d,
            k,
        ))));
    }
}

/// Builds a population of `n` freshly generated, unevaluated chromosomes.
/// A negative size is refused rather than truncated.
pub fn generate_population(n: i32) -> (r: Result<Vec<Chromosome>, GaError>)
    ensures
        n >= 0 ==> (r matches Ok(v) && v@.len() == n as int && all_wf(v@) && forall|i: int|
            0 <= i < v@.len() ==> (#[trigger] v@[i]).fitness is None && v@[i].genes@.len()
                == WORD_COUNT),
        n < 0 ==> r == Result::<Vec<Chromosome>, GaError>::Err(GaError::InvalidPopulationSize),
{
    if n < 0 {
        return Err(GaError::InvalidPopulationSize);
    }
    let count = n as usize;
    let mut v: Vec<Chromosome> = Vec::new();
    let mut i: usize = 0;
    while i < count
        invariant
            i <= count,
            v@.len() == i,
            all_wf(v@),
            forall|j: int|
                0 <= j < i ==> (#[trigger] v@[j]).fitness is None && v@[j].genes@.len()
                    == WORD_COUNT,
        decreases count - i,
    {
        v.push(Chromosome::new());
        i = i + 1;
    }
    Ok(v)
}

/// Evaluates every chromosome of the population, overwriting each cached
/// score with the score of its current genes.
pub fn evaluate_population(population: &mut Vec<Chromosome>)
    requires
        forall|i: int|
            0 <= i < old(population)@.len() ==> (#[trigger] old(population)@[i]).genes@.len()
                <= 0x7fff_ffff,
    ensures
        final(population)@.len() == old(population)@.len(),
        forall|i: int|
            0 <= i < final(population)@.len() ==> (#[trigger] final(population)@[i]).genes@
                == old(population)@[i].genes@,
        all_scored(final(population)@),
        forall|i: int|
            0 <= i < final(population)@.len() ==> fitness_key(#[trigger] final(population)@[i])
                == score_spec(final(population)@[i].genes@),
{
    let n = population.len();
    let mut i: usize = 0;
    while i < n
        invariant
            n == population@.len(),
            i <= n,
            forall|j: int|
                0 <= j < n ==> (#[trigger] population@[j]).genes@ == old(population)@[j].genes@,
            forall|j: int| 0 <= j < n ==> (#[trigger] population@[j]).genes@.len() <= 0x7fff_ffff,
            forall|j: int|
                0 <= j < i ==> (#[trigger] population@[j]).fitness is Some && fitness_key(
                    population@[j],
                ) == score_spec(population@[j].genes@),
        decreases n - i,
    {
        population[i].calculate_fitness();
        i = i + 1;
    }
}

/// The fitness of an evaluated chromosome, read at run time.
fn score_of(c: &Chromosome) -> (k: i64)
    requires
        c.fitness is Some,
    ensures
        k as int == fitness_key(*c),
{
    c.fitness.unwrap()
}

/// Sorts the population by fitness, highest first, by insertion into a
/// sorted prefix. The sort is stable — chromosomes of equal score keep
/// their original relative order, stated by the `with_score` clause — so
/// the result is deterministic for a given input. Every chromosome must
/// have been evaluated first.
pub fn sort_population_descending(population: &mut Vec<Chromosome>)
    requires
        all_scored(old(population)@),
    ensures
        final(population)@.len() == old(population)@.len(),
        final(population)@.to_multiset() == old(population)@.to_multiset(),
        sorted_descending(final(population)@),
        all_scored(final(population)@),
        forall|k: int|
            #[trigger] with_score(final(population)@, k) == with_score(old(population)@, k),
        forall|i: int|
            0 <= i < final(population)@.len() ==> old(population)@.contains(
                #[trigger] final(population)@[i],
            ),
        forall|i: int|
            0 <= i < old(population)@.len() ==> final(population)@.contains(
                #[trigger] old(population)@[i],
            ),
{
    broadcast use vstd::seq_lib::group_to_multiset_ensures;

    let ghost orig = population@;
    let n = population.len();
    if n <= 1 {
        proof {
            assert(forall|i: int| 0 <= i < orig.len() ==> orig.contains(#[trigger] orig[i]));
        }
        return ;
    }
    let mut i: usize = 1;
    while i < n
        invariant
            1 <= i <= n,
            n == population@.len(),
            n == orig.len(),
            population@.to_multiset() == orig.to_multiset(),
            all_scored(population@),
            sorted_descending(population@.take(i as int)),
            forall|k: int| #[trigger] with_score(population@, k) == with_score(orig, k),
        decreases n - i,
    {
        let ghost prev = population@;
        let c = population.remove(i);
        let cf = score_of(&c);
        let ghost shorter = population@;
        proof {
            prev.remove_ensures(i as int);
            assert(all_scored(shorter)) by {
                assert(forall|q: int|
                    0 <= q < shorter.len() ==> (#[trigger] shorter[q]) == prev[q] || shorter[q]
                        == prev[q + 1]);
            }
        }
        let mut p: usize = 0;
        while p < i && score_of(&population[p]) >= cf
            invariant
                p <= i,
                i < n,
                population@ == shorter,
                shorter.len() == n - 1,
                all_scored(shorter),
                c.fitness is Some,
                cf as int == fitness_key(c),
                forall|q: int| 0 <= q < p ==> fitness_key(#[trigger] shorter[q]) >= cf as int,
            decreases i - p,
        {
            p = p + 1;
        }
        population.insert(p, c);
        proof {
            shorter.insert_ensures(p as int, c);
            let cur = population@;
            assert(cur.to_multiset() == orig.to_multiset()) by {
                broadcast use vstd::multiset::group_multiset_axioms;

                vstd::seq_lib::to_multiset_remove::<Chromosome>(prev, i as int);
                vstd::seq_lib::to_multiset_insert::<Chromosome>(shorter, p as int, c);
                vstd::seq_lib::to_multiset_contains::<Chromosome>(prev, c);
                assert(shorter == prev.remove(i as int));
                assert(cur == shorter.insert(p as int, c));
                assert(prev.contains(c)) by {
                    assert(prev[i as int] == c);
                }
                assert(cur.to_multiset() =~= prev.to_multiset());
            }
            assert(all_scored(cur)) by {
                assert(forall|q: int|
                    0 <= q < cur.len() ==> (#[trigger] cur[q]) == c || cur[q] == shorter[q]
                        || (0 <= q - 1 < shorter.len() && cur[q] == shorter[q - 1]));
            }
            assert(sorted_descending(cur.take(i + 1))) by {
                assert(forall|q: int| 0 <= q < i ==> #[trigger] shorter[q] == prev[q]);
                assert forall|a: int, b: int| 0 <= a < b < i + 1 implies fitness_key(
                    #[trigger] cur.take(i + 1)[a],
                ) >= fitness_key(#[trigger] cur.take(i + 1)[b]) by {
                    assert(cur.take(i + 1)[a] == cur[a]);
                    assert(cur.take(i + 1)[b] == cur[b]);
                    if a < p {
                        assert(cur[a] == shorter[a]);
                    } else if a == p {
                        assert(cur[a] == c);
                    } else {
                        assert(cur[a] == shorter[a - 1]);
                    }
                    if b < p {
                        assert(cur[b] == shorter[b]);
                    } else if b == p {
                        assert(cur[b] == c);
                    } else {
                        assert(cur[b] == shorter[b - 1]);
                    }
                }
            }
            // Stability: the moved chromosome crossed only strictly
            // smaller scores, so every score class is unchanged.
            assert forall|q: int| p <= q < i implies fitness_key(#[trigger] shorter[q])
                != fitness_key(c) by {
                assert(shorter[q] == prev[q]);
                assert(shorter[p as int] == prev[p as int]);
                assert(prev.take(i as int)[q] == prev[q]);
                assert(prev.take(i as int)[p as int] == prev[p as int]);
                assert(fitness_key(shorter[p as int]) < cf as int);
                if p < q {
                    assert(fitness_key(prev.take(i as int)[p as int]) >= fitness_key(
                        prev.take(i as int)[q],
                    ));
                }
            }
            lemma_stable_insert(shorter, p as int, i as int, c);
            assert(prev =~= shorter.insert(i as int, c)) by {
                shorter.insert_ensures(i as int, c);
            }
            assert forall|k: int| #[trigger] with_score(cur, k) == with_score(orig, k) by {
                assert(cur == shorter.insert(p as int, c));
                assert(with_score(shorter.insert(p as int, c), k) == with_score(
                    shorter.insert(i as int, c),
                    k,
                ));
                assert(with_score(prev, k) == with_score(orig, k));
            }
        }
        i = i + 1;
    }
    proof {
        assert(population@.take(n as int) =~= population@);
        assert forall|k: int| 0 <= k < population@.len() implies orig.contains(
            #[trigger] population@[k],
        ) by {
            let x = population@[k];
            assert(population@.contains(x)) by {
                assert(population@[k] == x);
            }
            assert(population@.to_multiset().count(x) > 0);
            assert(orig.to_multiset().count(x) > 0);
        }
        assert forall|k: int| 0 <= k < orig.len() implies population@.contains(
            #[trigger] orig[k],
        ) by {
            let x = orig[k];
            assert(orig.contains(x)) by {
                assert(orig[k] == x);
            }
            assert(orig.to_multiset().count(x) > 0);
            assert(population@.to_multiset().count(x) > 0);
        }
    }
}

/// The highest fitness of a non-empty sequence of evaluated chromosomes.
pub open spec fn max_fit(s: Seq<Chromosome>) -> int
    recommends
        s.len() > 0,
    decreases s.len(),
{
    if s.len() <= 1 {
        fitness_key(s[0])
    } else {
        let m = max_fit(s.drop_last());
        if fitness_key(s.last()) > m {
            fitness_key(s.last())
        } else {
            m
        }
    }
}

/// The highest fitness is attained by some chromosome of the sequence and
/// bounds every chromosome of the sequence.
pub proof fn lemma_max_fit_properties(s: Seq<Chromosome>)
    requires
        s.len() > 0,
    ensures
        exists|i: int| 0 <= i < s.len() && fitness_key(#[trigger] s[i]) == max_fit(s),
        forall|i: int| 0 <= i < s.len() ==> fitness_key(#[trigger] s[i]) <= max_fit(s),
    decreases s.len(),
{
    if s.len() > 1 {
        lemma_max_fit_properties(s.drop_last());
        let t = s.drop_last();
        assert(forall|i: int| 0 <= i < t.len() ==> #[trigger] t[i] == s[i]);
        assert forall|i: int| 0 <= i < s.len() implies fitness_key(#[trigger] s[i]) <= max_fit(
            s,
        ) by {
            if i < s.len() - 1 {
                assert(s[i] == t[i]);
                assert(fitness_key(t[i]) <= max_fit(t));
            } else {
                assert(s[i] == s.last());
            }
        }
        if fitness_key(s.last()) > max_fit(t) {
            let wi = s.len() - 1;
            assert(s[wi] == s.last());
            assert(0 <= wi < s.len() && fitness_key(s[wi]) == max_fit(s));
        } else {
            let wi = choose|i: int| 0 <= i < t.len() && fitness_key(#[trigger] t[i]) == max_fit(t);
            assert(s[wi] == t[wi]);
            assert(0 <= wi < s.len() && fitness_key(s[wi]) == max_fit(s));
        }
    } else {
        assert(0 <= 0 < s.len() && fitness_key(s[0]) == max_fit(s));
    }
}

/// After a permutation has been sorted descending, its first chromosome
/// carries the highest fitness of the sequence it came from.
pub proof fn lemma_sorted_first_is_max(sorted: Seq<Chromosome>, orig: Seq<Chromosome>)
    requires
        orig.len() > 0,
        sorted.len() == orig.len(),
        sorted_descending(sorted),
        forall|i: int| 0 <= i < sorted.len() ==> orig.contains(#[trigger] sorted[i]),
        forall|i: int| 0 <= i < orig.len() ==> sorted.contains(#[trigger] orig[i]),
    ensures
        fitness_key(sorted[0]) == max_fit(orig),
{
    lemma_max_fit_properties(orig);
    assert(orig.contains(sorted[0]));
    let j = choose|j: int| 0 <= j < orig.len() && orig[j] == sorted[0];
    assert(fitness_key(sorted[0]) <= max_fit(orig));
    let i0 = choose|i: int| 0 <= i < orig.len() && fitness_key(#[trigger] orig[i]) == max_fit(orig);
    assert(sorted.contains(orig[i0]));
    let j0 = choose|j: int| 0 <= j < sorted.len() && sorted[j] == orig[i0];
    assert(fitness_key(sorted[0]) >= fitness_key(sorted[j0]));
}

} // verus!
