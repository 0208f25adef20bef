//! The fitness heuristic: a gene sequence is scanned left to right and a
//! running score collects a bonus or penalty for every category
//! transition, plus a terminal penalty on the last gene's category.
//!
//! Scores are fixed-point integers in twentieths of a point: the smallest
//! rule weight, one twentieth, is written 1, and half a point is 10.

use vstd::prelude::*;
use crate::gene::{Category, Gene};
use crate::words::word_spec;

verus! {

/// One point of score, in the fixed-point unit (twentieths).
pub const SCORE_ONE: i64 = 20;

pub open spec fn ends_in_ing(w: Seq<char>) -> bool {
    w.len() >= 3 && w[w.len() - 3] == 'i' && w[w.len() - 2] == 'n' && w[w.len() - 1] == 'g'
}

pub open spec fn ends_in_ed(w: Seq<char>) -> bool {
    w.len() >= 2 && w[w.len() - 2] == 'e' && w[w.len() - 1] == 'd'
}

pub open spec fn ends_in_pt(w: Seq<char>) -> bool {
    w.len() >= 2 && w[w.len() - 2] == 'p' && w[w.len() - 1] == 't'
}

/// Score of a verb that directly follows a noun, decided by the ending of
/// the verb's text: "ing" reads poorly, "ed" or "pt" reads well.
pub open spec fn verb_after_noun_delta(w: Seq<char>) -> int {
    if ends_in_ing(w) {
        -2
    } else if ends_in_ed(w) || ends_in_pt(w) {
        4
    } else {
        2
    }
}

/// Score contribution of the first gene of a sequence.
pub open spec fn first_delta(c: Category) -> int {
    match c {
        Category::Noun => 10,
        Category::Adjective => 6,
        _ => -2,
    }
}

/// Score contribution of a gene that follows another, decided by the pair
/// of categories (and, for a verb after a noun, by the verb's text).
pub open spec fn pair_delta(prev: Category, g: Gene) -> int {
    match g.category {
        Category::Noun => match prev {
            Category::Noun => -4,
            Category::Adjective => 4,
            Category::Conjunction => -1,
            Category::Adverb => -6,
            Category::Verb => -2,
            Category::Preposition => 6,
            Category::Determiner => 6,
        },
        Category::Verb => match prev {
            Category::Noun => verb_after_noun_delta(word_spec(Category::Verb, g.word as int)),
            Category::Adjective => -2,
            _ => -1,
        },
        Category::Adverb => match prev {
            Category::Verb => 4,
            _ => -2,
        },
        Category::Adjective => match prev {
            Category::Noun => -4,
            _ => 2,
        },
        Category::Conjunction => match prev {
            Category::Noun => 2,
            Category::Conjunction => -6,
            _ => -2,
        },
        Category::Preposition => 0,
        Category::Determiner => 0,
    }
}

/// Penalty applied once, after the scan, to the last gene's category.
pub open spec fn terminal_delta(c: Category) -> int {
    match c {
        Category::Conjunction => -6,
        Category::Adverb => -2,
        _ => 0,
    }
}

/// The running score after the first `k` genes of the sequence, with the
/// terminal penalty not yet applied.
pub open spec fn running_score(genes: Seq<Gene>, k: int) -> int
    decreases k,
{
    if k <= 0 {
        0
    } else if k == 1 {
        first_delta(genes[0].category)
    } else {
        running_score(genes, k - 1) + pair_delta(genes[k - 2].category, genes[k - 1])
    }
}

/// The total score of a gene sequence: the full scan plus the terminal
/// penalty on the last gene. The empty sequence scores zero.
pub open spec fn score_spec(genes: Seq<Gene>) -> int {
    if genes.len() == 0 {
        0
    } else {
        running_score(genes, genes.len() as int) + terminal_delta(
            genes[genes.len() - 1].category,
        )
    }
}

/// Every single step of the scan moves the score by at most ten units, so
/// the running score stays within ten units per gene.
proof fn lemma_running_score_bound(genes: Seq<Gene>, k: int)
    requires
        0 <= k,
    ensures
        -10 * k <= running_score(genes, k) <= 10 * k,
    decreases k,
{
    if k > 1 {
        lemma_running_score_bound(genes, k - 1);
    }
}

/// The scan is a function of the gene sequence alone: equal sequences
/// always score equally, so re-evaluating an unchanged chromosome gives
/// an identical result.
pub proof fn lemma_score_deterministic(a: Seq<Gene>, b: Seq<Gene>)
    requires
        a == b,
    ensures
        score_spec(a) == score_spec(b),
{
}

/// Score of a verb gene that follows a noun, decided by the verb's word
/// index; reflects the text endings of the verb catalog. Out-of-catalog
/// indexes stand for the empty word, which has none of the endings.
fn verb_after_noun_delta_exec(word: usize) -> (d: i64)
    ensures
        d == verb_after_noun_delta(word_spec(Category::Verb, word as int)),
{
    proof {
        reveal_strlit("jumped");
        reveal_strlit("walked");
        reveal_strlit("talking");
        reveal_strlit("attacked");
        reveal_strlit("ran");
        reveal_strlit("slept");
        reveal_strlit("programmed");
        reveal_strlit("imagined");
    }
    match word {
        2 => -2,
        4 => 2,
        0 | 1 | 3 | 5 | 6 | 7 => 4,
        _ => 2,
    }
}

/// Score contribution of a gene that follows another, computed at run
/// time.
fn pair_delta_exec(prev: Category, g: Gene) -> (d: i64)
    ensures
        d == pair_delta(prev, g),
{
    match g.category {
        Category::Noun => match prev {
            Category::Noun => -4,
            Category::Adjective => 4,
            Category::Conjunction => -1,
            Category::Adverb => -6,
            Category::Verb => -2,
            Category::Preposition => 6,
            Category::Determiner => 6,
        },
        Category::Verb => match prev {
            Category::Noun => verb_after_noun_delta_exec(g.word),
            Category::Adjective => -2,
            _ => -1,
        },
        Category::Adverb => match prev {
            Category::Verb => 4,
            _ => -2,
        },
        Category::Adjective => match prev {
            Category::Noun => -4,
            _ => 2,
        },
        Category::Conjunction => match prev {
            Category::Noun => 2,
            Category::Conjunction => -6,
            _ => -2,
        },
        Category::Preposition => 0,
        Category::Determiner => 0,
    }
}

/// Score contribution of the first gene, computed at run time.
fn first_delta_exec(c: Category) -> (d: i64)
    ensures
        d == first_delta(c),
{
    match c {
        Category::Noun => 10,
        Category::Adjective => 6,
        _ => -2,
    }
}

/// Penalty on the last gene's category, computed at run time.
fn terminal_delta_exec(c: Category) -> (d: i64)
    ensures
        d == terminal_delta(c),
{
    match c {
        Category::Conjunction => -6,
        Category::Adverb => -2,
        _ => 0,
    }
}

/// Scores a gene sequence by the left-to-right scan plus the terminal
/// penalty. The length bound keeps the running sum within the score type;
/// any sequence that fits in memory at sensible sizes satisfies it.
pub fn score_of_genes(genes: &Vec<Gene>) -> (score: i64)
    requires
        genes@.len() <= 0x7fff_ffff,
    ensures
        score == score_spec(genes@),
{
    let n = genes.len();
    let mut score: i64 = 0;
    let mut prev: Option<Category> = None;
    let mut i: usize = 0;
    while i < n
        invariant
            n == genes@.len(),
            n <= 0x7fff_ffff,
            i <= n,
            score == running_score(genes@, i as int),
            -10 * i <= score <= 10 * i,
            i == 0 ==> prev is None,
            i > 0 ==> prev == Some(genes@[i - 1].category),
        decreases n - i,
    {
        let g = genes[i];
        let d: i64 = match prev {
            None => first_delta_exec(g.category),
            Some(p) => pair_delta_exec(p, g),
        };
        proof {
            lemma_running_score_bound(genes@, i as int);
        }
        score = score + d;
        prev = Some(g.category);
        i = i + 1;
    }
    if n > 0 {
        let t = terminal_delta_exec(genes[n - 1].category);
        score = score + t;
    }
    score
}

} // verus!

