//! Genes: a word (held as a catalog index) together with its grammatical
//! category, drawn by weighted random choice.

use vstd::prelude::*;
use crate::rng::random_below;
use crate::words::{word_count, word_count_spec};

verus! {

/// Grammatical category of a word.
#[derive(Clone, Copy, PartialEq, Eq, Structural, Debug)]
pub enum Category {
    Noun,
    Verb,
    Adverb,
    Adjective,
    Conjunction,
    Preposition,
    Determiner,
}

/// One gene: a word of the catalog, held as the index of that word within
/// its category's list, together with the category itself. Word and
/// category are always replaced together, never separately.
#[derive(Clone, Copy, PartialEq, Eq, Structural, Debug)]
pub struct Gene {
    pub category: Category,
    pub word: usize,
}

/// A gene is valid when its word index points into the catalog list of its
/// category.
pub open spec fn gene_valid(g: Gene) -> bool {
    g.word < word_count_spec(g.category)
}

/// Chance of replacing a gene on mutation, as a percentage.
pub const MUTATION_PERCENT: u32 = 5;

/// The category selected by a percentage draw, via cumulative weight
/// bounds: Noun 30, Verb 20, Adverb 10, Adjective 10, Preposition 10,
/// Determiner 10, and Conjunction the remainder (10).
pub open spec fn category_of_percent(r: int) -> Category {
    if r < 30 {
        Category::Noun
    } else if r < 50 {
        Category::Verb
    } else if r < 60 {
        Category::Adverb
    } else if r < 70 {
        Category::Adjective
    } else if r < 80 {
        Category::Preposition
    } else if r < 90 {
        Category::Determiner
    } else {
        Category::Conjunction
    }
}

/// Maps a percentage draw to a category by a single scan of the cumulative
/// weight table. Shared by generation and mutation, so the two cannot
/// drift apart.
fn pick_category(r: u32) -> (c: Category)
    requires
        r < 100,
    ensures
        c == category_of_percent(r as int),
{
    if r < 30 {
        Category::Noun
    } else if r < 50 {
        Category::Verb
    } else if r < 60 {
        Category::Adverb
    } else if r < 70 {
        Category::Adjective
    } else if r < 80 {
        Category::Preposition
    } else if r < 90 {
        Category::Determiner
    } else {
        Category::Conjunction
    }
}

impl Gene {
    /// Draws a fresh random gene: a weighted random category, then a
    /// uniform random word within that category's list.
    pub fn generate() -> (g: Gene)
        ensures
            gene_valid(g),
    {
        let r = random_below(100);
        let category = pick_category(r);
        let count = word_count(category);
        let word = random_below(count as u32) as usize;
        Gene { category, word }
    }

    /// With probability `MUTATION_PERCENT` of one hundred, replaces this
    /// gene wholesale by a fresh random draw; otherwise leaves it alone.
    pub fn mutate(&mut self)
        ensures
            *final(self) == *old(self) || gene_valid(*final(self)),
    {
        let r = random_below(100);
        if r < MUTATION_PERCENT {
            *self = Gene::generate();
        }
    }
}

} // verus!
