//! Chromosomes: fixed-length gene sequences with a cached fitness score.

use vstd::prelude::*;
use crate::fitness::{score_of_genes, score_spec};
use crate::gene::{gene_valid, Gene};

verus! {

/// Number of genes in every evolved chromosome.
pub const WORD_COUNT: usize = 6;

/// Every gene of the sequence points into the catalog.
pub open spec fn genes_valid(genes: Seq<Gene>) -> bool {
    forall|i: int| 0 <= i < genes.len() ==> gene_valid(#[trigger] genes[i])
}

/// A candidate word sequence, together with its cached fitness score.
/// The score is absent until evaluated, and is cleared by any operation
/// that may change the genes.
#[derive(Debug)]
pub struct Chromosome {
    pub genes: Vec<Gene>,
    pub fitness: Option<i64>,
}

impl Chromosome {
    /// Well-formed: exactly `WORD_COUNT` catalog genes, and the cached
    /// fitness, when present, is the score of the current gene sequence.
    pub open spec fn wf(self) -> bool {
        &&& self.genes@.len() == WORD_COUNT
        &&& genes_valid(self.genes@)
        &&& (self.fitness matches Some(f) ==> f == score_spec(self.genes@))
    }

    /// A fresh chromosome of `WORD_COUNT` independently drawn random
    /// genes, not yet evaluated.
    pub fn new() -> (c: Chromosome)
        ensures
            c.wf(),
            c.fitness is None,
    {
        let mut genes: Vec<Gene> = Vec::new();
        let mut i: usize = 0;
        while i < WORD_COUNT
            invariant
                i <= WORD_COUNT,
                genes@.len() == i,
                genes_valid(genes@),
            decreases WORD_COUNT - i,
        {
            genes.push(Gene::generate());
            i = i + 1;
        }
        Chromosome { genes, fitness: None }
    }

    /// A chromosome over the given genes, not yet evaluated.
    pub fn from_genes(genes: Vec<Gene>) -> (c: Chromosome)
        ensures
            c.genes@ == genes@,
            c.fitness is None,
    {
        Chromosome { genes, fitness: None }
    }

    /// The gene sequence.
    pub fn genes(&self) -> (g: &Vec<Gene>)
        ensures
            g@ == self.genes@,
    {
        &self.genes
    }

    /// The cached fitness score, if the chromosome has been evaluated.
    pub fn fitness(&self) -> (f: Option<i64>)
        ensures
            f == self.fitness,
    {
        self.fitness
    }

    /// An exact copy of this chromosome: same genes, same cached score.
    pub fn duplicate(&self) -> (c: Chromosome)
        ensures
            c.genes@ == self.genes@,
            c.fitness == self.fitness,
    {
        let mut genes: Vec<Gene> = Vec::new();
        let mut i: usize = 0;
        while i < self.genes.len()
            invariant
                i <= self.genes@.len(),
                genes@ == self.genes@.take(i as int),
            decreases self.genes@.len() - i,
        {
            genes.push(self.genes[i]);
            proof {
                assert(genes@ =~= self.genes@.take(i + 1));
            }
            i = i + 1;
        }
        proof {
            assert(genes@ =~= self.genes@);
        }
        Chromosome { genes, fitness: self.fitness }
    }

    /// Mutates each gene position independently, each with the per-gene
    /// mutation chance, and clears the cached score: a changed sequence
    /// must be re-evaluated before its fitness can be read.
    pub fn mutate_genes(&mut self)
        ensures
            final(self).genes@.len() == old(self).genes@.len(),
            final(self).fitness is None,
            forall|i: int|
                0 <= i < final(self).genes@.len() ==> #[trigger] final(self).genes@[i]
                    == old(self).genes@[i] || gene_valid(final(self).genes@[i]),
    {
        let n = self.genes.len();
        let mut genes: Vec<Gene> = Vec::new();
        let mut i: usize = 0;
        while i < n
            invariant
                n == self.genes@.len(),
                i <= n,
                genes@.len() == i,
                forall|j: int|
                    0 <= j < i ==> #[trigger] genes@[j] == self.genes@[j] || gene_valid(
                        genes@[j],
                    ),
            decreases n - i,
        {
            let mut g = self.genes[i];
            g.mutate();
            genes.push(g);
            i = i + 1;
        }
        self.genes = genes;
        self.fitness = None;
    }

    /// Computes the score of the current gene sequence and caches it,
    /// overwriting any previous value.
    pub fn calculate_fitness(&mut self)
        requires
            old(self).genes@.len() <= 0x7fff_ffff,
        ensures
            final(self).genes@ == old(self).genes@,
            final(self).fitness is Some,
            final(self).fitness.unwrap() == score_spec(old(self).genes@),
    {
        let score = score_of_genes(&self.genes);
        self.fitness = Some(score);
    }
}

} // verus!
