//! The evolution loop: selection of the two fittest chromosomes,
//! single-point crossover, per-gene mutation, and refill with fresh
//! random chromosomes plus one elite copy, repeated for a configured
//! number of generations.

use vstd::prelude::*;
use crate::chromosome::{genes_valid, Chromosome, WORD_COUNT};
use crate::gene::Gene;
use crate::population::{
    all_scored, all_wf, evaluate_population, fitness_key, generate_population,
    lemma_sorted_first_is_max, max_fit, sort_population_descending,
};
use crate::rng::random_below;
use crate::GaError;

verus! {

/// Chance that crossover actually recombines the parents, as a
/// percentage.
pub const CROSSOVER_PERCENT: u32 = 60;

/// The two required configuration values.
#[derive(Clone, Copy, PartialEq, Eq, Structural, Debug)]
pub struct Config {
    pub generations: i32,
    pub population_count: i32,
}

/// A configuration is valid when it asks for at least one generation and
/// a population large enough for two parents and one elite.
pub open spec fn config_valid(c: Config) -> bool {
    c.generations >= 1 && c.population_count >= 3
}

/// Single-point crossover. With probability `CROSSOVER_PERCENT` of one
/// hundred, picks a split point strictly inside the sequence and swaps
/// the parents' tails, yielding two unevaluated children; otherwise the
/// children are exact copies of the parents, cached scores included.
pub fn single_point_crossover(parent1: &Chromosome, parent2: &Chromosome) -> (children: (
    Chromosome,
    Chromosome,
))
    requires
        parent1.genes@.len() == WORD_COUNT,
        parent2.genes@.len() == WORD_COUNT,
    ensures
        children.0.genes@.len() == WORD_COUNT,
        children.1.genes@.len() == WORD_COUNT,
        (exists|k: int|
            1 <= k < WORD_COUNT && children.0.genes@ == parent1.genes@.take(k)
                + parent2.genes@.skip(k) && children.1.genes@ == parent2.genes@.take(k)
                + parent1.genes@.skip(k) && children.0.fitness is None
                && children.1.fitness is None) || (children.0.genes@ == parent1.genes@
            && children.0.fitness == parent1.fitness && children.1.genes@ == parent2.genes@
            && children.1.fitness == parent2.fitness),
        forall|q: int|
            0 <= q < WORD_COUNT ==> (#[trigger] children.0.genes@[q] == parent1.genes@[q]
                || children.0.genes@[q] == parent2.genes@[q]),
        forall|q: int|
            0 <= q < WORD_COUNT ==> (#[trigger] children.1.genes@[q] == parent1.genes@[q]
                || children.1.genes@[q] == parent2.genes@[q]),
{
    let r = random_below(100);
    if r < CROSSOVER_PERCENT {
        let k = 1 + random_below((WORD_COUNT - 1) as u32) as usize;
        let mut g1: Vec<Gene> = Vec::new();
        let mut g2: Vec<Gene> = Vec::new();
        let mut j: usize = 0;
        while j < WORD_COUNT
            invariant
                j <= WORD_COUNT,
                1 <= k < WORD_COUNT,
                parent1.genes@.len() == WORD_COUNT,
                parent2.genes@.len() == WORD_COUNT,
                g1@.len() == j,
                g2@.len() == j,
                forall|q: int|
                    0 <= q < j ==> #[trigger] g1@[q] == (if q < k {
                        parent1.genes@[q]
                    } else {
                        parent2.genes@[q]
                    }),
                forall|q: int|
                    0 <= q < j ==> #[trigger] g2@[q] == (if q < k {
                        parent2.genes@[q]
                    } else {
                        parent1.genes@[q]
                    }),
            decreases WORD_COUNT - j,
        {
            if j < k {
                g1.push(parent1.genes[j]);
                g2.push(parent2.genes[j]);
            } else {
                g1.push(parent2.genes[j]);
                g2.push(parent1.genes[j]);
            }
            j = j + 1;
        }
        let child1 = Chromosome::from_genes(g1);
        let child2 = Chromosome::from_genes(g2);
        proof {
            assert(child1.genes@ =~= parent1.genes@.take(k as int) + parent2.genes@.skip(k as int));
            assert(child2.genes@ =~= parent2.genes@.take(k as int) + parent1.genes@.skip(k as int));
        }
        (child1, child2)
    } else {
        (parent1.duplicate(), parent2.duplicate())
    }
}

/// One generational step. Sorts the population, takes the two fittest
/// chromosomes as parents, breeds two children by crossover and mutation,
/// and replaces the population by `len - 3` fresh random chromosomes, the
/// two children, and a verbatim copy of the fittest parent (elitism of
/// one); the new population is fully evaluated. The population keeps its
/// size, and the previous best score is still present: the best never
/// degrades.
pub fn next_generation(population: &mut Vec<Chromosome>)
    requires
        3 <= old(population)@.len() <= 0x7fff_ffff,
        all_wf(old(population)@),
        all_scored(old(population)@),
    ensures
        final(population)@.len() == old(population)@.len(),
        all_wf(final(population)@),
        all_scored(final(population)@),
        // Elitism: the last position holds the elite, whose score is the
        // old population's maximum ...
        fitness_key(final(population)@[final(population)@.len() - 1]) == max_fit(
            old(population)@,
        ),
        // ... and whose genes are exactly those of an old chromosome
        // attaining that maximum.
        exists|j: int|
            0 <= j < old(population)@.len() && final(population)@[final(population)@.len()
                - 1].genes@ == (#[trigger] old(population)@[j]).genes@ && fitness_key(
                old(population)@[j],
            ) == max_fit(old(population)@),
{
    let n = population.len();
    sort_population_descending(population);
    proof {
        lemma_sorted_first_is_max(population@, old(population)@);
        assert forall|i: int| 0 <= i < population@.len() implies (
        #[trigger] population@[i]).wf() by {
            let x = population@[i];
            assert(old(population)@.contains(x));
            let j = choose|j: int| 0 <= j < old(population)@.len() && old(population)@[j] == x;
            assert(old(population)@[j].wf());
        }
    }
    let ghost best_key = max_fit(old(population)@);
    let parent1 = population[0].duplicate();
    let (mut child1, mut child2) = single_point_crossover(&parent1, &population[1]);
    child1.mutate_genes();
    child2.mutate_genes();
    proof {
        assert(genes_valid(child1.genes@));
        assert(genes_valid(child2.genes@));
    }
    let fresh = generate_population((n - 3) as i32);
    let mut next: Vec<Chromosome> = match fresh {
        Ok(v) => v,
        Err(_) => {
            proof {
                assert(false);
            }
            Vec::new()
        },
    };
    next.push(child1);
    next.push(child2);
    next.push(parent1);
    proof {
        assert(next@[next@.len() - 1].genes@ == population@[0].genes@);
        assert(forall|i: int|
            0 <= i < next@.len() ==> (#[trigger] next@[i]).genes@.len() == WORD_COUNT);
    }
    evaluate_population(&mut next);
    proof {
        assert(all_wf(next@)) by {
            assert(forall|i: int| 0 <= i < next@.len() ==> genes_valid(
                #[trigger] next@[i].genes@,
            ));
        }
        let wi = next@.len() - 1;
        assert(fitness_key(next@[wi]) == best_key) by {
            assert(next@[wi].genes@ == parent1.genes@);
            assert(parent1.fitness is Some);
            assert(parent1.fitness.unwrap() == crate::fitness::score_spec(parent1.genes@));
        }
        // The elite's genes are those of the sorted population's head,
        // which is an old chromosome of maximum fitness.
        assert(old(population)@.contains(population@[0]));
        let j = choose|j: int|
            0 <= j < old(population)@.len() && old(population)@[j] == population@[0];
        assert(next@[wi].genes@ == old(population)@[j].genes@);
        assert(fitness_key(old(population)@[j]) == best_key);
    }
    *population = next;
}

/// Runs the whole batch computation: builds and evaluates an initial
/// population of `population_count` chromosomes, steps it through
/// `generations` generations, and returns the fittest chromosome of the
/// final population, evaluated. A non-positive generation count or a
/// population count below three is refused.
pub fn run(config: &Config) -> (r: Result<Chromosome, GaError>)
    ensures
        !config_valid(*config) ==> r == Result::<Chromosome, GaError>::Err(
            GaError::ConfigurationError,
        ),
        config_valid(*config) ==> (r matches Ok(best) && best.wf() && best.fitness is Some),
{
    if config.generations <= 0 || config.population_count < 3 {
        return Err(GaError::ConfigurationError);
    }
    let generated = generate_population(config.population_count);
    let mut population: Vec<Chromosome> = match generated {
        Ok(v) => v,
        Err(_) => {
            proof {
                assert(false);
            }
            Vec::new()
        },
    };
    evaluate_population(&mut population);
    let mut g: i32 = 0;
    while g < config.generations
        invariant
            // The population has exactly the configured size at the start
            // of every generation.
            population@.len() == config.population_count,
            config.population_count >= 3,
            0 <= g <= config.generations,
            all_wf(population@),
            all_scored(population@),
        decreases config.generations - g,
    {
        next_generation(&mut population);
        g = g + 1;
    }
    let ghost before_sort = population@;
    sort_population_descending(&mut population);
    proof {
        let x = population@[0];
        assert(before_sort.contains(x));
        let j = choose|j: int| 0 <= j < before_sort.len() && before_sort[j] == x;
        assert(before_sort[j].wf());
    }
    let best = population[0].duplicate();
    Ok(best)
}

} // verus!
