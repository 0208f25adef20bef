use genetic_words::chromosome::{Chromosome, WORD_COUNT};
use genetic_words::evolution::{next_generation, run, single_point_crossover, Config};
use genetic_words::fitness::{score_of_genes, SCORE_ONE};
use genetic_words::gene::{Category, Gene};
use genetic_words::population::{generate_population, sort_population_descending};
use genetic_words::words::{word_at, word_count};
use genetic_words::GaError;

fn gene(category: Category, word: usize) -> Gene {
    Gene { category, word }
}

#[test]
fn fitness_is_deterministic() {
    let mut c = Chromosome::from_genes(vec![
        gene(Category::Noun, 0),
        gene(Category::Verb, 2),
        gene(Category::Adverb, 1),
        gene(Category::Determiner, 3),
        gene(Category::Noun, 7),
        gene(Category::Conjunction, 4),
    ]);
    c.calculate_fitness();
    let first = c.fitness();
    c.calculate_fitness();
    let second = c.fitness();
    assert_eq!(first, second);
    assert!(first.is_some());
}

#[test]
fn single_noun_scores_half_point() {
    // 0.5 of a point is 10 in twentieths; no terminal penalty for a noun.
    let genes = vec![gene(Category::Noun, 0)];
    assert_eq!(score_of_genes(&genes), 10);
}

#[test]
fn determiner_then_noun_scores_point_two() {
    // -0.1 for a first determiner, +0.3 for noun after determiner: 0.2 = 4.
    let genes = vec![gene(Category::Determiner, 0), gene(Category::Noun, 0)];
    assert_eq!(score_of_genes(&genes), 4);
}

#[test]
fn noun_then_conjunction_scores_point_three() {
    // +0.5 first noun, +0.1 conjunction after noun, -0.3 terminal: 0.3 = 6.
    let genes = vec![gene(Category::Noun, 0), gene(Category::Conjunction, 0)];
    assert_eq!(score_of_genes(&genes), 6);
}

#[test]
fn verb_endings_after_noun() {
    // "talking" ends in "ing": 0.5 - 0.1 = 0.4 = 8.
    let talking = vec![gene(Category::Noun, 0), gene(Category::Verb, 2)];
    assert_eq!(score_of_genes(&talking), 8);
    // "jumped" ends in "ed": 0.5 + 0.2 = 0.7 = 14.
    let jumped = vec![gene(Category::Noun, 0), gene(Category::Verb, 0)];
    assert_eq!(score_of_genes(&jumped), 14);
    // "slept" ends in "pt": 0.5 + 0.2 = 0.7 = 14.
    let slept = vec![gene(Category::Noun, 0), gene(Category::Verb, 5)];
    assert_eq!(score_of_genes(&slept), 14);
    // "ran" has none of the endings: 0.5 + 0.1 = 0.6 = 12.
    let ran = vec![gene(Category::Noun, 0), gene(Category::Verb, 4)];
    assert_eq!(score_of_genes(&ran), 12);
}

#[test]
fn adverb_terminal_penalty() {
    // +0.5 first noun, -0.1 adverb after noun, -0.1 terminal adverb: 6.
    let genes = vec![gene(Category::Noun, 0), gene(Category::Adverb, 0)];
    assert_eq!(score_of_genes(&genes), 6);
}

#[test]
fn empty_sequence_scores_zero() {
    let genes: Vec<Gene> = vec![];
    assert_eq!(score_of_genes(&genes), 0);
}

#[test]
fn generate_population_has_requested_shape() {
    let population = generate_population(7).expect("a non-negative size must succeed");
    assert_eq!(population.len(), 7);
    for c in &population {
        assert_eq!(c.genes().len(), WORD_COUNT);
        assert!(c.fitness().is_none());
        for g in c.genes() {
            assert!(g.word < word_count(g.category));
        }
    }
}

#[test]
fn generate_population_of_zero_is_empty() {
    let population = generate_population(0).expect("zero is a valid size");
    assert!(population.is_empty());
}

#[test]
fn generate_population_rejects_negative_size() {
    match generate_population(-1) {
        Err(GaError::InvalidPopulationSize) => {}
        other => panic!("expected InvalidPopulationSize, got {:?}", other),
    }
}

#[test]
fn generated_genes_point_into_the_catalog() {
    for _ in 0..500 {
        let g = Gene::generate();
        assert!(g.word < word_count(g.category));
        // Every catalog word is non-empty.
        assert!(!word_at(g.category, g.word).is_empty());
    }
}

#[test]
fn sort_orders_fitness_descending() {
    let mut population: Vec<Chromosome> = generate_population(6).unwrap();
    for c in &mut population {
        c.calculate_fitness();
    }
    sort_population_descending(&mut population);
    for pair in population.windows(2) {
        assert!(pair[0].fitness().unwrap() >= pair[1].fitness().unwrap());
    }
}

#[test]
fn sort_keeps_equal_scores_in_input_order() {
    let a = Chromosome {
        genes: vec![gene(Category::Noun, 1); WORD_COUNT],
        fitness: Some(5),
    };
    let b = Chromosome {
        genes: vec![gene(Category::Noun, 2); WORD_COUNT],
        fitness: Some(5),
    };
    let c = Chromosome {
        genes: vec![gene(Category::Noun, 3); WORD_COUNT],
        fitness: Some(9),
    };
    let mut population = vec![a, b, c];
    sort_population_descending(&mut population);
    assert_eq!(population[0].fitness, Some(9));
    assert_eq!(population[1].genes[0].word, 1);
    assert_eq!(population[2].genes[0].word, 2);
}

#[test]
fn duplicate_copies_genes_and_score() {
    let mut c = Chromosome::from_genes(vec![
        gene(Category::Adjective, 1),
        gene(Category::Noun, 2),
        gene(Category::Verb, 0),
        gene(Category::Preposition, 3),
        gene(Category::Determiner, 4),
        gene(Category::Noun, 5),
    ]);
    c.calculate_fitness();
    let copy = c.duplicate();
    assert_eq!(copy.genes(), c.genes());
    assert_eq!(copy.fitness(), c.fitness());
}

#[test]
fn mutation_clears_cached_score_and_keeps_length() {
    let mut c = Chromosome::new();
    c.calculate_fitness();
    assert!(c.fitness().is_some());
    c.mutate_genes();
    assert!(c.fitness().is_none());
    assert_eq!(c.genes().len(), WORD_COUNT);
    for g in c.genes() {
        assert!(g.word < word_count(g.category));
    }
}

#[test]
fn crossover_children_are_splices_or_copies() {
    let p1 = Chromosome::from_genes(vec![gene(Category::Noun, 0); WORD_COUNT]);
    let p2 = Chromosome::from_genes(vec![gene(Category::Verb, 1); WORD_COUNT]);
    for _ in 0..50 {
        let (c1, c2) = single_point_crossover(&p1, &p2);
        assert_eq!(c1.genes().len(), WORD_COUNT);
        assert_eq!(c2.genes().len(), WORD_COUNT);
        if c1.genes() == p1.genes() {
            // The probabilistic gate failed: both children are copies.
            assert_eq!(c2.genes(), p2.genes());
        } else {
            // Some split point strictly inside the sequence explains both.
            let found = (1..WORD_COUNT).any(|k| {
                c1.genes()[..k] == p1.genes()[..k]
                    && c1.genes()[k..] == p2.genes()[k..]
                    && c2.genes()[..k] == p2.genes()[..k]
                    && c2.genes()[k..] == p1.genes()[k..]
            });
            assert!(found);
            assert!(c1.fitness().is_none());
            assert!(c2.fitness().is_none());
        }
    }
}

#[test]
fn run_returns_an_evaluated_best() {
    let config = Config {
        generations: 5,
        population_count: 8,
    };
    let best = run(&config).expect("a valid configuration must succeed");
    assert_eq!(best.genes().len(), WORD_COUNT);
    let cached = best.fitness().expect("the best chromosome is evaluated");
    // The cached score reflects the genes it was computed from.
    assert_eq!(cached, score_of_genes(best.genes()));
}

#[test]
fn run_rejects_non_positive_generations() {
    let config = Config {
        generations: 0,
        population_count: 8,
    };
    match run(&config) {
        Err(GaError::ConfigurationError) => {}
        other => panic!("expected ConfigurationError, got {:?}", other),
    }
}

#[test]
fn run_rejects_tiny_population() {
    let config = Config {
        generations: 3,
        population_count: 2,
    };
    match run(&config) {
        Err(GaError::ConfigurationError) => {}
        other => panic!("expected ConfigurationError, got {:?}", other),
    }
}

#[test]
fn catalog_lookup_matches_fixed_words() {
    assert_eq!(word_at(Category::Noun, 0), "cat");
    assert_eq!(word_at(Category::Noun, 18), "franklin");
    assert_eq!(word_at(Category::Verb, 2), "talking");
    assert_eq!(word_at(Category::Adverb, 7), "eagerly");
    assert_eq!(word_at(Category::Adjective, 5), "complex");
    assert_eq!(word_at(Category::Conjunction, 10), "yet");
    assert_eq!(word_at(Category::Preposition, 6), "after");
    assert_eq!(word_at(Category::Determiner, 9), "few");
    assert_eq!(word_count(Category::Noun), 19);
    assert_eq!(word_count(Category::Conjunction), 11);
}

#[test]
fn scores_convert_to_points() {
    // 10 twentieths displays as half a point.
    let genes = vec![gene(Category::Noun, 0)];
    let score = score_of_genes(&genes);
    assert_eq!(score as f64 / SCORE_ONE as f64, 0.5);
}

#[test]
fn generation_step_keeps_size_and_never_degrades_the_best() {
    let mut population = generate_population(6).unwrap();
    for c in &mut population {
        c.calculate_fitness();
    }
    for _ in 0..5 {
        let best_before = population.iter().map(|c| c.fitness().unwrap()).max().unwrap();
        next_generation(&mut population);
        assert_eq!(population.len(), 6);
        let best_now = population.iter().map(|c| c.fitness().unwrap()).max().unwrap();
        assert!(best_now >= best_before);
        // The elite sits at the last position and carries the old maximum.
        assert_eq!(population.last().unwrap().fitness().unwrap(), best_before);
    }
}
