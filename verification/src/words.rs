//! The word catalog: a fixed, read-only list of candidate words for each
//! grammatical category, reached by indexed lookup.

use vstd::prelude::*;
use crate::gene::Category;

verus! {

/// Number of catalog words of a category.
pub open spec fn word_count_spec(c: Category) -> nat {
    match c {
        Category::Noun => 19,
        Category::Verb => 8,
        Category::Adverb => 8,
        Category::Adjective => 8,
        Category::Conjunction => 11,
        Category::Preposition => 8,
        Category::Determiner => 10,
    }
}

/// The catalog word of a category at an index; indexes past the end of the
/// list give the empty word.
pub open spec fn word_spec(c: Category, i: int) -> Seq<char> {
    match c {
        Category::Noun => noun_spec(i),
        Category::Verb => verb_spec(i),
        Category::Adverb => adverb_spec(i),
        Category::Adjective => adjective_spec(i),
        Category::Conjunction => conjunction_spec(i),
        Category::Preposition => preposition_spec(i),
        Category::Determiner => determiner_spec(i),
    }
}

pub open spec fn noun_spec(i: int) -> Seq<char> {
    if i == 0 { "cat"@ }
    else if i == 1 { "sprinkle"@ }
    else if i == 2 { "france"@ }
    else if i == 3 { "cheese"@ }
    else if i == 4 { "tree"@ }
    else if i == 5 { "river"@ }
    else if i == 6 { "computer"@ }
    else if i == 7 { "idea"@ }
    else if i == 8 { "fish"@ }
    else if i == 9 { "rust"@ }
    else if i == 10 { "genetic"@ }
    else if i == 11 { "algorithm"@ }
    else if i == 12 { "apple"@ }
    else if i == 13 { "dog"@ }
    else if i == 14 { "chocolate"@ }
    else if i == 15 { "joe"@ }
    else if i == 16 { "pat"@ }
    else if i == 17 { "sheamus"@ }
    else if i == 18 { "franklin"@ }
    else { Seq::empty() }
}

pub open spec fn verb_spec(i: int) -> Seq<char> {
    if i == 0 { "jumped"@ }
    else if i == 1 { "walked"@ }
    else if i == 2 { "talking"@ }
    else if i == 3 { "attacked"@ }
    else if i == 4 { "ran"@ }
    else if i == 5 { "slept"@ }
    else if i == 6 { "programmed"@ }
    else if i == 7 { "imagined"@ }
    else { Seq::empty() }
}

pub open spec fn adverb_spec(i: int) -> Seq<char> {
    if i == 0 { "quickly"@ }
    else if i == 1 { "excitedly"@ }
    else if i == 2 { "slowly"@ }
    else if i == 3 { "happily"@ }
    else if i == 4 { "loudly"@ }
    else if i == 5 { "softly"@ }
    else if i == 6 { "carefully"@ }
    else if i == 7 { "eagerly"@ }
    else { Seq::empty() }
}

pub open spec fn adjective_spec(i: int) -> Seq<char> {
    if i == 0 { "silly"@ }
    else if i == 1 { "courageous"@ }
    else if i == 2 { "tasty"@ }
    else if i == 3 { "short"@ }
    else if i == 4 { "bright"@ }
    else if i == 5 { "complex"@ }
    else if i == 6 { "smooth"@ }
    else if i == 7 { "ancient"@ }
    else { Seq::empty() }
}

pub open spec fn conjunction_spec(i: int) -> Seq<char> {
    if i == 0 { "and"@ }
    else if i == 1 { "then"@ }
    else if i == 2 { "after"@ }
    else if i == 3 { "because"@ }
    else if i == 4 { "but"@ }
    else if i == 5 { "so"@ }
    else if i == 6 { "while"@ }
    else if i == 7 { "though"@ }
    else if i == 8 { "for"@ }
    else if i == 9 { "or"@ }
    else if i == 10 { "yet"@ }
    else { Seq::empty() }
}

pub open spec fn preposition_spec(i: int) -> Seq<char> {
    if i == 0 { "in"@ }
    else if i == 1 { "on"@ }
    else if i == 2 { "at"@ }
    else if i == 3 { "under"@ }
    else if i == 4 { "behind"@ }
    else if i == 5 { "before"@ }
    else if i == 6 { "after"@ }
    else if i == 7 { "near"@ }
    else { Seq::empty() }
}

pub open spec fn determiner_spec(i: int) -> Seq<char> {
    if i == 0 { "the"@ }
    else if i == 1 { "a"@ }
    else if i == 2 { "an"@ }
    else if i == 3 { "this"@ }
    else if i == 4 { "that"@ }
    else if i == 5 { "these"@ }
    else if i == 6 { "those"@ }
    else if i == 7 { "some"@ }
    else if i == 8 { "many"@ }
    else { "few"@ }
}

/// Number of catalog words of a category, computed at run time.
pub fn word_count(c: Category) -> (n: usize)
    ensures
        n == word_count_spec(c),
{
    match c {
        Category::Noun => 19,
        Category::Verb => 8,
        Category::Adverb => 8,
        Category::Adjective => 8,
        Category::Conjunction => 11,
        Category::Preposition => 8,
        Category::Determiner => 10,
    }
}

/// Looks a word up in the catalog.
pub fn word_at(c: Category, i: usize) -> (w: &'static str)
    requires
        i < word_count_spec(c),
    ensures
        w@ == word_spec(c, i as int),
{
    match c {
        Category::Noun => noun_at(i),
        Category::Verb => verb_at(i),
        Category::Adverb => adverb_at(i),
        Category::Adjective => adjective_at(i),
        Category::Conjunction => conjunction_at(i),
        Category::Preposition => preposition_at(i),
        Category::Determiner => determiner_at(i),
    }
}

fn noun_at(i: usize) -> (w: &'static str)
    requires
        i < 19,
    ensures
        w@ == noun_spec(i as int),
{
    match i {
        0 => "cat",
        1 => "sprinkle",
        2 => "france",
        3 => "cheese",
        4 => "tree",
        5 => "river",
        6 => "computer",
        7 => "idea",
        8 => "fish",
        9 => "rust",
        10 => "genetic",
        11 => "algorithm",
        12 => "apple",
        13 => "dog",
        14 => "chocolate",
        15 => "joe",
        16 => "pat",
        17 => "sheamus",
        _ => "franklin",
    }
}

fn verb_at(i: usize) -> (w: &'static str)
    requires
        i < 8,
    ensures
        w@ == verb_spec(i as int),
{
    match i {
        0 => "jumped",
        1 => "walked",
        2 => "talking",
        3 => "attacked",
        4 => "ran",
        5 => "slept",
        6 => "programmed",
        _ => "imagined",
    }
}

fn adverb_at(i: usize) -> (w: &'static str)
    requires
        i < 8,
    ensures
        w@ == adverb_spec(i as int),
{
    match i {
        0 => "quickly",
        1 => "excitedly",
        2 => "slowly",
        3 => "happily",
        4 => "loudly",
        5 => "softly",
        6 => "carefully",
        _ => "eagerly",
    }
}

fn adjective_at(i: usize) -> (w: &'static str)
    requires
        i < 8,
    ensures
        w@ == adjective_spec(i as int),
{
    match i {
        0 => "silly",
        1 => "courageous",
        2 => "tasty",
        3 => "short",
        4 => "bright",
        5 => "complex",
        6 => "smooth",
        _ => "ancient",
    }
}

fn conjunction_at(i: usize) -> (w: &'static str)
    requires
        i < 11,
    ensures
        w@ == conjunction_spec(i as int),
{
    match i {
        0 => "and",
        1 => "then",
        2 => "after",
        3 => "because",
        4 => "but",
        5 => "so",
        6 => "while",
        7 => "though",
        8 => "for",
        9 => "or",
        _ => "yet",
    }
}

fn preposition_at(i: usize) -> (w: &'static str)
    requires
        i < 8,
    ensures
        w@ == preposition_spec(i as int),
{
    match i {
        0 => "in",
        1 => "on",
        2 => "at",
        3 => "under",
        4 => "behind",
        5 => "before",
        6 => "after",
        _ => "near",
    }
}

fn determiner_at(i: usize) -> (w: &'static str)
    requires
        i < 10,
    ensures
        w@ == determiner_spec(i as int),
{
    match i {
        0 => "the",
        1 => "a",
        2 => "an",
        3 => "this",
        4 => "that",
        5 => "these",
        6 => "those",
        7 => "some",
        8 => "many",
        _ => "few",
    }
}

} // verus!
