//! The settings of a session, as they were given when the program was
//! started.

use crate::chess::Color;
use crate::text::{clone_texts, split, split_at_each, texts};
use vstd::prelude::*;

verus! {

/// The settings of a session.
#[derive(Debug)]
pub struct Config {
    /// The path to the engine.
    pub engine: String,
    /// The arguments for the engine, separated by `;`.
    pub engine_args: Option<String>,
    /// The side that the engine plays.
    pub engine_color: Color,
    /// The options for the engine, each of the form `ID` or `ID:VALUE`.
    pub uci_option: Vec<String>,
    /// A pattern for the names of the opening lines to play.
    pub opening: Option<String>,
    /// The classification codes, or their first letters, of the opening
    /// lines to play.
    pub eco: Vec<String>,
}

/// What an option of the engine is to the contracts of this module: its
/// name and, where it has one, its value.
pub open spec fn option_of(text: Seq<char>) -> (Seq<char>, Option<Seq<char>>) {
    let parts = split(text, ':');
    if parts.len() == 1 {
        (parts[0], None)
    } else {
        (parts[0], Some(parts[1]))
    }
}

/// The view of an option of the engine.
pub open spec fn option_view(option: (String, Option<String>)) -> (Seq<char>, Option<Seq<char>>) {
    (
        option.0@,
        match option.1 {
            Some(value) => Some(value@),
            None => None,
        },
    )
}

/// A text has at least one piece.
pub proof fn lemma_split_not_empty(text: Seq<char>, sep: char)
    ensures
        split(text, sep).len() >= 1,
{
}

pub fn get_engine(config: &Config) -> (r: String)
    ensures
        r@ == config.engine@,
{
    config.engine.clone()
}

/// The arguments for the engine, one by one.
pub fn get_engine_args(config: &Config) -> (r: Option<Vec<String>>)
    ensures
        match config.engine_args {
            Some(args) => r matches Some(list) && texts(list@) == split(args@, ';'),
            None => r is None,
        },
{
    match &config.engine_args {
        Some(args) => Some(split_at_each(args.as_str(), ';')),
        None => None,
    }
}

pub fn get_engine_color(config: &Config) -> (r: Color)
    ensures
        r == config.engine_color,
{
    config.engine_color
}

/// The options for the engine, each as its name and its value. What follows
/// a second `:` in an option is dropped.
pub fn get_engine_options(config: &Config) -> (r: Vec<(String, Option<String>)>)
    ensures
        r@.len() == config.uci_option@.len(),
        forall|i: int|
            0 <= i < r@.len() ==> option_view(#[trigger] r@[i]) == option_of(
                config.uci_option@[i]@,
            ),
{
    let mut options: Vec<(String, Option<String>)> = Vec::new();
    let mut i: usize = 0;
    while i < config.uci_option.len()
        invariant
            i <= config.uci_option@.len(),
            options@.len() == i,
            forall|k: int|
                0 <= k < options@.len() ==> option_view(#[trigger] options@[k]) == option_of(
                    config.uci_option@[k]@,
                ),
        decreases config.uci_option.len() - i,
    {
        let text = &config.uci_option[i];
        let parts = split_at_each(text.as_str(), ':');
        proof {
            lemma_split_not_empty(text@, ':');
            assert(texts(parts@)[0] == parts@[0]@);
            if parts@.len() > 1 {
                assert(texts(parts@)[1] == parts@[1]@);
            }
        }
        let option = if parts.len() == 1 {
            (parts[0].clone(), None)
        } else {
            (parts[0].clone(), Some(parts[1].clone()))
        };
        options.push(option);
        i += 1;
    }
    options
}

pub fn get_eco_codes(config: &Config) -> (r: Vec<String>)
    ensures
        texts(r@) == texts(config.eco@),
{
    clone_texts(&config.eco)
}

pub fn get_opening(config: &Config) -> (r: Option<String>)
    ensures
        match config.opening {
            Some(name) => r matches Some(copy) && copy@ == name@,
            None => r is None,
        },
{
    match &config.opening {
        Some(name) => Some(name.clone()),
        None => None,
    }
}

} // verus!
