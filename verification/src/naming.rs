//! Random file names: eight characters out of letters and digits.

use crate::text::{has_prefix, starts_with};
use vstd::prelude::*;

verus! {

/// Number of characters in a random name.
pub const NAME_LEN: usize = 8;

/// The characters that random names are made of.
pub open spec fn charset() -> Seq<char> {
    "abcdefghijklmnopqrstuvwxyzABCDEFGHIJKLMNOPQRSTUVWXYZ0123456789"@
}

/// The name that a sequence of drawn numbers stands for: each number picks
/// a character by its remainder.
pub open spec fn name_of_picks(picks: Seq<usize>) -> Seq<char> {
    Seq::new(picks.len(), |i: int| charset()[picks[i] as int % 62])
}

/// Whether `name` is one that can be drawn: eight characters of the set.
pub open spec fn is_random_name(name: Seq<char>) -> bool {
    exists|picks: Seq<usize>| picks.len() == NAME_LEN && name == #[trigger] name_of_picks(picks)
}

/// The set has 62 characters.
pub proof fn lemma_charset_len()
    ensures
        charset().len() == 62,
{
    reveal_strlit("abcdefghijklmnopqrstuvwxyzABCDEFGHIJKLMNOPQRSTUVWXYZ0123456789");
}

/// A random name has eight characters, each out of the set.
pub proof fn lemma_random_name_shape(name: Seq<char>)
    requires
        is_random_name(name),
    ensures
        name.len() == NAME_LEN,
        forall|i: int| 0 <= i < name.len() ==> charset().contains(#[trigger] name[i]),
{
    lemma_charset_len();
    let picks = choose|picks: Seq<usize>|
        picks.len() == NAME_LEN && name == #[trigger] name_of_picks(picks);
    assert forall|i: int| 0 <= i < name.len() implies charset().contains(#[trigger] name[i]) by {
        assert(name[i] == charset()[picks[i] as int % 62]);
    }
}

/// Calls `rand::thread_rng` and `Rng::gen` for a `usize`. Nothing is
/// claimed of the number drawn.
#[verifier::external_body]
pub(crate) fn random_pick() -> (pick: usize) {
    rand::Rng::gen::<usize>(&mut rand::thread_rng())
}

/// Draws `count` numbers.
pub fn random_picks(count: usize) -> (picks: Vec<usize>)
    ensures
        picks@.len() == count,
{
    let mut picks: Vec<usize> = Vec::new();
    while picks.len() < count
        invariant
            picks@.len() <= count,
        decreases count - picks@.len(),
    {
        picks.push(random_pick());
    }
    picks
}

/// Spells the name that the drawn numbers stand for.
pub fn name_from_picks(picks: &Vec<usize>) -> (name: String)
    ensures
        name@ == name_of_picks(picks@),
{
    let letters = "abcdefghijklmnopqrstuvwxyzABCDEFGHIJKLMNOPQRSTUVWXYZ0123456789";
    proof {
        lemma_charset_len();
    }
    let mut name = String::new();
    let mut i: usize = 0;
    while i < picks.len()
        invariant
            i <= picks@.len(),
            letters@ == charset(),
            charset().len() == 62,
            name@ == name_of_picks(picks@.take(i as int)),
        decreases picks@.len() - i,
    {
        let idx: usize = picks[i] % 62;
        name.append(letters.substring_char(idx, idx + 1));
        i += 1;
        proof {
            assert(name@ =~= name_of_picks(picks@.take(i as int)));
        }
    }
    proof {
        assert(picks@.take(picks@.len() as int) =~= picks@);
    }
    name
}

/// Draws a random name.
pub fn random_name() -> (name: String)
    ensures
        is_random_name(name@),
{
    let picks = random_picks(NAME_LEN);
    name_from_picks(&picks)
}

/// The name under which content is stored, given a random `stem`. A name
/// of the form `*.ext` asks for a random name with that extension; any other
/// name is kept; without a name, the stem gets the extension `fallback`.
pub open spec fn stored_name(filename: Option<String>, fallback: Seq<char>, stem: Seq<char>) -> Seq<
    char,
> {
    match filename {
        Some(name) => if has_prefix(name@, "*."@) {
            stem + name@.subrange(1, name@.len() as int)
        } else {
            name@
        },
        None => stem + fallback,
    }
}

/// Gives the name under which content is stored, with `stem` as the random
/// part where one is needed.
pub fn stored_name_with(filename: &Option<String>, fallback: &str, stem: &str) -> (name: String)
    ensures
        name@ == stored_name(*filename, fallback@, stem@),
{
    match filename {
        Some(given) => {
            if starts_with(given.as_str(), "*.") {
                proof {
                    reveal_strlit("*.");
                }
                let len = given.as_str().unicode_len();
                let ext = given.as_str().substring_char(1, len);
                String::from_str(stem).concat(ext)
            } else {
                given.clone()
            }
        },
        None => String::from_str(stem).concat(fallback),
    }
}

} // verus!
