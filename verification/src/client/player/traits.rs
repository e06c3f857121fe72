//! Random names and attributes for a character the client creates by itself.

use vstd::prelude::*;

use rand::Rng;

use crate::bytes::push_char;
use crate::client::player::types::{Class, Gender, Race};

verus! {

/// Draws a number below `n` with `rand::Rng::gen_range(0..n)` on the thread generator.
/// Trusted: `gen_range` documents a value inside the range, which is not empty here.
#[verifier::external_body]
fn random_below(n: u32) -> (r: u32)
    requires
        n > 0,
    ensures
        r < n,
{
    rand::thread_rng().gen_range(0..n)
}

pub open spec fn is_ascii_letter(c: u8) -> bool {
    (65 <= c <= 90) || (97 <= c <= 122)
}

pub open spec fn ascii_upper(c: u8) -> u8 {
    if 97 <= c <= 122 {
        (c - 32) as u8
    } else {
        c
    }
}

pub open spec fn ascii_lower(c: u8) -> u8 {
    if 65 <= c <= 90 {
        (c + 32) as u8
    } else {
        c
    }
}

/// The name made of random letters: all lower case, or (capitalized) the first letter
/// upper case followed by all the letters lower case.
pub open spec fn name_from_letters(letters: Seq<u8>, capitalize: bool) -> Seq<char> {
    let lower = letters.map_values(|c: u8| ascii_lower(c) as char);
    if capitalize && letters.len() > 0 {
        seq![ascii_upper(letters[0]) as char] + lower
    } else {
        lower
    }
}

/// A random name may be made of these letters: nine to eleven ASCII letters.
pub open spec fn random_letters(letters: Seq<u8>) -> bool {
    &&& 9 <= letters.len() <= 11
    &&& forall|k: int| 0 <= k < letters.len() ==> is_ascii_letter(#[trigger] letters[k])
}

/// The letter a draw below 52 stands for: `A` to `Z`, then `a` to `z`.
pub open spec fn letter_of(draw: u32) -> u8 {
    if draw < 26 {
        (65 + draw) as u8
    } else {
        (97 + draw - 26) as u8
    }
}

/// The letters the draws stand for.
pub open spec fn letters_of(draws: Seq<u32>) -> Seq<u8> {
    draws.map_values(|d: u32| letter_of(d))
}

/// The name made of the letters the draws stand for, lower case or capitalized.
pub fn name_from_draws(draws: &Vec<u32>, capitalize: bool) -> (name: String)
    requires
        forall|k: int| 0 <= k < draws@.len() ==> #[trigger] draws@[k] < 52,
    ensures
        name@ == name_from_letters(letters_of(draws@), capitalize),
{
    let ghost letters = letters_of(draws@);
    let mut name = String::new();
    if capitalize && draws.len() > 0 {
        let d = draws[0];
        let first: u8 = if d < 26 {
            (65 + d) as u8
        } else {
            (97 + d - 26) as u8
        };
        assert(first == letters[0]);
        let upper: u8 = if 97 <= first && first <= 122 {
            first - 32
        } else {
            first
        };
        push_char(&mut name, upper as char);
    }
    let ghost head = name@;
    let mut k: usize = 0;
    while k < draws.len()
        invariant
            k <= draws@.len(),
            letters == letters_of(draws@),
            forall|j: int| 0 <= j < draws@.len() ==> #[trigger] draws@[j] < 52,
            name@ == head + letters.take(k as int).map_values(|c: u8| ascii_lower(c) as char),
        decreases draws@.len() - k,
    {
        let d = draws[k];
        let c: u8 = if d < 26 {
            (65 + d) as u8
        } else {
            (97 + d - 26) as u8
        };
        assert(c == letters[k as int]);
        let lower: u8 = if 65 <= c && c <= 90 {
            c + 32
        } else {
            c
        };
        push_char(&mut name, lower as char);
        k = k + 1;
        assert(name@ =~= head + letters.take(k as int).map_values(|c: u8| ascii_lower(c) as char));
    }
    assert(letters.take(letters.len() as int) =~= letters);
    assert(name@ =~= name_from_letters(letters, capitalize));
    name
}

/// A name of nine to eleven random ASCII letters, lower case, or capitalized.
pub fn generate_random_string(capitalize: bool) -> (name: String)
    ensures
        exists|letters: Seq<u8>|
            random_letters(letters) && name@ == #[trigger] name_from_letters(letters, capitalize),
{
    let length = 9 + random_below(3);
    let mut draws: Vec<u32> = Vec::new();
    while draws.len() < length as usize
        invariant
            draws@.len() <= length <= 11,
            forall|k: int| 0 <= k < draws@.len() ==> #[trigger] draws@[k] < 52,
        decreases length - draws@.len(),
    {
        draws.push(random_below(52));
    }
    let name = name_from_draws(&draws, capitalize);
    proof {
        let letters = letters_of(draws@);
        assert forall|k: int| 0 <= k < letters.len() implies is_ascii_letter(#[trigger] letters[k]) by {
            assert(draws@[k] < 52);
        }
        assert(random_letters(letters));
    }
    name
}

/// A race among human, orc, dwarf, night elf, undead and troll, drawn at random.
pub fn get_random_race() -> (race: u8)
    ensures
        race == Race::HUMAN || race == Race::ORC || race == Race::DWARF || race == Race::NIGHTELF
            || race == Race::UNDEAD || race == Race::TROLL,
{
    let races: [u8; 6] = [Race::HUMAN, Race::ORC, Race::DWARF, Race::NIGHTELF, Race::UNDEAD, Race::TROLL];
    races[random_below(6) as usize]
}

/// Warrior or rogue, drawn at random.
pub fn get_random_class() -> (class: u8)
    ensures
        class == Class::WARRIOR || class == Class::ROGUE,
{
    let classes: [u8; 2] = [Class::WARRIOR, Class::ROGUE];
    classes[random_below(2) as usize]
}

/// Male or female, drawn at random.
pub fn get_random_gender() -> (gender: u8)
    ensures
        gender == Gender::GENDER_MALE || gender == Gender::GENDER_FEMALE,
{
    let genders: [u8; 2] = [Gender::GENDER_MALE, Gender::GENDER_FEMALE];
    genders[random_below(2) as usize]
}

} // verus!
