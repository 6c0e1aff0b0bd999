//! Display names for new users: a weapon to be a fan of, and a number.

use rand::seq::IndexedRandom;
use vstd::prelude::*;
use vstd::string::StringExecFns;

verus! {

/// How many digits the number of a generated name has.
pub const USERNAME_DIGITS: usize = 6;

/// Whether `weapon` is one of the three names a generated name starts with.
pub open spec fn is_weapon_name(weapon: Seq<char>) -> bool {
    weapon == "Rock"@ || weapon == "Paper"@ || weapon == "Scissors"@
}

/// The last decimal digit of `number`, as text.
pub open spec fn digit_text(number: u32) -> Seq<char> {
    match number % 10 {
        0 => "0"@,
        1 => "1"@,
        2 => "2"@,
        3 => "3"@,
        4 => "4"@,
        5 => "5"@,
        6 => "6"@,
        7 => "7"@,
        8 => "8"@,
        _ => "9"@,
    }
}

/// The last decimal digits of `numbers`, one after the other.
pub open spec fn digits_text(numbers: Seq<u32>) -> Seq<char>
    decreases numbers.len(),
{
    if numbers.len() == 0 {
        Seq::empty()
    } else {
        digits_text(numbers.drop_last()) + digit_text(numbers.last())
    }
}

/// The name made of `weapon` and `numbers`: the weapon, then ` fan #`, then
/// one digit for each number.
pub open spec fn username_text(weapon: Seq<char>, numbers: Seq<u32>) -> Seq<char> {
    weapon + " fan #"@ + digits_text(numbers)
}

/// Whether `name` is one that [`generate_username`] can come up with.
pub open spec fn is_generated_username(name: Seq<char>) -> bool {
    exists|weapon: Seq<char>, numbers: Seq<u32>|
        is_weapon_name(weapon) && numbers.len() == USERNAME_DIGITS && name == #[trigger] username_text(
            weapon,
            numbers,
        )
}

/// The last decimal digit of `number`, as text.
pub fn digit(number: u32) -> (text: &'static str)
    ensures
        text@ == digit_text(number),
{
    match number % 10 {
        0 => "0",
        1 => "1",
        2 => "2",
        3 => "3",
        4 => "4",
        5 => "5",
        6 => "6",
        7 => "7",
        8 => "8",
        _ => "9",
    }
}

/// The name made of `weapon` and `numbers`, of each of which only the last
/// decimal digit is used: `Rock` and 4, 0, 7 make `Rock fan #407`.
pub fn compose_username(weapon: &str, numbers: &Vec<u32>) -> (name: String)
    ensures
        name@ == username_text(weapon@, numbers@),
{
    let mut name = String::from_str(weapon);
    name.append(" fan #");
    let mut i: usize = 0;
    while i < numbers.len()
        invariant
            i <= numbers.len(),
            name@ == username_text(weapon@, numbers@.take(i as int)),
        decreases numbers.len() - i,
    {
        name.append(digit(numbers[i]));
        proof {
            let longer = numbers@.take(i + 1);
            assert(longer.drop_last() =~= numbers@.take(i as int));
        }
        i += 1;
    }
    assert(numbers@.take(i as int) =~= numbers@);
    name
}

/// A fresh display name: a randomly chosen weapon and six random digits,
/// such as `Paper fan #031337`. Nothing keeps two calls from returning the
/// same name.
pub fn generate_username() -> (name: String)
    ensures
        is_generated_username(name@),
{
    let weapons: Vec<&'static str> = vec!["Rock", "Paper", "Scissors"];
    let weapon = match pick(weapons.as_slice()) {
        Some(weapon) => weapon,
        None => "Rock",
    };
    let mut numbers: Vec<u32> = Vec::new();
    while numbers.len() < USERNAME_DIGITS
        invariant
            numbers.len() <= USERNAME_DIGITS,
        decreases USERNAME_DIGITS - numbers.len(),
    {
        numbers.push(random_below(10));
    }
    let name = compose_username(weapon, &numbers);
    name
}

/// Calls `choose` of rand's `IndexedRandom` on the slice, with the
/// thread-local generator `rand::rng()`.
///
/// Trusted: the result is one of the slice's items, or `None` if it has
/// none.
#[verifier::external_body]
fn pick(options: &[&'static str]) -> (chosen: Option<&'static str>)
    ensures
        match chosen {
            Some(option) => options@.contains(option),
            None => options@.len() == 0,
        },
{
    options.choose(&mut rand::rng()).copied()
}

/// Calls `rand::random_range` on the range from 0 up to, and without,
/// `bound`.
///
/// Trusted: the result lies in that range. `random_range` panics on an empty
/// range, which the precondition rules out.
#[verifier::external_body]
fn random_below(bound: u32) -> (number: u32)
    requires
        bound > 0,
    ensures
        number < bound,
{
    rand::random_range(0..bound)
}

} // verus!
