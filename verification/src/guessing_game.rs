//! A guessing game: a secret number from 1 to 100, and a verdict on each
//! line that the player types.

use vstd::prelude::*;
use rand::Rng;
use crate::text::{trim, trimmed};

verus! {

/// The smallest number that can be the secret.
pub const LOWEST: u32 = 1;

/// The largest number that can be the secret.
pub const HIGHEST: u32 = 100;

/// What the game says of a guess.
#[derive(Debug, Clone, Copy, PartialEq, Eq, Structural)]
pub enum Verdict {
    TooSmall,
    TooBig,
    Win,
}

/// What the game makes of one line of input.
#[derive(Debug, Clone, Copy, PartialEq, Eq, Structural)]
pub enum Turn {
    /// The line was no number: the player is asked again.
    NotANumber,
    /// The line was a number, and this is the verdict on it.
    Guess { number: u32, verdict: Verdict },
}

/// The verdict on a guess: too small below the secret, too big above it.
pub open spec fn verdict_of(guess: u32, secret: u32) -> Verdict {
    if guess < secret {
        Verdict::TooSmall
    } else if guess > secret {
        Verdict::TooBig
    } else {
        Verdict::Win
    }
}

/// The turn that follows from what the line parsed to.
pub open spec fn turn_of(parsed: Option<u32>, secret: u32) -> Turn {
    match parsed {
        Some(number) => Turn::Guess { number, verdict: verdict_of(number, secret) },
        None => Turn::NotANumber,
    }
}

/// The number that a text stands for, as the standard library parses it, or
/// `None` where it stands for none that fits.
pub uninterp spec fn parsed_u32(text: Seq<char>) -> Option<u32>;

/// `rand::rngs::ThreadRng`, the random number generator of a thread. It is
/// carried from where it is made to where it is used, and never looked into.
#[verifier::external_type_specification]
#[verifier::external_body]
pub struct ExThreadRng(rand::rngs::ThreadRng);

/// `rand::thread_rng` hands out the generator of the current thread, which
/// the operating system seeds on first use. Nothing is claimed of it.
pub assume_specification[ rand::thread_rng ]() -> (rng: rand::rngs::ThreadRng);

/// Calls `Rng::gen_range` with the inclusive range from `low` to `high`. An
/// empty range makes it panic, so `low` may not exceed `high`. The number
/// depends on chance; the contract claims only that it lies in the range.
#[verifier::external_body]
fn gen_range(rng: &mut rand::rngs::ThreadRng, low: u32, high: u32) -> (n: u32)
    requires
        low <= high,
    ensures
        low <= n <= high,
{
    rng.gen_range(low..=high)
}

/// Calls `str::parse` for a `u32`. The contract gives the result the name
/// [`parsed_u32`], with every error mapped to `None`.
#[verifier::external_body]
fn parse_u32(text: &str) -> (number: Option<u32>)
    ensures
        number == parsed_u32(text@),
{
    match text.parse::<u32>() {
        Ok(number) => Some(number),
        Err(_) => None,
    }
}

impl Verdict {
    /// What the game tells the player.
    pub fn message(&self) -> (text: &'static str)
        ensures
            text@ == match self {
                Verdict::TooSmall => "Too small!"@,
                Verdict::TooBig => "Too big!"@,
                Verdict::Win => "You win!"@,
            },
    {
        match self {
            Verdict::TooSmall => "Too small!",
            Verdict::TooBig => "Too big!",
            Verdict::Win => "You win!",
        }
    }

    /// Whether the game ends with this verdict.
    pub fn ends_game(&self) -> (over: bool)
        ensures
            over == (*self == Verdict::Win),
    {
        match self {
            Verdict::Win => true,
            _ => false,
        }
    }
}

/// Draws the secret number: any number from 1 to 100.
pub fn secret_number() -> (secret: u32)
    ensures
        LOWEST <= secret <= HIGHEST,
{
    let mut rng = rand::thread_rng();
    gen_range(&mut rng, LOWEST, HIGHEST)
}

/// Compares a guess with the secret.
pub fn judge(guess: u32, secret: u32) -> (verdict: Verdict)
    ensures
        verdict == verdict_of(guess, secret),
{
    if guess < secret {
        Verdict::TooSmall
    } else if guess > secret {
        Verdict::TooBig
    } else {
        Verdict::Win
    }
}

/// The turn for a line that has been parsed already.
pub fn turn_for(parsed: Option<u32>, secret: u32) -> (turn: Turn)
    ensures
        turn == turn_of(parsed, secret),
{
    match parsed {
        Some(number) => Turn::Guess { number, verdict: judge(number, secret) },
        None => Turn::NotANumber,
    }
}

/// The turn for a line as the player typed it: the line is trimmed and
/// parsed, and a number is compared with the secret.
pub fn play_turn(line: &str, secret: u32) -> (turn: Turn)
    ensures
        turn == turn_of(parsed_u32(trimmed(line@)), secret),
{
    turn_for(parse_u32(trim(line)), secret)
}

/// The game is won by the secret itself and by no other guess.
pub proof fn lemma_only_the_secret_wins(guess: u32, secret: u32)
    ensures
        verdict_of(guess, secret) == Verdict::Win <==> guess == secret,
{
}

} // verus!
