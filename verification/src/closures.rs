//! Closures as values: calling them, storing them, and caching what they
//! return.

use vstd::prelude::*;
use std::collections::HashMap;

verus! {

/// Remembers the first result of a calculation and hands it out from then on.
pub struct Cacher<T> where T: Fn(u32) -> u32 {
    pub calculation: T,
    pub value: Option<u32>,
}

impl<T> Cacher<T> where T: Fn(u32) -> u32 {
    /// A cacher that has calculated nothing yet.
    pub fn new(calculation: T) -> (c: Cacher<T>)
        ensures
            c.calculation == calculation,
            c.value.is_none(),
    {
        Cacher { calculation, value: None }
    }

    /// The remembered result; on the first call, the result of the
    /// calculation on `arg`, which is remembered.
    pub fn value(&mut self, arg: u32) -> (v: u32)
        requires
            old(self).value.is_none() ==> call_requires(old(self).calculation, (arg,)),
        ensures
            final(self).value == Some(v),
            final(self).calculation == old(self).calculation,
            old(self).value matches Some(cached) ==> v == cached,
            old(self).value.is_none() ==> call_ensures(old(self).calculation, (arg,), v),
    {
        match self.value {
            Some(v) => v,
            None => {
                let v: u32 = (self.calculation)(arg);
                self.value = Some(v);
                v
            },
        }
    }
}

/// What to do today.
#[derive(Debug, Clone, Copy, PartialEq, Eq, Structural)]
pub enum Workout {
    /// Push-ups first, then as many sit-ups.
    Strength { pushups: u32, situps: u32 },
    /// A day off.
    Rest,
    /// A run of so many minutes.
    Run { minutes: u32 },
}

/// Plans a workout. A low intensity, below 25, asks for push-ups and
/// sit-ups; a high one for a run, unless the random number is 3, which
/// gives a day off. The amount is calculated from the intensity, once.
pub fn generate_workout<F>(intensity: u32, random_number: u32, calculation: F) -> (plan: Workout)
    where F: Fn(u32) -> u32
    requires
        (intensity < 25 || random_number != 3) ==> call_requires(calculation, (intensity,)),
    ensures
        intensity < 25 ==> (plan matches Workout::Strength { pushups, situps } && situps
            == pushups && call_ensures(calculation, (intensity,), pushups)),
        intensity >= 25 && random_number == 3 ==> plan == Workout::Rest,
        intensity >= 25 && random_number != 3 ==> (plan matches Workout::Run { minutes }
            && call_ensures(calculation, (intensity,), minutes)),
{
    let mut expensive_result = Cacher::new(calculation);
    if intensity < 25 {
        let pushups: u32 = expensive_result.value(intensity);
        let situps: u32 = expensive_result.value(intensity);
        Workout::Strength { pushups, situps }
    } else {
        if random_number == 3 {
            Workout::Rest
        } else {
            Workout::Run { minutes: expensive_result.value(intensity) }
        }
    }
}

/// The square of `x`, looked up in the cache where it is there, and
/// calculated and put there where it is not.
pub fn cached_square(cache: &mut HashMap<i32, i32>, x: i32) -> (square: i32)
    requires
        !old(cache)@.contains_key(x) ==> x * x <= i32::MAX,
    ensures
        old(cache)@.contains_key(x) ==> square == old(cache)@[x],
        old(cache)@.contains_key(x) ==> final(cache)@ == old(cache)@,
        !old(cache)@.contains_key(x) ==> square == x * x,
        !old(cache)@.contains_key(x) ==> final(cache)@ == old(cache)@.insert(x, square),
{
    broadcast use vstd::std_specs::hash::group_hash_axioms;

    let hit: Option<i32> = match cache.get(&x) {
        Some(result) => Some(*result),
        None => None,
    };
    match hit {
        Some(result) => result,
        None => {
            assert(x * x >= 0) by (nonlinear_arith);
            let result: i32 = x * x;
            cache.insert(x, result);
            result
        },
    }
}

/// A shoe of some size and style.
#[derive(Debug)]
pub struct Shoe {
    pub size: u32,
    pub style: String,
}

/// The shoes of the given size, in the order in which they came.
pub fn shoes_in_size(shoes: Vec<Shoe>, shoe_size: u32) -> (fitting: Vec<Shoe>)
    ensures
        fitting@ == shoes@.filter(|s: Shoe| s.size == shoe_size),
{
    let ghost fits = |s: Shoe| s.size == shoe_size;
    let mut fitting: Vec<Shoe> = Vec::new();
    let mut i: usize = 0;
    proof {
        reveal(Seq::filter);
        assert(shoes@.take(0).filter(fits) =~= Seq::<Shoe>::empty());
    }
    while i < shoes.len()
        invariant
            0 <= i <= shoes@.len(),
            fits == |s: Shoe| s.size == shoe_size,
            fitting@ == shoes@.take(i as int).filter(fits),
        decreases shoes@.len() - i,
    {
        proof {
            reveal(Seq::filter);
            assert(shoes@.take(i + 1).drop_last() =~= shoes@.take(i as int));
        }
        if shoes[i].size == shoe_size {
            fitting.push(Shoe { size: shoes[i].size, style: shoes[i].style.clone() });
        }
        i += 1;
    }
    assert(shoes@.take(i as int) =~= shoes@);
    fitting
}

} // verus!
