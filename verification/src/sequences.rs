//! What iterators compute over a slice of numbers, written as loops.

use vstd::prelude::*;

verus! {

/// The sum of the elements.
pub open spec fn total(s: Seq<i32>) -> int
    decreases s.len(),
{
    if s.len() == 0 {
        0
    } else {
        total(s.drop_last()) + s.last()
    }
}

/// The product of the elements.
pub open spec fn product_of(s: Seq<i32>) -> int
    decreases s.len(),
{
    if s.len() == 0 {
        1
    } else {
        product_of(s.drop_last()) * s.last()
    }
}

/// Every sum of the first few elements fits in 32 bits.
pub open spec fn sums_fit(s: Seq<i32>) -> bool {
    forall|n: int| 0 <= n <= s.len() ==> i32::MIN <= #[trigger] total(s.take(n)) <= i32::MAX
}

/// Every product of the first few elements fits in 32 bits.
pub open spec fn products_fit(s: Seq<i32>) -> bool {
    forall|n: int| 0 <= n <= s.len() ==> i32::MIN <= #[trigger] product_of(s.take(n)) <= i32::MAX
}

/// A number is even.
pub open spec fn is_even(x: i32) -> bool {
    x % 2 == 0
}

/// Each element, doubled.
pub fn doubled(numbers: &[i32]) -> (twice: Vec<i32>)
    requires
        forall|i: int| 0 <= i < numbers@.len() ==> i32::MIN <= 2 * #[trigger] numbers@[i] <= i32::MAX,
    ensures
        twice@.len() == numbers@.len(),
        forall|i: int| 0 <= i < numbers@.len() ==> #[trigger] twice@[i] == 2 * numbers@[i],
{
    let mut twice: Vec<i32> = Vec::new();
    let mut i: usize = 0;
    while i < numbers.len()
        invariant
            0 <= i <= numbers@.len(),
            twice@.len() == i,
            forall|k: int|
                0 <= k < numbers@.len() ==> i32::MIN <= 2 * #[trigger] numbers@[k] <= i32::MAX,
            forall|k: int| 0 <= k < i ==> #[trigger] twice@[k] == 2 * numbers@[k],
        decreases numbers@.len() - i,
    {
        twice.push(numbers[i] * 2);
        i += 1;
    }
    twice
}

/// The even elements, in their order.
pub fn evens(numbers: &[i32]) -> (even: Vec<i32>)
    ensures
        even@ == numbers@.filter(|x: i32| is_even(x)),
{
    let ghost keep = |x: i32| is_even(x);
    let mut even: Vec<i32> = Vec::new();
    let mut i: usize = 0;
    proof {
        reveal(Seq::filter);
        assert(numbers@.take(0).filter(keep) =~= Seq::<i32>::empty());
    }
    while i < numbers.len()
        invariant
            0 <= i <= numbers@.len(),
            keep == |x: i32| is_even(x),
            even@ == numbers@.take(i as int).filter(keep),
        decreases numbers@.len() - i,
    {
        proof {
            reveal(Seq::filter);
            assert(numbers@.take(i + 1).drop_last() =~= numbers@.take(i as int));
        }
        if numbers[i] % 2 == 0 {
            even.push(numbers[i]);
        }
        i += 1;
    }
    assert(numbers@.take(i as int) =~= numbers@);
    even
}

/// The sum of the elements, added up from the left.
pub fn sum(numbers: &[i32]) -> (sum: i32)
    requires
        sums_fit(numbers@),
    ensures
        sum == total(numbers@),
{
    let mut sum: i32 = 0;
    let mut i: usize = 0;
    assert(numbers@.take(0) =~= Seq::<i32>::empty());
    while i < numbers.len()
        invariant
            0 <= i <= numbers@.len(),
            sums_fit(numbers@),
            sum == total(numbers@.take(i as int)),
        decreases numbers@.len() - i,
    {
        proof {
            assert(numbers@.take(i + 1).drop_last() =~= numbers@.take(i as int));
            assert(i32::MIN <= total(numbers@.take(i + 1)) <= i32::MAX);
        }
        sum = sum + numbers[i];
        i += 1;
    }
    assert(numbers@.take(i as int) =~= numbers@);
    sum
}

/// The product of the elements, multiplied up from the left.
pub fn product(numbers: &[i32]) -> (product: i32)
    requires
        products_fit(numbers@),
    ensures
        product == product_of(numbers@),
{
    let mut product: i32 = 1;
    let mut i: usize = 0;
    assert(numbers@.take(0) =~= Seq::<i32>::empty());
    while i < numbers.len()
        invariant
            0 <= i <= numbers@.len(),
            products_fit(numbers@),
            product == product_of(numbers@.take(i as int)),
        decreases numbers@.len() - i,
    {
        proof {
            assert(numbers@.take(i + 1).drop_last() =~= numbers@.take(i as int));
            assert(i32::MIN <= product_of(numbers@.take(i + 1)) <= i32::MAX);
        }
        product = product * numbers[i];
        i += 1;
    }
    assert(numbers@.take(i as int) =~= numbers@);
    product
}

/// Whether some element is even.
pub fn any_even(numbers: &[i32]) -> (found: bool)
    ensures
        found == exists|i: int| 0 <= i < numbers@.len() && is_even(#[trigger] numbers@[i]),
{
    let mut i: usize = 0;
    while i < numbers.len()
        invariant
            0 <= i <= numbers@.len(),
            forall|k: int| 0 <= k < i ==> !is_even(#[trigger] numbers@[k]),
        decreases numbers@.len() - i,
    {
        if numbers[i] % 2 == 0 {
            return true;
        }
        i += 1;
    }
    false
}

/// Whether every element is above zero.
pub fn all_positive(numbers: &[i32]) -> (all: bool)
    ensures
        all == forall|i: int| 0 <= i < numbers@.len() ==> #[trigger] numbers@[i] > 0,
{
    let mut i: usize = 0;
    while i < numbers.len()
        invariant
            0 <= i <= numbers@.len(),
            forall|k: int| 0 <= k < i ==> #[trigger] numbers@[k] > 0,
        decreases numbers@.len() - i,
    {
        if !(numbers[i] > 0) {
            return false;
        }
        i += 1;
    }
    true
}

/// The first even element, if there is one.
pub fn first_even(numbers: &[i32]) -> (first: Option<i32>)
    ensures
        first matches Some(x) ==> exists|i: int|
            0 <= i < numbers@.len() && #[trigger] numbers@[i] == x && is_even(x) && forall|k: int|
                0 <= k < i ==> !is_even(#[trigger] numbers@[k]),
        first is None ==> forall|k: int|
            0 <= k < numbers@.len() ==> !is_even(#[trigger] numbers@[k]),
{
    let mut i: usize = 0;
    while i < numbers.len()
        invariant
            0 <= i <= numbers@.len(),
            forall|k: int| 0 <= k < i ==> !is_even(#[trigger] numbers@[k]),
        decreases numbers@.len() - i,
    {
        if numbers[i] % 2 == 0 {
            return Some(numbers[i]);
        }
        i += 1;
    }
    None
}

/// The first place at which `target` stands, if it stands anywhere.
pub fn position(numbers: &[i32], target: i32) -> (place: Option<usize>)
    ensures
        place matches Some(i) ==> i < numbers@.len() && numbers@[i as int] == target && forall|
            k: int,
        | 0 <= k < i ==> #[trigger] numbers@[k] != target,
        place is None ==> forall|k: int|
            0 <= k < numbers@.len() ==> #[trigger] numbers@[k] != target,
{
    let mut i: usize = 0;
    while i < numbers.len()
        invariant
            0 <= i <= numbers@.len(),
            forall|k: int| 0 <= k < i ==> #[trigger] numbers@[k] != target,
        decreases numbers@.len() - i,
    {
        if numbers[i] == target {
            return Some(i);
        }
        i += 1;
    }
    None
}

/// The sums of the pairs, pair by pair.
pub fn pair_sums(pairs: &[(i32, i32)]) -> (sums: Vec<i32>)
    requires
        forall|i: int|
            0 <= i < pairs@.len() ==> i32::MIN <= (#[trigger] pairs@[i]).0 + pairs@[i].1
                <= i32::MAX,
    ensures
        sums@.len() == pairs@.len(),
        forall|i: int| 0 <= i < pairs@.len() ==> #[trigger] sums@[i] == pairs@[i].0 + pairs@[i].1,
{
    let mut sums: Vec<i32> = Vec::new();
    let mut i: usize = 0;
    while i < pairs.len()
        invariant
            0 <= i <= pairs@.len(),
            sums@.len() == i,
            forall|k: int|
                0 <= k < pairs@.len() ==> i32::MIN <= (#[trigger] pairs@[k]).0 + pairs@[k].1
                    <= i32::MAX,
            forall|k: int| 0 <= k < i ==> #[trigger] sums@[k] == pairs@[k].0 + pairs@[k].1,
        decreases pairs@.len() - i,
    {
        let pair = pairs[i];
        sums.push(pair.0 + pair.1);
        i += 1;
    }
    sums
}

} // verus!
