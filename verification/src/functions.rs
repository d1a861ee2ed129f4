//! Plain functions: arithmetic, recursion, and searching in slices.

use vstd::prelude::*;

verus! {

/// The sum of two numbers.
pub fn add(a: i32, b: i32) -> (sum: i32)
    requires
        i32::MIN <= a + b <= i32::MAX,
    ensures
        sum == a + b,
{
    a + b
}

/// The sum of two numbers, written as a tail expression.
pub fn add2(a: i32, b: i32) -> (sum: i32)
    requires
        i32::MIN <= a + b <= i32::MAX,
    ensures
        sum == a + b,
{
    a + b
}

/// The difference of two numbers.
pub fn subtract(a: i32, b: i32) -> (difference: i32)
    requires
        i32::MIN <= a - b <= i32::MAX,
    ensures
        difference == a - b,
{
    a - b
}

/// The product of two numbers.
pub fn multiply(x: i32, y: i32) -> (product: i32)
    requires
        i32::MIN <= x * y <= i32::MAX,
    ensures
        product == x * y,
{
    x * y
}

/// The constant five.
pub fn five() -> (r: i32)
    ensures
        r == 5,
{
    5
}

/// The successor of `x`.
pub fn plus_one(x: i32) -> (r: i32)
    requires
        x < i32::MAX,
    ensures
        r == x + 1,
{
    x + 1
}

/// The greeting `Hello, <name>!`.
pub open spec fn greeting(name: Seq<char>) -> Seq<char> {
    "Hello, "@ + name + "!"@
}

/// Greets a person by name.
pub fn greet_person(name: &str) -> (r: String)
    ensures
        r@ == greeting(name@),
{
    let mut text = String::from_str("Hello, ");
    text.append(name);
    text.append("!");
    text
}

/// The smallest and the largest element of a non-empty sequence are both
/// members of it and bound every member.
pub open spec fn is_min_max(s: Seq<i32>, min: i32, max: i32) -> bool {
    &&& s.contains(min)
    &&& s.contains(max)
    &&& forall|i: int| 0 <= i < s.len() ==> min <= #[trigger] s[i] <= max
}

/// The smallest and the largest element of a non-empty slice, in that order.
pub fn find_min_max(arr: &[i32]) -> (r: (i32, i32))
    requires
        arr@.len() > 0,
    ensures
        is_min_max(arr@, r.0, r.1),
{
    let mut min: i32 = arr[0];
    let mut max: i32 = arr[0];
    let mut i: usize = 0;
    while i < arr.len()
        invariant
            0 <= i <= arr@.len(),
            arr@.len() > 0,
            arr@.contains(min),
            arr@.contains(max),
            forall|k: int| 0 <= k < i ==> min <= #[trigger] arr@[k] <= max,
            i == 0 ==> min == arr@[0] && max == arr@[0],
        decreases arr@.len() - i,
    {
        let item: i32 = arr[i];
        if item < min {
            min = item;
        }
        if item > max {
            max = item;
        }
        i += 1;
    }
    (min, max)
}

/// `n!`, the product of the numbers from 1 to `n`.
pub open spec fn factorial(n: nat) -> nat
    decreases n,
{
    if n <= 1 {
        1
    } else {
        n * factorial((n - 1) as nat)
    }
}

/// The factorials that fit in 32 bits.
pub proof fn lemma_factorial_values()
    ensures
        factorial(0) == 1,
        factorial(1) == 1,
        factorial(2) == 2,
        factorial(3) == 6,
        factorial(4) == 24,
        factorial(5) == 120,
        factorial(6) == 720,
        factorial(7) == 5040,
        factorial(8) == 40320,
        factorial(9) == 362880,
        factorial(10) == 3628800,
        factorial(11) == 39916800,
        factorial(12) == 479001600,
{
    reveal_with_fuel(factorial, 13);
}

/// Computes `n!` by recursion.
pub fn calculate_factorial(n: u32) -> (r: u32)
    requires
        n <= 12,
    ensures
        r == factorial(n as nat),
    decreases n,
{
    proof {
        lemma_factorial_values();
    }
    if n <= 1 {
        1
    } else {
        n * calculate_factorial(n - 1)
    }
}

/// The Fibonacci numbers: 0, 1, 1, 2, 3, 5, ...
pub open spec fn fib(n: nat) -> nat
    decreases n,
{
    if n <= 1 {
        n
    } else {
        fib((n - 1) as nat) + fib((n - 2) as nat)
    }
}

/// The Fibonacci numbers never decrease.
pub proof fn lemma_fib_monotonic(i: nat, j: nat)
    requires
        i <= j,
    ensures
        fib(i) <= fib(j),
    decreases j,
{
    if i < j {
        if j >= 2 {
            lemma_fib_monotonic(i, (j - 1) as nat);
        }
    }
}

/// The largest Fibonacci number that fits in 32 bits is the 47th.
pub proof fn lemma_fib_47()
    ensures
        fib(47) == 2971215073,
{
    assert(fib(0) == 0);
    assert(fib(1) == 1);
    assert(fib(2) == 1);
    assert(fib(3) == 2);
    assert(fib(4) == 3);
    assert(fib(5) == 5);
    assert(fib(6) == 8);
    assert(fib(7) == 13);
    assert(fib(8) == 21);
    assert(fib(9) == 34);
    assert(fib(10) == 55);
    assert(fib(11) == 89);
    assert(fib(12) == 144);
    assert(fib(13) == 233);
    assert(fib(14) == 377);
    assert(fib(15) == 610);
    assert(fib(16) == 987);
    assert(fib(17) == 1597);
    assert(fib(18) == 2584);
    assert(fib(19) == 4181);
    assert(fib(20) == 6765);
    assert(fib(21) == 10946);
    assert(fib(22) == 17711);
    assert(fib(23) == 28657);
    assert(fib(24) == 46368);
    assert(fib(25) == 75025);
    assert(fib(26) == 121393);
    assert(fib(27) == 196418);
    assert(fib(28) == 317811);
    assert(fib(29) == 514229);
    assert(fib(30) == 832040);
    assert(fib(31) == 1346269);
    assert(fib(32) == 2178309);
    assert(fib(33) == 3524578);
    assert(fib(34) == 5702887);
    assert(fib(35) == 9227465);
    assert(fib(36) == 14930352);
    assert(fib(37) == 24157817);
    assert(fib(38) == 39088169);
    assert(fib(39) == 63245986);
    assert(fib(40) == 102334155);
    assert(fib(41) == 165580141);
    assert(fib(42) == 267914296);
    assert(fib(43) == 433494437);
    assert(fib(44) == 701408733);
    assert(fib(45) == 1134903170);
    assert(fib(46) == 1836311903);
}

/// Computes the `n`-th Fibonacci number by double recursion.
pub fn fibonacci(n: u32) -> (r: u32)
    requires
        n <= 47,
    ensures
        r == fib(n as nat),
    decreases n,
{
    if n <= 1 {
        n
    } else {
        proof {
            lemma_fib_47();
            lemma_fib_monotonic(n as nat, 47);
        }
        fibonacci(n - 1) + fibonacci(n - 2)
    }
}

/// The elements never decrease from left to right.
pub open spec fn is_sorted(s: Seq<i32>) -> bool {
    forall|i: int, j: int| 0 <= i <= j < s.len() ==> s[i] <= s[j]
}

/// The index that bisection reaches when it looks for `target` between the
/// positions `left` and `right`, both included, halving the range at each step.
pub open spec fn bisect(s: Seq<i32>, target: i32, left: int, right: int) -> Option<int>
    decreases right - left + 1,
{
    if left > right || left < 0 {
        None
    } else {
        let mid = (left + right) / 2;
        if s[mid] == target {
            Some(mid)
        } else if s[mid] > target {
            if mid == 0 {
                None
            } else {
                bisect(s, target, left, mid - 1)
            }
        } else {
            bisect(s, target, mid + 1, right)
        }
    }
}

/// Whatever the order of the elements, an index that bisection gives lies in
/// the range and holds the target.
pub proof fn lemma_bisect_hit(s: Seq<i32>, target: i32, left: int, right: int)
    requires
        0 <= left,
        right < s.len(),
    ensures
        bisect(s, target, left, right) matches Some(i) ==> left <= i <= right && s[i] == target,
    decreases right - left + 1,
{
    if left <= right {
        let mid = (left + right) / 2;
        if s[mid] != target {
            if s[mid] > target {
                if mid != 0 {
                    lemma_bisect_hit(s, target, left, mid - 1);
                }
            } else {
                lemma_bisect_hit(s, target, mid + 1, right);
            }
        }
    }
}

/// On a sorted sequence bisection fails only where the target is absent from
/// the range.
pub proof fn lemma_bisect_complete(s: Seq<i32>, target: i32, left: int, right: int)
    requires
        is_sorted(s),
        0 <= left,
        right < s.len(),
    ensures
        bisect(s, target, left, right) is None ==> forall|k: int|
            left <= k <= right ==> s[k] != target,
    decreases right - left + 1,
{
    if left <= right {
        let mid = (left + right) / 2;
        if s[mid] != target {
            if s[mid] > target {
                if mid != 0 {
                    lemma_bisect_complete(s, target, left, mid - 1);
                }
            } else {
                lemma_bisect_complete(s, target, mid + 1, right);
            }
        }
    }
}

/// Looks for `target` in `arr[left..=right]` by bisection.
pub fn binary_search(arr: &[i32], target: i32, left: usize, right: usize) -> (r: Option<usize>)
    requires
        left <= right ==> right < arr@.len() && right + right <= usize::MAX,
    ensures
        r matches Some(i) ==> bisect(arr@, target, left as int, right as int) == Some(i as int),
        r is None ==> bisect(arr@, target, left as int, right as int) is None,
        r matches Some(i) ==> left <= i <= right && arr@[i as int] == target,
        is_sorted(arr@) && r is None ==> forall|k: int|
            left <= k <= right ==> arr@[k] != target,
    decreases right - left + 1,
{
    if left > right {
        return None;
    }
    proof {
        lemma_bisect_hit(arr@, target, left as int, right as int);
        if is_sorted(arr@) {
            lemma_bisect_complete(arr@, target, left as int, right as int);
        }
    }
    let mid: usize = (left + right) / 2;
    if arr[mid] == target {
        Some(mid)
    } else if arr[mid] > target {
        if mid == 0 {
            None
        } else {
            binary_search(arr, target, left, mid - 1)
        }
    } else {
        binary_search(arr, target, mid + 1, right)
    }
}

} // verus!
