//! Decisions: `if`, `match`, guards and loops, each as a function from what
//! is decided on to what is said.

use vstd::prelude::*;
use crate::text::{signed_decimal, signed_decimal_string};

verus! {

/// Which of 4, 3 and 2 divides a number, trying them in that order.
pub open spec fn divisibility(number: int) -> Seq<char> {
    if number % 4 == 0 {
        "number 能被 4 整除"@
    } else if number % 3 == 0 {
        "number 能被 3 整除"@
    } else if number % 2 == 0 {
        "number 能被 2 整除"@
    } else {
        "number 不能被 4、3 或 2 整除"@
    }
}

/// Says which of 4, 3 and 2 divides `number`, trying them in that order.
pub fn divisibility_line(number: i32) -> (line: &'static str)
    ensures
        line@ == divisibility(number as int),
{
    if number % 4 == 0 {
        "number 能被 4 整除"
    } else if number % 3 == 0 {
        "number 能被 3 整除"
    } else if number % 2 == 0 {
        "number 能被 2 整除"
    } else {
        "number 不能被 4、3 或 2 整除"
    }
}

/// The grade for a score: `A` from 90, `B` from 80, `C` from 70, `D` from
/// 60, and `F` below.
pub fn grade(score: i32) -> (grade: &'static str)
    ensures
        grade@ == if score >= 90 {
            "A"@
        } else if score >= 80 {
            "B"@
        } else if score >= 70 {
            "C"@
        } else if score >= 60 {
            "D"@
        } else {
            "F"@
        },
{
    if score >= 90 {
        "A"
    } else if score >= 80 {
        "B"
    } else if score >= 70 {
        "C"
    } else if score >= 60 {
        "D"
    } else {
        "F"
    }
}

/// The name of a number: one, two and three by themselves, then the ranges
/// from four to nine and from ten to nineteen, and all others together.
pub fn number_name(number: i32) -> (name: &'static str)
    ensures
        name@ == if number == 1 {
            "一"@
        } else if number == 2 {
            "二"@
        } else if number == 3 {
            "三"@
        } else if 4 <= number <= 9 {
            "四到九"@
        } else if 10 <= number <= 19 {
            "十到十九"@
        } else {
            "其他"@
        },
{
    match number {
        1 => "一",
        2 => "二",
        3 => "三",
        4 | 5 | 6 | 7 | 8 | 9 => "四到九",
        10..=19 => "十到十九",
        _ => "其他",
    }
}

/// The background for a page: the favourite colour where there is one,
/// else green on a Tuesday, else purple above the age of thirty and orange
/// up to it, and blue where the age is unknown.
pub open spec fn background(
    favorite_color: Option<Seq<char>>,
    is_tuesday: bool,
    age: Option<u8>,
) -> Seq<char> {
    match favorite_color {
        Some(color) => "使用你最喜欢的颜色 "@ + color + " 作为背景"@,
        None => if is_tuesday {
            "星期二是绿色日!"@
        } else {
            match age {
                Some(age) => if age > 30 {
                    "使用紫色作为背景颜色"@
                } else {
                    "使用橙色作为背景颜色"@
                },
                None => "使用蓝色作为背景颜色"@,
            }
        },
    }
}

/// Chooses the background for a page.
pub fn background_line(
    favorite_color: Option<&str>,
    is_tuesday: bool,
    age: Option<u8>,
) -> (line: String)
    ensures
        line@ == background(
            match favorite_color {
                Some(color) => Some(color@),
                None => None,
            },
            is_tuesday,
            age,
        ),
{
    if let Some(color) = favorite_color {
        let mut line = String::from_str("使用你最喜欢的颜色 ");
        line.append(color);
        line.append(" 作为背景");
        line
    } else if is_tuesday {
        String::from_str("星期二是绿色日!")
    } else if let Some(age) = age {
        if age > 30 {
            String::from_str("使用紫色作为背景颜色")
        } else {
            String::from_str("使用橙色作为背景颜色")
        }
    } else {
        String::from_str("使用蓝色作为背景颜色")
    }
}

/// What is said of a number that may be missing: seven is lucky.
pub open spec fn lucky(number: Option<i32>) -> Seq<char> {
    match number {
        Some(x) => if x == 7 {
            "幸运数字!"@
        } else {
            "数字: "@ + signed_decimal(x as int)
        },
        None => "没有数字"@,
    }
}

/// Says whether a number is the lucky seven, another number, or missing.
pub fn lucky_line(number: Option<i32>) -> (line: String)
    ensures
        line@ == lucky(number),
{
    match number {
        Some(7) => String::from_str("幸运数字!"),
        Some(x) => {
            let mut line = String::from_str("数字: ");
            line.append(signed_decimal_string(x).as_str());
            line
        },
        None => String::from_str("没有数字"),
    }
}

/// Where a point lies: at the origin, on an axis, or elsewhere. The origin
/// is looked for first, the axis of `y` second.
pub open spec fn place(x: int, y: int) -> Seq<char> {
    if x == 0 && y == 0 {
        "原点"@
    } else if x == 0 {
        "在 y 轴上，y = "@ + signed_decimal(y)
    } else if y == 0 {
        "在 x 轴上，x = "@ + signed_decimal(x)
    } else {
        "在 ("@ + signed_decimal(x) + ", "@ + signed_decimal(y) + ")"@
    }
}

/// Says where a point lies.
pub fn place_line(point: (i32, i32)) -> (line: String)
    ensures
        line@ == place(point.0 as int, point.1 as int),
{
    match point {
        (0, 0) => String::from_str("原点"),
        (0, y) => {
            let mut line = String::from_str("在 y 轴上，y = ");
            line.append(signed_decimal_string(y).as_str());
            line
        },
        (x, 0) => {
            let mut line = String::from_str("在 x 轴上，x = ");
            line.append(signed_decimal_string(x).as_str());
            line
        },
        (x, y) => {
            let mut line = String::from_str("在 (");
            line.append(signed_decimal_string(x).as_str());
            line.append(", ");
            line.append(signed_decimal_string(y).as_str());
            line.append(")");
            line
        },
    }
}

/// How a number that may be missing compares with five.
pub open spec fn against_five(number: Option<i32>) -> Seq<char> {
    match number {
        Some(x) => if x < 5 {
            "小于 5: "@ + signed_decimal(x as int)
        } else {
            "大于等于 5: "@ + signed_decimal(x as int)
        },
        None => "没有值"@,
    }
}

/// Says how a number that may be missing compares with five.
pub fn against_five_line(number: Option<i32>) -> (line: String)
    ensures
        line@ == against_five(number),
{
    match number {
        Some(x) if x < 5 => {
            let mut line = String::from_str("小于 5: ");
            line.append(signed_decimal_string(x).as_str());
            line
        },
        Some(x) => {
            let mut line = String::from_str("大于等于 5: ");
            line.append(signed_decimal_string(x).as_str());
            line
        },
        None => String::from_str("没有值"),
    }
}

/// `yes` for four, five or six, and only where `y` holds; else `no`.
pub fn yes_or_no(x: i32, y: bool) -> (word: &'static str)
    ensures
        word@ == if 4 <= x <= 6 && y {
            "yes"@
        } else {
            "no"@
        },
{
    match x {
        4..=6 if y => "yes",
        _ => "no",
    }
}

/// How a point lies to the two diagonals: on the main one, on the other
/// one, or to one side of the main one.
pub fn diagonal_line(point: (i32, i32)) -> (line: &'static str)
    ensures
        line@ == if point.0 == point.1 {
            "在对角线上"@
        } else if point.0 + point.1 == 0 {
            "在反对角线上"@
        } else if point.0 > point.1 {
            "x 大于 y"@
        } else {
            "x 小于 y"@
        },
{
    let (x, y) = point;
    if x == y {
        "在对角线上"
    } else if y != i32::MIN && x == -y {
        "在反对角线上"
    } else if x > y {
        "x 大于 y"
    } else {
        "x 小于 y"
    }
}

/// The numbers from `from` down to one.
pub open spec fn descent(from: nat) -> Seq<u32>
    decreases from,
{
    if from == 0 {
        Seq::empty()
    } else {
        seq![from as u32] + descent((from - 1) as nat)
    }
}

/// Counts down from `from` to one.
pub fn countdown(from: u32) -> (numbers: Vec<u32>)
    ensures
        numbers@ == descent(from as nat),
{
    let mut numbers: Vec<u32> = Vec::new();
    let mut number: u32 = from;
    while number != 0
        invariant
            number <= from,
            numbers@ + descent(number as nat) == descent(from as nat),
        decreases number,
    {
        proof {
            assert(numbers@.push(number) + descent((number - 1) as nat) =~= numbers@ + descent(
                number as nat,
            ));
        }
        numbers.push(number);
        number -= 1;
    }
    assert(numbers@ + descent(0) =~= numbers@);
    numbers
}

/// Counts up in steps of one and breaks off at `limit` with twice the
/// count.
pub fn count_and_double(limit: u32) -> (result: u32)
    requires
        1 <= limit,
        2 * limit <= u32::MAX,
    ensures
        result == 2 * limit,
{
    let mut counter: u32 = 0;
    loop
        invariant
            counter < limit,
            2 * limit <= u32::MAX,
        decreases limit - counter,
    {
        counter += 1;
        if counter == limit {
            return counter * 2;
        }
    }
}

} // verus!
