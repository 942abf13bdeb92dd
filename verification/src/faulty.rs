//! A few small routines on integers and text, each with the exact value it
//! computes.

use vstd::prelude::*;
use vstd::string::*;
use vstd::utf8::encode_scalar;
use vstd::utf8::encode_utf8;

verus! {

/// The length that earns a text one extra point.
pub const MAGIC_NUMBER: i32 = 42;

/// The sum of the integers from `a` up to, but not including, `b`: the
/// number of its members times the mean of the first and the last.
pub open spec fn range_sum(a: int, b: int) -> int {
    if a < b {
        (b - a) * (a + b - 1) / 2
    } else {
        0
    }
}

/// The lowest value that the running sum passes through while the range
/// `a..b` is added up from `a`: the sum of its negative members.
pub open spec fn lowest_partial_sum(a: int, b: int) -> int {
    if a < 0 && a < b {
        range_sum(
            a,
            if b < 0 {
                b
            } else {
                0
            },
        )
    } else {
        0
    }
}

/// The sum of `a..b`, one member at a time.
spec fn sum_up(a: int, b: int) -> int
    decreases b - a,
{
    if a >= b {
        0
    } else {
        sum_up(a, b - 1) + (b - 1)
    }
}

proof fn lemma_sum_up(a: int, b: int)
    requires
        a <= b,
    ensures
        2 * sum_up(a, b) == (b - a) * (a + b - 1),
        sum_up(a, b) == range_sum(a, b),
    decreases b - a,
{
    if a < b {
        lemma_sum_up(a, b - 1);
        let shorter = sum_up(a, b - 1);
        assert(2 * (shorter + (b - 1)) == (b - a) * (a + b - 1)) by (nonlinear_arith)
            requires
                2 * shorter == (b - 1 - a) * (a + b - 1 - 1),
        ;
    } else {
        assert((b - a) * (a + b - 1) == 0) by (nonlinear_arith)
            requires
                a == b,
        ;
    }
}

/// From a member that is not negative onwards the running sum does not
/// fall.
proof fn lemma_rising(a: int, k: int, m: int)
    requires
        a <= k <= m,
        0 <= k,
    ensures
        sum_up(a, k) <= sum_up(a, m),
    decreases m - k,
{
    if k < m {
        lemma_rising(a, k, m - 1);
    }
}

/// Up to zero the running sum does not rise.
proof fn lemma_falling(a: int, k: int, m: int)
    requires
        a <= k <= m <= 0,
    ensures
        sum_up(a, k) >= sum_up(a, m),
    decreases m - k,
{
    if k < m {
        lemma_falling(a, k, m - 1);
    }
}

/// Every running sum lies between the lowest one and the larger of zero
/// and the full sum.
proof fn lemma_partial_sums(a: int, k: int, b: int)
    requires
        a <= k <= b,
    ensures
        lowest_partial_sum(a, b) <= sum_up(a, k),
        sum_up(a, k) <= range_sum(a, b) || sum_up(a, k) <= 0,
{
    lemma_sum_up(a, b);
    if a >= 0 {
        lemma_rising(a, a, k);
    } else if a < b {
        let turn = if b < 0 {
            b
        } else {
            0
        };
        lemma_sum_up(a, turn);
        if k <= turn {
            lemma_falling(a, k, turn);
        } else {
            lemma_rising(a, 0, k);
        }
    }
    if k >= 0 {
        lemma_rising(a, k, b);
    } else {
        lemma_falling(a, a, k);
    }
}

/// Sums the range `a..b` by counting up from `a`.
fn sum_range(a: i32, b: i32) -> (sum: i32)
    requires
        i32::MIN <= lowest_partial_sum(a as int, b as int),
        range_sum(a as int, b as int) <= i32::MAX,
    ensures
        sum == range_sum(a as int, b as int),
{
    let mut sum: i32 = 0;
    let mut i: i32 = a;
    while i < b
        invariant
            a <= i <= b || (b < a && i == a),
            sum == sum_up(a as int, i as int),
            i32::MIN <= lowest_partial_sum(a as int, b as int),
            range_sum(a as int, b as int) <= i32::MAX,
        decreases b - i,
    {
        proof {
            lemma_partial_sums(a as int, i + 1, b as int);
        }
        sum += i;
        i += 1;
    }
    proof {
        if a <= b {
            lemma_sum_up(a as int, b as int);
        }
    }
    sum
}

/// Adds up the integers of `a..b` twice over and returns the two sums
/// together. An empty range gives 0.
pub fn copy_paste_smell(a: i32, b: i32) -> (total: i32)
    requires
        i32::MIN <= lowest_partial_sum(a as int, b as int),
        i32::MIN <= 2 * range_sum(a as int, b as int) <= i32::MAX,
    ensures
        total == 2 * range_sum(a as int, b as int),
{
    let sum = sum_range(a, b);
    let sum2 = sum_range(a, b);
    sum + sum2
}

/// Hands the flag back.
pub fn needless_bool_return(flag: bool) -> (same: bool)
    ensures
        same == flag,
{
    if flag == true {
        return true;
    } else {
        return false;
    }
}

/// The score of a text: one point for each character, two points more, and
/// a further point where the text is exactly `MAGIC_NUMBER` bytes long.
pub open spec fn score(text: Seq<char>) -> int {
    text.len() + 2 + (if encode_utf8(text).len() == MAGIC_NUMBER {
        1int
    } else {
        0int
    })
}

/// A text has at least as many bytes as it has characters.
pub proof fn lemma_bytes_cover_chars(text: Seq<char>)
    ensures
        encode_utf8(text).len() >= text.len(),
    decreases text.len(),
{
    if text.len() > 0 {
        lemma_bytes_cover_chars(text.drop_first());
        assert(encode_scalar(text[0] as u32).len() >= 1);
    }
}

/// Scores the text, taking a missing one as empty.
pub fn do_suspicious_things(input: Option<String>) -> (points: i32)
    requires
        input matches Some(text) ==> text@.len() + 2 <= i32::MAX,
    ensures
        points == score(
            match input {
                Some(text) => text@,
                None => Seq::<char>::empty(),
            },
        ),
{
    let mut acc: i32 = 0;
    let s = match input {
        Some(text) => text,
        None => String::new(),
    };
    proof {
        lemma_bytes_cover_chars(s@);
    }
    if s.as_str().as_bytes().len() == MAGIC_NUMBER as usize {
        acc += 1;
    }
    let count: usize = s.as_str().unicode_len();
    acc += count as i32;
    acc += 2;
    acc
}

} // verus!
