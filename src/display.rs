//! Layout decisions for the score display and the leaderboard.
use vstd::prelude::*;
use crate::catalog::UNIT;

verus! {

/// Width of one digit sprite: 24 units.
pub const DIGIT_WIDTH: i64 = 24 * UNIT;

/// Space between two digit sprites: 4 units.
pub const DIGIT_SPACING: i64 = 4 * UNIT;

/// Decimal digits of a number, most significant first.
pub open spec fn digits_of(n: nat) -> Seq<u32>
    decreases n,
{
    if n < 10 {
        seq![n as u32]
    } else {
        digits_of(n / 10).push((n % 10) as u32)
    }
}

/// One digit sprite of the score: the digit and its horizontal centre.
#[derive(Debug, Clone, Copy, PartialEq, Eq, Structural)]
pub struct ScoreDigit {
    pub digit: u32,
    pub x: i64,
}

/// Centre of digit `i` of `count`: the row of digits and gaps is centred on
/// zero.
pub open spec fn digit_x(i: int, count: int) -> int {
    -(count * DIGIT_WIDTH + (count - 1) * DIGIT_SPACING) / 2 + DIGIT_WIDTH / 2 + i * (DIGIT_WIDTH
        + DIGIT_SPACING)
}

spec fn ten_pow(k: nat) -> nat
    decreases k,
{
    if k == 0 {
        1
    } else {
        10 * ten_pow((k - 1) as nat)
    }
}

proof fn lemma_digits_len(n: nat, k: nat)
    requires
        1 <= k,
        n < ten_pow(k),
    ensures
        1 <= digits_of(n).len() <= k,
    decreases n,
{
    if n >= 10 {
        assert(k >= 2) by {
            if k == 1 {
                assert(ten_pow(1) == 10 * ten_pow(0));
            }
        }
        assert(ten_pow(k) == 10 * ten_pow((k - 1) as nat));
        lemma_digits_len(n / 10, (k - 1) as nat);
    }
}

/// Digits of `n`, most significant first.
pub fn decimal_digits(n: u32) -> (r: Vec<u32>)
    ensures
        r@ == digits_of(n as nat),
    decreases n,
{
    if n < 10 {
        vec![n]
    } else {
        let mut r = decimal_digits(n / 10);
        r.push(n % 10);
        r
    }
}

/// The digit sprites that show a score, left to right.
pub fn number_score_display(score: u32) -> (r: Vec<ScoreDigit>)
    ensures
        r@.len() == digits_of(score as nat).len(),
        forall|i: int|
            0 <= i < r@.len() ==> #[trigger] r@[i] == (ScoreDigit {
                digit: digits_of(score as nat)[i],
                x: digit_x(i, r@.len() as int) as i64,
            }),
{
    let digits = decimal_digits(score);
    proof {
        reveal_with_fuel(ten_pow, 11);
        lemma_digits_len(score as nat, 10);
    }
    let count = digits.len() as i64;
    let total = count * DIGIT_WIDTH + (count - 1) * DIGIT_SPACING;
    let start = -total / 2 + DIGIT_WIDTH / 2;
    let mut r: Vec<ScoreDigit> = Vec::new();
    let mut i: usize = 0;
    while i < digits.len()
        invariant
            i <= digits@.len(),
            digits@ == digits_of(score as nat),
            1 <= count <= 10,
            count == digits@.len(),
            start == -(count * DIGIT_WIDTH + (count - 1) * DIGIT_SPACING) / 2 + DIGIT_WIDTH / 2,
            -140 * UNIT <= start <= 0,
            r@.len() == i,
            forall|j: int|
                0 <= j < i ==> #[trigger] r@[j] == (ScoreDigit {
                    digit: digits@[j],
                    x: digit_x(j, count as int) as i64,
                }),
        decreases digits@.len() - i,
    {
        assert(0 <= i * (DIGIT_WIDTH + DIGIT_SPACING) <= 10 * (DIGIT_WIDTH + DIGIT_SPACING)) by (nonlinear_arith)
            requires
                i <= 10,
        ;
        r.push(ScoreDigit { digit: digits[i], x: start + (i as i64) * (DIGIT_WIDTH + DIGIT_SPACING) });
        i += 1;
    }
    r
}

/// How long ago a leaderboard entry was made.
#[derive(Debug, Clone, Copy, PartialEq, Eq, Structural)]
pub enum ElapsedTime {
    JustNow,
    MinutesAgo(u64),
    HoursAgo(u64),
    DaysAgo(u64),
}

/// Under a minute is "just now"; then whole minutes under an hour, whole
/// hours under a day, whole days. A timestamp in the future counts as now.
pub open spec fn elapsed_of(now: u64, timestamp: u64) -> ElapsedTime {
    let d = if now >= timestamp {
        now - timestamp
    } else {
        0
    };
    if d < 60 {
        ElapsedTime::JustNow
    } else if d < 3600 {
        ElapsedTime::MinutesAgo((d / 60) as u64)
    } else if d < 86400 {
        ElapsedTime::HoursAgo((d / 3600) as u64)
    } else {
        ElapsedTime::DaysAgo((d / 86400) as u64)
    }
}

pub fn elapsed_since(now: u64, timestamp: u64) -> (r: ElapsedTime)
    ensures
        r == elapsed_of(now, timestamp),
{
    let d = now.saturating_sub(timestamp);
    if d < 60 {
        ElapsedTime::JustNow
    } else if d < 3600 {
        ElapsedTime::MinutesAgo(d / 60)
    } else if d < 86400 {
        ElapsedTime::HoursAgo(d / 3600)
    } else {
        ElapsedTime::DaysAgo(d / 86400)
    }
}

} // verus!
