//! Pass detection: an obstacle scores once it trails the player by between
//! 50 and 55 units, and obstacles at the same rounded position count once.
use vstd::prelude::*;
use crate::catalog::UNIT;
use crate::entities::Pipe;

verus! {

/// Near edge of the scoring window behind the player.
pub const SCORE_WINDOW_NEAR: i64 = 50 * UNIT;

/// Far edge of the scoring window behind the player.
pub const SCORE_WINDOW_FAR: i64 = 55 * UNIT;

/// A position in micro-units rounded to the nearest whole unit, halves away
/// from zero.
pub open spec fn round_unit(x: int) -> int {
    if x >= 0 {
        (x + UNIT / 2) / UNIT as int
    } else {
        -((-x + UNIT / 2) / UNIT as int)
    }
}

pub fn round_to_unit(x: i64) -> (r: i64)
    ensures
        r == round_unit(x as int),
{
    let w = x as i128;
    let half = (UNIT / 2) as i128;
    let unit = UNIT as i128;
    if w >= 0 {
        ((w + half) / unit) as i64
    } else {
        (-((-w + half) / unit)) as i64
    }
}

/// Whether an obstacle at `pipe_x` has just been passed by a player at
/// `bird_x`: strictly between 55 and 50 units behind it.
pub open spec fn in_score_window(pipe_x: int, bird_x: int) -> bool {
    pipe_x < bird_x - SCORE_WINDOW_NEAR && pipe_x > bird_x - SCORE_WINDOW_FAR
}

pub fn score_window_contains(pipe_x: i64, bird_x: i64) -> (r: bool)
    ensures
        r == in_score_window(pipe_x as int, bird_x as int),
{
    let p = pipe_x as i128;
    let b = bird_x as i128;
    p < b - SCORE_WINDOW_NEAR as i128 && p > b - SCORE_WINDOW_FAR as i128
}

/// The rounded positions of the obstacles in the scoring window.
pub open spec fn passed_positions(pipes: Seq<Pipe>, bird_x: int) -> Set<int> {
    Set::new(
        |k: int|
            exists|i: int|
                0 <= i < pipes.len() && in_score_window(#[trigger] pipes[i].x as int, bird_x)
                    && round_unit(pipes[i].x as int) == k,
    )
}

/// Points earned this tick: one per distinct rounded position passed.
pub open spec fn points_earned(pipes: Seq<Pipe>, bird_x: int) -> nat {
    passed_positions(pipes, bird_x).len()
}

/// At most one point per obstacle.
pub proof fn lemma_points_bounded(pipes: Seq<Pipe>, bird_x: int)
    ensures
        points_earned(pipes, bird_x) <= pipes.len(),
{
    let ps = passed_positions(pipes, bird_x);
    let xs = pipes.map_values(|p: Pipe| round_unit(p.x as int));
    assert forall|k: int| ps.contains(k) implies #[trigger] xs.to_set().contains(k) by {
        let j = choose|j: int|
            0 <= j < pipes.len() && in_score_window(#[trigger] pipes[j].x as int, bird_x)
                && round_unit(pipes[j].x as int) == k;
        assert(xs[j] == k);
        assert(xs.contains(k));
    }
    assert(ps.subset_of(xs.to_set()));
    xs.lemma_cardinality_of_set();
    vstd::set_lib::lemma_len_subset(ps, xs.to_set());
}

fn contains_value(v: &Vec<i64>, k: i64) -> (r: bool)
    ensures
        r == v@.contains(k),
{
    let mut i: usize = 0;
    while i < v.len()
        invariant
            i <= v@.len(),
            forall|j: int| 0 <= j < i ==> v@[j] != k,
        decreases v@.len() - i,
    {
        if v[i] == k {
            return true;
        }
        i += 1;
    }
    false
}

/// The rounded values of a sequence of positions, as a set.
pub open spec fn value_set(s: Seq<i64>) -> Set<int> {
    s.map_values(|v: i64| v as int).to_set()
}

proof fn lemma_passed_push(s: Seq<Pipe>, p: Pipe, bird_x: int)
    ensures
        passed_positions(s.push(p), bird_x) == if in_score_window(p.x as int, bird_x) {
            passed_positions(s, bird_x).insert(round_unit(p.x as int))
        } else {
            passed_positions(s, bird_x)
        },
{
    let t = s.push(p);
    let a = passed_positions(t, bird_x);
    let b = if in_score_window(p.x as int, bird_x) {
        passed_positions(s, bird_x).insert(round_unit(p.x as int))
    } else {
        passed_positions(s, bird_x)
    };
    assert forall|m: int| a.contains(m) <==> b.contains(m) by {
        if a.contains(m) {
            let j = choose|j: int|
                0 <= j < t.len() && in_score_window(#[trigger] t[j].x as int, bird_x)
                    && round_unit(t[j].x as int) == m;
            if j < s.len() {
                assert(t[j] == s[j]);
                assert(passed_positions(s, bird_x).contains(m));
            }
        }
        if passed_positions(s, bird_x).contains(m) {
            let j = choose|j: int|
                0 <= j < s.len() && in_score_window(#[trigger] s[j].x as int, bird_x)
                    && round_unit(s[j].x as int) == m;
            assert(t[j] == s[j]);
        }
        if in_score_window(p.x as int, bird_x) && m == round_unit(p.x as int) {
            assert(t[s.len() as int] == p);
            assert(in_score_window(t[s.len() as int].x as int, bird_x));
        }
    }
    assert(a =~= b);
}

proof fn lemma_value_set_push(s: Seq<i64>, v: i64)
    ensures
        value_set(s.push(v)) == value_set(s).insert(v as int),
{
    let f = |x: i64| x as int;
    assert(s.push(v).map_values(f) =~= s.map_values(f).push(v as int));
    s.map_values(f).lemma_push_to_set_commute(v as int);
}

proof fn lemma_value_set_contains(s: Seq<i64>, v: i64)
    requires
        s.contains(v),
    ensures
        value_set(s).contains(v as int),
{
    let f = |x: i64| x as int;
    let j = choose|j: int| 0 <= j < s.len() && s[j] == v;
    assert(s.map_values(f)[j] == v as int);
}

/// The distinct rounded positions of the obstacles that the player has just
/// passed, each once.
pub fn passed_pipe_positions(pipes: &Vec<Pipe>, bird_x: i64) -> (r: Vec<i64>)
    ensures
        r@.no_duplicates(),
        value_set(r@) == passed_positions(pipes@, bird_x as int),
        r@.len() == points_earned(pipes@, bird_x as int),
{
    let mut seen: Vec<i64> = Vec::new();
    let mut i: usize = 0;
    assert(value_set(seen@) =~= passed_positions(pipes@.take(0), bird_x as int));
    while i < pipes.len()
        invariant
            i <= pipes@.len(),
            seen@.no_duplicates(),
            value_set(seen@) == passed_positions(pipes@.take(i as int), bird_x as int),
        decreases pipes@.len() - i,
    {
        let p = pipes[i];
        proof {
            assert(pipes@.take(i as int + 1) =~= pipes@.take(i as int).push(p));
            lemma_passed_push(pipes@.take(i as int), p, bird_x as int);
        }
        if score_window_contains(p.x, bird_x) {
            let k = round_to_unit(p.x);
            if !contains_value(&seen, k) {
                proof {
                    lemma_value_set_push(seen@, k);
                }
                seen.push(k);
            } else {
                proof {
                    lemma_value_set_contains(seen@, k);
                    assert(value_set(seen@).insert(k as int) =~= value_set(seen@));
                }
            }
        }
        i += 1;
    }
    proof {
        assert(pipes@.take(i as int) =~= pipes@);
        let gs = seen@.map_values(|v: i64| v as int);
        assert forall|a: int, b: int| 0 <= a < gs.len() && 0 <= b < gs.len() && a != b implies gs[a] != gs[b] by {
            assert(seen@[a] != seen@[b]);
        }
        gs.unique_seq_to_set();
    }
    seen
}

} // verus!
