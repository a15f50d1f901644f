//! Placement of the perimeter points and the pairing of indices.

use vstd::arithmetic::div_mod::{lemma_fundamental_div_mod, lemma_sub_mod_noop};
use vstd::prelude::*;

verus! {

/// One whole in fixed point: multipliers, step sizes, zoom factors and angles
/// (in turns) are counted in millionths.
pub const UNIT: u64 = 1_000_000;

/// Index that point `i` is joined to: `floor(i * multiplier) mod num_points`,
/// with `multiplier` in millionths.
pub open spec fn paired_index_of(i: int, multiplier: int, num_points: int) -> int {
    (i * multiplier / (UNIT as int)) % num_points
}

/// The index that point `i` is joined to at the given multiplier (in
/// millionths): the product is truncated before the modulo is taken.
pub fn paired_index(i: usize, multiplier: u64, num_points: usize) -> (j: usize)
    requires
        num_points > 0,
    ensures
        j == paired_index_of(i as int, multiplier as int, num_points as int),
        j < num_points,
{
    assert((i as int) * (multiplier as int) <= u128::MAX) by (nonlinear_arith)
        requires
            i <= u64::MAX,
            multiplier <= u64::MAX,
    ;
    let product: u128 = (i as u128) * (multiplier as u128);
    let whole: u128 = product / (UNIT as u128);
    (whole % (num_points as u128)) as usize
}

/// The index that each point `0..num_points` is joined to, in point order.
pub fn line_targets(num_points: usize, multiplier: u64) -> (targets: Vec<usize>)
    ensures
        targets@.len() == num_points,
        forall|i: int|
            0 <= i < num_points ==> #[trigger] targets@[i] == paired_index_of(
                i,
                multiplier as int,
                num_points as int,
            ),
{
    let mut targets: Vec<usize> = Vec::with_capacity(num_points);
    let mut i: usize = 0;
    while i < num_points
        invariant
            i <= num_points,
            targets@.len() == i,
            forall|k: int|
                0 <= k < i ==> #[trigger] targets@[k] == paired_index_of(
                    k,
                    multiplier as int,
                    num_points as int,
                ),
        decreases num_points - i,
    {
        targets.push(paired_index(i, multiplier, num_points));
        i = i + 1;
    }
    targets
}

/// Angle of point `k` of `num_points`, in millionths of a turn, when point 0
/// stands at `rotation`: `rotation + k / num_points` turns, the fraction
/// rounded down to a millionth, taken modulo one turn.
pub open spec fn point_angle_of(k: int, num_points: int, rotation: int) -> int {
    (rotation + k * (UNIT as int) / num_points) % (UNIT as int)
}

/// The angles of all `num_points` points, in point order.
pub open spec fn point_angles_of(num_points: nat, rotation: nat) -> Seq<u64> {
    Seq::new(
        num_points,
        |k: int| point_angle_of(k, num_points as int, rotation as int) as u64,
    )
}

/// The angles, in millionths of a turn, of `num_points` points spaced evenly
/// round the circle, point 0 at `rotation`; none when `num_points` is 0.
pub fn point_angles(num_points: usize, rotation: u64) -> (angles: Vec<u64>)
    ensures
        angles@ == point_angles_of(num_points as nat, rotation as nat),
        angles@.len() == num_points,
        forall|k: int|
            0 <= k < num_points ==> 0 <= #[trigger] angles@[k] < UNIT && angles@[k]
                == point_angle_of(k, num_points as int, rotation as int),
{
    let mut angles: Vec<u64> = Vec::with_capacity(num_points);
    let mut k: usize = 0;
    while k < num_points
        invariant
            k <= num_points,
            angles@.len() == k,
            forall|j: int|
                0 <= j < k ==> #[trigger] angles@[j] == point_angle_of(
                    j,
                    num_points as int,
                    rotation as int,
                ),
        decreases num_points - k,
    {
        assert((k as int) * (UNIT as int) <= u64::MAX * (UNIT as int)) by (nonlinear_arith)
            requires
                k <= u64::MAX,
        ;
        let share: u128 = (k as u128) * (UNIT as u128) / (num_points as u128);
        let angle: u128 = ((rotation as u128) + share) % (UNIT as u128);
        angles.push(angle as u64);
        k = k + 1;
    }
    assert(angles@ =~= point_angles_of(num_points as nat, rotation as nat));
    angles
}

/// At multiplier one every point is joined to itself.
pub proof fn lemma_unit_multiplier_is_identity(i: nat, num_points: nat)
    requires
        i < num_points,
    ensures
        paired_index_of(i as int, UNIT as int, num_points as int) == i,
{
    assert(i * (UNIT as int) / (UNIT as int) == i) by (nonlinear_arith);
    assert((i as int) % (num_points as int) == i) by (nonlinear_arith)
        requires
            i < num_points,
    ;
}

/// Consecutive points are one `num_points`-th of a turn apart, modulo a
/// whole turn: the gap from point `k` to point `k + 1` (point `num_points`
/// being point 0 again) is the difference of the rounded shares, which is
/// `UNIT / num_points` or one millionth more, and exactly `UNIT / num_points`
/// when that division leaves no remainder.
pub proof fn lemma_even_spacing(num_points: nat, rotation: nat, k: int)
    requires
        num_points >= 1,
        0 <= k < num_points,
    ensures
        ({
            let n = num_points as int;
            let u = UNIT as int;
            let gap = (k + 1) * u / n - k * u / n;
            &&& (point_angle_of(k + 1, n, rotation as int) - point_angle_of(k, n, rotation as int))
                % u == gap % u
            &&& u / n <= gap <= u / n + 1
            &&& u % n == 0 ==> gap == u / n
        }),
        point_angle_of(num_points as int, num_points as int, rotation as int) == point_angle_of(
            0,
            num_points as int,
            rotation as int,
        ),
{
    let n = num_points as int;
    let u = UNIT as int;
    let r = rotation as int;
    let a = k * u / n;
    let b = (k + 1) * u / n;
    let q = u / n;
    lemma_sub_mod_noop(r + b, r + a, u);
    assert((r + b) - (r + a) == b - a);
    lemma_fundamental_div_mod(k * u, n);
    lemma_fundamental_div_mod(u, n);
    lemma_fundamental_div_mod((k + 1) * u, n);
    assert((k + 1) * u == k * u + u) by (nonlinear_arith);
    let ra = k * u % n;
    let rq = u % n;
    let rb = (k + 1) * u % n;
    assert(q <= b - a <= q + 1 && (rq == 0 ==> b - a == q)) by (nonlinear_arith)
        requires
            n > 0,
            k * u == n * a + ra,
            u == n * q + rq,
            (k + 1) * u == n * b + rb,
            (k + 1) * u == k * u + u,
            0 <= ra < n,
            0 <= rq < n,
            0 <= rb < n,
    ;
    assert(n * u / n == u) by (nonlinear_arith)
        requires
            n > 0,
    ;
    assert((r + u) % u == r % u) by (nonlinear_arith);
}

/// Two calls with the same arguments give the same angles: the result of
/// `point_angles` depends on its arguments alone.
pub proof fn lemma_point_angles_repeatable(
    num_points: usize,
    rotation: u64,
    first: Seq<u64>,
    second: Seq<u64>,
)
    requires
        first == point_angles_of(num_points as nat, rotation as nat),
        second == point_angles_of(num_points as nat, rotation as nat),
    ensures
        first == second,
        first.len() == num_points,
{
}

} // verus!
