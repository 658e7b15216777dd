use vstd::prelude::*;
use crate::fixed::Vec2i;

verus! {

/// Sum of the horizontal components of a frame's pointer-motion events.
pub open spec fn sum_x(s: Seq<Vec2i>) -> int
    decreases s.len(),
{
    if s.len() == 0 {
        0
    } else {
        sum_x(s.drop_last()) + s.last().x
    }
}

/// Sum of the vertical components of a frame's pointer-motion events.
pub open spec fn sum_y(s: Seq<Vec2i>) -> int
    decreases s.len(),
{
    if s.len() == 0 {
        0
    } else {
        sum_y(s.drop_last()) + s.last().y
    }
}

/// Sum of a frame's vertical scroll amounts.
pub open spec fn sum_scroll(s: Seq<i64>) -> int
    decreases s.len(),
{
    if s.len() == 0 {
        0
    } else {
        sum_scroll(s.drop_last()) + s.last()
    }
}

/// The magnitude bound of one `i64` value, `2^63`.
pub open spec fn word() -> int {
    0x8000_0000_0000_0000
}

/// No `usize` count of `i64` values sums below `i128::MIN`.
proof fn lemma_count_of_words(n: usize)
    ensures
        n * word() < 0x8000_0000_0000_0000_0000_0000_0000_0000,
{
    assert(n * word() < 0x8000_0000_0000_0000_0000_0000_0000_0000) by (nonlinear_arith)
        requires
            n <= 0xffff_ffff_ffff_ffff,
            word() == 0x8000_0000_0000_0000,
    ;
}

/// Adds up the motion events of one frame, per axis; no sum of them can
/// overflow an `i128`.
pub fn total_motion(events: &Vec<Vec2i>) -> (r: (i128, i128))
    ensures
        r.0 == sum_x(events@),
        r.1 == sum_y(events@),
        -(events@.len() * word()) <= r.0 <= events@.len() * word(),
        -(events@.len() * word()) <= r.1 <= events@.len() * word(),
        i128::MIN < r.0,
        i128::MIN < r.1,
{
    let mut ax: i128 = 0;
    let mut ay: i128 = 0;
    let n: usize = events.len();
    for i in 0..n
        invariant
            n == events@.len(),
            ax == sum_x(events@.take(i as int)),
            ay == sum_y(events@.take(i as int)),
            -(i * word()) <= ax <= i * word(),
            -(i * word()) <= ay <= i * word(),
    {
        assert(events@.take(i + 1).drop_last() =~= events@.take(i as int));
        ax = ax + events[i].x as i128;
        ay = ay + events[i].y as i128;
    }
    assert(events@.take(n as int) =~= events@);
    proof {
        lemma_count_of_words(n);
    }
    (ax, ay)
}

/// Adds up the scroll amounts of one frame; no sum of them can overflow an
/// `i128`.
pub fn total_scroll(events: &Vec<i64>) -> (r: i128)
    ensures
        r == sum_scroll(events@),
        -(events@.len() * word()) <= r <= events@.len() * word(),
        i128::MIN < r,
{
    let mut acc: i128 = 0;
    let n: usize = events.len();
    for i in 0..n
        invariant
            n == events@.len(),
            acc == sum_scroll(events@.take(i as int)),
            -(i * word()) <= acc <= i * word(),
    {
        assert(events@.take(i + 1).drop_last() =~= events@.take(i as int));
        acc = acc + events[i] as i128;
    }
    assert(events@.take(n as int) =~= events@);
    proof {
        lemma_count_of_words(n);
    }
    acc
}

} // verus!
