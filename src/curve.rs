use vstd::prelude::*;

verus! {

/// One vertex of the response curve: at temperature `x` (degrees Celsius)
/// the fan should run at `y` percent.
#[derive(Clone, Copy, Debug, PartialEq, Eq, Structural)]
pub struct Step {
    pub x: u32,
    pub y: u32,
}

/// Whether `t` lies strictly between the temperatures of `a` and `b`.
pub open spec fn in_span(a: Step, b: Step, t: u32) -> bool {
    a.x < t && t < b.x
}

/// The speed on the line through `a` and `b` at temperature `t`, rounded
/// down: `a.y + (b.y - a.y) * (t - a.x) / (b.x - a.x)`, with the division
/// made last so that no precision is lost on the slope.
pub open spec fn interpolate(a: Step, b: Step, t: u32) -> int
    recommends
        a.x < b.x,
{
    (a.y * (b.x - a.x) + (b.y - a.y) * (t - a.x)) / (b.x - a.x)
}

/// The speed that the curve gives at `t`, looking at the pairs of adjacent
/// points from index `i` on: the first pair whose open span holds `t` is
/// interpolated; when none does, the fail-safe value 0.
pub open spec fn speed_from(curve: Seq<Step>, i: int, t: u32) -> int
    decreases curve.len() - i,
{
    if i < 0 || i + 1 >= curve.len() {
        0
    } else if in_span(curve[i], curve[i + 1], t) {
        interpolate(curve[i], curve[i + 1], t)
    } else {
        speed_from(curve, i + 1, t)
    }
}

/// The target speed that `curve` gives at temperature `t`.
pub open spec fn speed_value(curve: Seq<Step>, t: u32) -> int {
    speed_from(curve, 0, t)
}

/// Temperatures strictly increase along the curve.
pub open spec fn strictly_increasing(curve: Seq<Step>) -> bool {
    forall|i: int, j: int| 0 <= i < j < curve.len() ==> curve[i].x < curve[j].x
}

proof fn lemma_interpolate_bounds(a: Step, b: Step, t: u32)
    requires
        in_span(a, b, t),
    ensures
        0 <= interpolate(a, b, t),
        interpolate(a, b, t) <= a.y || interpolate(a, b, t) <= b.y,
{
    let dx: int = b.x - a.x;
    let off: int = t - a.x;
    let ay: int = a.y as int;
    let by: int = b.y as int;
    let num: int = ay * dx + (by - ay) * off;
    assert(0 <= num && (num <= ay * dx || num <= by * dx)) by (nonlinear_arith)
        requires
            0 < off < dx,
            0 <= ay,
            0 <= by,
            num == ay * dx + (by - ay) * off,
    {
        if by >= ay {
            assert((by - ay) * off <= (by - ay) * dx);
        } else {
            assert((ay - by) * off <= (ay - by) * dx);
        }
    }
    assert(num / dx <= ay || num / dx <= by) by (nonlinear_arith)
        requires
            0 < dx,
            0 <= num,
            num <= ay * dx || num <= by * dx,
    {
        if num <= ay * dx {
            vstd::arithmetic::div_mod::lemma_div_is_ordered(num, ay * dx, dx);
            vstd::arithmetic::div_mod::lemma_div_by_multiple(ay, dx);
        } else {
            vstd::arithmetic::div_mod::lemma_div_is_ordered(num, by * dx, dx);
            vstd::arithmetic::div_mod::lemma_div_by_multiple(by, dx);
        }
    }
    assert(0 <= num / dx) by (nonlinear_arith)
        requires
            0 < dx,
            0 <= num,
    ;
}

proof fn lemma_word_product_fits(p: u64, q: u64)
    requires
        p <= 0xffff_ffffu64,
        q <= 0xffff_ffffu64,
    ensures
        p * q <= 0xffff_ffffu64 * 0xffff_ffffu64,
{
    assert(p * q <= 0xffff_ffffu64 * 0xffff_ffffu64) by (nonlinear_arith)
        requires
            p <= 0xffff_ffffu64,
            q <= 0xffff_ffffu64,
    ;
}

/// The speed on the segment from `a` to `b` at a temperature strictly
/// inside it.
fn interpolate_span(a: Step, b: Step, t: u32) -> (r: u32)
    requires
        in_span(a, b, t),
    ensures
        r == interpolate(a, b, t),
{
    proof {
        lemma_interpolate_bounds(a, b, t);
    }
    let dx: u64 = (b.x - a.x) as u64;
    let off: u64 = (t - a.x) as u64;
    proof {
        lemma_word_product_fits(a.y as u64, dx);
    }
    let base: u64 = a.y as u64 * dx;
    let num: u64 = if b.y >= a.y {
        proof {
            lemma_word_product_fits((b.y - a.y) as u64, off);
        }
        let rise: u64 = (b.y - a.y) as u64 * off;
        assert(base + rise <= b.y * dx) by (nonlinear_arith)
            requires
                base == a.y * dx,
                rise == (b.y - a.y) * off,
                off < dx,
                b.y >= a.y,
        ;
        assert(b.y * dx <= 0xffff_ffffu64 * 0xffff_ffffu64) by (nonlinear_arith)
            requires
                b.y <= 0xffff_ffffu64,
                dx <= 0xffff_ffffu64,
        ;
        assert(base + rise == a.y * (b.x - a.x) + (b.y - a.y) * (t - a.x));
        base + rise
    } else {
        proof {
            lemma_word_product_fits((a.y - b.y) as u64, off);
        }
        let fall: u64 = (a.y - b.y) as u64 * off;
        assert(fall <= base) by (nonlinear_arith)
            requires
                base == a.y * dx,
                fall == (a.y - b.y) * off,
                off < dx,
                b.y < a.y,
        ;
        assert(base - fall == a.y * (b.x - a.x) + (b.y - a.y) * (t - a.x)) by (nonlinear_arith)
            requires
                base == a.y * dx,
                fall == (a.y - b.y) * off,
                dx == b.x - a.x,
                off == t - a.x,
        ;
        base - fall
    };
    (num / dx) as u32
}

/// The target fan speed for `temperature`: the first pair of adjacent
/// points whose open temperature span holds the reading is interpolated.
/// A reading on a control point, below the first or at or above the last
/// one, and any reading on a curve of fewer than two points, gives 0.
pub fn calculate_speed_value(curve: &Vec<Step>, temperature: u32) -> (r: u32)
    ensures
        r == speed_value(curve@, temperature),
{
    let n: usize = curve.len();
    let mut i: usize = 0;
    while i < n && i + 1 < n
        invariant
            n == curve@.len(),
            i <= n,
            speed_from(curve@, i as int, temperature) == speed_value(curve@, temperature),
        decreases n - i,
    {
        let a: Step = curve[i];
        let b: Step = curve[i + 1];
        if a.x < temperature && temperature < b.x {
            return interpolate_span(a, b, temperature);
        }
        i = i + 1;
    }
    0
}

proof fn lemma_no_span_from(curve: Seq<Step>, i: int, t: u32)
    requires
        0 <= i,
        forall|k: int| i <= k && k + 1 < curve.len() ==> !#[trigger] in_span(curve[k], curve[k + 1], t),
    ensures
        speed_from(curve, i, t) == 0,
    decreases curve.len() - i,
{
    if i + 1 < curve.len() {
        lemma_no_span_from(curve, i + 1, t);
    }
}

proof fn lemma_span_from(curve: Seq<Step>, i: int, k: int, t: u32)
    requires
        0 <= i <= k,
        k + 1 < curve.len(),
        in_span(curve[k], curve[k + 1], t),
        forall|j: int| i <= j < k ==> !#[trigger] in_span(curve[j], curve[j + 1], t),
    ensures
        speed_from(curve, i, t) == interpolate(curve[k], curve[k + 1], t),
    decreases k - i,
{
    if i < k {
        lemma_span_from(curve, i + 1, k, t);
    }
}

/// On a curve whose temperatures strictly increase, a reading that equals
/// the temperature of a control point, or lies at or below the first point,
/// or at or above the last one, gives the fail-safe speed 0.
pub proof fn lemma_fail_safe_outside_spans(curve: Seq<Step>, t: u32)
    requires
        strictly_increasing(curve),
        curve.len() > 0,
        t <= curve[0].x || t >= curve.last().x || exists|k: int|
            0 <= k < curve.len() && #[trigger] curve[k].x == t,
    ensures
        speed_value(curve, t) == 0,
{
    assert forall|i: int| 0 <= i && i + 1 < curve.len() implies !#[trigger] in_span(
        curve[i],
        curve[i + 1],
        t,
    ) by {
        if i > 0 {
            assert(curve[0].x < curve[i].x);
        }
        if i + 1 < curve.len() - 1 {
            assert(curve[i + 1].x < curve[curve.len() - 1].x);
        }
        if exists|k: int| 0 <= k < curve.len() && #[trigger] curve[k].x == t {
            let k = choose|k: int| 0 <= k < curve.len() && #[trigger] curve[k].x == t;
            if k < i {
                assert(curve[k].x < curve[i].x);
            } else if k > i + 1 {
                assert(curve[i + 1].x < curve[k].x);
            }
        }
    }
    lemma_no_span_from(curve, 0, t);
}

/// On a curve whose temperatures strictly increase, a reading strictly
/// between two adjacent control points gives the interpolation between
/// those two points.
pub proof fn lemma_interpolates_within_span(curve: Seq<Step>, k: int, t: u32)
    requires
        strictly_increasing(curve),
        0 <= k,
        k + 1 < curve.len(),
        curve[k].x < t < curve[k + 1].x,
    ensures
        speed_value(curve, t) == interpolate(curve[k], curve[k + 1], t),
{
    assert forall|j: int| 0 <= j < k implies !#[trigger] in_span(curve[j], curve[j + 1], t) by {
        if j + 1 < k {
            assert(curve[j + 1].x < curve[k].x);
        }
    }
    lemma_span_from(curve, 0, k, t);
}

} // verus!
