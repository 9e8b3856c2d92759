//! The viewport-follow rule: once per tick, each of the four margins
//! between the player and the viewport border that is below a fixed
//! padding pulls the viewport one cell toward the player.  The two axes
//! are independent; each is the same one-dimensional rule with its own
//! span, so the rule and its convergence law are stated per axis.

use vstd::prelude::*;

use crate::utils::Position;

verus! {

/// A margin below this many cells pulls the viewport.
pub const VIEW_PADDING: i32 = 2;

/// Clamping into the range of the viewport coordinate type.
pub open spec fn clamp_i32(v: int) -> int {
    if v < i32::MIN {
        i32::MIN as int
    } else if v > i32::MAX {
        i32::MAX as int
    } else {
        v
    }
}

/// One tick of the follow rule along one axis.  `v` is the viewport
/// coordinate, `p` the player coordinate, and `span` the constant the
/// axis's far margin is measured against: the low margin is `p - v`, the
/// high margin `v + span - p`.  (Along x the span is the screen width
/// less 2; along y it is the game height plus the message height less 3.)
/// Each margin below the padding moves the viewport one cell its way; the
/// result is clamped into the coordinate range.
pub open spec fn spec_axis_step(v: int, p: int, span: int) -> int {
    let low = p - v;
    let high = v + span - p;
    let moved = v + (if low < VIEW_PADDING {
        -1int
    } else {
        0int
    }) + (if high < VIEW_PADDING {
        1int
    } else {
        0int
    });
    clamp_i32(moved)
}

/// The follow rule iterated over `k` ticks with the player standing still.
pub open spec fn spec_axis_iter(v: int, p: int, span: int, k: nat) -> int
    decreases k,
{
    if k == 0 {
        v
    } else {
        spec_axis_step(spec_axis_iter(v, p, span, (k - 1) as nat), p, span)
    }
}

/// One tick of the follow rule on both axes.
pub open spec fn spec_viewport_step(
    vp: Position,
    player: Position,
    width: u16,
    game_height: u16,
    message_height: u16,
) -> (int, int) {
    (
        spec_axis_step(vp.0 as int, player.0 as int, width - 2),
        spec_axis_step(vp.1 as int, player.1 as int, game_height + message_height - 3),
    )
}

/// One tick of the follow rule, executable.
pub fn viewport_step(
    vp: Position,
    player: Position,
    width: u16,
    game_height: u16,
    message_height: u16,
) -> (r: Position)
    ensures
        r.0 == spec_viewport_step(vp, player, width, game_height, message_height).0,
        r.1 == spec_viewport_step(vp, player, width, game_height, message_height).1,
{
    let x = axis_step(vp.0, player.0, width as i64 - 2);
    let y = axis_step(vp.1, player.1, game_height as i64 + message_height as i64 - 3);
    Position(x, y)
}

/// One tick of the follow rule along one axis, executable.
pub fn axis_step(v: i32, p: i32, span: i64) -> (r: i32)
    requires
        -200000 <= span <= 200000,
    ensures
        r == spec_axis_step(v as int, p as int, span as int),
{
    let low: i64 = p as i64 - v as i64;
    let high: i64 = v as i64 + span - p as i64;
    let mut moved: i64 = v as i64;
    if low < VIEW_PADDING as i64 {
        moved = moved - 1;
    }
    if high < VIEW_PADDING as i64 {
        moved = moved + 1;
    }
    if moved < i32::MIN as i64 {
        i32::MIN
    } else if moved > i32::MAX as i64 {
        i32::MAX
    } else {
        moved as i32
    }
}

/// A viewport whose margins both meet the padding does not move.
pub proof fn lemma_axis_fixpoint(v: int, p: int, span: int)
    requires
        i32::MIN <= v <= i32::MAX,
        p - v >= VIEW_PADDING,
        v + span - p >= VIEW_PADDING,
    ensures
        spec_axis_step(v, p, span) == v,
{
}

/// A viewport whose margins both meet the padding never moves again.
pub proof fn lemma_axis_stable(v: int, p: int, span: int, k: nat)
    requires
        i32::MIN <= v <= i32::MAX,
        p - v >= VIEW_PADDING,
        v + span - p >= VIEW_PADDING,
    ensures
        spec_axis_iter(v, p, span, k) == v,
    decreases k,
{
    if k > 0 {
        lemma_axis_stable(v, p, span, (k - 1) as nat);
    }
}

/// While the low margin is below the padding (and the span leaves room
/// for both margins), one tick moves the viewport exactly one cell toward
/// the player, growing that margin by exactly one.
pub proof fn lemma_axis_step_low(v: int, p: int, span: int)
    requires
        span >= 2 * VIEW_PADDING,
        i32::MIN + VIEW_PADDING <= p <= i32::MAX,
        i32::MIN <= v <= i32::MAX,
        p - v < VIEW_PADDING,
    ensures
        spec_axis_step(v, p, span) == v - 1,
{
}

/// Symmetrically for the high margin.
pub proof fn lemma_axis_step_high(v: int, p: int, span: int)
    requires
        span >= 2 * VIEW_PADDING,
        i32::MIN <= p <= i32::MAX,
        i32::MIN <= v <= i32::MAX,
        v + span - p < VIEW_PADDING,
    ensures
        spec_axis_step(v, p, span) == v + 1,
{
}

/// Viewport margin convergence, low side: starting with the low margin
/// below the padding and the player standing still, every tick moves the
/// viewport exactly one cell toward the player, until after exactly the
/// missing number of cells the low margin equals the padding — never more
/// — and both margins meet the padding from then on, so the viewport
/// stays put.  Needs a span of at least twice the padding: a narrower
/// screen cannot satisfy both margins at once.
pub proof fn lemma_axis_convergence_low(v: int, p: int, span: int)
    requires
        span >= 2 * VIEW_PADDING,
        i32::MIN + VIEW_PADDING <= p <= i32::MAX,
        i32::MIN <= v <= i32::MAX,
        p - v < VIEW_PADDING,
    ensures
        forall|j: nat|
            j < VIEW_PADDING - (p - v) ==> #[trigger] spec_axis_iter(v, p, span, j) == v - j,
        p - spec_axis_iter(v, p, span, (VIEW_PADDING - (p - v)) as nat) == VIEW_PADDING,
        spec_axis_iter(v, p, span, (VIEW_PADDING - (p - v)) as nat) + span - p >= VIEW_PADDING,
        forall|k: nat|
            k >= VIEW_PADDING - (p - v) ==> #[trigger] spec_axis_iter(v, p, span, k)
                == v - (VIEW_PADDING - (p - v)),
{
    let d = (VIEW_PADDING - (p - v)) as nat;
    assert forall|j: nat| j <= d implies #[trigger] spec_axis_iter(v, p, span, j) == v - j by {
        lemma_axis_iter_prefix(v, p, span, j);
    }
    assert forall|k: nat| k >= d implies #[trigger] spec_axis_iter(v, p, span, k) == v - d by {
        lemma_axis_iter_suffix(v, p, span, k);
    }
}

/// Helper: within the deficit, each tick has moved one cell per tick.
proof fn lemma_axis_iter_prefix(v: int, p: int, span: int, j: nat)
    requires
        span >= 2 * VIEW_PADDING,
        i32::MIN + VIEW_PADDING <= p <= i32::MAX,
        i32::MIN <= v <= i32::MAX,
        p - v < VIEW_PADDING,
        j <= VIEW_PADDING - (p - v),
    ensures
        spec_axis_iter(v, p, span, j) == v - j,
    decreases j,
{
    if j > 0 {
        lemma_axis_iter_prefix(v, p, span, (j - 1) as nat);
        lemma_axis_step_low(v - (j - 1), p, span);
    }
}

/// Helper: from the deficit on, the viewport stays where it arrived.
proof fn lemma_axis_iter_suffix(v: int, p: int, span: int, k: nat)
    requires
        span >= 2 * VIEW_PADDING,
        i32::MIN + VIEW_PADDING <= p <= i32::MAX,
        i32::MIN <= v <= i32::MAX,
        p - v < VIEW_PADDING,
        k >= VIEW_PADDING - (p - v),
    ensures
        spec_axis_iter(v, p, span, k) == v - (VIEW_PADDING - (p - v)),
    decreases k,
{
    let d = VIEW_PADDING - (p - v);
    if k == d {
        lemma_axis_iter_prefix(v, p, span, k);
    } else {
        lemma_axis_iter_suffix(v, p, span, (k - 1) as nat);
        lemma_axis_fixpoint(v - d, p, span);
    }
}

/// Viewport margin convergence, high side: the mirror of the low side.
pub proof fn lemma_axis_convergence_high(v: int, p: int, span: int)
    requires
        span >= 2 * VIEW_PADDING,
        i32::MIN <= p <= i32::MAX - VIEW_PADDING,
        i32::MIN <= v <= i32::MAX,
        v + span - p < VIEW_PADDING,
    ensures
        forall|j: nat|
            j < VIEW_PADDING - (v + span - p) ==> #[trigger] spec_axis_iter(v, p, span, j) == v
                + j,
        spec_axis_iter(v, p, span, (VIEW_PADDING - (v + span - p)) as nat) + span - p
            == VIEW_PADDING,
        p - spec_axis_iter(v, p, span, (VIEW_PADDING - (v + span - p)) as nat) >= VIEW_PADDING,
        forall|k: nat|
            k >= VIEW_PADDING - (v + span - p) ==> #[trigger] spec_axis_iter(v, p, span, k) == v + (
            VIEW_PADDING - (v + span - p)),
{
    let d = (VIEW_PADDING - (v + span - p)) as nat;
    assert forall|j: nat| j <= d implies #[trigger] spec_axis_iter(v, p, span, j) == v + j by {
        lemma_axis_iter_prefix_high(v, p, span, j);
    }
    assert forall|k: nat| k >= d implies #[trigger] spec_axis_iter(v, p, span, k) == v + d by {
        lemma_axis_iter_suffix_high(v, p, span, k);
    }
}

proof fn lemma_axis_iter_prefix_high(v: int, p: int, span: int, j: nat)
    requires
        span >= 2 * VIEW_PADDING,
        i32::MIN <= p <= i32::MAX - VIEW_PADDING,
        i32::MIN <= v <= i32::MAX,
        v + span - p < VIEW_PADDING,
        j <= VIEW_PADDING - (v + span - p),
    ensures
        spec_axis_iter(v, p, span, j) == v + j,
    decreases j,
{
    if j > 0 {
        lemma_axis_iter_prefix_high(v, p, span, (j - 1) as nat);
        lemma_axis_step_high(v + (j - 1), p, span);
    }
}

proof fn lemma_axis_iter_suffix_high(v: int, p: int, span: int, k: nat)
    requires
        span >= 2 * VIEW_PADDING,
        i32::MIN <= p <= i32::MAX - VIEW_PADDING,
        i32::MIN <= v <= i32::MAX,
        v + span - p < VIEW_PADDING,
        k >= VIEW_PADDING - (v + span - p),
    ensures
        spec_axis_iter(v, p, span, k) == v + (VIEW_PADDING - (v + span - p)),
    decreases k,
{
    let d = VIEW_PADDING - (v + span - p);
    if k == d {
        lemma_axis_iter_prefix_high(v, p, span, k);
    } else {
        lemma_axis_iter_suffix_high(v, p, span, (k - 1) as nat);
        lemma_axis_fixpoint(v + d, p, span);
    }
}

} // verus!
