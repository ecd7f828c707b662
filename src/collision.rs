use vstd::prelude::*;

use crate::components::{Body, Extent, Position, Velocity};

verus! {

/// The role a collider plays; a goal wall scores for the opposing player.
#[derive(Clone, Copy, Debug, PartialEq, Eq, Structural)]
pub enum ColliderKind {
    LeftGoal,
    RightGoal,
    Wall,
    Paddle,
}

/// A static axis-aligned rectangle that the ball can hit.
#[derive(Clone, Copy, Debug, PartialEq, Eq, Structural)]
pub struct Collider {
    pub position: Position,
    pub half_extent: Extent,
    pub kind: ColliderKind,
}

impl Collider {
    pub open spec fn wf(self) -> bool {
        self.half_extent.wf()
    }
}

/// Which side of a collider the ball struck. `Left` means the ball came from
/// the collider's left, `Bottom` from below.
#[derive(Clone, Copy, Debug, PartialEq, Eq, Structural)]
pub enum Collision {
    Left,
    Right,
    Top,
    Bottom,
    Inside,
}

/// The two score counters.
#[derive(Clone, Copy, Debug, PartialEq, Eq, Structural)]
pub struct Scoreboard {
    pub player_1_score: u64,
    pub player_2_score: u64,
}

impl Scoreboard {
    /// A scoreboard with both counters at zero.
    pub fn new() -> (r: Scoreboard)
        ensures
            r.player_1_score == 0,
            r.player_2_score == 0,
    {
        Scoreboard { player_1_score: 0, player_2_score: 0 }
    }
}

/// The largest magnitude of a perturbation, in hundredths of a world unit per
/// second.
pub const MAX_PERTURBATION: i64 = 315;

pub open spec fn abs(x: int) -> int {
    if x < 0 {
        -x
    } else {
        x
    }
}

/// Horizontal distance between the centres.
pub open spec fn gap_x(ball: Body, c: Collider) -> int {
    ball.position.x_position - c.position.x_position
}

/// Vertical distance between the centres.
pub open spec fn gap_y(ball: Body, c: Collider) -> int {
    ball.position.y_position - c.position.y_position
}

/// How far the rectangles reach into each other horizontally.
pub open spec fn depth_x(ball: Body, c: Collider) -> int {
    ball.half_extent.half_width + c.half_extent.half_width - abs(gap_x(ball, c))
}

/// How far the rectangles reach into each other vertically.
pub open spec fn depth_y(ball: Body, c: Collider) -> int {
    ball.half_extent.half_height + c.half_extent.half_height - abs(gap_y(ball, c))
}

/// The rectangles overlap: on each axis the centres are closer than the sum of
/// the half-extents.
pub open spec fn overlaps(ball: Body, c: Collider) -> bool {
    depth_x(ball, c) > 0 && depth_y(ball, c) > 0
}

/// The side struck, or `None` without overlap. The ball's centre inside the
/// collider on both axes is `Inside`; otherwise the axis of smaller penetration
/// decides, a tie counting as horizontal.
pub open spec fn impact_side(ball: Body, c: Collider) -> Option<Collision> {
    if !overlaps(ball, c) {
        None
    } else if abs(gap_x(ball, c)) < c.half_extent.half_width && abs(gap_y(ball, c))
        < c.half_extent.half_height {
        Some(Collision::Inside)
    } else if depth_y(ball, c) < depth_x(ball, c) {
        if gap_y(ball, c) < 0 {
            Some(Collision::Bottom)
        } else {
            Some(Collision::Top)
        }
    } else if gap_x(ball, c) < 0 {
        Some(Collision::Left)
    } else {
        Some(Collision::Right)
    }
}

fn abs_i128(x: i128) -> (r: i128)
    requires
        x > i128::MIN,
    ensures
        r == abs(x as int),
{
    if x < 0 {
        -x
    } else {
        x
    }
}

/// Overlap test and side classification of the ball against one collider.
pub fn collide(ball: &Body, collider: &Collider) -> (r: Option<Collision>)
    ensures
        r == impact_side(*ball, *collider),
{
    let gx: i128 = ball.position.x_position as i128 - collider.position.x_position as i128;
    let gy: i128 = ball.position.y_position as i128 - collider.position.y_position as i128;
    let ax: i128 = abs_i128(gx);
    let ay: i128 = abs_i128(gy);
    let dx: i128 = ball.half_extent.half_width as i128 + collider.half_extent.half_width as i128
        - ax;
    let dy: i128 = ball.half_extent.half_height as i128 + collider.half_extent.half_height as i128
        - ay;
    if dx <= 0 || dy <= 0 {
        None
    } else if ax < collider.half_extent.half_width as i128 && ay
        < collider.half_extent.half_height as i128 {
        Some(Collision::Inside)
    } else if dy < dx {
        if gy < 0 {
            Some(Collision::Bottom)
        } else {
            Some(Collision::Top)
        }
    } else if gx < 0 {
        Some(Collision::Left)
    } else {
        Some(Collision::Right)
    }
}

/// The fixed set of perturbations, indexed by `pick % 7`.
pub open spec fn perturbation(pick: u64) -> int {
    let i = pick % 7;
    if i == 0 {
        -100
    } else if i == 1 {
        100
    } else if i == 2 {
        210
    } else if i == 3 {
        150
    } else if i == 4 {
        -175
    } else if i == 5 {
        315
    } else {
        -225
    }
}

/// The values a perturbation can take: -1, 1, 2.1, 1.5, -1.75, 3.15 and -2.25
/// world units per second.
pub open spec fn perturbations() -> Set<int> {
    set![-100, 100, 210, 150, -175, 315, -225]
}

/// The perturbation selected by a random draw; any `u64` is a valid draw.
pub fn perturbation_of(pick: u64) -> (r: i64)
    ensures
        r == perturbation(pick),
        perturbations().contains(r as int),
        r != 0,
        -MAX_PERTURBATION <= r <= MAX_PERTURBATION,
{
    let i: u64 = pick % 7;
    if i == 0 {
        -100
    } else if i == 1 {
        100
    } else if i == 2 {
        210
    } else if i == 3 {
        150
    } else if i == 4 {
        -175
    } else if i == 5 {
        315
    } else {
        -225
    }
}

/// A velocity component negated, plus the perturbation of `pick`.
pub open spec fn reflected(v: int, pick: u64) -> int {
    -v + perturbation(pick)
}

/// A velocity component whose reflection stays within `i64`.
pub open spec fn reflectable(v: int) -> bool {
    abs(v) + MAX_PERTURBATION <= i64::MAX
}

/// Reflects one velocity component. The result is never the bare negation, and
/// the speed on that axis changes by at most the largest perturbation.
pub fn reflect_component(v: i64, pick: u64) -> (r: i64)
    requires
        reflectable(v as int),
    ensures
        r == reflected(v as int, pick),
        r != -v,
        abs(abs(r as int) - abs(v as int)) <= MAX_PERTURBATION,
{
    let p = perturbation_of(pick);
    -v + p
}

/// The horizontal component flips: a hit from the left while moving right, or
/// from the right while moving left.
pub open spec fn flips_x(side: Collision, v: Velocity) -> bool {
    (side == Collision::Left && v.x_velocity > 0) || (side == Collision::Right && v.x_velocity < 0)
}

/// The vertical component flips: a hit on the top while moving down, or on the
/// bottom while moving up.
pub open spec fn flips_y(side: Collision, v: Velocity) -> bool {
    (side == Collision::Top && v.y_velocity < 0) || (side == Collision::Bottom && v.y_velocity > 0)
}

/// The velocity after a hit on `side`.
pub open spec fn velocity_after(side: Collision, v: Velocity, pick: u64) -> Velocity {
    Velocity {
        x_velocity: if flips_x(side, v) {
            reflected(v.x_velocity as int, pick) as i64
        } else {
            v.x_velocity
        },
        y_velocity: if flips_y(side, v) {
            reflected(v.y_velocity as int, pick) as i64
        } else {
            v.y_velocity
        },
    }
}

/// The scoreboard after a hit on `side` of a collider of `kind`: a side hit on
/// the left goal scores for player 2, on the right goal for player 1.
pub open spec fn score_after(side: Collision, kind: ColliderKind, board: Scoreboard) -> Scoreboard {
    if side == Collision::Inside {
        board
    } else if kind == ColliderKind::LeftGoal {
        Scoreboard { player_2_score: (board.player_2_score + 1) as u64, ..board }
    } else if kind == ColliderKind::RightGoal {
        Scoreboard { player_1_score: (board.player_1_score + 1) as u64, ..board }
    } else {
        board
    }
}

/// Ball, scoreboard and collision signal after resolving one collider.
pub open spec fn after_collider(ball: Body, board: Scoreboard, c: Collider, pick: u64) -> (
    Body,
    Scoreboard,
    bool,
) {
    match impact_side(ball, c) {
        None => (ball, board, false),
        Some(side) => (
            Body { velocity: velocity_after(side, ball.velocity, pick), ..ball },
            score_after(side, c.kind, board),
            true,
        ),
    }
}

/// The state left by resolving the first `n` colliders in order, each once,
/// with the draw at the same index; the signal is set if any of them was hit.
pub open spec fn after_colliders(
    ball: Body,
    board: Scoreboard,
    cs: Seq<Collider>,
    picks: Seq<u64>,
    n: nat,
) -> (Body, Scoreboard, bool)
    decreases n,
{
    if n == 0 {
        (ball, board, false)
    } else {
        let prev = after_colliders(ball, board, cs, picks, (n - 1) as nat);
        let next = after_collider(prev.0, prev.1, cs[n - 1], picks[n - 1]);
        (next.0, next.1, prev.2 || next.2)
    }
}

/// Resolving `n` colliders can be done without overflow: each may perturb a
/// velocity component once and add one point to a counter.
pub open spec fn can_resolve(ball: Body, board: Scoreboard, n: nat) -> bool {
    &&& abs(ball.velocity.x_velocity as int) + MAX_PERTURBATION * n <= i64::MAX
    &&& abs(ball.velocity.y_velocity as int) + MAX_PERTURBATION * n <= i64::MAX
    &&& board.player_1_score + n <= u64::MAX
    &&& board.player_2_score + n <= u64::MAX
}

/// Collision resolution against one collider: classifies the contact, scores a
/// side hit on a goal wall, and reflects the velocity on the struck axis when
/// the ball moves into the collider. Returns whether the rectangles overlap.
pub fn resolve_collision(
    ball: &mut Body,
    collider: &Collider,
    scoreboard: &mut Scoreboard,
    pick: u64,
) -> (hit: bool)
    requires
        can_resolve(*old(ball), *old(scoreboard), 1),
    ensures
        (*final(ball), *final(scoreboard), hit) == after_collider(
            *old(ball),
            *old(scoreboard),
            *collider,
            pick,
        ),
        hit == overlaps(*old(ball), *collider),
        final(ball).position == old(ball).position,
        final(ball).half_extent == old(ball).half_extent,
        !hit ==> *final(ball) == *old(ball) && *final(scoreboard) == *old(scoreboard),
        impact_side(*old(ball), *collider) == Some(Collision::Inside) ==> *final(ball) == *old(ball)
            && *final(scoreboard) == *old(scoreboard),
{
    match collide(ball, collider) {
        None => false,
        Some(side) => {
            if (side == Collision::Left && ball.velocity.x_velocity > 0) || (side == Collision::Right
                && ball.velocity.x_velocity < 0) {
                ball.velocity.x_velocity = reflect_component(ball.velocity.x_velocity, pick);
            }
            if (side == Collision::Top && ball.velocity.y_velocity < 0) || (side == Collision::Bottom
                && ball.velocity.y_velocity > 0) {
                ball.velocity.y_velocity = reflect_component(ball.velocity.y_velocity, pick);
            }
            if side != Collision::Inside {
                match collider.kind {
                    ColliderKind::LeftGoal => {
                        scoreboard.player_2_score = scoreboard.player_2_score + 1;
                    },
                    ColliderKind::RightGoal => {
                        scoreboard.player_1_score = scoreboard.player_1_score + 1;
                    },
                    _ => {},
                }
            }
            true
        },
    }
}

/// Resolving one collider keeps the overflow margin for the remaining ones.
proof fn lemma_step_keeps_margin(ball: Body, board: Scoreboard, c: Collider, pick: u64, k: nat)
    requires
        can_resolve(ball, board, k + 1),
    ensures
        can_resolve(after_collider(ball, board, c, pick).0, after_collider(ball, board, c, pick).1, k),
{
}

/// Collision resolution for one tick: resolves every collider once, in order,
/// using `picks[i]` as the random draw for `colliders[i]`. Returns the collision
/// signal: whether any collider overlapped the ball.
pub fn resolve_collisions(
    ball: &mut Body,
    colliders: &Vec<Collider>,
    scoreboard: &mut Scoreboard,
    picks: &Vec<u64>,
) -> (collided: bool)
    requires
        picks.len() == colliders.len(),
        can_resolve(*old(ball), *old(scoreboard), colliders.len() as nat),
    ensures
        (*final(ball), *final(scoreboard), collided) == after_colliders(
            *old(ball),
            *old(scoreboard),
            colliders@,
            picks@,
            colliders.len() as nat,
        ),
        final(ball).position == old(ball).position,
        final(ball).half_extent == old(ball).half_extent,
        (forall|i: int| 0 <= i < colliders.len() ==> !overlaps(*old(ball), #[trigger] colliders@[i]))
            ==> *final(ball) == *old(ball) && *final(scoreboard) == *old(scoreboard) && !collided,
        final(scoreboard).player_1_score >= old(scoreboard).player_1_score,
        final(scoreboard).player_2_score >= old(scoreboard).player_2_score,
{
    let ghost b0 = *ball;
    let ghost s0 = *scoreboard;
    let n = colliders.len();
    let mut collided = false;
    let mut i: usize = 0;
    while i < n
        invariant
            n == colliders.len(),
            picks.len() == n,
            i <= n,
            (*ball, *scoreboard, collided) == after_colliders(b0, s0, colliders@, picks@, i as nat),
            ball.position == b0.position,
            ball.half_extent == b0.half_extent,
            can_resolve(*ball, *scoreboard, (n - i) as nat),
        decreases n - i,
    {
        proof {
            lemma_step_keeps_margin(*ball, *scoreboard, colliders@[i as int], picks@[i as int], (n - i - 1) as nat);
        }
        let hit = resolve_collision(ball, &colliders[i], scoreboard, picks[i]);
        collided = collided || hit;
        i = i + 1;
    }
    proof {
        if forall|j: int| 0 <= j < n ==> !overlaps(b0, #[trigger] colliders@[j]) {
            lemma_no_overlap_leaves_state(b0, s0, colliders@, picks@, n as nat);
        }
        lemma_scores_never_decrease(b0, s0, colliders@, picks@, n as nat);
    }
    collided
}

/// A collider that the ball does not overlap changes nothing and raises no
/// collision signal; so a tick in which no collider overlaps the ball leaves
/// ball and scoreboard as they were, however often it is repeated.
pub proof fn lemma_no_overlap_leaves_state(
    ball: Body,
    board: Scoreboard,
    cs: Seq<Collider>,
    picks: Seq<u64>,
    n: nat,
)
    requires
        n <= cs.len(),
        forall|i: int| 0 <= i < n ==> !overlaps(ball, #[trigger] cs[i]),
    ensures
        after_colliders(ball, board, cs, picks, n) == (ball, board, false),
    decreases n,
{
    if n > 0 {
        lemma_no_overlap_leaves_state(ball, board, cs, picks, (n - 1) as nat);
    }
}

/// Scores only grow: resolving any colliders never lowers either counter.
pub proof fn lemma_scores_never_decrease(
    ball: Body,
    board: Scoreboard,
    cs: Seq<Collider>,
    picks: Seq<u64>,
    n: nat,
)
    requires
        n <= cs.len(),
        can_resolve(ball, board, n),
    ensures
        after_colliders(ball, board, cs, picks, n).1.player_1_score >= board.player_1_score,
        after_colliders(ball, board, cs, picks, n).1.player_2_score >= board.player_2_score,
        after_colliders(ball, board, cs, picks, n).1.player_1_score <= board.player_1_score + n,
        after_colliders(ball, board, cs, picks, n).1.player_2_score <= board.player_2_score + n,
    decreases n,
{
    if n > 0 {
        lemma_scores_never_decrease(ball, board, cs, picks, (n - 1) as nat);
    }
}

/// A pair that does not overlap: resolving it leaves ball and scoreboard
/// unchanged and raises no signal.
pub proof fn lemma_disjoint_pair_unchanged(ball: Body, board: Scoreboard, c: Collider, pick: u64)
    requires
        !overlaps(ball, c),
    ensures
        after_collider(ball, board, c, pick) == (ball, board, false),
{
}

/// A collider is resolved in a single pass: a tick against one collider
/// reflects at most one axis, at most once, and leaves the other axis as it
/// was.
pub proof fn lemma_single_reflection(ball: Body, board: Scoreboard, c: Collider, pick: u64)
    requires
        can_resolve(ball, board, 1),
    ensures
        ({
            let v = ball.velocity;
            let w = after_colliders(ball, board, seq![c], seq![pick], 1).0.velocity;
            ||| w == v
            ||| w.x_velocity == reflected(v.x_velocity as int, pick) && w.y_velocity == v.y_velocity
            ||| w.y_velocity == reflected(v.y_velocity as int, pick) && w.x_velocity == v.x_velocity
        }),
{
    let cs = seq![c];
    let ps = seq![pick];
    assert(cs[0] == c);
    assert(ps[0] == pick);
    assert(after_colliders(ball, board, cs, ps, 0) == (ball, board, false));
    assert(after_colliders(ball, board, cs, ps, 1).0 == after_collider(ball, board, c, pick).0);
}

/// Every draw selects a perturbation from the fixed set, and none of them is
/// zero: a reflected component never equals the bare negation.
pub proof fn lemma_perturbation_nonzero(pick: u64, v: int)
    ensures
        perturbations().contains(perturbation(pick)),
        perturbation(pick) != 0,
        reflected(v, pick) != -v,
{
}

/// A contact classified as `Inside` changes neither the ball nor the
/// scoreboard.
pub proof fn lemma_inside_leaves_state(ball: Body, board: Scoreboard, c: Collider, pick: u64)
    requires
        impact_side(ball, c) == Some(Collision::Inside),
    ensures
        after_collider(ball, board, c, pick).0 == ball,
        after_collider(ball, board, c, pick).1 == board,
{
    assert(velocity_after(Collision::Inside, ball.velocity, pick) == ball.velocity);
}

} // verus!
