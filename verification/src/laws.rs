//! Laws of the simulation: properties that hold across functions,
//! stated and proved over the same spec functions the contracts use.

use vstd::prelude::*;

use crate::constants::{
    GRAVITY, ITEM_BOUNCE_DEN, ITEM_BOUNCE_KEEP_NUM, ITEM_BOUNCE_LOSE_NUM, ITEM_MIN_BOUNCE_SPEED,
    ITEM_THROW_DIAGONAL, MAX_DT, POS_LIMIT, TIME_SCALE, VEL_LIMIT,
};
use crate::geom::{bottom, top, Rect, Vec2};
use crate::items::{carried_item_by, item_rect, thrown_item_by, Item, ItemState};
use crate::num::{clamped, dt_scaled, tdiv, vel_plus};
use crate::physics::{
    first_landing_index, item_landed, lands_on, lemma_first_rect_where, player_after_landing,
};
use crate::player::{player_rect, player_wf, Player};

verus! {

/// Gravity is monotone: one physics step of an airborne body adds
/// exactly `GRAVITY * dt / 1000` to the vertical velocity, for every
/// frame time, as long as the terminal bound is not reached.  The
/// entity updates state this increment through `vel_plus`.
pub proof fn lemma_gravity_monotone(vy: int, dt: int)
    requires
        0 < dt <= MAX_DT,
        -VEL_LIMIT <= vy,
        vy + dt_scaled(GRAVITY as int, dt) <= VEL_LIMIT,
    ensures
        vel_plus(vy, dt_scaled(GRAVITY as int, dt)) == vy + dt_scaled(GRAVITY as int, dt),
        dt_scaled(GRAVITY as int, dt) > 0,
{
    assert(GRAVITY * dt >= 1 * TIME_SCALE) by (nonlinear_arith)
        requires
            dt >= 1,
            GRAVITY == 1000,
            TIME_SCALE == 1000,
    ;
    assert(tdiv(GRAVITY * dt, TIME_SCALE as int) >= 1) by {
        vstd::arithmetic::div_mod::lemma_div_is_ordered(
            1 * (TIME_SCALE as int),
            GRAVITY * dt,
            TIME_SCALE as int,
        );
        vstd::arithmetic::div_mod::lemma_div_multiples_vanish(1, TIME_SCALE as int);
    }
}

/// Landing is idempotent: a body whose vertical velocity is zero can
/// only qualify against a surface whose top already carries its bottom
/// edge, so the landing rule never moves it again.
pub proof fn lemma_landing_no_retrigger(r: Rect, dt: int, s: Rect)
    requires
        lands_on(r, 0, dt, s),
    ensures
        top(s) == bottom(r),
{
    assert(dt_scaled(0, dt) == 0) by {
        assert(0 * dt == 0);
    }
}

/// Landing is idempotent at the resolver level: with zero vertical
/// velocity the landing pass leaves the player's position and velocity
/// unchanged, whatever surfaces are offered.
pub proof fn lemma_landing_idempotent(p: Player, ss: Seq<Rect>, dt: int)
    requires
        player_wf(p),
        p.velocity.y == 0,
    ensures
        player_after_landing(p, ss, dt).position == p.position,
        player_after_landing(p, ss, dt).velocity == p.velocity,
{
    lemma_first_rect_where(ss, |s: Rect| lands_on(player_rect(p), 0, dt, s));
    match first_landing_index(player_rect(p), 0, dt, ss) {
        Some(i) => {
            lemma_landing_no_retrigger(player_rect(p), dt, ss[i]);
            assert(clamped(top(ss[i]) - p.size.y, POS_LIMIT as int) == p.position.y);
        },
        None => {},
    }
}

/// Carry slaving: away from the coordinate limits, a carried item sits
/// at exactly the carrier's top edge, flush against its leading edge.
pub proof fn lemma_carry_slaving(it: Item, pos: Vec2, size: Vec2, facing_right: bool)
    requires
        -POS_LIMIT <= pos.x - it.size.x,
        pos.x + size.x <= POS_LIMIT,
        0 <= it.size.x,
        0 <= size.x,
    ensures
        carried_item_by(it, pos, size, facing_right).position.y == pos.y,
        facing_right ==> carried_item_by(it, pos, size, facing_right).position.x == pos.x + size.x,
        !facing_right ==> carried_item_by(it, pos, size, facing_right).position.x + it.size.x
            == pos.x,
{
}

/// Throw energy: away from the terminal bound, a thrown item leaves
/// with exactly the carrier's velocity plus the fixed throw diagonal,
/// in state `Thrown` and airborne.
pub proof fn lemma_throw_energy(it: Item, vel: Vec2, facing_right: bool)
    requires
        -VEL_LIMIT <= vel.x - ITEM_THROW_DIAGONAL,
        vel.x + ITEM_THROW_DIAGONAL <= VEL_LIMIT,
        -VEL_LIMIT <= vel.y - ITEM_THROW_DIAGONAL,
        vel.y <= VEL_LIMIT,
    ensures
        ({
            let t = thrown_item_by(it, vel, facing_right);
            &&& t.velocity.x == vel.x + if facing_right {
                ITEM_THROW_DIAGONAL as int
            } else {
                -ITEM_THROW_DIAGONAL as int
            }
            &&& t.velocity.y == vel.y - ITEM_THROW_DIAGONAL
            &&& t.state == ItemState::Thrown
            &&& t.on_ground == false
        }),
{
}

/// Bounce decay: a thrown item landing above the bounce threshold keeps
/// the restitution fraction of its vertical speed, reversed, and the
/// complementary fraction of its horizontal speed; at or below the
/// threshold it settles idle with zero velocity on the surface top.
pub proof fn lemma_bounce_decay(it: Item, s: Rect)
    requires
        it.state == ItemState::Thrown,
    ensures
        it.velocity.x * it.velocity.x + it.velocity.y * it.velocity.y > ITEM_MIN_BOUNCE_SPEED
            * ITEM_MIN_BOUNCE_SPEED ==> ({
            let o = item_landed(it, s);
            &&& o.velocity.y == -tdiv(it.velocity.y * ITEM_BOUNCE_KEEP_NUM, ITEM_BOUNCE_DEN as int)
            &&& o.velocity.x == tdiv(it.velocity.x * ITEM_BOUNCE_LOSE_NUM, ITEM_BOUNCE_DEN as int)
            &&& o.state == ItemState::Thrown
        }),
        it.velocity.x * it.velocity.x + it.velocity.y * it.velocity.y <= ITEM_MIN_BOUNCE_SPEED
            * ITEM_MIN_BOUNCE_SPEED ==> ({
            let o = item_landed(it, s);
            &&& o.velocity == (Vec2 { x: 0, y: 0 })
            &&& o.state == ItemState::Idle
            &&& o.on_ground == true
        }),
{
}

/// The landing tie-break is deterministic: among several qualifying
/// surfaces, the first in iteration order receives the body, and no
/// earlier surface qualified.
pub proof fn lemma_landing_first_match(r: Rect, vy: int, dt: int, ss: Seq<Rect>)
    ensures
        match first_landing_index(r, vy, dt, ss) {
            Some(i) => 0 <= i < ss.len() && lands_on(r, vy, dt, ss[i]) && forall|j: int|
                0 <= j < i ==> !lands_on(r, vy, dt, #[trigger] ss[j]),
            None => forall|j: int| 0 <= j < ss.len() ==> !lands_on(r, vy, dt, #[trigger] ss[j]),
        },
{
    lemma_first_rect_where(ss, |s: Rect| lands_on(r, vy, dt, s));
}

} // verus!
