//! The collision resolver: landing, walls, ceiling, side bumps, bounces.
//!
//! Each resolver takes one mutable entity, the immutable level geometry
//! and read-only views of the other entities, together with the frame
//! time that was used for the entity's own integration step.  Landings
//! are guarded against tunneling by reconstructing the entity's bottom
//! edge one frame ago from its velocity; among several candidate
//! surfaces the first in iteration order wins, a deliberate and
//! deterministic tie-break.

use vstd::prelude::*;

use crate::baddies::{baddie_rect, baddie_wf, Baddie, BaddieState};
use crate::blocks::{block_rect, block_wf, Block, BlockState};
use crate::constants::{
    BADDIE_EDGE_TURN_CHANCE, BADDIE_GRAB_CHANCE, BADDIE_GRAB_ITEM_CHANCE,
    BADDIE_MAX_GRAB_DURATION, BADDIE_MAX_ITEM_HOLD_DURATION, BADDIE_MIN_GRAB_DURATION,
    BADDIE_MIN_ITEM_HOLD_DURATION, CHANCE_SCALE, GEO_LIMIT, ITEM_BOUNCE_DEN, ITEM_BOUNCE_KEEP_NUM,
    ITEM_BOUNCE_LOSE_NUM, ITEM_MIN_BOUNCE_SPEED, MAX_DT, POS_LIMIT, TIME_SCALE, VEL_LIMIT,
};
use crate::geom::{bottom, left, overlap, rect_contains, rect_within, right, top, Rect, Vec2};
use crate::items::{hooked_item, item_rect, item_wf, Item, ItemState};
use crate::num::{clamp_i64, clamped, dt_scaled, mul_frac, speed_exceeds, tdiv};
use crate::player::{player_rect, player_wf, HeldObject, Player};
use crate::rng::random_below;

verus! {

/// Bounds kept on every surface rectangle: corners within the position
/// limit, extents positive and within the geometry limit.
pub open spec fn rect_ok(r: Rect) -> bool {
    -POS_LIMIT <= r.x <= POS_LIMIT && -POS_LIMIT <= r.y <= POS_LIMIT && 0 < r.w <= GEO_LIMIT && 0
        < r.h <= GEO_LIMIT
}

/// The index of the first rectangle of `ss` satisfying `f`.
pub open spec fn first_rect_where(ss: Seq<Rect>, f: spec_fn(Rect) -> bool) -> Option<int>
    decreases ss.len(),
{
    if ss.len() == 0 {
        None
    } else if f(ss[0]) {
        Some(0)
    } else {
        match first_rect_where(ss.drop_first(), f) {
            None => None,
            Some(i) => Some(i + 1),
        }
    }
}

/// `first_rect_where` returns the least satisfying index, or reports
/// that none satisfies.
pub proof fn lemma_first_rect_where(ss: Seq<Rect>, f: spec_fn(Rect) -> bool)
    ensures
        match first_rect_where(ss, f) {
            Some(i) => 0 <= i < ss.len() && f(ss[i]) && forall|j: int|
                0 <= j < i ==> !f(#[trigger] ss[j]),
            None => forall|j: int| 0 <= j < ss.len() ==> !f(#[trigger] ss[j]),
        },
    decreases ss.len(),
{
    if ss.len() > 0 && !f(ss[0]) {
        let rest = ss.drop_first();
        lemma_first_rect_where(rest, f);
        match first_rect_where(rest, f) {
            Some(i) => {
                assert(ss[i + 1] == rest[i]);
                assert forall|j: int| 0 <= j < i + 1 implies !f(#[trigger] ss[j]) by {
                    if j > 0 {
                        assert(ss[j] == rest[j - 1]);
                    }
                }
            },
            None => {
                assert forall|j: int| 0 <= j < ss.len() implies !f(#[trigger] ss[j]) by {
                    if j > 0 {
                        assert(ss[j] == rest[j - 1]);
                    }
                }
            },
        }
    }
}

/// The tunneling guard: the entity's box overlaps `s` and its bottom
/// edge, reconstructed one frame ago from `vy`, was at or above the top
/// of `s`.
pub open spec fn lands_on(r: Rect, vy: int, dt: int, s: Rect) -> bool {
    overlap(r, s) && bottom(r) - dt_scaled(vy, dt) <= top(s)
}

/// The first surface of `ss` the entity lands on, in iteration order.
pub open spec fn first_landing_index(r: Rect, vy: int, dt: int, ss: Seq<Rect>) -> Option<int> {
    first_rect_where(ss, |s: Rect| lands_on(r, vy, dt, s))
}

/// The rectangles of the idle blocks of `blocks`, in order.
pub open spec fn idle_block_rects(blocks: Seq<Block>) -> Seq<Rect>
    decreases blocks.len(),
{
    if blocks.len() == 0 {
        Seq::empty()
    } else {
        idle_block_rects(blocks.drop_last()) + if blocks.last().state == BlockState::Idle {
            seq![block_rect(blocks.last())]
        } else {
            Seq::empty()
        }
    }
}

/// The frame's surface set: the platforms, then the ground, then every
/// idle block's rectangle, in that order.
pub open spec fn surface_rects(platforms: Seq<Rect>, ground: Rect, blocks: Seq<Block>) -> Seq<
    Rect,
> {
    platforms.push(ground) + idle_block_rects(blocks)
}

/// Every rectangle of `idle_block_rects` comes from a well-formed block.
proof fn lemma_idle_block_rects_ok(blocks: Seq<Block>)
    requires
        forall|i: int| 0 <= i < blocks.len() ==> block_wf(#[trigger] blocks[i]),
    ensures
        forall|i: int| 0 <= i < idle_block_rects(blocks).len() ==> rect_ok(
            #[trigger] idle_block_rects(blocks)[i],
        ),
    decreases blocks.len(),
{
    if blocks.len() > 0 {
        lemma_idle_block_rects_ok(blocks.drop_last());
        let pre = idle_block_rects(blocks.drop_last());
        assert(block_wf(blocks[blocks.len() - 1]));
        assert forall|i: int| 0 <= i < idle_block_rects(blocks).len() implies rect_ok(
            #[trigger] idle_block_rects(blocks)[i],
        ) by {
            if i < pre.len() {
                assert(idle_block_rects(blocks)[i] == pre[i]);
            } else {
                assert(idle_block_rects(blocks)[i] == block_rect(blocks.last()));
            }
        }
    }
}

/// Builds the frame's surface set.
pub fn collect_surfaces(platforms: &Vec<Rect>, ground: &Rect, blocks: &Vec<Block>) -> (ss: Vec<
    Rect,
>)
    requires
        forall|i: int| 0 <= i < platforms@.len() ==> rect_within(#[trigger] platforms@[i], GEO_LIMIT as int),
        rect_within(*ground, GEO_LIMIT as int),
        forall|i: int| 0 <= i < blocks@.len() ==> block_wf(#[trigger] blocks@[i]),
    ensures
        ss@ == surface_rects(platforms@, *ground, blocks@),
        forall|i: int| 0 <= i < ss@.len() ==> rect_ok(#[trigger] ss@[i]),
{
    let mut ss: Vec<Rect> = Vec::new();
    let mut i: usize = 0;
    while i < platforms.len()
        invariant
            i <= platforms@.len(),
            forall|j: int| 0 <= j < platforms@.len() ==> rect_within(#[trigger] platforms@[j], GEO_LIMIT as int),
            ss@ == platforms@.subrange(0, i as int),
        decreases platforms@.len() - i,
    {
        ss.push(platforms[i]);
        i = i + 1;
    }
    proof {
        assert(platforms@.subrange(0, platforms@.len() as int) =~= platforms@);
    }
    ss.push(*ground);
    let ghost base = platforms@.push(*ground);
    let mut k: usize = 0;
    while k < blocks.len()
        invariant
            k <= blocks@.len(),
            forall|j: int| 0 <= j < blocks@.len() ==> block_wf(#[trigger] blocks@[j]),
            ss@ == base + idle_block_rects(blocks@.subrange(0, k as int)),
            base == platforms@.push(*ground),
        decreases blocks@.len() - k,
    {
        proof {
            assert(blocks@.subrange(0, k as int + 1).drop_last() =~= blocks@.subrange(0, k as int));
            assert(blocks@.subrange(0, k as int + 1).last() == blocks@[k as int]);
        }
        let b = blocks[k];
        if b.state == BlockState::Idle {
            ss.push(b.rect());
        }
        proof {
            if b.state == BlockState::Idle {
                assert(ss@ =~= base + idle_block_rects(blocks@.subrange(0, k as int + 1)));
            } else {
                assert(ss@ =~= base + idle_block_rects(blocks@.subrange(0, k as int + 1)));
            }
        }
        k = k + 1;
    }
    proof {
        assert(blocks@.subrange(0, blocks@.len() as int) =~= blocks@);
        lemma_idle_block_rects_ok(blocks@);
        assert(forall|i: int| 0 <= i < ss@.len() ==> rect_ok(#[trigger] ss@[i])) by {
            lemma_idle_block_rects_ok(blocks@);
        }
    }
    ss
}

/// Finds the first surface the entity lands on, if any.
pub fn find_landing(r: Rect, vy: i32, dt: u32, ss: &Vec<Rect>) -> (res: Option<usize>)
    requires
        rect_ok(r),
        -VEL_LIMIT <= vy <= VEL_LIMIT,
        0 < dt <= MAX_DT,
        forall|i: int| 0 <= i < ss@.len() ==> rect_ok(#[trigger] ss@[i]),
    ensures
        match res {
            Some(i) => i < ss@.len() && first_landing_index(r, vy as int, dt as int, ss@) == Some(
                i as int,
            ),
            None => first_landing_index(r, vy as int, dt as int, ss@) is None,
        },
{
    let step = mul_frac(vy, dt, TIME_SCALE);
    let prev_bottom = r.y as i64 + r.h as i64 - step as i64;
    let mut i: usize = 0;
    while i < ss.len()
        invariant
            i <= ss@.len(),
            rect_ok(r),
            -VEL_LIMIT <= vy <= VEL_LIMIT,
            0 < dt <= MAX_DT,
            forall|j: int| 0 <= j < ss@.len() ==> rect_ok(#[trigger] ss@[j]),
            prev_bottom == bottom(r) - dt_scaled(vy as int, dt as int),
            forall|j: int| 0 <= j < i ==> !lands_on(r, vy as int, dt as int, #[trigger] ss@[j]),
        decreases ss@.len() - i,
    {
        let s = ss[i];
        if r.overlaps(&s) && prev_bottom <= s.y as i64 {
            proof {
                lemma_first_rect_where(ss@, |s: Rect| lands_on(r, vy as int, dt as int, s));
            }
            return Some(i);
        }
        i = i + 1;
    }
    proof {
        lemma_first_rect_where(ss@, |s: Rect| lands_on(r, vy as int, dt as int, s));
    }
    None
}

/// The first surface of `ss` that `r` overlaps, in iteration order.
pub open spec fn first_overlap_index(r: Rect, ss: Seq<Rect>) -> Option<int> {
    first_rect_where(ss, |s: Rect| overlap(r, s))
}

/// The width of what the player holds, for the widened wall test; a
/// stale reference counts nothing.
pub open spec fn held_object_width(
    held: Option<HeldObject>,
    items: Seq<Item>,
    blocks: Seq<Block>,
) -> int {
    match held {
        Some(HeldObject::Item(idx)) => if idx < items.len() {
            items[idx as int].size.x as int
        } else {
            0
        },
        Some(HeldObject::Block(idx)) => if idx < blocks.len() {
            blocks[idx as int].size.x as int
        } else {
            0
        },
        None => 0,
    }
}

/// The player pushed back inside the walls, its box widened on the
/// facing side by the width of what it carries.
pub open spec fn player_after_walls(p: Player, hw: int, lw: Rect, rw: Rect) -> Player {
    if p.facing_right {
        if p.position.x + p.size.x + hw > left(rw) {
            Player {
                position: Vec2 { x: (left(rw) - p.size.x - hw) as i32, y: p.position.y },
                ..p
            }
        } else {
            p
        }
    } else {
        if p.position.x - hw < right(lw) {
            Player { position: Vec2 { x: (right(lw) + hw) as i32, y: p.position.y }, ..p }
        } else {
            p
        }
    }
}

/// The player pushed below the ceiling, its upward speed cancelled.
pub open spec fn player_after_ceiling(p: Player, c: Rect) -> Player {
    if overlap(player_rect(p), c) {
        Player {
            position: Vec2 { x: p.position.x, y: bottom(c) as i32 },
            velocity: Vec2 { x: p.velocity.x, y: 0 },
            ..p
        }
    } else {
        p
    }
}

/// The player after the landing rule: while falling or resting, the
/// first surface passing the tunneling guard receives the player's
/// bottom edge, cancels its fall and grounds it.
pub open spec fn player_after_landing(p: Player, ss: Seq<Rect>, dt: int) -> Player {
    if p.velocity.y >= 0 {
        match first_landing_index(player_rect(p), p.velocity.y as int, dt, ss) {
            Some(i) => Player {
                position: Vec2 {
                    x: p.position.x,
                    y: clamped(top(ss[i]) - p.size.y, POS_LIMIT as int) as i32,
                },
                velocity: Vec2 { x: p.velocity.x, y: 0 },
                on_ground: true,
                ..p
            },
            None => p,
        }
    } else {
        p
    }
}

/// A side bump of a moving box against `b`: the leading edge one frame
/// ago decides whether the box is pushed flush to the nearer face.
pub open spec fn side_bumped_x(r: Rect, vx: int, dt: int, b: Rect) -> int {
    if overlap(r, b) {
        let prev_right = right(r) - dt_scaled(vx, dt);
        let prev_left = left(r) - dt_scaled(vx, dt);
        if prev_right <= left(b) && right(r) > left(b) {
            clamped(left(b) - r.w, POS_LIMIT as int)
        } else if prev_left >= right(b) && left(r) < right(b) {
            clamped(right(b), POS_LIMIT as int)
        } else {
            r.x as int
        }
    } else {
        r.x as int
    }
}

/// One block of the player's side pass: an idle block may bump the
/// player's horizontal position.
pub open spec fn player_side_step(p: Player, b: Block, dt: int) -> Player {
    if b.state == BlockState::Idle {
        Player {
            position: Vec2 {
                x: side_bumped_x(player_rect(p), p.velocity.x as int, dt, block_rect(b)) as i32,
                y: p.position.y,
            },
            ..p
        }
    } else {
        p
    }
}

/// The player bumped sideways off every idle block, in order.
pub open spec fn player_side_pass(p: Player, blocks: Seq<Block>, dt: int) -> Player
    decreases blocks.len(),
{
    if blocks.len() == 0 {
        p
    } else {
        player_side_pass(player_side_step(p, blocks[0], dt), blocks.drop_first(), dt)
    }
}

/// Processing one more block at the end of the pass bumps the result of
/// the pass over the prefix.
proof fn lemma_player_side_pass_push(p: Player, blocks: Seq<Block>, b: Block, dt: int)
    ensures
        player_side_pass(p, blocks.push(b), dt) == player_side_step(
            player_side_pass(p, blocks, dt),
            b,
            dt,
        ),
    decreases blocks.len(),
{
    if blocks.len() == 0 {
        assert(blocks.push(b)[0] == b);
        assert(blocks.push(b).drop_first() =~= Seq::<Block>::empty());
        let q = player_side_step(p, b, dt);
        assert(player_side_pass(q, blocks.push(b).drop_first(), dt) == q);
        assert(player_side_pass(p, blocks, dt) == p);
    } else {
        assert(blocks.push(b)[0] == blocks[0]);
        assert(blocks.push(b).drop_first() =~= blocks.drop_first().push(b));
        lemma_player_side_pass_push(player_side_step(p, blocks[0], dt), blocks.drop_first(), b, dt);
    }
}

/// The whole player resolution: grounding reset, walls, ceiling,
/// landing on the surface set, then side bumps off idle blocks.
pub open spec fn spec_resolve_player(
    p: Player,
    platforms: Seq<Rect>,
    items: Seq<Item>,
    blocks: Seq<Block>,
    ground: Rect,
    lw: Rect,
    rw: Rect,
    c: Rect,
    dt: int,
) -> Player {
    let p0 = Player { on_ground: false, ..p };
    let hw = held_object_width(p.held_object, items, blocks);
    let p1 = player_after_walls(p0, hw, lw, rw);
    let p2 = player_after_ceiling(p1, c);
    let ss = surface_rects(platforms, ground, blocks);
    let p3 = player_after_landing(p2, ss, dt);
    player_side_pass(p3, blocks, dt)
}

/// Resolves the player against the level bounds, the surface set and
/// the idle blocks, for the frame time `dt` of its integration step.
pub fn resolve_player_collisions(
    player: &mut Player,
    platforms: &Vec<Rect>,
    items: &Vec<Item>,
    blocks: &Vec<Block>,
    ground: &Rect,
    left_wall: &Rect,
    right_wall: &Rect,
    ceiling: &Rect,
    dt: u32,
)
    requires
        player_wf(*old(player)),
        0 < dt <= MAX_DT,
        forall|i: int| 0 <= i < platforms@.len() ==> rect_within(#[trigger] platforms@[i], GEO_LIMIT as int),
        rect_within(*ground, GEO_LIMIT as int),
        rect_within(*left_wall, GEO_LIMIT as int),
        rect_within(*right_wall, GEO_LIMIT as int),
        rect_within(*ceiling, GEO_LIMIT as int),
        forall|i: int| 0 <= i < items@.len() ==> item_wf(#[trigger] items@[i]),
        forall|i: int| 0 <= i < blocks@.len() ==> block_wf(#[trigger] blocks@[i]),
    ensures
        *final(player) == spec_resolve_player(
            *old(player),
            platforms@,
            items@,
            blocks@,
            *ground,
            *left_wall,
            *right_wall,
            *ceiling,
            dt as int,
        ),
        player_wf(*final(player)),
{
    player.on_ground = false;

    let held_width: i32 = match player.held_object {
        Some(HeldObject::Item(idx)) => if idx < items.len() {
            items[idx].size.x
        } else {
            0
        },
        Some(HeldObject::Block(idx)) => if idx < blocks.len() {
            blocks[idx].size.x
        } else {
            0
        },
        None => 0,
    };

    if player.facing_right {
        let player_right_edge = player.position.x as i64 + player.size.x as i64
            + held_width as i64;
        if player_right_edge > right_wall.x as i64 {
            player.position.x = (right_wall.x as i64 - player.size.x as i64
                - held_width as i64) as i32;
        }
    } else {
        let player_left_edge = player.position.x as i64 - held_width as i64;
        if player_left_edge < left_wall.x as i64 + left_wall.w as i64 {
            player.position.x = (left_wall.x as i64 + left_wall.w as i64
                + held_width as i64) as i32;
        }
    }

    if player.rect().overlaps(ceiling) {
        player.position.y = (ceiling.y as i64 + ceiling.h as i64) as i32;
        player.velocity.y = 0;
    }

    let ss = collect_surfaces(platforms, ground, blocks);

    if player.velocity.y >= 0 {
        match find_landing(player.rect(), player.velocity.y, dt, &ss) {
            Some(i) => {
                player.position.y = clamp_i64(
                    ss[i].y as i64 - player.size.y as i64,
                    POS_LIMIT,
                );
                player.velocity.y = 0;
                player.on_ground = true;
            },
            None => {},
        }
    }

    let ghost p3 = *player;
    let mut k: usize = 0;
    while k < blocks.len()
        invariant
            k <= blocks@.len(),
            0 < dt <= MAX_DT,
            forall|j: int| 0 <= j < blocks@.len() ==> block_wf(#[trigger] blocks@[j]),
            player_wf(p3),
            player_wf(*player),
            *player == player_side_pass(p3, blocks@.subrange(0, k as int), dt as int),
        decreases blocks@.len() - k,
    {
        let b = blocks[k];
        if b.state == BlockState::Idle {
            let prect = player.rect();
            let brect = b.rect();
            if prect.overlaps(&brect) {
                let step = mul_frac(player.velocity.x, dt, TIME_SCALE);
                let previous_right = player.position.x as i64 + player.size.x as i64
                    - step as i64;
                let previous_left = player.position.x as i64 - step as i64;
                let hits_left_face = previous_right <= brect.x as i64 && (prect.x as i64
                    + prect.w as i64) > brect.x as i64;
                let hits_right_face = previous_left >= (brect.x as i64 + brect.w as i64) && (
                prect.x as i64) < brect.x as i64 + brect.w as i64;
                if hits_left_face {
                    player.position.x = clamp_i64(brect.x as i64 - player.size.x as i64, POS_LIMIT);
                } else if hits_right_face {
                    player.position.x = clamp_i64(brect.x as i64 + brect.w as i64, POS_LIMIT);
                }
            }
        }
        proof {
            assert(blocks@.subrange(0, k as int + 1) =~= blocks@.subrange(0, k as int).push(
                blocks@[k as int],
            ));
            lemma_player_side_pass_push(p3, blocks@.subrange(0, k as int), blocks@[k as int], dt as int);
        }
        k = k + 1;
    }
    proof {
        assert(blocks@.subrange(0, blocks@.len() as int) =~= blocks@);
    }
}

/// The damped reflection of a horizontal speed off a side face.
pub open spec fn reflected_vx(vx: int) -> int {
    -tdiv(vx * ITEM_BOUNCE_KEEP_NUM, ITEM_BOUNCE_DEN as int)
}

/// An item bounced off the left and right walls: the box it entered the
/// frame with decides, the horizontal speed reflects without loss.
pub open spec fn item_after_walls(it: Item, r0: Rect, lw: Rect, rw: Rect) -> Item {
    let it1 = if overlap(r0, lw) {
        Item {
            position: Vec2 { x: right(lw) as i32, y: it.position.y },
            velocity: Vec2 { x: (-it.velocity.x) as i32, y: it.velocity.y },
            ..it
        }
    } else {
        it
    };
    if overlap(r0, rw) {
        Item {
            position: Vec2 { x: (left(rw) - it1.size.x) as i32, y: it1.position.y },
            velocity: Vec2 { x: (-it1.velocity.x) as i32, y: it1.velocity.y },
            ..it1
        }
    } else {
        it1
    }
}

/// The landing outcome of an item on surface `s`: a thrown item above
/// the bounce threshold bounces, keeping the restitution fraction of
/// its vertical speed (reversed) and losing the complementary fraction
/// of its horizontal speed; otherwise it settles flat on the surface.
pub open spec fn item_landed(it: Item, s: Rect) -> Item {
    let snapped_y = clamped(top(s) - it.size.y, POS_LIMIT as int) as i32;
    if it.state == ItemState::Thrown && it.velocity.x * it.velocity.x + it.velocity.y
        * it.velocity.y > ITEM_MIN_BOUNCE_SPEED * ITEM_MIN_BOUNCE_SPEED {
        Item {
            position: Vec2 { x: it.position.x, y: snapped_y },
            velocity: Vec2 {
                x: tdiv(it.velocity.x * ITEM_BOUNCE_LOSE_NUM, ITEM_BOUNCE_DEN as int) as i32,
                y: (-tdiv(it.velocity.y * ITEM_BOUNCE_KEEP_NUM, ITEM_BOUNCE_DEN as int)) as i32,
            },
            ..it
        }
    } else {
        Item {
            position: Vec2 { x: it.position.x, y: snapped_y },
            velocity: Vec2 { x: 0, y: 0 },
            on_ground: true,
            state: if it.state == ItemState::Thrown {
                ItemState::Idle
            } else {
                it.state
            },
            ..it
        }
    }
}

/// The whole item resolution: grounding reset, wall reflection, then
/// the first overlapping surface either receives a landing (under the
/// falling gate and the tunneling guard) or reflects the item sideways
/// with damping.
pub open spec fn spec_resolve_item(
    it: Item,
    platforms: Seq<Rect>,
    blocks: Seq<Block>,
    ground: Rect,
    lw: Rect,
    rw: Rect,
    dt: int,
) -> Item {
    let it0 = Item { on_ground: false, ..it };
    let r0 = item_rect(it0);
    let it1 = item_after_walls(it0, r0, lw, rw);
    let ss = surface_rects(platforms, ground, blocks);
    match first_overlap_index(r0, ss) {
        None => it1,
        Some(i) => {
            let s = ss[i];
            if it1.velocity.y >= 0 && bottom(item_rect(it1)) - dt_scaled(
                it1.velocity.y as int,
                dt,
            ) <= top(s) {
                item_landed(it1, s)
            } else {
                Item {
                    velocity: Vec2 { x: reflected_vx(it1.velocity.x as int) as i32, y: it1.velocity.y },
                    ..it1
                }
            }
        },
    }
}

/// Resolves a non-hooked item against the level bounds and the surface
/// set, for the frame time `dt` of its integration step.
pub fn resolve_item_collisions(
    item: &mut Item,
    platforms: &Vec<Rect>,
    blocks: &Vec<Block>,
    ground: &Rect,
    left_wall: &Rect,
    right_wall: &Rect,
    dt: u32,
)
    requires
        item_wf(*old(item)),
        0 < dt <= MAX_DT,
        forall|i: int| 0 <= i < platforms@.len() ==> rect_within(#[trigger] platforms@[i], GEO_LIMIT as int),
        rect_within(*ground, GEO_LIMIT as int),
        rect_within(*left_wall, GEO_LIMIT as int),
        rect_within(*right_wall, GEO_LIMIT as int),
        forall|i: int| 0 <= i < blocks@.len() ==> block_wf(#[trigger] blocks@[i]),
    ensures
        *final(item) == spec_resolve_item(
            *old(item),
            platforms@,
            blocks@,
            *ground,
            *left_wall,
            *right_wall,
            dt as int,
        ),
        item_wf(*final(item)),
{
    item.on_ground = false;
    let r0 = item.rect();

    if r0.overlaps(left_wall) {
        item.position.x = (left_wall.x as i64 + left_wall.w as i64) as i32;
        item.velocity.x = -item.velocity.x;
    }
    if r0.overlaps(right_wall) {
        item.position.x = (right_wall.x as i64 - item.size.x as i64) as i32;
        item.velocity.x = -item.velocity.x;
    }

    let ss = collect_surfaces(platforms, ground, blocks);
    let ghost it0 = Item { on_ground: false, ..*old(item) };
    let ghost it1s = *item;

    let mut i: usize = 0;
    while i < ss.len()
        invariant
            i <= ss@.len(),
            0 < dt <= MAX_DT,
            r0 == item_rect(it0),
            it0 == (Item { on_ground: false, ..*old(item) }),
            it1s == item_after_walls(it0, r0, *left_wall, *right_wall),
            *item == it1s,
            item_wf(it1s),
            ss@ == surface_rects(platforms@, *ground, blocks@),
            forall|j: int| 0 <= j < ss@.len() ==> rect_ok(#[trigger] ss@[j]),
            forall|j: int| 0 <= j < i ==> !overlap(r0, #[trigger] ss@[j]),
        decreases ss@.len() - i,
    {
        let s = ss[i];
        if r0.overlaps(&s) {
            proof {
                lemma_first_rect_where(ss@, |s: Rect| overlap(r0, s));
                assert(first_overlap_index(r0, ss@) == Some(i as int));
            }
            if item.velocity.y >= 0 {
                let step = mul_frac(item.velocity.y, dt, TIME_SCALE);
                let prev_bottom = item.position.y as i64 + item.size.y as i64 - step as i64;
                if prev_bottom <= s.y as i64 {
                    if item.state == ItemState::Thrown {
                        if speed_exceeds(item.velocity.x, item.velocity.y, ITEM_MIN_BOUNCE_SPEED) {
                            item.position.y = clamp_i64(s.y as i64 - item.size.y as i64, POS_LIMIT);
                            item.velocity.y = -mul_frac(
                                item.velocity.y,
                                ITEM_BOUNCE_KEEP_NUM,
                                ITEM_BOUNCE_DEN,
                            );
                            item.velocity.x = mul_frac(
                                item.velocity.x,
                                ITEM_BOUNCE_LOSE_NUM,
                                ITEM_BOUNCE_DEN,
                            );
                        } else {
                            item.state = ItemState::Idle;
                            item.on_ground = true;
                            item.velocity = Vec2 { x: 0, y: 0 };
                            item.position.y = clamp_i64(s.y as i64 - item.size.y as i64, POS_LIMIT);
                        }
                    } else {
                        item.on_ground = true;
                        item.velocity = Vec2 { x: 0, y: 0 };
                        item.position.y = clamp_i64(s.y as i64 - item.size.y as i64, POS_LIMIT);
                    }
                    return ;
                }
            }
            item.velocity.x = -mul_frac(item.velocity.x, ITEM_BOUNCE_KEEP_NUM, ITEM_BOUNCE_DEN);
            return ;
        }
        i = i + 1;
    }
    proof {
        lemma_first_rect_where(ss@, |s: Rect| overlap(r0, s));
    }
}

/// A block stopped by the left and right walls: the box it entered the
/// frame with decides, the horizontal speed is cancelled outright.
pub open spec fn block_after_walls(b: Block, r0: Rect, lw: Rect, rw: Rect) -> Block {
    let b1 = if overlap(r0, lw) {
        Block {
            position: Vec2 { x: right(lw) as i32, y: b.position.y },
            velocity: Vec2 { x: 0, y: b.velocity.y },
            ..b
        }
    } else {
        b
    };
    if overlap(r0, rw) {
        Block {
            position: Vec2 { x: (left(rw) - b1.size.x) as i32, y: b1.position.y },
            velocity: Vec2 { x: 0, y: b1.velocity.y },
            ..b1
        }
    } else {
        b1
    }
}

/// A block after the landing rule: while falling or resting, the first
/// surface passing the tunneling guard receives the block's bottom edge
/// and stops it dead.
pub open spec fn block_after_landing(b: Block, ss: Seq<Rect>, dt: int) -> Block {
    if b.velocity.y >= 0 {
        match first_landing_index(block_rect(b), b.velocity.y as int, dt, ss) {
            Some(i) => Block {
                position: Vec2 {
                    x: b.position.x,
                    y: clamped(top(ss[i]) - b.size.y, POS_LIMIT as int) as i32,
                },
                velocity: Vec2 { x: 0, y: 0 },
                on_ground: true,
                ..b
            },
            None => b,
        }
    } else {
        b
    }
}

/// The whole block resolution: grounding reset, walls, then landing on
/// the surface set built from the platforms, the ground and the other
/// idle blocks.
pub open spec fn spec_resolve_block(
    b: Block,
    platforms: Seq<Rect>,
    others: Seq<Block>,
    ground: Rect,
    lw: Rect,
    rw: Rect,
    dt: int,
) -> Block {
    let b0 = Block { on_ground: false, ..b };
    let r0 = block_rect(b0);
    let b1 = block_after_walls(b0, r0, lw, rw);
    let ss = surface_rects(platforms, ground, others);
    block_after_landing(b1, ss, dt)
}

/// Resolves a falling block against the level bounds and every other
/// block's surface, for the frame time `dt` of its integration step.
/// `others` holds the rest of the block collection, the resolved block
/// itself excluded.
pub fn resolve_block_collisions(
    block: &mut Block,
    platforms: &Vec<Rect>,
    others: &Vec<Block>,
    ground: &Rect,
    left_wall: &Rect,
    right_wall: &Rect,
    dt: u32,
)
    requires
        block_wf(*old(block)),
        0 < dt <= MAX_DT,
        forall|i: int| 0 <= i < platforms@.len() ==> rect_within(#[trigger] platforms@[i], GEO_LIMIT as int),
        rect_within(*ground, GEO_LIMIT as int),
        rect_within(*left_wall, GEO_LIMIT as int),
        rect_within(*right_wall, GEO_LIMIT as int),
        forall|i: int| 0 <= i < others@.len() ==> block_wf(#[trigger] others@[i]),
    ensures
        *final(block) == spec_resolve_block(
            *old(block),
            platforms@,
            others@,
            *ground,
            *left_wall,
            *right_wall,
            dt as int,
        ),
        block_wf(*final(block)),
{
    block.on_ground = false;
    let r0 = block.rect();

    if r0.overlaps(left_wall) {
        block.position.x = (left_wall.x as i64 + left_wall.w as i64) as i32;
        block.velocity.x = 0;
    }
    if r0.overlaps(right_wall) {
        block.position.x = (right_wall.x as i64 - block.size.x as i64) as i32;
        block.velocity.x = 0;
    }

    let ss = collect_surfaces(platforms, ground, others);

    if block.velocity.y >= 0 {
        match find_landing(block.rect(), block.velocity.y, dt, &ss) {
            Some(i) => {
                block.position.y = clamp_i64(ss[i].y as i64 - block.size.y as i64, POS_LIMIT);
                block.velocity = Vec2 { x: 0, y: 0 };
                block.on_ground = true;
            },
            None => {},
        }
    }
}

/// The width of the block a baddie carries, for the widened wall test;
/// a stale reference counts nothing.
pub open spec fn baddie_held_width(b: Baddie, blocks: Seq<Block>) -> int {
    match b.grabbed_block_id {
        Some(id) => if id < blocks.len() {
            blocks[id as int].size.x as int
        } else {
            0
        },
        None => 0,
    }
}

/// A baddie pushed back inside the walls, its box widened by the width
/// of a carried block; hitting a wall reverses its direction.
pub open spec fn baddie_after_walls(b: Baddie, hw: int, lw: Rect, rw: Rect) -> Baddie {
    if b.facing_right {
        if right(baddie_rect(b)) + hw > left(rw) {
            Baddie {
                position: Vec2 { x: (left(rw) - b.size.x - hw) as i32, y: b.position.y },
                facing_right: false,
                ..b
            }
        } else {
            b
        }
    } else {
        if left(baddie_rect(b)) - hw < right(lw) {
            Baddie {
                position: Vec2 { x: (right(lw) + hw) as i32, y: b.position.y },
                facing_right: true,
                ..b
            }
        } else {
            b
        }
    }
}

/// A baddie after the landing rule: while falling or resting, the first
/// surface passing the tunneling guard receives its bottom edge,
/// cancels its fall and grounds it.
pub open spec fn baddie_after_landing(b: Baddie, ss: Seq<Rect>, dt: int) -> Baddie {
    if b.velocity.y >= 0 {
        match first_landing_index(baddie_rect(b), b.velocity.y as int, dt, ss) {
            Some(i) => Baddie {
                position: Vec2 {
                    x: b.position.x,
                    y: clamped(top(ss[i]) - b.size.y, POS_LIMIT as int) as i32,
                },
                velocity: Vec2 { x: b.velocity.x, y: 0 },
                on_ground: true,
                ..b
            },
            None => b,
        }
    } else {
        b
    }
}

/// A side hit of a moving box against `b`: an overlap whose leading or
/// trailing edge one frame ago cleared the matching face.
pub open spec fn side_hit_on(r: Rect, vx: int, dt: int, b: Rect) -> bool {
    overlap(r, b) && ((right(r) - dt_scaled(vx, dt) <= left(b) && right(r) > left(b)) || (left(r)
        - dt_scaled(vx, dt) >= right(b) && left(r) < right(b)))
}

/// The horizontal position after bumping off every idle block of
/// `blocks` in order, paired with whether any side hit occurred on the
/// way.  The vertical extent of the moving box never changes during the
/// pass, so only the x coordinate evolves.
pub open spec fn side_pass_results(r: Rect, vx: int, dt: int, blocks: Seq<Block>) -> (int, bool)
    decreases blocks.len(),
{
    if blocks.len() == 0 {
        (r.x as int, false)
    } else {
        let hit0 = blocks[0].state == BlockState::Idle && side_hit_on(
            r,
            vx,
            dt,
            block_rect(blocks[0]),
        );
        let x1 = if blocks[0].state == BlockState::Idle {
            side_bumped_x(r, vx, dt, block_rect(blocks[0]))
        } else {
            r.x as int
        };
        let rest = side_pass_results(Rect { x: x1 as i32, ..r }, vx, dt, blocks.drop_first());
        (rest.0, hit0 || rest.1)
    }
}

/// Processing one more block at the end of the pass bumps the result of
/// the pass over the prefix.
proof fn lemma_side_pass_results_push(r: Rect, vx: int, dt: int, blocks: Seq<Block>, b: Block)
    ensures
        side_pass_results(r, vx, dt, blocks.push(b)) == ({
            let prev = side_pass_results(r, vx, dt, blocks);
            let rr = Rect { x: prev.0 as i32, ..r };
            let hit = b.state == BlockState::Idle && side_hit_on(rr, vx, dt, block_rect(b));
            let x1 = if b.state == BlockState::Idle {
                side_bumped_x(rr, vx, dt, block_rect(b))
            } else {
                prev.0
            };
            (x1, prev.1 || hit)
        }),
    decreases blocks.len(),
{
    if blocks.len() == 0 {
        assert(blocks.push(b)[0] == b);
        assert(blocks.push(b).drop_first() =~= Seq::<Block>::empty());
        let hit0 = b.state == BlockState::Idle && side_hit_on(r, vx, dt, block_rect(b));
        let x1 = if b.state == BlockState::Idle {
            side_bumped_x(r, vx, dt, block_rect(b))
        } else {
            r.x as int
        };
        assert(side_pass_results(Rect { x: x1 as i32, ..r }, vx, dt, Seq::<Block>::empty()) == (
            x1,
            false,
        ));
        assert(side_pass_results(r, vx, dt, blocks) == (r.x as int, false));
        assert((Rect { x: r.x, ..r }) == r);
    } else {
        assert(blocks.push(b)[0] == blocks[0]);
        assert(blocks.push(b).drop_first() =~= blocks.drop_first().push(b));
        let x0 = if blocks[0].state == BlockState::Idle {
            side_bumped_x(r, vx, dt, block_rect(blocks[0]))
        } else {
            r.x as int
        };
        let r1 = Rect { x: x0 as i32, ..r };
        lemma_side_pass_results_push(r1, vx, dt, blocks.drop_first(), b);
        let prev = side_pass_results(r1, vx, dt, blocks.drop_first());
        assert((Rect { x: prev.0 as i32, ..r1 }) == (Rect { x: prev.0 as i32, ..r }));
    }
}

/// A pass in which no side hit occurred leaves the horizontal position
/// where it was.
proof fn lemma_side_pass_no_hit(r: Rect, vx: int, dt: int, blocks: Seq<Block>)
    ensures
        !side_pass_results(r, vx, dt, blocks).1 ==> side_pass_results(r, vx, dt, blocks).0
            == r.x as int,
    decreases blocks.len(),
{
    if blocks.len() > 0 {
        let hit0 = blocks[0].state == BlockState::Idle && side_hit_on(
            r,
            vx,
            dt,
            block_rect(blocks[0]),
        );
        if !hit0 {
            let x1 = if blocks[0].state == BlockState::Idle {
                side_bumped_x(r, vx, dt, block_rect(blocks[0]))
            } else {
                r.x as int
            };
            assert(x1 == r.x as int);
            assert((Rect { x: x1 as i32, ..r }) == r);
            lemma_side_pass_no_hit(r, vx, dt, blocks.drop_first());
        }
    }
}

/// The point probed one unit below and just past a baddie's leading
/// edge, to detect the edge of a platform.
pub open spec fn probe_point(b: Baddie) -> Vec2 {
    Vec2 {
        x: (if b.facing_right {
            right(baddie_rect(b))
        } else {
            left(baddie_rect(b))
        }) as i32,
        y: (bottom(baddie_rect(b)) + 1) as i32,
    }
}

/// Whether some surface lies under the probe point.
pub open spec fn ground_ahead(b: Baddie, ss: Seq<Rect>) -> bool {
    exists|j: int| 0 <= j < ss.len() && rect_contains(#[trigger] ss[j], probe_point(b))
}

/// Decides a side hit of a baddie against idle block `i` for the two
/// draws: below the grab chance the baddie grabs the block, hooking it
/// and starting the carry countdown; otherwise it turns around.
pub fn decide_block_grab(
    baddie: &mut Baddie,
    block: &mut Block,
    i: usize,
    grab_roll: u32,
    duration_roll: u32,
)
    requires
        duration_roll < BADDIE_MAX_GRAB_DURATION - BADDIE_MIN_GRAB_DURATION,
    ensures
        grab_roll < BADDIE_GRAB_CHANCE ==> *final(baddie) == (Baddie {
            state: BaddieState::Grab,
            grabbed_block_id: Some(i),
            block_grab_timer: (BADDIE_MIN_GRAB_DURATION + duration_roll) as u32,
            ..*old(baddie)
        }) && *final(block) == (Block { state: BlockState::Hooked, ..*old(block) }),
        grab_roll >= BADDIE_GRAB_CHANCE ==> *final(baddie) == (Baddie {
            facing_right: !old(baddie).facing_right,
            ..*old(baddie)
        }) && *final(block) == *old(block),
{
    if grab_roll < BADDIE_GRAB_CHANCE {
        baddie.state = BaddieState::Grab;
        baddie.grabbed_block_id = Some(i);
        baddie.block_grab_timer = BADDIE_MIN_GRAB_DURATION + duration_roll;
        block.state = BlockState::Hooked;
    } else {
        baddie.facing_right = !baddie.facing_right;
    }
}

/// Decides a contact of a baddie with idle item `i` for the two draws:
/// below the capture chance the baddie hooks the item and starts the
/// hold countdown; otherwise nothing happens.
pub fn decide_item_capture(
    baddie: &mut Baddie,
    item: &mut Item,
    i: usize,
    roll: u32,
    duration_roll: u32,
)
    requires
        duration_roll < BADDIE_MAX_ITEM_HOLD_DURATION - BADDIE_MIN_ITEM_HOLD_DURATION,
    ensures
        roll < BADDIE_GRAB_ITEM_CHANCE ==> *final(baddie) == (Baddie {
            held_item_id: Some(i),
            item_hold_timer: (BADDIE_MIN_ITEM_HOLD_DURATION + duration_roll) as u32,
            ..*old(baddie)
        }) && *final(item) == hooked_item(*old(item)),
        roll >= BADDIE_GRAB_ITEM_CHANCE ==> *final(baddie) == *old(baddie) && *final(item) == *old(
            item,
        ),
{
    if roll < BADDIE_GRAB_ITEM_CHANCE {
        baddie.held_item_id = Some(i);
        baddie.item_hold_timer = BADDIE_MIN_ITEM_HOLD_DURATION + duration_roll;
        item.state = ItemState::Hooked;
        item.velocity = Vec2 { x: 0, y: 0 };
    }
}

/// Whether some surface of `ss` lies under the baddie's probe point.
fn probe_ground(baddie: &Baddie, ss: &Vec<Rect>) -> (found: bool)
    requires
        baddie_wf(*baddie),
    ensures
        found == ground_ahead(*baddie, ss@),
{
    let px = if baddie.facing_right {
        (baddie.position.x as i64 + baddie.size.x as i64) as i32
    } else {
        baddie.position.x
    };
    let py = (baddie.position.y as i64 + baddie.size.y as i64 + 1) as i32;
    let p = Vec2 { x: px, y: py };
    proof {
        assert(p == probe_point(*baddie));
    }
    let mut j: usize = 0;
    while j < ss.len()
        invariant
            j <= ss@.len(),
            p == probe_point(*baddie),
            forall|m: int| 0 <= m < j ==> !rect_contains(#[trigger] ss@[m], p),
        decreases ss@.len() - j,
    {
        if ss[j].contains(p) {
            return true;
        }
        j = j + 1;
    }
    false
}

/// Resolves a baddie against the level bounds, the surface set and the
/// idle blocks and items, for the frame time `dt` of its integration
/// step.  Walls turn the baddie around; the ceiling ends an elevation
/// flight; a side hit against an idle block may become a grab; contact
/// with an idle item may become a capture; and a grounded baddie at a
/// platform edge may turn around.
///
/// The grounding, landing and wall outcomes are deterministic and stated
/// exactly; the grab, capture and edge decisions depend on fresh random
/// draws, so the contract states every outcome they can have: blocks
/// change at most from idle to hooked, items at most to hooked and
/// stopped, and a new reference always points at a block or item hooked
/// this frame.
pub fn resolve_baddie_collisions(
    baddie: &mut Baddie,
    platforms: &Vec<Rect>,
    blocks: &mut Vec<Block>,
    items: &mut Vec<Item>,
    ground: &Rect,
    left_wall: &Rect,
    right_wall: &Rect,
    ceiling: &Rect,
    dt: u32,
)
    requires
        baddie_wf(*old(baddie)),
        0 < dt <= MAX_DT,
        forall|i: int| 0 <= i < platforms@.len() ==> rect_within(#[trigger] platforms@[i], GEO_LIMIT as int),
        rect_within(*ground, GEO_LIMIT as int),
        rect_within(*left_wall, GEO_LIMIT as int),
        rect_within(*right_wall, GEO_LIMIT as int),
        rect_within(*ceiling, GEO_LIMIT as int),
        forall|i: int| 0 <= i < old(items)@.len() ==> item_wf(#[trigger] old(items)@[i]),
        forall|i: int| 0 <= i < old(blocks)@.len() ==> block_wf(#[trigger] old(blocks)@[i]),
    ensures
        baddie_wf(*final(baddie)),
        final(items)@.len() == old(items)@.len(),
        final(blocks)@.len() == old(blocks)@.len(),
        forall|i: int| 0 <= i < final(items)@.len() ==> item_wf(#[trigger] final(items)@[i]),
        forall|i: int| 0 <= i < final(blocks)@.len() ==> block_wf(#[trigger] final(blocks)@[i]),
        ({
            let hw = baddie_held_width(*old(baddie), old(blocks)@);
            let b0 = Baddie { on_ground: false, ..*old(baddie) };
            let b1 = baddie_after_walls(b0, hw, *left_wall, *right_wall);
            if b1.state == BaddieState::Elevation {
                &&& final(blocks)@ == old(blocks)@
                &&& final(items)@ == old(items)@
                &&& *final(baddie) == if overlap(baddie_rect(b1), *ceiling) {
                    Baddie {
                        state: BaddieState::Idle,
                        velocity: Vec2 { x: b1.velocity.x, y: 0 },
                        position: Vec2 { x: b1.position.x, y: bottom(*ceiling) as i32 },
                        ..b1
                    }
                } else {
                    b1
                }
            } else {
                let ss = surface_rects(platforms@, *ground, old(blocks)@);
                let b2 = baddie_after_landing(b1, ss, dt as int);
                &&& final(baddie).position.y == b2.position.y
                &&& final(baddie).velocity == b2.velocity
                &&& final(baddie).on_ground == b2.on_ground
                &&& final(baddie).size == b2.size
                &&& final(baddie).on_ground_frames == b2.on_ground_frames
                &&& final(baddie).elevation_x_axis == b2.elevation_x_axis
                &&& final(baddie).elevation_time == b2.elevation_time
                &&& (final(baddie).state == b2.state || final(baddie).state == BaddieState::Grab)
                &&& final(baddie).position.x == side_pass_results(
                    baddie_rect(b2),
                    b2.velocity.x as int,
                    dt as int,
                    old(blocks)@,
                ).0
                &&& (final(baddie).block_grab_timer == b2.block_grab_timer
                    || BADDIE_MIN_GRAB_DURATION <= final(baddie).block_grab_timer
                    < BADDIE_MAX_GRAB_DURATION)
                &&& (final(baddie).item_hold_timer == b2.item_hold_timer
                    || BADDIE_MIN_ITEM_HOLD_DURATION <= final(baddie).item_hold_timer
                    < BADDIE_MAX_ITEM_HOLD_DURATION)
                &&& !side_pass_results(
                    baddie_rect(b2),
                    b2.velocity.x as int,
                    dt as int,
                    old(blocks)@,
                ).1 ==> {
                    &&& final(baddie).state == b2.state
                    &&& final(baddie).grabbed_block_id == b2.grabbed_block_id
                    &&& final(baddie).block_grab_timer == b2.block_grab_timer
                    &&& final(blocks)@ == old(blocks)@
                    &&& (b2.on_ground && ground_ahead(b2, ss) ==> final(baddie).facing_right
                        == b2.facing_right)
                    &&& (!b2.on_ground ==> final(baddie).facing_right == b2.facing_right)
                }
                &&& (final(baddie).grabbed_block_id == b2.grabbed_block_id || exists|i: int|
                    0 <= i < final(blocks)@.len() && final(baddie).grabbed_block_id == Some(
                        i as usize,
                    ) && final(blocks)@[i].state == BlockState::Hooked)
                &&& (final(baddie).held_item_id == b2.held_item_id || exists|i: int|
                    0 <= i < final(items)@.len() && final(baddie).held_item_id == Some(i as usize)
                        && final(items)@[i] == hooked_item(old(items)@[i]))
                &&& forall|i: int|
                    0 <= i < old(blocks)@.len() ==> final(blocks)@[i] == old(blocks)@[i] || (
                    old(blocks)@[i].state == BlockState::Idle && final(blocks)@[i] == (Block {
                        state: BlockState::Hooked,
                        ..old(blocks)@[i]
                    }))
                &&& forall|i: int|
                    0 <= i < old(items)@.len() ==> final(items)@[i] == old(items)@[i] || (
                    old(items)@[i].state == ItemState::Idle && final(items)@[i] == hooked_item(
                        old(items)@[i],
                    ))
            }
        }),
{
    baddie.on_ground = false;

    let held_width: i32 = match baddie.grabbed_block_id {
        Some(id) => if id < blocks.len() {
            blocks[id].size.x
        } else {
            0
        },
        None => 0,
    };

    if baddie.facing_right {
        if baddie.position.x as i64 + baddie.size.x as i64 + held_width as i64
            > right_wall.x as i64 {
            baddie.position.x = (right_wall.x as i64 - baddie.size.x as i64
                - held_width as i64) as i32;
            baddie.change_direction();
        }
    } else {
        if (baddie.position.x as i64 - held_width as i64) < left_wall.x as i64
            + left_wall.w as i64 {
            baddie.position.x = (left_wall.x as i64 + left_wall.w as i64
                + held_width as i64) as i32;
            baddie.change_direction();
        }
    }

    if baddie.state == BaddieState::Elevation {
        if baddie.rect().overlaps(ceiling) {
            baddie.state = BaddieState::Idle;
            baddie.velocity.y = 0;
            baddie.position.y = (ceiling.y as i64 + ceiling.h as i64) as i32;
        }
        return ;
    }

    let ss = collect_surfaces(platforms, ground, blocks);

    if baddie.velocity.y >= 0 {
        match find_landing(baddie.rect(), baddie.velocity.y, dt, &ss) {
            Some(i) => {
                baddie.position.y = clamp_i64(ss[i].y as i64 - baddie.size.y as i64, POS_LIMIT);
                baddie.velocity.y = 0;
                baddie.on_ground = true;
            },
            None => {},
        }
    }

    let ghost b2 = *baddie;

    let mut k: usize = 0;
    while k < blocks.len()
        invariant
            k <= blocks@.len(),
            0 < dt <= MAX_DT,
            blocks@.len() == old(blocks)@.len(),
            items@ == old(items)@,
            baddie_wf(*baddie),
            baddie_wf(b2),
            forall|j: int| 0 <= j < old(blocks)@.len() ==> block_wf(#[trigger] old(blocks)@[j]),
            forall|j: int| 0 <= j < blocks@.len() ==> block_wf(#[trigger] blocks@[j]),
            baddie.position.y == b2.position.y,
            baddie.velocity == b2.velocity,
            baddie.on_ground == b2.on_ground,
            baddie.size == b2.size,
            baddie.on_ground_frames == b2.on_ground_frames,
            baddie.elevation_x_axis == b2.elevation_x_axis,
            baddie.elevation_time == b2.elevation_time,
            baddie.held_item_id == b2.held_item_id,
            baddie.item_hold_timer == b2.item_hold_timer,
            baddie.state == b2.state || baddie.state == BaddieState::Grab,
            baddie.grabbed_block_id == b2.grabbed_block_id || exists|i: int|
                0 <= i < blocks@.len() && baddie.grabbed_block_id == Some(i as usize)
                    && blocks@[i].state == BlockState::Hooked,
            forall|i: int|
                0 <= i < old(blocks)@.len() ==> blocks@[i] == old(blocks)@[i] || (
                old(blocks)@[i].state == BlockState::Idle && blocks@[i] == (Block {
                    state: BlockState::Hooked,
                    ..old(blocks)@[i]
                })),
            forall|i: int| k <= i < old(blocks)@.len() ==> #[trigger] blocks@[i] == old(blocks)@[i],
            baddie.position.x as int == side_pass_results(
                baddie_rect(b2),
                b2.velocity.x as int,
                dt as int,
                old(blocks)@.subrange(0, k as int),
            ).0,
            baddie.block_grab_timer == b2.block_grab_timer || BADDIE_MIN_GRAB_DURATION
                <= baddie.block_grab_timer < BADDIE_MAX_GRAB_DURATION,
            !side_pass_results(
                baddie_rect(b2),
                b2.velocity.x as int,
                dt as int,
                old(blocks)@.subrange(0, k as int),
            ).1 ==> baddie.state == b2.state && baddie.grabbed_block_id == b2.grabbed_block_id
                && baddie.block_grab_timer == b2.block_grab_timer && blocks@ == old(blocks)@
                && baddie.facing_right == b2.facing_right,
        decreases blocks@.len() - k,
    {
        let ghost blocks_pre = blocks@;
        let ghost prefix = old(blocks)@.subrange(0, k as int);
        proof {
            assert(old(blocks)@.subrange(0, k as int + 1) =~= prefix.push(old(blocks)@[k as int]));
            lemma_side_pass_results_push(
                baddie_rect(b2),
                b2.velocity.x as int,
                dt as int,
                prefix,
                old(blocks)@[k as int],
            );
            assert((Rect {
                x: side_pass_results(baddie_rect(b2), b2.velocity.x as int, dt as int, prefix).0 as i32,
                ..baddie_rect(b2)
            }) == baddie_rect(*baddie));
        }
        let b = blocks[k];
        if b.state == BlockState::Idle {
            let brect = b.rect();
            if baddie.rect().overlaps(&brect) {
                let step = mul_frac(baddie.velocity.x, dt, TIME_SCALE);
                let previous_right = baddie.position.x as i64 + baddie.size.x as i64
                    - step as i64;
                let previous_left = baddie.position.x as i64 - step as i64;
                let hits_left_face = previous_right <= brect.x as i64 && (baddie.position.x as i64
                    + baddie.size.x as i64) > brect.x as i64;
                let hits_right_face = previous_left >= (brect.x as i64 + brect.w as i64) && (
                baddie.position.x as i64) < brect.x as i64 + brect.w as i64;
                if hits_left_face || hits_right_face {
                    if hits_left_face {
                        baddie.position.x = clamp_i64(
                            brect.x as i64 - baddie.size.x as i64,
                            POS_LIMIT,
                        );
                    } else {
                        baddie.position.x = clamp_i64(brect.x as i64 + brect.w as i64, POS_LIMIT);
                    }
                    let grab_roll = random_below(CHANCE_SCALE);
                    let duration_roll = random_below(
                        BADDIE_MAX_GRAB_DURATION - BADDIE_MIN_GRAB_DURATION,
                    );
                    let mut bb = b;
                    decide_block_grab(baddie, &mut bb, k, grab_roll, duration_roll);
                    blocks[k] = bb;
                    proof {
                        let kw = k as int;
                        if grab_roll < BADDIE_GRAB_CHANCE {
                            assert(0 <= kw < blocks@.len() && baddie.grabbed_block_id == Some(
                                kw as usize,
                            ) && blocks@[kw].state == BlockState::Hooked);
                        } else {
                            assert(blocks@ =~= blocks_pre);
                        }
                    }
                }
            }
        }
        k = k + 1;
    }

    let ghost b3 = *baddie;
    let ghost blocks3 = blocks@;
    let mut m: usize = 0;
    while m < items.len()
        invariant
            m <= items@.len(),
            0 < dt <= MAX_DT,
            items@.len() == old(items)@.len(),
            blocks@.len() == old(blocks)@.len(),
            blocks@ == blocks3,
            baddie.position.x == b3.position.x,
            baddie.facing_right == b3.facing_right,
            baddie.state == b3.state,
            baddie.grabbed_block_id == b3.grabbed_block_id,
            baddie.block_grab_timer == b3.block_grab_timer,
            baddie.item_hold_timer == b2.item_hold_timer || BADDIE_MIN_ITEM_HOLD_DURATION
                <= baddie.item_hold_timer < BADDIE_MAX_ITEM_HOLD_DURATION,
            baddie_wf(*baddie),
            baddie_wf(b2),
            forall|j: int| 0 <= j < old(items)@.len() ==> item_wf(#[trigger] old(items)@[j]),
            forall|j: int| 0 <= j < items@.len() ==> item_wf(#[trigger] items@[j]),
            baddie.position.y == b2.position.y,
            baddie.velocity == b2.velocity,
            baddie.on_ground == b2.on_ground,
            baddie.size == b2.size,
            baddie.on_ground_frames == b2.on_ground_frames,
            baddie.elevation_x_axis == b2.elevation_x_axis,
            baddie.elevation_time == b2.elevation_time,
            baddie.state == b2.state || baddie.state == BaddieState::Grab,
            baddie.grabbed_block_id == b2.grabbed_block_id || exists|i: int|
                0 <= i < blocks@.len() && baddie.grabbed_block_id == Some(i as usize)
                    && blocks@[i].state == BlockState::Hooked,
            baddie.held_item_id == b2.held_item_id || exists|i: int|
                0 <= i < items@.len() && baddie.held_item_id == Some(i as usize) && items@[i]
                    == hooked_item(old(items)@[i]),
            forall|i: int|
                0 <= i < old(items)@.len() ==> items@[i] == old(items)@[i] || (old(items)@[i].state
                    == ItemState::Idle && items@[i] == hooked_item(old(items)@[i])),
        decreases items@.len() - m,
    {
        let it = items[m];
        if it.state == ItemState::Idle && baddie.held_item_id.is_none() {
            if baddie.rect().overlaps(&it.rect()) {
                let roll = random_below(CHANCE_SCALE);
                let duration_roll = random_below(
                    BADDIE_MAX_ITEM_HOLD_DURATION - BADDIE_MIN_ITEM_HOLD_DURATION,
                );
                let mut itm = it;
                decide_item_capture(baddie, &mut itm, m, roll, duration_roll);
                items[m] = itm;
            }
        }
        m = m + 1;
    }

    let ghost b4 = *baddie;
    if baddie.on_ground {
        let found = probe_ground(baddie, &ss);
        if !found {
            let roll = random_below(CHANCE_SCALE);
            if roll < BADDIE_EDGE_TURN_CHANCE {
                baddie.change_direction();
            }
        }
    }
    proof {
        assert(old(blocks)@.subrange(0, old(blocks)@.len() as int) =~= old(blocks)@);
        let res = side_pass_results(
            baddie_rect(b2),
            b2.velocity.x as int,
            dt as int,
            old(blocks)@,
        );
        if !res.1 {
            lemma_side_pass_no_hit(baddie_rect(b2), b2.velocity.x as int, dt as int, old(blocks)@);
            assert(b4.position.x == b2.position.x);
            assert(b4.facing_right == b2.facing_right);
            if b2.on_ground && ground_ahead(b2, ss@) {
                assert(probe_point(b4) == probe_point(b2));
                assert(ground_ahead(b4, ss@));
                assert(final(baddie).facing_right == b2.facing_right);
            }
        }
    }
}

} // verus!
