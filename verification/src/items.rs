//! Items: small pickable, throwable bodies.
//!
//! An idle or thrown item is subject to gravity while airborne; a hooked
//! item is carried, its position slaved to the carrier, and runs no
//! physics of its own.

use vstd::prelude::*;

use crate::constants::{
    GEO_LIMIT, GRAVITY, ITEM_SIZE, ITEM_THROW_DIAGONAL, MAX_DT, POS_LIMIT, TIME_SCALE, VEL_LIMIT,
};
use crate::geom::{size_ok, vec_within, Rect, Vec2};
use crate::num::{
    advanced, clamp_i64, clamped, dt_scaled, mul_frac, vel_plus, add_vel, advance_pos,
};

verus! {

/// The lifecycle state of an item.
#[derive(Clone, Copy, PartialEq, Eq, Structural, Debug)]
pub enum ItemState {
    Idle,
    Hooked,
    Thrown,
}

/// A pickable, throwable body.
#[derive(Clone, Copy, PartialEq, Eq, Structural, Debug)]
pub struct Item {
    pub position: Vec2,
    pub size: Vec2,
    pub velocity: Vec2,
    pub on_ground: bool,
    pub state: ItemState,
}

/// Bounds kept on every item: position, velocity and extent in range.
pub open spec fn item_wf(it: Item) -> bool {
    vec_within(it.position, POS_LIMIT as int) && vec_within(it.velocity, VEL_LIMIT as int)
        && size_ok(it.size, GEO_LIMIT as int)
}

/// The bounding rectangle of an item.
pub open spec fn item_rect(it: Item) -> Rect {
    Rect { x: it.position.x, y: it.position.y, w: it.size.x, h: it.size.y }
}

/// A fresh idle item at `pos`.
pub open spec fn fresh_item(pos: Vec2) -> Item {
    Item {
        position: pos,
        size: Vec2 { x: ITEM_SIZE, y: ITEM_SIZE },
        velocity: Vec2 { x: 0, y: 0 },
        on_ground: false,
        state: ItemState::Idle,
    }
}

/// `it` hooked by a carrier: velocity suppressed, state `Hooked`.
pub open spec fn hooked_item(it: Item) -> Item {
    Item { velocity: Vec2 { x: 0, y: 0 }, state: ItemState::Hooked, ..it }
}

/// `it` slaved to a carrier of the given box: same top edge, flush
/// against the carrier's leading edge in its facing direction.
pub open spec fn carried_item_by(it: Item, pos: Vec2, size: Vec2, facing_right: bool) -> Item {
    Item {
        position: Vec2 {
            x: clamped(
                if facing_right {
                    pos.x + size.x
                } else {
                    pos.x - it.size.x
                },
                POS_LIMIT as int,
            ) as i32,
            y: pos.y,
        },
        ..it
    }
}

/// `it` released with a throw: state `Thrown`, airborne, the carrier's
/// velocity plus the fixed throw diagonal toward the facing side.
pub open spec fn thrown_item_by(it: Item, vel: Vec2, facing_right: bool) -> Item {
    Item {
        velocity: Vec2 {
            x: vel_plus(
                vel.x as int,
                if facing_right {
                    ITEM_THROW_DIAGONAL as int
                } else {
                    -ITEM_THROW_DIAGONAL as int
                },
            ) as i32,
            y: vel_plus(vel.y as int, -ITEM_THROW_DIAGONAL as int) as i32,
        },
        on_ground: false,
        state: ItemState::Thrown,
        ..it
    }
}

/// Slaves a carried item's position to its carrier's box.
pub fn carry_item(it: &mut Item, pos: Vec2, size: Vec2, facing_right: bool)
    requires
        item_wf(*old(it)),
        vec_within(pos, POS_LIMIT as int),
        size_ok(size, GEO_LIMIT as int),
    ensures
        *final(it) == carried_item_by(*old(it), pos, size, facing_right),
        item_wf(*final(it)),
{
    it.position.y = pos.y;
    it.position.x = if facing_right {
        clamp_i64(pos.x as i64 + size.x as i64, POS_LIMIT)
    } else {
        clamp_i64(pos.x as i64 - it.size.x as i64, POS_LIMIT)
    };
}

/// Throws an item: the carrier's velocity plus the fixed diagonal.
pub fn throw_item(it: &mut Item, vel: Vec2, facing_right: bool)
    requires
        item_wf(*old(it)),
        vec_within(vel, VEL_LIMIT as int),
    ensures
        *final(it) == thrown_item_by(*old(it), vel, facing_right),
        item_wf(*final(it)),
{
    it.state = ItemState::Thrown;
    it.on_ground = false;
    let dx = if facing_right {
        ITEM_THROW_DIAGONAL
    } else {
        -ITEM_THROW_DIAGONAL
    };
    it.velocity.x = add_vel(vel.x, dx);
    it.velocity.y = add_vel(vel.y, -ITEM_THROW_DIAGONAL);
}

/// One physics step: while airborne, gravity accumulates on the
/// vertical speed and the position integrates with the new speed; a
/// grounded body does not move.
pub open spec fn item_updated(b: Item, dt: int) -> Item {
    if b.on_ground {
        b
    } else {
        let vy = vel_plus(b.velocity.y as int, dt_scaled(GRAVITY as int, dt));
        Item {
            velocity: Vec2 { x: b.velocity.x, y: vy as i32 },
            position: Vec2 {
                x: advanced(b.position.x as int, b.velocity.x as int, dt) as i32,
                y: advanced(b.position.y as int, vy, dt) as i32,
            },
            ..b
        }
    }
}

impl Item {
    /// A fresh idle item at `pos`.
    pub fn new(pos: Vec2) -> (it: Item)
        requires
            vec_within(pos, POS_LIMIT as int),
        ensures
            it.position == pos,
            it.size == (Vec2 { x: ITEM_SIZE, y: ITEM_SIZE }),
            it.velocity == (Vec2 { x: 0, y: 0 }),
            it.on_ground == false,
            it.state == ItemState::Idle,
            it == fresh_item(pos),
            item_wf(it),
    {
        Item {
            position: pos,
            size: Vec2 { x: ITEM_SIZE, y: ITEM_SIZE },
            velocity: Vec2 { x: 0, y: 0 },
            on_ground: false,
            state: ItemState::Idle,
        }
    }

    /// The bounding rectangle.
    pub fn rect(&self) -> (r: Rect)
        ensures
            r == item_rect(*self),
    {
        Rect { x: self.position.x, y: self.position.y, w: self.size.x, h: self.size.y }
    }

    /// One physics step: while airborne, gravity accumulates and the
    /// position integrates; a grounded item does not move.
    pub fn update(&mut self, dt: u32)
        requires
            item_wf(*old(self)),
            0 < dt <= MAX_DT,
        ensures
            *final(self) == item_updated(*old(self), dt as int),
            item_wf(*final(self)),
            old(self).on_ground ==> *final(self) == *old(self),
            !old(self).on_ground ==> {
                &&& final(self).velocity.y == vel_plus(
                    old(self).velocity.y as int,
                    dt_scaled(GRAVITY as int, dt as int),
                )
                &&& final(self).velocity.x == old(self).velocity.x
                &&& final(self).position.x == advanced(
                    old(self).position.x as int,
                    old(self).velocity.x as int,
                    dt as int,
                )
                &&& final(self).position.y == advanced(
                    old(self).position.y as int,
                    final(self).velocity.y as int,
                    dt as int,
                )
                &&& final(self).size == old(self).size
                &&& final(self).on_ground == old(self).on_ground
                &&& final(self).state == old(self).state
            },
    {
        if !self.on_ground {
            let g = mul_frac(GRAVITY, dt, TIME_SCALE);
            self.velocity.y = add_vel(self.velocity.y, g);
            self.position.x = advance_pos(self.position.x, self.velocity.x, dt);
            self.position.y = advance_pos(self.position.y, self.velocity.y, dt);
        }
    }
}

} // verus!
