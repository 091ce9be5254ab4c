//! Blocks: heavy movable crates.
//!
//! A block falls like an item but never bounces: it settles on whatever
//! it lands on.  An idle block is itself a surface that other bodies can
//! stand on; a hooked block is carried and runs no physics of its own.

use vstd::prelude::*;

use crate::constants::{
    BLOCK_OFFSET, BLOCK_SIZE, GEO_LIMIT, GRAVITY, MAX_DT, POS_LIMIT, TIME_SCALE, VEL_LIMIT,
};
use crate::geom::{size_ok, vec_within, Rect, Vec2};
use crate::num::{
    advanced, clamp_i64, clamped, dt_scaled, mul_frac, vel_plus, add_vel, advance_pos,
};

verus! {

/// The lifecycle state of a block.
#[derive(Clone, Copy, PartialEq, Eq, Structural, Debug)]
pub enum BlockState {
    Idle,
    Hooked,
}

/// A heavy movable crate.
#[derive(Clone, Copy, PartialEq, Eq, Structural, Debug)]
pub struct Block {
    pub position: Vec2,
    pub size: Vec2,
    pub velocity: Vec2,
    pub on_ground: bool,
    pub state: BlockState,
}

/// Bounds kept on every block: position, velocity and extent in range.
pub open spec fn block_wf(b: Block) -> bool {
    vec_within(b.position, POS_LIMIT as int) && vec_within(b.velocity, VEL_LIMIT as int)
        && size_ok(b.size, GEO_LIMIT as int)
}

/// The bounding rectangle of a block.
pub open spec fn block_rect(b: Block) -> Rect {
    Rect { x: b.position.x, y: b.position.y, w: b.size.x, h: b.size.y }
}

/// A fresh idle block at `pos`.
pub open spec fn fresh_block(pos: Vec2) -> Block {
    Block {
        position: pos,
        size: Vec2 { x: BLOCK_SIZE, y: BLOCK_SIZE },
        velocity: Vec2 { x: 0, y: 0 },
        on_ground: false,
        state: BlockState::Idle,
    }
}

/// `b` hooked by a carrier: velocity suppressed, state `Hooked`.
pub open spec fn hooked_block(b: Block) -> Block {
    Block { velocity: Vec2 { x: 0, y: 0 }, state: BlockState::Hooked, ..b }
}

/// `b` released from a carry: idle again and airborne, with no velocity
/// imparted.
pub open spec fn released_block(b: Block) -> Block {
    Block { state: BlockState::Idle, on_ground: false, ..b }
}

/// `b` slaved to a carrier of the given box: a fixed offset below the
/// carrier's top edge, flush against its leading edge.
pub open spec fn carried_block_by(b: Block, pos: Vec2, size: Vec2, facing_right: bool) -> Block {
    Block {
        position: Vec2 {
            x: clamped(
                if facing_right {
                    pos.x + size.x
                } else {
                    pos.x - b.size.x
                },
                POS_LIMIT as int,
            ) as i32,
            y: clamped(pos.y - BLOCK_OFFSET, POS_LIMIT as int) as i32,
        },
        ..b
    }
}

/// Slaves a carried block's position to its carrier's box.
pub fn carry_block(b: &mut Block, pos: Vec2, size: Vec2, facing_right: bool)
    requires
        block_wf(*old(b)),
        vec_within(pos, POS_LIMIT as int),
        size_ok(size, GEO_LIMIT as int),
    ensures
        *final(b) == carried_block_by(*old(b), pos, size, facing_right),
        block_wf(*final(b)),
{
    b.position.y = clamp_i64(pos.y as i64 - BLOCK_OFFSET as i64, POS_LIMIT);
    b.position.x = if facing_right {
        clamp_i64(pos.x as i64 + size.x as i64, POS_LIMIT)
    } else {
        clamp_i64(pos.x as i64 - b.size.x as i64, POS_LIMIT)
    };
}

/// One physics step: while airborne, gravity accumulates on the
/// vertical speed and the position integrates with the new speed; a
/// grounded body does not move.
pub open spec fn block_updated(b: Block, dt: int) -> Block {
    if b.on_ground {
        b
    } else {
        let vy = vel_plus(b.velocity.y as int, dt_scaled(GRAVITY as int, dt));
        Block {
            velocity: Vec2 { x: b.velocity.x, y: vy as i32 },
            position: Vec2 {
                x: advanced(b.position.x as int, b.velocity.x as int, dt) as i32,
                y: advanced(b.position.y as int, vy, dt) as i32,
            },
            ..b
        }
    }
}

impl Block {
    /// A fresh idle block at `pos`.
    pub fn new(pos: Vec2) -> (b: Block)
        requires
            vec_within(pos, POS_LIMIT as int),
        ensures
            b.position == pos,
            b.size == (Vec2 { x: BLOCK_SIZE, y: BLOCK_SIZE }),
            b.velocity == (Vec2 { x: 0, y: 0 }),
            b.on_ground == false,
            b.state == BlockState::Idle,
            b == fresh_block(pos),
            block_wf(b),
    {
        Block {
            position: pos,
            size: Vec2 { x: BLOCK_SIZE, y: BLOCK_SIZE },
            velocity: Vec2 { x: 0, y: 0 },
            on_ground: false,
            state: BlockState::Idle,
        }
    }

    /// The bounding rectangle.
    pub fn rect(&self) -> (r: Rect)
        ensures
            r == block_rect(*self),
    {
        Rect { x: self.position.x, y: self.position.y, w: self.size.x, h: self.size.y }
    }

    /// One physics step: while airborne, gravity accumulates and the
    /// position integrates; a grounded block does not move.
    pub fn update(&mut self, dt: u32)
        requires
            block_wf(*old(self)),
            0 < dt <= MAX_DT,
        ensures
            *final(self) == block_updated(*old(self), dt as int),
            block_wf(*final(self)),
            old(self).on_ground ==> *final(self) == *old(self),
            !old(self).on_ground ==> {
                &&& final(self).velocity.y == vel_plus(
                    old(self).velocity.y as int,
                    dt_scaled(GRAVITY as int, dt as int),
                )
                &&& final(self).velocity.x == old(self).velocity.x
                &&& final(self).position.x == advanced(
                    old(self).position.x as int,
                    old(self).velocity.x as int,
                    dt as int,
                )
                &&& final(self).position.y == advanced(
                    old(self).position.y as int,
                    final(self).velocity.y as int,
                    dt as int,
                )
                &&& final(self).size == old(self).size
                &&& final(self).on_ground == old(self).on_ground
                &&& final(self).state == old(self).state
            },
    {
        if !self.on_ground {
            let g = mul_frac(GRAVITY, dt, TIME_SCALE);
            self.velocity.y = add_vel(self.velocity.y, g);
            self.position.x = advance_pos(self.position.x, self.velocity.x, dt);
            self.position.y = advance_pos(self.position.y, self.velocity.y, dt);
        }
    }
}

} // verus!
