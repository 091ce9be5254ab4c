//! Baddies: adversarial walkers with three physics regimes.
//!
//! A baddie normally walks and falls like the player, with a small
//! per-frame chance of a jump while grounded.  While carrying a grabbed
//! block it keeps walking until a countdown expires.  After too many
//! consecutive grounded frames it enters a scripted upward "elevation"
//! flight, weaving horizontally around an anchor column until it touches
//! the ceiling.  Every random decision is drawn through the library's
//! single random source and handed to a deterministic step function.

use vstd::prelude::*;

use crate::constants::{
    BADDIE_ELEVATION_DROP_CHANCE, BADDIE_ELEVATION_SPEED, BADDIE_ELEVATION_THRESHOLD,
    BADDIE_ELEVATION_WEAVE_AMPLITUDE, BADDIE_ELEVATION_WEAVE_PERIOD,
    BADDIE_ELEVATION_WEAVE_QUARTER, BADDIE_JUMP_CHANCE, BADDIE_JUMP_FORCE, BADDIE_SIZE,
    BADDIE_SPEED, CHANCE_SCALE, GEO_LIMIT, GRAVITY, MAX_DT, POS_LIMIT, TIME_SCALE, VEL_LIMIT,
};
use crate::geom::{size_ok, vec_within, Rect, Vec2};
use crate::items::{
    carried_item_by, carry_item, item_wf, thrown_item_by, throw_item, Item,
};
use crate::num::{
    advanced, clamp_i64, clamped, dt_scaled, mul_frac, timer_minus, vel_plus, add_vel, advance_pos,
};
use crate::rng::random_below;

verus! {

/// The behavioural state of a baddie.  `Grab` and `Elevation` are
/// sticky: the per-frame derivation never overwrites them.
#[derive(Clone, Copy, PartialEq, Eq, Structural, Debug)]
pub enum BaddieState {
    Idle,
    Run,
    Jump,
    Fall,
    Grab,
    Elevation,
}

/// An adversarial walker.
#[derive(Clone, Copy, PartialEq, Eq, Structural, Debug)]
pub struct Baddie {
    pub position: Vec2,
    pub size: Vec2,
    pub velocity: Vec2,
    pub on_ground: bool,
    pub state: BaddieState,
    pub facing_right: bool,
    /// Consecutive grounded frames; resets whenever airborne.
    pub on_ground_frames: u32,
    /// Anchor column of the elevation weave.
    pub elevation_x_axis: i32,
    /// Phase within the elevation weave period, in milliseconds.
    pub elevation_time: u32,
    pub grabbed_block_id: Option<usize>,
    pub held_item_id: Option<usize>,
    /// Remaining carry time of a grabbed block, milliseconds; the grab
    /// releases when it reaches zero.
    pub block_grab_timer: u32,
    /// Remaining hold time of a captured item, milliseconds; the item
    /// may be thrown once it reaches zero.
    pub item_hold_timer: u32,
}

/// Bounds kept on every baddie.
pub open spec fn baddie_wf(b: Baddie) -> bool {
    &&& vec_within(b.position, POS_LIMIT as int)
    &&& vec_within(b.velocity, VEL_LIMIT as int)
    &&& size_ok(b.size, GEO_LIMIT as int)
    &&& -POS_LIMIT <= b.elevation_x_axis <= POS_LIMIT
    &&& b.elevation_time < BADDIE_ELEVATION_WEAVE_PERIOD
    &&& b.on_ground_frames <= BADDIE_ELEVATION_THRESHOLD
}

/// The bounding rectangle of a baddie.
pub open spec fn baddie_rect(b: Baddie) -> Rect {
    Rect { x: b.position.x, y: b.position.y, w: b.size.x, h: b.size.y }
}

/// The horizontal weave of the elevation flight: a piecewise-linear
/// wave of the given amplitude over one period, rising from zero to the
/// amplitude in the first quarter, back through zero, down to the
/// negative amplitude, and back.
pub open spec fn weave_offset_spec(phase: int) -> int {
    let a = BADDIE_ELEVATION_WEAVE_AMPLITUDE as int;
    let q = BADDIE_ELEVATION_WEAVE_QUARTER as int;
    if phase < q {
        (a * phase) / q
    } else if phase < 2 * q {
        (a * (2 * q - phase)) / q
    } else if phase < 3 * q {
        -((a * (phase - 2 * q)) / q)
    } else {
        -((a * (4 * q - phase)) / q)
    }
}

/// Computes the weave offset for a phase inside the period.
pub fn weave_offset(phase: u32) -> (r: i32)
    requires
        phase < BADDIE_ELEVATION_WEAVE_PERIOD,
    ensures
        r == weave_offset_spec(phase as int),
        -BADDIE_ELEVATION_WEAVE_AMPLITUDE <= r <= BADDIE_ELEVATION_WEAVE_AMPLITUDE,
{
    let a = BADDIE_ELEVATION_WEAVE_AMPLITUDE as u32;
    let q = BADDIE_ELEVATION_WEAVE_QUARTER;
    if phase < q {
        ((a * phase) / q) as i32
    } else if phase < 2 * q {
        ((a * (2 * q - phase)) / q) as i32
    } else if phase < 3 * q {
        -(((a * (phase - 2 * q)) / q) as i32)
    } else {
        -(((a * (4 * q - phase)) / q) as i32)
    }
}

/// A fresh baddie at `pos` facing the given side: walking, airborne,
/// all counters and references cleared.
pub open spec fn fresh_baddie(pos: Vec2, facing_right: bool) -> Baddie {
    Baddie {
        position: pos,
        size: Vec2 { x: BADDIE_SIZE, y: BADDIE_SIZE },
        velocity: Vec2 { x: BADDIE_SPEED, y: 0 },
        on_ground: false,
        state: BaddieState::Run,
        facing_right,
        on_ground_frames: 0,
        elevation_x_axis: 0,
        elevation_time: 0,
        grabbed_block_id: None,
        held_item_id: None,
        block_grab_timer: 0,
        item_hold_timer: 0,
    }
}

/// The walking speed along the facing direction.
pub open spec fn facing_speed(facing_right: bool) -> int {
    if facing_right {
        BADDIE_SPEED as int
    } else {
        -BADDIE_SPEED as int
    }
}

/// One deterministic baddie step for the frame's two random draws.
///
/// In `Elevation` the vertical speed is fixed upward, the horizontal
/// position is driven by the weave around the anchor, and a small chance
/// drops whatever is held.  In `Grab` the baddie walks by facing while
/// the grab countdown runs; on expiry the block reference is cleared,
/// the direction reverses and the state returns to `Idle`.  Otherwise
/// gravity accumulates, the walk speed follows the facing, and a
/// grounded baddie may jump.  Then the held-item countdown runs, the
/// position integrates, the behavioural state is re-derived (sticky
/// states kept), and a baddie grounded past the threshold enters
/// `Elevation` anchored at its current column.
pub open spec fn baddie_stepped(b: Baddie, dt: int, jump_roll: int, drop_roll: int) -> Baddie {
    let b1 = if b.state == BaddieState::Elevation {
        let phase = ((b.elevation_time + dt) % (BADDIE_ELEVATION_WEAVE_PERIOD as int)) as u32;
        let drops = (b.grabbed_block_id is Some || b.held_item_id is Some) && drop_roll
            < BADDIE_ELEVATION_DROP_CHANCE;
        Baddie {
            velocity: Vec2 { x: 0, y: BADDIE_ELEVATION_SPEED },
            elevation_time: phase,
            position: Vec2 {
                x: clamped(
                    b.elevation_x_axis + weave_offset_spec(phase as int),
                    POS_LIMIT as int,
                ) as i32,
                y: b.position.y,
            },
            grabbed_block_id: if drops {
                None
            } else {
                b.grabbed_block_id
            },
            held_item_id: if drops {
                None
            } else {
                b.held_item_id
            },
            ..b
        }
    } else if b.state == BaddieState::Grab {
        let timer = if b.block_grab_timer >= dt {
            (b.block_grab_timer - dt) as u32
        } else {
            0u32
        };
        if timer == 0 {
            Baddie {
                velocity: Vec2 { x: facing_speed(b.facing_right) as i32, y: b.velocity.y },
                block_grab_timer: timer,
                grabbed_block_id: None,
                facing_right: !b.facing_right,
                state: BaddieState::Idle,
                ..b
            }
        } else {
            Baddie {
                velocity: Vec2 { x: facing_speed(b.facing_right) as i32, y: b.velocity.y },
                block_grab_timer: timer,
                ..b
            }
        }
    } else {
        let vy = vel_plus(b.velocity.y as int, dt_scaled(GRAVITY as int, dt));
        let jumps = b.on_ground && jump_roll < BADDIE_JUMP_CHANCE;
        Baddie {
            velocity: Vec2 {
                x: facing_speed(b.facing_right) as i32,
                y: if jumps {
                    (-BADDIE_JUMP_FORCE) as i32
                } else {
                    vy as i32
                },
            },
            on_ground: if jumps {
                false
            } else {
                b.on_ground
            },
            ..b
        }
    };
    let b2 = Baddie {
        item_hold_timer: if b1.held_item_id is Some {
            if b1.item_hold_timer >= dt {
                (b1.item_hold_timer - dt) as u32
            } else {
                0u32
            }
        } else {
            b1.item_hold_timer
        },
        position: Vec2 {
            x: advanced(b1.position.x as int, b1.velocity.x as int, dt) as i32,
            y: advanced(b1.position.y as int, b1.velocity.y as int, dt) as i32,
        },
        ..b1
    };
    let b3 = if b2.on_ground {
        Baddie {
            on_ground_frames: (b2.on_ground_frames + 1) as u32,
            state: if b2.state == BaddieState::Grab {
                b2.state
            } else if b2.velocity.x != 0 {
                BaddieState::Run
            } else {
                BaddieState::Idle
            },
            ..b2
        }
    } else {
        Baddie {
            on_ground_frames: 0,
            state: if b2.state == BaddieState::Elevation || b2.state == BaddieState::Grab {
                b2.state
            } else if b2.velocity.y < 0 {
                BaddieState::Jump
            } else {
                BaddieState::Fall
            },
            ..b2
        }
    };
    if b3.on_ground_frames > BADDIE_ELEVATION_THRESHOLD {
        Baddie {
            state: BaddieState::Elevation,
            elevation_x_axis: b3.position.x,
            on_ground_frames: 0,
            ..b3
        }
    } else {
        b3
    }
}

impl Baddie {
    /// A fresh baddie at `pos`, walking, facing a random side.
    pub fn new(pos: Vec2) -> (b: Baddie)
        requires
            vec_within(pos, POS_LIMIT as int),
        ensures
            b.position == pos,
            b.size == (Vec2 { x: BADDIE_SIZE, y: BADDIE_SIZE }),
            b.velocity == (Vec2 { x: BADDIE_SPEED, y: 0 }),
            b.on_ground == false,
            b.state == BaddieState::Run,
            b.on_ground_frames == 0,
            b.elevation_x_axis == 0,
            b.elevation_time == 0,
            b.grabbed_block_id is None,
            b.held_item_id is None,
            b.block_grab_timer == 0,
            b.item_hold_timer == 0,
            b == fresh_baddie(pos, b.facing_right),
            baddie_wf(b),
    {
        let coin = random_below(2);
        Baddie {
            position: pos,
            size: Vec2 { x: BADDIE_SIZE, y: BADDIE_SIZE },
            velocity: Vec2 { x: BADDIE_SPEED, y: 0 },
            on_ground: false,
            state: BaddieState::Run,
            facing_right: coin == 1,
            on_ground_frames: 0,
            elevation_x_axis: 0,
            elevation_time: 0,
            grabbed_block_id: None,
            held_item_id: None,
            block_grab_timer: 0,
            item_hold_timer: 0,
        }
    }

    /// The bounding rectangle.
    pub fn rect(&self) -> (r: Rect)
        ensures
            r == baddie_rect(*self),
    {
        Rect { x: self.position.x, y: self.position.y, w: self.size.x, h: self.size.y }
    }

    /// One deterministic physics step, with the frame's random draws
    /// passed in.
    pub fn step(&mut self, dt: u32, jump_roll: u32, drop_roll: u32)
        requires
            baddie_wf(*old(self)),
            0 < dt <= MAX_DT,
        ensures
            *final(self) == baddie_stepped(*old(self), dt as int, jump_roll as int, drop_roll as int),
            baddie_wf(*final(self)),
    {
        if self.state == BaddieState::Elevation {
            self.velocity.y = BADDIE_ELEVATION_SPEED;
            self.velocity.x = 0;
            self.elevation_time = (self.elevation_time + dt) % BADDIE_ELEVATION_WEAVE_PERIOD;
            let offset = weave_offset(self.elevation_time);
            self.position.x = clamp_i64(
                self.elevation_x_axis as i64 + offset as i64,
                POS_LIMIT,
            );
            if self.grabbed_block_id.is_some() || self.held_item_id.is_some() {
                if drop_roll < BADDIE_ELEVATION_DROP_CHANCE {
                    self.drop_held_object();
                }
            }
        } else if self.state == BaddieState::Grab {
            self.velocity.x = if self.facing_right {
                BADDIE_SPEED
            } else {
                -BADDIE_SPEED
            };
            self.block_grab_timer = timer_minus(self.block_grab_timer, dt);
            if self.block_grab_timer == 0 {
                self.grabbed_block_id = None;
                self.change_direction();
                self.state = BaddieState::Idle;
            }
        } else {
            let g = mul_frac(GRAVITY, dt, TIME_SCALE);
            self.velocity.y = add_vel(self.velocity.y, g);
            self.velocity.x = if self.facing_right {
                BADDIE_SPEED
            } else {
                -BADDIE_SPEED
            };
            if self.on_ground && jump_roll < BADDIE_JUMP_CHANCE {
                self.velocity.y = -BADDIE_JUMP_FORCE;
                self.on_ground = false;
            }
        }

        if self.held_item_id.is_some() {
            self.item_hold_timer = timer_minus(self.item_hold_timer, dt);
        }

        self.position.x = advance_pos(self.position.x, self.velocity.x, dt);
        self.position.y = advance_pos(self.position.y, self.velocity.y, dt);

        if self.on_ground {
            self.on_ground_frames = self.on_ground_frames + 1;
            if self.state != BaddieState::Grab {
                if self.velocity.x != 0 {
                    self.state = BaddieState::Run;
                } else {
                    self.state = BaddieState::Idle;
                }
            }
        } else {
            self.on_ground_frames = 0;
            if self.state != BaddieState::Elevation && self.state != BaddieState::Grab {
                if self.velocity.y < 0 {
                    self.state = BaddieState::Jump;
                } else {
                    self.state = BaddieState::Fall;
                }
            }
        }

        if self.on_ground_frames > BADDIE_ELEVATION_THRESHOLD {
            self.state = BaddieState::Elevation;
            self.elevation_x_axis = self.position.x;
            self.on_ground_frames = 0;
        }
    }

    /// One physics step with fresh random draws.
    ///
    /// Whatever the draws, an airborne baddie outside the scripted
    /// states gains exactly the frame's gravity on its vertical speed.
    pub fn update(&mut self, dt: u32)
        requires
            baddie_wf(*old(self)),
            0 < dt <= MAX_DT,
        ensures
            baddie_wf(*final(self)),
            exists|jr: int, dr: int|
                0 <= jr < CHANCE_SCALE && 0 <= dr < CHANCE_SCALE && *final(self)
                    == #[trigger] baddie_stepped(*old(self), dt as int, jr, dr),
            !old(self).on_ground && old(self).state != BaddieState::Elevation && old(self).state
                != BaddieState::Grab ==> final(self).velocity.y == vel_plus(
                old(self).velocity.y as int,
                dt_scaled(GRAVITY as int, dt as int),
            ),
    {
        let jump_roll = random_below(CHANCE_SCALE);
        let drop_roll = random_below(CHANCE_SCALE);
        self.step(dt, jump_roll, drop_roll);
        proof {
            assert(*final(self) == baddie_stepped(
                *old(self),
                dt as int,
                jump_roll as int,
                drop_roll as int,
            ));
        }
    }

    /// Forgets both held references, if any.
    pub fn drop_held_object(&mut self)
        ensures
            *final(self) == (Baddie { grabbed_block_id: None, held_item_id: None, ..*old(self) }),
    {
        if self.grabbed_block_id.is_some() {
            self.grabbed_block_id = None;
        }
        if self.held_item_id.is_some() {
            self.held_item_id = None;
        }
    }

    /// Reverses the walking direction.
    pub fn change_direction(&mut self)
        ensures
            *final(self) == (Baddie { facing_right: !old(self).facing_right, ..*old(self) }),
    {
        self.facing_right = !self.facing_right;
    }

    /// The frame's held-item pass: slave, throw or forget.
    ///
    /// A stale item reference is cleared with no other effect.  With the
    /// hold countdown expired and the baddie facing the player, the item
    /// is thrown with the baddie's velocity plus the fixed diagonal;
    /// otherwise it stays slaved to the baddie's box.
    pub fn process_interactions(&mut self, items: &mut Vec<Item>, player_pos: Vec2)
        requires
            baddie_wf(*old(self)),
            forall|i: int| 0 <= i < old(items)@.len() ==> item_wf(#[trigger] old(items)@[i]),
        ensures
            baddie_wf(*final(self)),
            final(items)@.len() == old(items)@.len(),
            forall|i: int| 0 <= i < final(items)@.len() ==> item_wf(#[trigger] final(items)@[i]),
            match old(self).held_item_id {
                None => *final(self) == *old(self) && final(items)@ == old(items)@,
                Some(id) => {
                    if id >= old(items)@.len() {
                        *final(self) == (Baddie { held_item_id: None, ..*old(self) }) && final(items)@ == old(items)@
                    } else if old(self).item_hold_timer == 0 && old(self).facing_right == (
                    player_pos.x > old(self).position.x) {
                        *final(self) == (Baddie { held_item_id: None, ..*old(self) }) && final(items)@ == old(items)@.update(
                            id as int,
                            thrown_item_by(
                                old(items)@[id as int],
                                old(self).velocity,
                                old(self).facing_right,
                            ),
                        )
                    } else {
                        *final(self) == *old(self) && final(items)@ == old(items)@.update(
                            id as int,
                            carried_item_by(
                                old(items)@[id as int],
                                old(self).position,
                                old(self).size,
                                old(self).facing_right,
                            ),
                        )
                    }
                },
            },
    {
        if let Some(item_id) = self.held_item_id {
            if item_id >= items.len() {
                self.held_item_id = None;
                return ;
            }
            if self.item_hold_timer == 0 {
                let player_is_to_right = player_pos.x > self.position.x;
                if self.facing_right == player_is_to_right {
                    let mut it = items[item_id];
                    throw_item(&mut it, self.velocity, self.facing_right);
                    items[item_id] = it;
                    self.held_item_id = None;
                    return ;
                }
            }
            let mut it = items[item_id];
            carry_item(&mut it, self.position, self.size, self.facing_right);
            items[item_id] = it;
        }
    }
}

} // verus!
