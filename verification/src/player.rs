//! The player: input-driven physics and the grab/carry/throw protocol.

use vstd::prelude::*;

use crate::blocks::{
    block_rect, block_wf, carried_block_by, carry_block, hooked_block, released_block, Block,
    BlockState,
};
use crate::constants::{
    GEO_LIMIT, GRAVITY, GROUND_HEIGHT, JUMP_FORCE, LEVEL_HEIGHT, MAX_DT, PLAYER_SIZE,
    PLAYER_SPAWN_X, PLAYER_SPEED, POS_LIMIT, TIME_SCALE, VEL_LIMIT,
};
use crate::geom::{bottom, overlap, size_ok, top, vec_within, Rect, Vec2};
use crate::items::{
    carried_item_by, carry_item, hooked_item, item_rect, item_wf, thrown_item_by, throw_item, Item,
    ItemState,
};
use crate::num::{advanced, dt_scaled, mul_frac, vel_plus, add_vel, advance_pos};

verus! {

/// The player's derived behavioural state.
#[derive(Clone, Copy, PartialEq, Eq, Structural, Debug)]
pub enum PlayerState {
    Idle,
    Run,
    Jump,
    Fall,
}

/// What the player carries: at most one item or one block, by index into
/// the owning collection, never both at once.
#[derive(Clone, Copy, PartialEq, Eq, Structural, Debug)]
pub enum HeldObject {
    Item(usize),
    Block(usize),
}

/// The per-frame input fed to the player: held direction keys and the
/// pressed-this-frame edges.
#[derive(Clone, Copy, PartialEq, Eq, Structural, Debug)]
pub struct Input {
    pub right: bool,
    pub left: bool,
    pub jump_pressed: bool,
    pub space_pressed: bool,
}

/// The player character.
#[derive(Clone, Copy, PartialEq, Eq, Structural, Debug)]
pub struct Player {
    pub position: Vec2,
    pub size: Vec2,
    pub velocity: Vec2,
    pub on_ground: bool,
    pub state: PlayerState,
    pub facing_right: bool,
    pub held_object: Option<HeldObject>,
}

/// Bounds kept on the player: position, velocity and extent in range.
pub open spec fn player_wf(p: Player) -> bool {
    vec_within(p.position, POS_LIMIT as int) && vec_within(p.velocity, VEL_LIMIT as int) && size_ok(
        p.size,
        GEO_LIMIT as int,
    )
}

/// The player's bounding rectangle.
pub open spec fn player_rect(p: Player) -> Rect {
    Rect { x: p.position.x, y: p.position.y, w: p.size.x, h: p.size.y }
}

/// The behavioural state derived every frame from grounding and
/// velocity; never an independent source of truth.
pub open spec fn derived_player_state(on_ground: bool, v: Vec2) -> PlayerState {
    if on_ground {
        if v.x != 0 {
            PlayerState::Run
        } else {
            PlayerState::Idle
        }
    } else {
        if v.y < 0 {
            PlayerState::Jump
        } else {
            PlayerState::Fall
        }
    }
}

/// The player after one physics step: gravity accumulates, the held
/// direction keys pick the horizontal speed, a jump edge while grounded
/// gives the upward impulse, the position integrates, and the
/// behavioural state is re-derived.
pub open spec fn player_updated(p: Player, input: Input, dt: int) -> Player {
    let vx: int = if input.right {
        PLAYER_SPEED as int
    } else if input.left {
        -PLAYER_SPEED as int
    } else {
        0
    };
    let facing = if input.right {
        true
    } else if input.left {
        false
    } else {
        p.facing_right
    };
    let vy_grav = vel_plus(p.velocity.y as int, dt_scaled(GRAVITY as int, dt));
    let jumps = input.jump_pressed && p.on_ground;
    let vy: int = if jumps {
        -JUMP_FORCE as int
    } else {
        vy_grav
    };
    let grounded = if jumps {
        false
    } else {
        p.on_ground
    };
    let vel = Vec2 { x: vx as i32, y: vy as i32 };
    Player {
        position: Vec2 {
            x: advanced(p.position.x as int, vx, dt) as i32,
            y: advanced(p.position.y as int, vy, dt) as i32,
        },
        size: p.size,
        velocity: vel,
        on_ground: grounded,
        state: derived_player_state(grounded, vel),
        facing_right: facing,
        held_object: p.held_object,
    }
}

/// The fresh player: at the spawn column on the ground line, still,
/// airborne, facing right, holding nothing.
pub open spec fn fresh_player() -> Player {
    Player {
        position: Vec2 { x: PLAYER_SPAWN_X, y: (LEVEL_HEIGHT - GROUND_HEIGHT - PLAYER_SIZE) as i32 },
        size: Vec2 { x: PLAYER_SIZE, y: PLAYER_SIZE },
        velocity: Vec2 { x: 0, y: 0 },
        on_ground: false,
        state: PlayerState::Idle,
        facing_right: true,
        held_object: None,
    }
}

/// An idle item the player's box overlaps can be grabbed.
pub open spec fn grabbable_item(p: Player, it: Item) -> bool {
    it.state == ItemState::Idle && overlap(player_rect(p), item_rect(it))
}

/// The player stands on `b`: grounded, with its bottom edge within one
/// unit of the block's top edge, boxes overlapping.
pub open spec fn standing_on_block(p: Player, b: Block) -> bool {
    p.on_ground && bottom(player_rect(p)) >= top(block_rect(b)) && bottom(player_rect(p)) <= top(
        block_rect(b),
    ) + 1 && overlap(player_rect(p), block_rect(b))
}

/// An idle block the player's box overlaps can be grabbed, unless the
/// player is standing on it.
pub open spec fn grabbable_block(p: Player, b: Block) -> bool {
    !standing_on_block(p, b) && b.state == BlockState::Idle && overlap(player_rect(p), block_rect(b))
}

/// Some item of `items` is grabbable by `p`.
pub open spec fn some_grabbable_item(p: Player, items: Seq<Item>) -> bool {
    exists|j: int| 0 <= j < items.len() && grabbable_item(p, #[trigger] items[j])
}

/// Some block of `blocks` is grabbable by `p`.
pub open spec fn some_grabbable_block(p: Player, blocks: Seq<Block>) -> bool {
    exists|j: int| 0 <= j < blocks.len() && grabbable_block(p, #[trigger] blocks[j])
}

/// The outcome of the player's item acquisition: `i` is the first
/// grabbable item of `items0`, it alone is hooked, and the player now
/// holds it.
pub open spec fn item_grab_outcome(
    p: Player,
    items0: Seq<Item>,
    p1: Player,
    items1: Seq<Item>,
    i: int,
) -> bool {
    &&& 0 <= i < items0.len()
    &&& grabbable_item(p, items0[i])
    &&& forall|j: int| 0 <= j < i ==> !grabbable_item(p, #[trigger] items0[j])
    &&& items1 == items0.update(i, hooked_item(items0[i]))
    &&& p1 == (Player { held_object: Some(HeldObject::Item(i as usize)), ..p })
}

/// The outcome of the player's block acquisition: `i` is the first
/// grabbable block of `blocks0`, it alone is hooked, and the player now
/// holds it.
pub open spec fn block_grab_outcome(
    p: Player,
    blocks0: Seq<Block>,
    p1: Player,
    blocks1: Seq<Block>,
    i: int,
) -> bool {
    &&& 0 <= i < blocks0.len()
    &&& grabbable_block(p, blocks0[i])
    &&& forall|j: int| 0 <= j < i ==> !grabbable_block(p, #[trigger] blocks0[j])
    &&& blocks1 == blocks0.update(i, hooked_block(blocks0[i]))
    &&& p1 == (Player { held_object: Some(HeldObject::Block(i as usize)), ..p })
}

/// The interaction pass as a relation between the player and the
/// collections before and after it: throw, carry, release, stale-index
/// clearing, or first-match acquisition, as selected by the held state
/// and the grab edge.
pub open spec fn player_interactions_rel(
    p0: Player,
    items0: Seq<Item>,
    blocks0: Seq<Block>,
    space_pressed: bool,
    p1: Player,
    items1: Seq<Item>,
    blocks1: Seq<Block>,
) -> bool {
    match p0.held_object {
        Some(HeldObject::Item(idx)) => {
            &&& blocks1 == blocks0
            &&& if idx >= items0.len() {
                p1 == (Player { held_object: None, ..p0 }) && items1 == items0
            } else if space_pressed {
                p1 == (Player { held_object: None, ..p0 }) && items1 == items0.update(
                    idx as int,
                    thrown_item_by(items0[idx as int], p0.velocity, p0.facing_right),
                )
            } else {
                p1 == p0 && items1 == items0.update(
                    idx as int,
                    carried_item_by(items0[idx as int], p0.position, p0.size, p0.facing_right),
                )
            }
        },
        Some(HeldObject::Block(idx)) => {
            &&& items1 == items0
            &&& if idx >= blocks0.len() {
                p1 == (Player { held_object: None, ..p0 }) && blocks1 == blocks0
            } else if space_pressed {
                p1 == (Player { held_object: None, ..p0 }) && blocks1 == blocks0.update(
                    idx as int,
                    released_block(blocks0[idx as int]),
                )
            } else {
                p1 == p0 && blocks1 == blocks0.update(
                    idx as int,
                    carried_block_by(blocks0[idx as int], p0.position, p0.size, p0.facing_right),
                )
            }
        },
        None => {
            if !space_pressed {
                p1 == p0 && items1 == items0 && blocks1 == blocks0
            } else if some_grabbable_item(p0, items0) {
                blocks1 == blocks0 && exists|i: int| item_grab_outcome(p0, items0, p1, items1, i)
            } else if some_grabbable_block(p0, blocks0) {
                items1 == items0 && exists|i: int| block_grab_outcome(p0, blocks0, p1, blocks1, i)
            } else {
                p1 == p0 && items1 == items0 && blocks1 == blocks0
            }
        },
    }
}

impl Player {
    /// A fresh player on the ground line at the spawn column.
    pub fn new() -> (p: Player)
        ensures
            p.position.x == PLAYER_SPAWN_X,
            p.position.y == LEVEL_HEIGHT - GROUND_HEIGHT - PLAYER_SIZE,
            p.size == (Vec2 { x: PLAYER_SIZE, y: PLAYER_SIZE }),
            p.velocity == (Vec2 { x: 0, y: 0 }),
            p.on_ground == false,
            p.state == PlayerState::Idle,
            p.facing_right == true,
            p.held_object is None,
            p == fresh_player(),
            player_wf(p),
    {
        Player {
            position: Vec2 { x: PLAYER_SPAWN_X, y: LEVEL_HEIGHT - GROUND_HEIGHT - PLAYER_SIZE },
            size: Vec2 { x: PLAYER_SIZE, y: PLAYER_SIZE },
            velocity: Vec2 { x: 0, y: 0 },
            on_ground: false,
            state: PlayerState::Idle,
            facing_right: true,
            held_object: None,
        }
    }

    /// The bounding rectangle.
    pub fn rect(&self) -> (r: Rect)
        ensures
            r == player_rect(*self),
    {
        Rect { x: self.position.x, y: self.position.y, w: self.size.x, h: self.size.y }
    }

    /// One physics step driven by the frame's input.
    ///
    /// While airborne the vertical velocity grows by exactly
    /// `GRAVITY * dt / 1000` (up to the terminal bound): gravity is
    /// monotone and nothing else touches the vertical speed.
    pub fn update(&mut self, input: Input, dt: u32)
        requires
            player_wf(*old(self)),
            0 < dt <= MAX_DT,
        ensures
            *final(self) == player_updated(*old(self), input, dt as int),
            player_wf(*final(self)),
            !old(self).on_ground ==> final(self).velocity.y == vel_plus(
                old(self).velocity.y as int,
                dt_scaled(GRAVITY as int, dt as int),
            ),
    {
        let g = mul_frac(GRAVITY, dt, TIME_SCALE);
        self.velocity.y = add_vel(self.velocity.y, g);

        if input.right {
            self.velocity.x = PLAYER_SPEED;
            self.facing_right = true;
        } else if input.left {
            self.velocity.x = -PLAYER_SPEED;
            self.facing_right = false;
        } else {
            self.velocity.x = 0;
        }

        if input.jump_pressed && self.on_ground {
            self.velocity.y = -JUMP_FORCE;
            self.on_ground = false;
        }

        self.position.x = advance_pos(self.position.x, self.velocity.x, dt);
        self.position.y = advance_pos(self.position.y, self.velocity.y, dt);

        if self.on_ground {
            if self.velocity.x != 0 {
                self.state = PlayerState::Run;
            } else {
                self.state = PlayerState::Idle;
            }
        } else {
            if self.velocity.y < 0 {
                self.state = PlayerState::Jump;
            } else {
                self.state = PlayerState::Fall;
            }
        }
    }

    /// The frame's interaction pass: carry, throw, release or acquire.
    ///
    /// Holding an item, a grab edge throws it and an ordinary frame
    /// slaves it to the player's box; holding a block, a grab edge
    /// releases it in place.  Holding nothing, a grab edge hooks the
    /// first overlapping idle item, or failing that the first grabbable
    /// idle block.  A stale held index is cleared with no other effect.
    /// Acquiring starts only from the empty hand, so an item and a block
    /// are never held at once.
    pub fn process_interactions(
        &mut self,
        items: &mut Vec<Item>,
        blocks: &mut Vec<Block>,
        space_pressed: bool,
    )
        requires
            player_wf(*old(self)),
            forall|i: int|
                0 <= i < old(items)@.len() ==> item_wf(#[trigger] old(items)@[i]),
            forall|i: int|
                0 <= i < old(blocks)@.len() ==> block_wf(#[trigger] old(blocks)@[i]),
        ensures
            player_wf(*final(self)),
            final(self).position == old(self).position,
            final(self).size == old(self).size,
            final(self).velocity == old(self).velocity,
            final(items)@.len() == old(items)@.len(),
            final(blocks)@.len() == old(blocks)@.len(),
            forall|i: int| 0 <= i < final(items)@.len() ==> item_wf(#[trigger] final(items)@[i]),
            forall|i: int|
                0 <= i < final(blocks)@.len() ==> block_wf(#[trigger] final(blocks)@[i]),
            player_interactions_rel(
                *old(self),
                old(items)@,
                old(blocks)@,
                space_pressed,
                *final(self),
                final(items)@,
                final(blocks)@,
            ),
    {
        match self.held_object {
            Some(HeldObject::Item(idx)) => {
                if idx >= items.len() {
                    self.held_object = None;
                    return ;
                }
                if space_pressed {
                    let mut it = items[idx];
                    throw_item(&mut it, self.velocity, self.facing_right);
                    items[idx] = it;
                    self.held_object = None;
                } else {
                    let mut it = items[idx];
                    carry_item(&mut it, self.position, self.size, self.facing_right);
                    items[idx] = it;
                }
            },
            Some(HeldObject::Block(idx)) => {
                if idx >= blocks.len() {
                    self.held_object = None;
                    return ;
                }
                if space_pressed {
                    let mut b = blocks[idx];
                    b.state = BlockState::Idle;
                    b.on_ground = false;
                    blocks[idx] = b;
                    self.held_object = None;
                } else {
                    let mut b = blocks[idx];
                    carry_block(&mut b, self.position, self.size, self.facing_right);
                    blocks[idx] = b;
                }
            },
            None => {
                if !space_pressed {
                    return ;
                }
                let prect = self.rect();
                let mut i: usize = 0;
                while i < items.len()
                    invariant
                        i <= items@.len(),
                        old(self).held_object is None,
                        space_pressed,
                        player_wf(*old(self)),
                        forall|j: int|
                            0 <= j < old(items)@.len() ==> item_wf(#[trigger] old(items)@[j]),
                        forall|j: int|
                            0 <= j < old(blocks)@.len() ==> block_wf(#[trigger] old(blocks)@[j]),
                        *self == *old(self),
                        items@ == old(items)@,
                        blocks@ == old(blocks)@,
                        forall|j: int|
                            0 <= j < i ==> !grabbable_item(*old(self), #[trigger] items@[j]),
                        prect == player_rect(*old(self)),
                    ensures
                        *self == *old(self),
                        items@ == old(items)@,
                        blocks@ == old(blocks)@,
                        forall|j: int|
                            0 <= j < items@.len() ==> !grabbable_item(
                                *old(self),
                                #[trigger] items@[j],
                            ),
                    decreases items@.len() - i,
                {
                    let it = items[i];
                    if it.state == ItemState::Idle && prect.overlaps(&it.rect()) {
                        let mut hooked = it;
                        hooked.state = ItemState::Hooked;
                        hooked.velocity = Vec2 { x: 0, y: 0 };
                        items[i] = hooked;
                        self.held_object = Some(HeldObject::Item(i));
                        proof {
                            let iw = i as int;
                            assert(grabbable_item(*old(self), old(items)@[iw]));
                            assert(final(items)@ == old(items)@.update(
                                iw,
                                hooked_item(old(items)@[iw]),
                            ));
                            assert(item_grab_outcome(
                                *old(self),
                                old(items)@,
                                *final(self),
                                final(items)@,
                                iw,
                            ));
                            assert(some_grabbable_item(*old(self), old(items)@));
                            assert(exists|n: int|
                                item_grab_outcome(
                                    *old(self),
                                    old(items)@,
                                    *final(self),
                                    final(items)@,
                                    n,
                                ));
                            assert(final(blocks)@ == old(blocks)@);
                        }
                        return ;
                    }
                    i = i + 1;
                }
                let mut k: usize = 0;
                while k < blocks.len()
                    invariant
                        k <= blocks@.len(),
                        old(self).held_object is None,
                        space_pressed,
                        player_wf(*old(self)),
                        forall|j: int|
                            0 <= j < old(items)@.len() ==> item_wf(#[trigger] old(items)@[j]),
                        forall|j: int|
                            0 <= j < old(blocks)@.len() ==> block_wf(#[trigger] old(blocks)@[j]),
                        *self == *old(self),
                        items@ == old(items)@,
                        blocks@ == old(blocks)@,
                        forall|j: int|
                            0 <= j < items@.len() ==> !grabbable_item(
                                *old(self),
                                #[trigger] items@[j],
                            ),
                        forall|j: int|
                            0 <= j < k ==> !grabbable_block(*old(self), #[trigger] blocks@[j]),
                        prect == player_rect(*old(self)),
                    ensures
                        *self == *old(self),
                        items@ == old(items)@,
                        blocks@ == old(blocks)@,
                        forall|j: int|
                            0 <= j < items@.len() ==> !grabbable_item(
                                *old(self),
                                #[trigger] items@[j],
                            ),
                        forall|j: int|
                            0 <= j < blocks@.len() ==> !grabbable_block(
                                *old(self),
                                #[trigger] blocks@[j],
                            ),
                    decreases blocks@.len() - k,
                {
                    let b = blocks[k];
                    let player_bottom = self.position.y as i64 + self.size.y as i64;
                    let block_top = b.position.y as i64;
                    let overlapping = prect.overlaps(&b.rect());
                    let is_on_block = self.on_ground && player_bottom >= block_top && player_bottom
                        <= block_top + 1 && overlapping;
                    if !is_on_block && b.state == BlockState::Idle && overlapping {
                        let mut hooked = b;
                        hooked.state = BlockState::Hooked;
                        hooked.velocity = Vec2 { x: 0, y: 0 };
                        blocks[k] = hooked;
                        self.held_object = Some(HeldObject::Block(k));
                        proof {
                            let kw = k as int;
                            assert(grabbable_block(*old(self), old(blocks)@[kw]));
                            assert(final(blocks)@ == old(blocks)@.update(
                                kw,
                                hooked_block(old(blocks)@[kw]),
                            ));
                            assert(block_grab_outcome(
                                *old(self),
                                old(blocks)@,
                                *final(self),
                                final(blocks)@,
                                kw,
                            ));
                            assert(!some_grabbable_item(*old(self), old(items)@));
                            assert(some_grabbable_block(*old(self), old(blocks)@));
                            assert(exists|n: int|
                                block_grab_outcome(
                                    *old(self),
                                    old(blocks)@,
                                    *final(self),
                                    final(blocks)@,
                                    n,
                                ));
                            assert(final(items)@ == old(items)@);
                        }
                        return ;
                    }
                    k = k + 1;
                }
            },
        }
    }
}

} // verus!
