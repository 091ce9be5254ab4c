//! The level: immutable boundary geometry, the fixed platform layout,
//! and the owned item and block collections.
//!
//! The level owns every item and block; the player and the baddies keep
//! only weak integer indices into these collections.  Items and blocks
//! are placed at random inside the playable area, blocks outside a safe
//! zone around the player spawn.

use vstd::prelude::*;

use crate::blocks::{block_wf, fresh_block, Block};
use crate::constants::{
    BLOCK_COUNT, BLOCK_SIZE, CEILING_HEIGHT, GEO_LIMIT, GROUND_HEIGHT, ITEM_COUNT, ITEM_SIZE,
    LEVEL_HEIGHT, LEVEL_WIDTH, PLAYER_SAFE_ZONE_MULTIPLIER, PLAYER_SIZE, PLAYER_SPAWN_X,
    WALL_WIDTH,
};
use crate::geom::{overlap, rect_within, Rect, Vec2};
use crate::items::{fresh_item, item_wf, Item};
use crate::rng::random_below;

verus! {

/// The game level.
pub struct Level {
    pub ground: Rect,
    pub ceiling: Rect,
    pub left_wall: Rect,
    pub right_wall: Rect,
    pub platforms: Vec<Rect>,
    pub items: Vec<Item>,
    pub blocks: Vec<Block>,
}

/// Bounds kept on the level: geometry within the geometry limit and
/// well-formed owned entities.
pub open spec fn level_wf(l: Level) -> bool {
    &&& rect_within(l.ground, GEO_LIMIT as int)
    &&& rect_within(l.ceiling, GEO_LIMIT as int)
    &&& rect_within(l.left_wall, GEO_LIMIT as int)
    &&& rect_within(l.right_wall, GEO_LIMIT as int)
    &&& forall|i: int|
        0 <= i < l.platforms@.len() ==> rect_within(#[trigger] l.platforms@[i], GEO_LIMIT as int)
    &&& forall|i: int| 0 <= i < l.items@.len() ==> item_wf(#[trigger] l.items@[i])
    &&& forall|i: int| 0 <= i < l.blocks@.len() ==> block_wf(#[trigger] l.blocks@[i])
}

/// The fixed platform layout: three platforms per screen quadrant, the
/// level spanning two screens in each direction.
pub open spec fn level_platforms() -> Seq<Rect> {
    seq![
        Rect { x: 200, y: 120, w: 200, h: 20 },
        Rect { x: 500, y: 360, w: 200, h: 20 },
        Rect { x: 800, y: 568, w: 200, h: 20 },
        Rect { x: 200, y: 888, w: 200, h: 20 },
        Rect { x: 500, y: 1128, w: 200, h: 20 },
        Rect { x: 800, y: 1336, w: 200, h: 20 },
        Rect { x: 1224, y: 120, w: 200, h: 20 },
        Rect { x: 1524, y: 360, w: 200, h: 20 },
        Rect { x: 1824, y: 568, w: 200, h: 20 },
        Rect { x: 1224, y: 888, w: 200, h: 20 },
        Rect { x: 1524, y: 1128, w: 200, h: 20 },
        Rect { x: 1824, y: 1336, w: 200, h: 20 },
    ]
}

/// The zone around the player spawn that is kept free of blocks.
pub open spec fn player_safe_zone() -> Rect {
    Rect {
        x: (PLAYER_SPAWN_X - (PLAYER_SIZE * PLAYER_SAFE_ZONE_MULTIPLIER - PLAYER_SIZE) / 2) as i32,
        y: CEILING_HEIGHT,
        w: (PLAYER_SIZE + (PLAYER_SIZE * PLAYER_SAFE_ZONE_MULTIPLIER - PLAYER_SIZE)) as i32,
        h: (LEVEL_HEIGHT - GROUND_HEIGHT - CEILING_HEIGHT) as i32,
    }
}

/// An item spawn position: inside the walls, between ceiling and ground.
pub open spec fn item_spawn_ok(p: Vec2) -> bool {
    WALL_WIDTH <= p.x <= LEVEL_WIDTH - WALL_WIDTH - ITEM_SIZE && CEILING_HEIGHT <= p.y
        <= LEVEL_HEIGHT - GROUND_HEIGHT - ITEM_SIZE
}

/// A block spawn position: inside the playable area and clear of the
/// player safe zone.
pub open spec fn block_spawn_ok(p: Vec2) -> bool {
    &&& WALL_WIDTH <= p.x <= LEVEL_WIDTH - WALL_WIDTH - BLOCK_SIZE
    &&& CEILING_HEIGHT <= p.y <= LEVEL_HEIGHT - GROUND_HEIGHT - BLOCK_SIZE
    &&& !overlap(Rect { x: p.x, y: p.y, w: BLOCK_SIZE, h: BLOCK_SIZE }, player_safe_zone())
}

/// Draws a random block position clear of the player safe zone: a few
/// random tries, then a fixed fallback corner that is always clear.
fn place_block() -> (p: Vec2)
    ensures
        block_spawn_ok(p),
{
    let mut tries: u32 = 0;
    while tries < 100
        invariant
            true,
        decreases 100 - tries,
    {
        let x = WALL_WIDTH + random_below((LEVEL_WIDTH - 2 * WALL_WIDTH - BLOCK_SIZE + 1) as u32) as i32;
        let y = CEILING_HEIGHT + random_below(
            (LEVEL_HEIGHT - GROUND_HEIGHT - CEILING_HEIGHT - BLOCK_SIZE + 1) as u32,
        ) as i32;
        let candidate = Rect { x, y, w: BLOCK_SIZE, h: BLOCK_SIZE };
        let safe = Rect {
            x: PLAYER_SPAWN_X - (PLAYER_SIZE * PLAYER_SAFE_ZONE_MULTIPLIER - PLAYER_SIZE) / 2,
            y: CEILING_HEIGHT,
            w: PLAYER_SIZE + (PLAYER_SIZE * PLAYER_SAFE_ZONE_MULTIPLIER - PLAYER_SIZE),
            h: LEVEL_HEIGHT - GROUND_HEIGHT - CEILING_HEIGHT,
        };
        if !candidate.overlaps(&safe) {
            return Vec2 { x, y };
        }
        tries = tries + 1;
    }
    Vec2 { x: LEVEL_WIDTH - WALL_WIDTH - BLOCK_SIZE, y: CEILING_HEIGHT }
}

/// The shape of a freshly built level: the fixed boundary rectangles
/// and platform layout, and fresh items and blocks at legal spawn
/// positions.
pub open spec fn level_shape_ok(l: Level) -> bool {
    &&& l.ground == (Rect {
        x: 0,
        y: (LEVEL_HEIGHT - GROUND_HEIGHT) as i32,
        w: LEVEL_WIDTH,
        h: GROUND_HEIGHT,
    })
    &&& l.ceiling == (Rect { x: 0, y: 0, w: LEVEL_WIDTH, h: CEILING_HEIGHT })
    &&& l.left_wall == (Rect { x: 0, y: 0, w: WALL_WIDTH, h: LEVEL_HEIGHT })
    &&& l.right_wall == (Rect {
        x: (LEVEL_WIDTH - WALL_WIDTH) as i32,
        y: 0,
        w: WALL_WIDTH,
        h: LEVEL_HEIGHT,
    })
    &&& l.platforms@ == level_platforms()
    &&& l.items@.len() == ITEM_COUNT
    &&& forall|i: int|
        0 <= i < l.items@.len() ==> (#[trigger] l.items@[i]) == fresh_item(l.items@[i].position)
            && item_spawn_ok(l.items@[i].position)
    &&& l.blocks@.len() == BLOCK_COUNT
    &&& forall|i: int|
        0 <= i < l.blocks@.len() ==> (#[trigger] l.blocks@[i]) == fresh_block(
            l.blocks@[i].position,
        ) && block_spawn_ok(l.blocks@[i].position)
}

impl Level {
    /// A fresh level: fixed bounds and platforms, randomly placed items
    /// and blocks, blocks clear of the player safe zone.
    pub fn new() -> (l: Level)
        ensures
            level_shape_ok(l),
            level_wf(l),
    {
        let mut platforms: Vec<Rect> = Vec::new();
        platforms.push(Rect { x: 200, y: 120, w: 200, h: 20 });
        platforms.push(Rect { x: 500, y: 360, w: 200, h: 20 });
        platforms.push(Rect { x: 800, y: 568, w: 200, h: 20 });
        platforms.push(Rect { x: 200, y: 888, w: 200, h: 20 });
        platforms.push(Rect { x: 500, y: 1128, w: 200, h: 20 });
        platforms.push(Rect { x: 800, y: 1336, w: 200, h: 20 });
        platforms.push(Rect { x: 1224, y: 120, w: 200, h: 20 });
        platforms.push(Rect { x: 1524, y: 360, w: 200, h: 20 });
        platforms.push(Rect { x: 1824, y: 568, w: 200, h: 20 });
        platforms.push(Rect { x: 1224, y: 888, w: 200, h: 20 });
        platforms.push(Rect { x: 1524, y: 1128, w: 200, h: 20 });
        platforms.push(Rect { x: 1824, y: 1336, w: 200, h: 20 });
        proof {
            assert(platforms@ =~= level_platforms());
        }

        let mut items: Vec<Item> = Vec::new();
        let mut i: usize = 0;
        while i < ITEM_COUNT
            invariant
                i <= ITEM_COUNT,
                items@.len() == i,
                forall|j: int|
                    0 <= j < items@.len() ==> (#[trigger] items@[j]) == fresh_item(
                        items@[j].position,
                    ) && item_spawn_ok(items@[j].position),
            decreases ITEM_COUNT - i,
        {
            let x = WALL_WIDTH + random_below((LEVEL_WIDTH - 2 * WALL_WIDTH - ITEM_SIZE + 1) as u32) as i32;
            let y = CEILING_HEIGHT + random_below(
                (LEVEL_HEIGHT - GROUND_HEIGHT - CEILING_HEIGHT - ITEM_SIZE + 1) as u32,
            ) as i32;
            items.push(Item::new(Vec2 { x, y }));
            i = i + 1;
        }

        let mut blocks: Vec<Block> = Vec::new();
        let mut k: usize = 0;
        while k < BLOCK_COUNT
            invariant
                k <= BLOCK_COUNT,
                blocks@.len() == k,
                forall|j: int|
                    0 <= j < blocks@.len() ==> (#[trigger] blocks@[j]) == fresh_block(
                        blocks@[j].position,
                    ) && block_spawn_ok(blocks@[j].position),
            decreases BLOCK_COUNT - k,
        {
            let pos = place_block();
            blocks.push(Block::new(pos));
            k = k + 1;
        }

        Level {
            ground: Rect { x: 0, y: LEVEL_HEIGHT - GROUND_HEIGHT, w: LEVEL_WIDTH, h: GROUND_HEIGHT },
            ceiling: Rect { x: 0, y: 0, w: LEVEL_WIDTH, h: CEILING_HEIGHT },
            left_wall: Rect { x: 0, y: 0, w: WALL_WIDTH, h: LEVEL_HEIGHT },
            right_wall: Rect { x: LEVEL_WIDTH - WALL_WIDTH, y: 0, w: WALL_WIDTH, h: LEVEL_HEIGHT },
            platforms,
            items,
            blocks,
        }
    }
}

} // verus!
