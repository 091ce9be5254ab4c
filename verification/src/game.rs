//! The frame orchestrator: one deterministic update sequence per frame.
//!
//! Each frame runs the player's physics and interactions, resolves the
//! player, advances and resolves every free item and block, advances the
//! baddies with their interactions and collisions, slaves carried blocks
//! to their baddies, resolves combat between thrown items and baddies,
//! removes the defeated, follows with the camera and checks the terminal
//! conditions.  The game-state machine has three states: the intro
//! screen, the level, and the game-over screen.

use vstd::prelude::*;

use crate::baddies::{baddie_rect, baddie_stepped, baddie_wf, fresh_baddie, Baddie};
use crate::blocks::{block_updated, block_wf, carried_block_by, carry_block, Block, BlockState};
use crate::camera::{camera_updated, camera_wf, Camera};
use crate::constants::{CHANCE_SCALE, GEO_LIMIT, LEVEL_HEIGHT, LEVEL_WIDTH, MAX_BADDIES, MAX_DT};
use crate::geom::{overlap, Rect, Vec2};
use crate::items::{item_rect, item_updated, item_wf, Item, ItemState};
use crate::level::{level_shape_ok, level_wf, Level};
use crate::physics::{
    resolve_baddie_collisions, resolve_block_collisions, resolve_item_collisions,
    resolve_player_collisions, spec_resolve_block, spec_resolve_item, spec_resolve_player,
};
use crate::player::{
    fresh_player, player_interactions_rel, player_rect, player_updated, player_wf, HeldObject,
    Input, Player,
};
use crate::rng::random_below;

verus! {

/// The top-level state of the game.
#[derive(Clone, Copy, PartialEq, Eq, Structural, Debug)]
pub enum GameState {
    Intro,
    Level1,
    GameOver,
}

/// The whole game: state machine, player, level, camera and baddies.
pub struct Game {
    pub gamestate: GameState,
    pub player: Player,
    pub level: Level,
    pub camera: Camera,
    pub baddies: Vec<Baddie>,
}

/// Bounds kept on the whole game.
pub open spec fn game_wf(g: Game) -> bool {
    &&& player_wf(g.player)
    &&& level_wf(g.level)
    &&& camera_wf(g.camera)
    &&& forall|i: int| 0 <= i < g.baddies@.len() ==> baddie_wf(#[trigger] g.baddies@[i])
}

/// The player's box touches some baddie's box.
pub open spec fn player_hit_by_baddie(p: Player, baddies: Seq<Baddie>) -> bool {
    exists|i: int| 0 <= i < baddies.len() && overlap(player_rect(p), baddie_rect(#[trigger] baddies[i]))
}

/// The player's box touches some thrown item's box.
pub open spec fn player_hit_by_thrown_item(p: Player, items: Seq<Item>) -> bool {
    exists|i: int|
        0 <= i < items.len() && (#[trigger] items[i]).state == ItemState::Thrown && overlap(
            player_rect(p),
            item_rect(items[i]),
        )
}

/// No baddie marked yet.
pub open spec fn no_marks(n: nat) -> Seq<bool> {
    Seq::new(n, |i: int| false)
}

/// The first not-yet-marked baddie at or after `j` whose box the item
/// touches.
pub open spec fn combat_target_from(mask: Seq<bool>, it: Item, baddies: Seq<Baddie>, j: int) -> Option<int>
    decreases baddies.len() - j,
        when 0 <= j <= baddies.len()
{
    if j >= baddies.len() {
        None
    } else if !mask[j] && overlap(item_rect(it), baddie_rect(baddies[j])) {
        Some(j)
    } else {
        combat_target_from(mask, it, baddies, j + 1)
    }
}

/// The baddie a thrown item defeats this frame, if any: the first
/// unmarked baddie it overlaps.  A non-thrown item defeats nobody.
pub open spec fn combat_target(mask: Seq<bool>, it: Item, baddies: Seq<Baddie>) -> Option<int> {
    if it.state == ItemState::Thrown {
        combat_target_from(mask, it, baddies, 0)
    } else {
        None
    }
}

/// The baddie marks after the first `k` items were matched, in item
/// order: each thrown item marks at most one baddie, first match wins.
pub open spec fn baddie_marks_upto(items: Seq<Item>, baddies: Seq<Baddie>, k: int) -> Seq<bool>
    decreases k,
{
    if k <= 0 {
        no_marks(baddies.len())
    } else {
        let prev = baddie_marks_upto(items, baddies, k - 1);
        match combat_target(prev, items[k - 1], baddies) {
            Some(j) => prev.update(j, true),
            None => prev,
        }
    }
}

/// The baddies defeated this frame.
pub open spec fn baddie_marks(items: Seq<Item>, baddies: Seq<Baddie>) -> Seq<bool> {
    baddie_marks_upto(items, baddies, items.len() as int)
}

/// Whether item `k` is consumed this frame: it found an unmarked baddie
/// given the marks left by the items before it.
pub open spec fn item_marked(items: Seq<Item>, baddies: Seq<Baddie>, k: int) -> bool {
    combat_target(baddie_marks_upto(items, baddies, k), items[k], baddies) is Some
}

/// The items consumed this frame.
pub open spec fn item_marks(items: Seq<Item>, baddies: Seq<Baddie>) -> Seq<bool> {
    Seq::new(items.len(), |k: int| item_marked(items, baddies, k))
}

/// `s` with the marked elements removed, order kept.
pub open spec fn retain_unmarked<T>(s: Seq<T>, mask: Seq<bool>) -> Seq<T>
    decreases s.len(),
{
    if s.len() == 0 {
        Seq::empty()
    } else {
        retain_unmarked(s.drop_last(), mask) + if mask[s.len() - 1] {
            Seq::empty()
        } else {
            seq![s.last()]
        }
    }
}

/// The blocks after the defeated baddies released their grabs: a block
/// a defeated baddie was grabbing reverts to idle, all else unchanged.
pub open spec fn blocks_after_combat(
    blocks: Seq<Block>,
    baddies: Seq<Baddie>,
    bmask: Seq<bool>,
) -> Seq<Block> {
    Seq::new(
        blocks.len(),
        |j: int|
            if exists|b: int|
                0 <= b < baddies.len() && bmask[b] && (#[trigger] baddies[b]).grabbed_block_id
                    == Some(j as usize) {
                Block { state: BlockState::Idle, ..blocks[j] }
            } else {
                blocks[j]
            },
    )
}

/// The items after the defeated baddies released their holds: an item a
/// defeated baddie was holding reverts to idle, all else unchanged.
pub open spec fn items_after_combat(
    items: Seq<Item>,
    baddies: Seq<Baddie>,
    bmask: Seq<bool>,
) -> Seq<Item> {
    Seq::new(
        items.len(),
        |j: int|
            if exists|b: int|
                0 <= b < baddies.len() && bmask[b] && (#[trigger] baddies[b]).held_item_id == Some(
                    j as usize,
                ) {
                Item { state: ItemState::Idle, ..items[j] }
            } else {
                items[j]
            },
    )
}

/// The parts of the game the combat pass never touches.
pub open spec fn combat_untouched(g1: Game, g0: Game) -> bool {
    &&& g1.gamestate == g0.gamestate
    &&& g1.camera == g0.camera
    &&& g1.player == g0.player
    &&& g1.level.ground == g0.level.ground
    &&& g1.level.ceiling == g0.level.ceiling
    &&& g1.level.left_wall == g0.level.left_wall
    &&& g1.level.right_wall == g0.level.right_wall
    &&& g1.level.platforms@ == g0.level.platforms@
}

/// Whether block `i` has a carrier: the player holding it, or some
/// baddie grabbing it.
pub open spec fn spec_block_is_held(
    held: Option<HeldObject>,
    baddies: Seq<Baddie>,
    i: int,
) -> bool {
    ||| held == Some(HeldObject::Block(i as usize))
    ||| exists|b: int|
        0 <= b < baddies.len() && (#[trigger] baddies[b]).grabbed_block_id == Some(i as usize)
}

/// The world pass's outcome for item `i`: a free airborne item takes a
/// physics step and a resolution against the level; a free grounded
/// item rests; a hooked item with no carrier left reverts to idle; a
/// carried item is left to its carrier.
pub open spec fn world_item_outcome(
    it: Item,
    held: Option<HeldObject>,
    baddies: Seq<Baddie>,
    i: int,
    platforms: Seq<Rect>,
    blocks: Seq<Block>,
    ground: Rect,
    lw: Rect,
    rw: Rect,
    dt: int,
) -> Item {
    if it.state != ItemState::Hooked {
        if !it.on_ground {
            spec_resolve_item(item_updated(it, dt), platforms, blocks, ground, lw, rw, dt)
        } else {
            it
        }
    } else {
        if spec_item_is_held(held, baddies, i) {
            it
        } else {
            Item { state: ItemState::Idle, ..it }
        }
    }
}

/// The block collection after the world pass has processed the first
/// `k` blocks, in order: each free airborne block takes a physics step
/// and a resolution against the platforms, the ground and every other
/// block as it stands at that moment; a hooked block with no carrier
/// left reverts to idle.
pub open spec fn world_blocks_upto(
    blocks0: Seq<Block>,
    held: Option<HeldObject>,
    baddies: Seq<Baddie>,
    platforms: Seq<Rect>,
    ground: Rect,
    lw: Rect,
    rw: Rect,
    dt: int,
    k: int,
) -> Seq<Block>
    decreases k,
{
    if k <= 0 {
        blocks0
    } else {
        let cur = world_blocks_upto(blocks0, held, baddies, platforms, ground, lw, rw, dt, k - 1);
        let b = cur[k - 1];
        let b1 = if b.state != BlockState::Hooked {
            if !b.on_ground {
                spec_resolve_block(
                    block_updated(b, dt),
                    platforms,
                    cur.remove(k - 1),
                    ground,
                    lw,
                    rw,
                    dt,
                )
            } else {
                b
            }
        } else {
            if spec_block_is_held(held, baddies, k - 1) {
                b
            } else {
                Block { state: BlockState::Idle, ..b }
            }
        };
        cur.update(k - 1, b1)
    }
}

/// The player pass as a relation between the frame states before and
/// after it: the player takes its input-driven physics step, runs the
/// interaction pass over the items and blocks, and is resolved against
/// the level; nothing else moves.
pub open spec fn player_phase_rel(g0: Game, input: Input, dt: int, g1: Game) -> bool {
    &&& g1.gamestate == g0.gamestate
    &&& g1.camera == g0.camera
    &&& g1.baddies@ == g0.baddies@
    &&& g1.level.ground == g0.level.ground
    &&& g1.level.ceiling == g0.level.ceiling
    &&& g1.level.left_wall == g0.level.left_wall
    &&& g1.level.right_wall == g0.level.right_wall
    &&& g1.level.platforms@ == g0.level.platforms@
    &&& exists|p2: Player|
        {
            &&& #[trigger] player_interactions_rel(
                player_updated(g0.player, input, dt),
                g0.level.items@,
                g0.level.blocks@,
                input.space_pressed,
                p2,
                g1.level.items@,
                g1.level.blocks@,
            )
            &&& g1.player == spec_resolve_player(
                p2,
                g0.level.platforms@,
                g1.level.items@,
                g1.level.blocks@,
                g0.level.ground,
                g0.level.left_wall,
                g0.level.right_wall,
                g0.level.ceiling,
                dt,
            )
        }
}

/// The world pass as a relation between the frame states before and
/// after it: player, baddies, camera and geometry untouched, every item
/// at its `world_item_outcome`, and the blocks equal to the sequential
/// block pass.
pub open spec fn world_phase_rel(g0: Game, dt: int, g1: Game) -> bool {
    &&& combat_untouched(g1, g0)
    &&& g1.baddies@ == g0.baddies@
    &&& g1.level.items@.len() == g0.level.items@.len()
    &&& forall|i: int|
        0 <= i < g0.level.items@.len() ==> #[trigger] g1.level.items@[i] == world_item_outcome(
            g0.level.items@[i],
            g0.player.held_object,
            g0.baddies@,
            i,
            g0.level.platforms@,
            g0.level.blocks@,
            g0.level.ground,
            g0.level.left_wall,
            g0.level.right_wall,
            dt,
        )
    &&& g1.level.blocks@ == world_blocks_upto(
        g0.level.blocks@,
        g0.player.held_object,
        g0.baddies@,
        g0.level.platforms@,
        g0.level.ground,
        g0.level.left_wall,
        g0.level.right_wall,
        dt,
        g0.level.blocks@.len() as int,
    )
}

/// The blocks after the slaving pass has processed the first `k`
/// baddies, in order: each baddie carrying a live block reference moves
/// that block flush to its own box; a stale reference moves nothing.
pub open spec fn slaved_blocks_upto(baddies: Seq<Baddie>, blocks0: Seq<Block>, k: int) -> Seq<
    Block,
>
    decreases k,
{
    if k <= 0 {
        blocks0
    } else {
        let cur = slaved_blocks_upto(baddies, blocks0, k - 1);
        let bd = baddies[k - 1];
        match bd.grabbed_block_id {
            Some(id) => if id < cur.len() {
                cur.update(
                    id as int,
                    carried_block_by(cur[id as int], bd.position, bd.size, bd.facing_right),
                )
            } else {
                cur
            },
            None => cur,
        }
    }
}

/// What one baddie pass can do to the collections: the counts stand,
/// a block changes at most from idle to hooked, and no body changes
/// size.
pub open spec fn baddies_pass_envelope(
    g0: Game,
    baddies1: Seq<Baddie>,
    items1: Seq<Item>,
    blocks1: Seq<Block>,
) -> bool {
    &&& baddies1.len() == g0.baddies@.len()
    &&& items1.len() == g0.level.items@.len()
    &&& blocks1.len() == g0.level.blocks@.len()
    &&& forall|i: int|
        0 <= i < blocks1.len() ==> #[trigger] blocks1[i] == g0.level.blocks@[i] || (
        g0.level.blocks@[i].state == BlockState::Idle && blocks1[i] == (Block {
            state: BlockState::Hooked,
            ..g0.level.blocks@[i]
        }))
    &&& forall|i: int| 0 <= i < items1.len() ==> (#[trigger] items1[i]).size == g0.level.items@[i].size
    &&& forall|i: int|
        0 <= i < baddies1.len() ==> (#[trigger] baddies1[i]).size == g0.baddies@[i].size
}

/// The baddie pass as a relation between the frame states before and
/// after it: there are intermediate collections, within the pass's
/// envelope of the start state, such that the grabbed blocks were
/// slaved to their baddies and the combat and cleanup equations were
/// then applied to them.
pub open spec fn baddies_phase_rel(g0: Game, dt: int, g1: Game) -> bool {
    &&& combat_untouched(g1, g0)
    &&& exists|baddies1: Seq<Baddie>, items1: Seq<Item>, blocks1: Seq<Block>|
        {
            &&& #[trigger] baddies_pass_envelope(g0, baddies1, items1, blocks1)
            &&& ({
                let blocks2 = slaved_blocks_upto(baddies1, blocks1, baddies1.len() as int);
                let bmask = baddie_marks(items1, baddies1);
                let imask = item_marks(items1, baddies1);
                &&& g1.baddies@ == retain_unmarked(baddies1, bmask)
                &&& g1.level.items@ == retain_unmarked(
                    items_after_combat(items1, baddies1, bmask),
                    imask,
                )
                &&& g1.level.blocks@ == blocks_after_combat(blocks2, baddies1, bmask)
            })
        }
}

/// `combat_target_from` returns the least unmarked overlapped index at
/// or after `j`, or reports that none exists.
proof fn lemma_combat_target_from(mask: Seq<bool>, it: Item, baddies: Seq<Baddie>, j: int)
    requires
        0 <= j <= baddies.len(),
    ensures
        match combat_target_from(mask, it, baddies, j) {
            Some(t) => j <= t < baddies.len() && !mask[t] && overlap(
                item_rect(it),
                baddie_rect(baddies[t]),
            ) && forall|m: int|
                j <= m < t ==> !(!mask[m] && overlap(item_rect(it), baddie_rect(#[trigger] baddies[m]))),
            None => forall|m: int|
                j <= m < baddies.len() ==> !(!mask[m] && overlap(
                    item_rect(it),
                    baddie_rect(#[trigger] baddies[m]),
                )),
        },
    decreases baddies.len() - j,
{
    if j < baddies.len() {
        if !(!mask[j] && overlap(item_rect(it), baddie_rect(baddies[j]))) {
            lemma_combat_target_from(mask, it, baddies, j + 1);
        }
    }
}

/// A mask of `n` entries, none set.
fn false_mask(n: usize) -> (r: Vec<bool>)
    ensures
        r@ == no_marks(n as nat),
{
    let mut r: Vec<bool> = Vec::new();
    let mut i: usize = 0;
    while i < n
        invariant
            i <= n,
            r@.len() == i,
            forall|j: int| 0 <= j < i ==> #[trigger] r@[j] == false,
        decreases n - i,
    {
        r.push(false);
        i = i + 1;
    }
    proof {
        assert(r@ =~= no_marks(n as nat));
    }
    r
}

/// Finds the baddie a thrown item defeats: the first unmarked baddie
/// whose box the item touches.
fn find_combat_target(mask: &Vec<bool>, it: &Item, baddies: &Vec<Baddie>) -> (r: Option<usize>)
    requires
        mask@.len() == baddies@.len(),
    ensures
        match r {
            Some(j) => j < baddies@.len() && combat_target(mask@, *it, baddies@) == Some(j as int),
            None => combat_target(mask@, *it, baddies@) is None,
        },
{
    if it.state != ItemState::Thrown {
        return None;
    }
    let irect = it.rect();
    let mut j: usize = 0;
    while j < baddies.len()
        invariant
            j <= baddies@.len(),
            mask@.len() == baddies@.len(),
            it.state == ItemState::Thrown,
            irect == item_rect(*it),
            forall|m: int|
                0 <= m < j ==> !(!mask@[m] && overlap(
                    item_rect(*it),
                    baddie_rect(#[trigger] baddies@[m]),
                )),
        decreases baddies@.len() - j,
    {
        if !mask[j] && irect.overlaps(&baddies[j].rect()) {
            proof {
                lemma_combat_target_from(mask@, *it, baddies@, 0);
            }
            return Some(j);
        }
        j = j + 1;
    }
    proof {
        lemma_combat_target_from(mask@, *it, baddies@, 0);
    }
    None
}

/// Decides whether block `i` currently has a carrier.
fn block_is_held(held: Option<HeldObject>, baddies: &Vec<Baddie>, i: usize) -> (r: bool)
    ensures
        r == spec_block_is_held(held, baddies@, i as int),
{
    match held {
        Some(HeldObject::Block(id)) => {
            if id == i {
                return true;
            }
        },
        _ => {},
    }
    let mut b: usize = 0;
    while b < baddies.len()
        invariant
            b <= baddies@.len(),
            forall|m: int| 0 <= m < b ==> (#[trigger] baddies@[m]).grabbed_block_id != Some(i),
        decreases baddies@.len() - b,
    {
        match baddies[b].grabbed_block_id {
            Some(id) => {
                if id == i {
                    return true;
                }
            },
            None => {},
        }
        b = b + 1;
    }
    false
}

/// A copy of `blocks` with index `skip` left out, order kept: the
/// collider set of the block being resolved.
fn blocks_excluding(blocks: &Vec<Block>, skip: usize) -> (r: Vec<Block>)
    requires
        skip < blocks@.len(),
    ensures
        r@ == blocks@.remove(skip as int),
        r@.len() == blocks@.len() - 1,
        forall|j: int|
            0 <= j < r@.len() ==> #[trigger] r@[j] == if j < skip {
                blocks@[j]
            } else {
                blocks@[j + 1]
            },
{
    let mut r: Vec<Block> = Vec::new();
    let mut i: usize = 0;
    while i < blocks.len()
        invariant
            i <= blocks@.len(),
            skip < blocks@.len(),
            i <= skip ==> r@ == blocks@.subrange(0, i as int),
            i > skip ==> r@ == blocks@.subrange(0, skip as int) + blocks@.subrange(
                skip as int + 1,
                i as int,
            ),
        decreases blocks@.len() - i,
    {
        if i != skip {
            r.push(blocks[i]);
        }
        proof {
            if i < skip {
                assert(r@ =~= blocks@.subrange(0, i as int + 1));
            } else if i == skip {
                assert(r@ =~= blocks@.subrange(0, skip as int) + blocks@.subrange(
                    skip as int + 1,
                    i as int + 1,
                ));
            } else {
                assert(r@ =~= blocks@.subrange(0, skip as int) + blocks@.subrange(
                    skip as int + 1,
                    i as int + 1,
                ));
            }
        }
        i = i + 1;
    }
    proof {
        assert(r@ =~= blocks@.remove(skip as int));
    }
    r
}

/// Whether item `i` is held by the player or by some baddie.
pub open spec fn spec_item_is_held(
    held: Option<HeldObject>,
    baddies: Seq<Baddie>,
    i: int,
) -> bool {
    ||| held == Some(HeldObject::Item(i as usize))
    ||| exists|b: int| 0 <= b < baddies.len() && (#[trigger] baddies[b]).held_item_id == Some(i as usize)
}

/// Decides whether item `i` currently has a carrier.
fn item_is_held(held: Option<HeldObject>, baddies: &Vec<Baddie>, i: usize) -> (r: bool)
    ensures
        r == spec_item_is_held(held, baddies@, i as int),
{
    match held {
        Some(HeldObject::Item(id)) => {
            if id == i {
                return true;
            }
        },
        _ => {},
    }
    let mut b: usize = 0;
    while b < baddies.len()
        invariant
            b <= baddies@.len(),
            forall|m: int| 0 <= m < b ==> (#[trigger] baddies@[m]).held_item_id != Some(i),
        decreases baddies@.len() - b,
    {
        match baddies[b].held_item_id {
            Some(id) => {
                if id == i {
                    return true;
                }
            },
            None => {},
        }
        b = b + 1;
    }
    false
}

impl Game {
    /// A fresh game on the intro screen: a new player and level, the
    /// camera sized to the given view, and the full roster of baddies
    /// spawned at random columns at mid-height.
    pub fn new(view_w: i32, view_h: i32) -> (g: Game)
        requires
            0 < view_w <= GEO_LIMIT,
            0 < view_h <= GEO_LIMIT,
        ensures
            g.gamestate == GameState::Intro,
            g.player == fresh_player(),
            level_shape_ok(g.level),
            g.camera.rect == (Rect { x: 0, y: (LEVEL_HEIGHT - view_h) as i32, w: view_w, h: view_h }),
            g.baddies@.len() == MAX_BADDIES,
            forall|i: int|
                0 <= i < g.baddies@.len() ==> (#[trigger] g.baddies@[i]) == fresh_baddie(
                    g.baddies@[i].position,
                    g.baddies@[i].facing_right,
                ) && 0 <= g.baddies@[i].position.x < LEVEL_WIDTH && g.baddies@[i].position.y
                    == LEVEL_HEIGHT / 2,
            game_wf(g),
    {
        let player = Player::new();
        let level = Level::new();
        let camera = Camera::new(view_w, view_h);
        let mut baddies: Vec<Baddie> = Vec::new();
        let mut i: usize = 0;
        while i < MAX_BADDIES
            invariant
                i <= MAX_BADDIES,
                baddies@.len() == i,
                forall|j: int| 0 <= j < baddies@.len() ==> baddie_wf(#[trigger] baddies@[j]),
                forall|j: int|
                    0 <= j < baddies@.len() ==> (#[trigger] baddies@[j]) == fresh_baddie(
                        baddies@[j].position,
                        baddies@[j].facing_right,
                    ) && 0 <= baddies@[j].position.x < LEVEL_WIDTH && baddies@[j].position.y
                        == LEVEL_HEIGHT / 2,
            decreases MAX_BADDIES - i,
        {
            let x = random_below(LEVEL_WIDTH as u32) as i32;
            let y = LEVEL_HEIGHT / 2;
            baddies.push(Baddie::new(Vec2 { x, y }));
            i = i + 1;
        }
        Game { gamestate: GameState::Intro, player, level, camera, baddies }
    }

    /// Frame steps seven and eight: combat and cleanup.
    ///
    /// Every thrown item defeats the first not-yet-defeated baddie it
    /// overlaps, in item-then-baddie order, at most one baddie per item
    /// and one item per baddie.  A defeated baddie's grabbed block and
    /// held item revert to idle.  The defeated baddies and the consumed
    /// items are then removed from their collections, order kept.
    pub fn resolve_combat_and_cleanup(&mut self)
        requires
            game_wf(*old(self)),
        ensures
            game_wf(*final(self)),
            final(self).gamestate == old(self).gamestate,
            final(self).camera == old(self).camera,
            final(self).player == old(self).player,
            final(self).level.ground == old(self).level.ground,
            final(self).level.ceiling == old(self).level.ceiling,
            final(self).level.left_wall == old(self).level.left_wall,
            final(self).level.right_wall == old(self).level.right_wall,
            final(self).level.platforms@ == old(self).level.platforms@,
            final(self).level.blocks@.len() == old(self).level.blocks@.len(),
            final(self).level.items@.len() <= old(self).level.items@.len(),
            final(self).baddies@.len() <= old(self).baddies@.len(),
            ({
                let items0 = old(self).level.items@;
                let baddies0 = old(self).baddies@;
                let blocks0 = old(self).level.blocks@;
                let bmask = baddie_marks(items0, baddies0);
                let imask = item_marks(items0, baddies0);
                &&& final(self).level.blocks@ == blocks_after_combat(blocks0, baddies0, bmask)
                &&& final(self).level.items@ == retain_unmarked(
                    items_after_combat(items0, baddies0, bmask),
                    imask,
                )
                &&& final(self).baddies@ == retain_unmarked(baddies0, bmask)
            }),
    {
        let ghost items0 = self.level.items@;
        let ghost baddies0 = self.baddies@;
        let ghost blocks0 = self.level.blocks@;

        let mut bmask = false_mask(self.baddies.len());
        let mut imask = false_mask(self.level.items.len());

        let mut k: usize = 0;
        while k < self.level.items.len()
            invariant
                k <= items0.len(),
                combat_untouched(*self, *old(self)),
                game_wf(*old(self)),
                items0 == old(self).level.items@,
                baddies0 == old(self).baddies@,
                blocks0 == old(self).level.blocks@,
                self.level.items@ == items0,
                self.baddies@ == baddies0,
                self.level.blocks@ == blocks0,
                bmask@ == baddie_marks_upto(items0, baddies0, k as int),
                bmask@.len() == baddies0.len(),
                imask@.len() == items0.len(),
                forall|j: int| 0 <= j < k ==> #[trigger] imask@[j] == item_marked(items0, baddies0, j),
                forall|j: int| k <= j < items0.len() ==> #[trigger] imask@[j] == false,
            decreases items0.len() - k,
        {
            let it = self.level.items[k];
            match find_combat_target(&bmask, &it, &self.baddies) {
                Some(j) => {
                    bmask[j] = true;
                    imask[k] = true;
                },
                None => {},
            }
            k = k + 1;
        }

        let mut b: usize = 0;
        while b < self.baddies.len()
            invariant
                b <= baddies0.len(),
                combat_untouched(*self, *old(self)),
                game_wf(*old(self)),
                items0 == old(self).level.items@,
                baddies0 == old(self).baddies@,
                blocks0 == old(self).level.blocks@,
                self.baddies@ == baddies0,
                bmask@ == baddie_marks(items0, baddies0),
                bmask@.len() == baddies0.len(),
                self.level.blocks@.len() == blocks0.len(),
                self.level.items@.len() == items0.len(),
                forall|i: int| 0 <= i < self.level.blocks@.len() ==> block_wf(
                    #[trigger] self.level.blocks@[i],
                ),
                forall|i: int| 0 <= i < self.level.items@.len() ==> item_wf(
                    #[trigger] self.level.items@[i],
                ),
                forall|j: int|
                    0 <= j < blocks0.len() ==> #[trigger] self.level.blocks@[j] == if exists|m: int|
                        0 <= m < b && bmask@[m] && (#[trigger] baddies0[m]).grabbed_block_id
                            == Some(j as usize) {
                        Block { state: BlockState::Idle, ..blocks0[j] }
                    } else {
                        blocks0[j]
                    },
                forall|j: int|
                    0 <= j < items0.len() ==> #[trigger] self.level.items@[j] == if exists|m: int|
                        0 <= m < b && bmask@[m] && (#[trigger] baddies0[m]).held_item_id == Some(
                            j as usize,
                        ) {
                        Item { state: ItemState::Idle, ..items0[j] }
                    } else {
                        items0[j]
                    },
            decreases baddies0.len() - b,
        {
            let ghost blocks_pre = self.level.blocks@;
            let ghost items_pre = self.level.items@;
            if bmask[b] {
                let bd = self.baddies[b];
                match bd.grabbed_block_id {
                    Some(bid) => {
                        if bid < self.level.blocks.len() {
                            let mut blk = self.level.blocks[bid];
                            blk.state = BlockState::Idle;
                            self.level.blocks[bid] = blk;
                        }
                    },
                    None => {},
                }
                match bd.held_item_id {
                    Some(iid) => {
                        if iid < self.level.items.len() {
                            let mut itm = self.level.items[iid];
                            itm.state = ItemState::Idle;
                            self.level.items[iid] = itm;
                        }
                    },
                    None => {},
                }
            }
            proof {
                assert forall|j: int| 0 <= j < blocks0.len() implies #[trigger] self.level.blocks@[j]
                    == if exists|m: int|
                    0 <= m < b + 1 && bmask@[m] && (#[trigger] baddies0[m]).grabbed_block_id
                        == Some(j as usize) {
                    Block { state: BlockState::Idle, ..blocks0[j] }
                } else {
                    blocks0[j]
                } by {
                    if bmask@[b as int] && baddies0[b as int].grabbed_block_id == Some(j as usize) {
                        assert(0 <= (b as int) < b + 1 && bmask@[b as int]
                            && baddies0[b as int].grabbed_block_id == Some(j as usize));
                    } else {
                        if exists|m: int|
                            0 <= m < b && bmask@[m] && (#[trigger] baddies0[m]).grabbed_block_id
                                == Some(j as usize) {
                            let m = choose|m: int|
                                0 <= m < b && bmask@[m] && (#[trigger] baddies0[m]).grabbed_block_id
                                    == Some(j as usize);
                            assert(0 <= m < b + 1 && bmask@[m]
                                && baddies0[m].grabbed_block_id == Some(j as usize));
                        }
                    }
                }
                assert forall|j: int| 0 <= j < items0.len() implies #[trigger] self.level.items@[j]
                    == if exists|m: int|
                    0 <= m < b + 1 && bmask@[m] && (#[trigger] baddies0[m]).held_item_id == Some(
                        j as usize,
                    ) {
                    Item { state: ItemState::Idle, ..items0[j] }
                } else {
                    items0[j]
                } by {
                    if bmask@[b as int] && baddies0[b as int].held_item_id == Some(j as usize) {
                        assert(0 <= (b as int) < b + 1 && bmask@[b as int]
                            && baddies0[b as int].held_item_id == Some(j as usize));
                    } else {
                        if exists|m: int|
                            0 <= m < b && bmask@[m] && (#[trigger] baddies0[m]).held_item_id
                                == Some(j as usize) {
                            let m = choose|m: int|
                                0 <= m < b && bmask@[m] && (#[trigger] baddies0[m]).held_item_id
                                    == Some(j as usize);
                            assert(0 <= m < b + 1 && bmask@[m]
                                && baddies0[m].held_item_id == Some(j as usize));
                        }
                    }
                }
            }
            b = b + 1;
        }
        proof {
            assert(self.level.blocks@ =~= blocks_after_combat(
                blocks0,
                baddies0,
                baddie_marks(items0, baddies0),
            ));
            assert(self.level.items@ =~= items_after_combat(
                items0,
                baddies0,
                baddie_marks(items0, baddies0),
            ));
        }

        let ghost items1 = self.level.items@;
        let mut kept_items: Vec<Item> = Vec::new();
        let mut n: usize = 0;
        while n < self.level.items.len()
            invariant
                n <= items1.len(),
                combat_untouched(*self, *old(self)),
                game_wf(*old(self)),
                items0 == old(self).level.items@,
                baddies0 == old(self).baddies@,
                blocks0 == old(self).level.blocks@,
                self.baddies@ == baddies0,
                self.level.blocks@ == blocks_after_combat(
                    blocks0,
                    baddies0,
                    baddie_marks(items0, baddies0),
                ),
                forall|i: int| 0 <= i < self.level.blocks@.len() ==> block_wf(
                    #[trigger] self.level.blocks@[i],
                ),
                forall|i: int| 0 <= i < self.level.items@.len() ==> item_wf(
                    #[trigger] self.level.items@[i],
                ),
                forall|i: int| 0 <= i < kept_items@.len() ==> item_wf(#[trigger] kept_items@[i]),
                self.level.items@ == items1,
                items1.len() == items0.len(),
                imask@.len() == items0.len(),
                forall|j: int| 0 <= j < items0.len() ==> #[trigger] imask@[j] == item_marked(items0, baddies0, j),
                kept_items@ == retain_unmarked(items1.subrange(0, n as int), imask@),
                kept_items@.len() <= n,
            decreases items1.len() - n,
        {
            proof {
                assert(items1.subrange(0, n as int + 1).drop_last() =~= items1.subrange(0, n as int));
                assert(items1.subrange(0, n as int + 1).last() == items1[n as int]);
            }
            if !imask[n] {
                kept_items.push(self.level.items[n]);
            }
            n = n + 1;
        }
        proof {
            assert(items1.subrange(0, items1.len() as int) =~= items1);
            assert(imask@ =~= item_marks(items0, baddies0));
        }
        self.level.items = kept_items;

        let mut kept_baddies: Vec<Baddie> = Vec::new();
        let mut m: usize = 0;
        while m < self.baddies.len()
            invariant
                m <= baddies0.len(),
                combat_untouched(*self, *old(self)),
                game_wf(*old(self)),
                items0 == old(self).level.items@,
                baddies0 == old(self).baddies@,
                blocks0 == old(self).level.blocks@,
                self.baddies@ == baddies0,
                bmask@ == baddie_marks(items0, baddies0),
                bmask@.len() == baddies0.len(),
                self.level.blocks@ == blocks_after_combat(
                    blocks0,
                    baddies0,
                    baddie_marks(items0, baddies0),
                ),
                self.level.items@ == retain_unmarked(
                    items_after_combat(items0, baddies0, baddie_marks(items0, baddies0)),
                    item_marks(items0, baddies0),
                ),
                self.level.items@.len() <= items0.len(),
                forall|i: int| 0 <= i < self.level.blocks@.len() ==> block_wf(
                    #[trigger] self.level.blocks@[i],
                ),
                forall|i: int| 0 <= i < self.level.items@.len() ==> item_wf(
                    #[trigger] self.level.items@[i],
                ),
                forall|i: int| 0 <= i < kept_baddies@.len() ==> baddie_wf(
                    #[trigger] kept_baddies@[i],
                ),
                kept_baddies@ == retain_unmarked(baddies0.subrange(0, m as int), bmask@),
                kept_baddies@.len() <= m,
            decreases baddies0.len() - m,
        {
            proof {
                assert(baddies0.subrange(0, m as int + 1).drop_last() =~= baddies0.subrange(
                    0,
                    m as int,
                ));
                assert(baddies0.subrange(0, m as int + 1).last() == baddies0[m as int]);
            }
            if !bmask[m] {
                kept_baddies.push(self.baddies[m]);
            }
            m = m + 1;
        }
        proof {
            assert(baddies0.subrange(0, baddies0.len() as int) =~= baddies0);
        }
        self.baddies = kept_baddies;
    }

    /// Frame step one: the player's physics, its interaction pass over
    /// the items and blocks, and its collision resolution.
    pub fn update_player_and_collisions(&mut self, input: Input, dt: u32)
        requires
            game_wf(*old(self)),
            0 < dt <= MAX_DT,
        ensures
            game_wf(*final(self)),
            player_phase_rel(*old(self), input, dt as int, *final(self)),
            final(self).level.items@.len() == old(self).level.items@.len(),
            final(self).level.blocks@.len() == old(self).level.blocks@.len(),
    {
        self.player.update(input, dt);
        self.player.process_interactions(
            &mut self.level.items,
            &mut self.level.blocks,
            input.space_pressed,
        );
        let ghost p2 = self.player;
        resolve_player_collisions(
            &mut self.player,
            &self.level.platforms,
            &self.level.items,
            &self.level.blocks,
            &self.level.ground,
            &self.level.left_wall,
            &self.level.right_wall,
            &self.level.ceiling,
            dt,
        );
        proof {
            assert(player_interactions_rel(
                player_updated(old(self).player, input, dt as int),
                old(self).level.items@,
                old(self).level.blocks@,
                input.space_pressed,
                p2,
                self.level.items@,
                self.level.blocks@,
            ));
        }
    }

    /// Frame steps two and three: physics and collision resolution for
    /// every free item and block; a hooked item or block with no carrier
    /// left reverts to idle.
    pub fn update_world_objects(&mut self, dt: u32)
        requires
            game_wf(*old(self)),
            0 < dt <= MAX_DT,
        ensures
            game_wf(*final(self)),
            world_phase_rel(*old(self), dt as int, *final(self)),
            final(self).level.items@.len() == old(self).level.items@.len(),
            final(self).level.blocks@.len() == old(self).level.blocks@.len(),
    {
        let mut i: usize = 0;
        while i < self.level.items.len()
            invariant
                game_wf(*self),
                game_wf(*old(self)),
                0 < dt <= MAX_DT,
                i <= self.level.items@.len(),
                combat_untouched(*self, *old(self)),
                self.baddies@ == old(self).baddies@,
                self.level.blocks@ == old(self).level.blocks@,
                self.level.items@.len() == old(self).level.items@.len(),
                forall|j: int|
                    0 <= j < i ==> #[trigger] self.level.items@[j] == world_item_outcome(
                        old(self).level.items@[j],
                        old(self).player.held_object,
                        old(self).baddies@,
                        j,
                        old(self).level.platforms@,
                        old(self).level.blocks@,
                        old(self).level.ground,
                        old(self).level.left_wall,
                        old(self).level.right_wall,
                        dt as int,
                    ),
                forall|j: int|
                    i <= j < self.level.items@.len() ==> #[trigger] self.level.items@[j] == old(
                        self,
                    ).level.items@[j],
            decreases self.level.items@.len() - i,
        {
            let it = self.level.items[i];
            if it.state != ItemState::Hooked {
                if !it.on_ground {
                    let mut moved = it;
                    moved.update(dt);
                    resolve_item_collisions(
                        &mut moved,
                        &self.level.platforms,
                        &self.level.blocks,
                        &self.level.ground,
                        &self.level.left_wall,
                        &self.level.right_wall,
                        dt,
                    );
                    self.level.items[i] = moved;
                }
            } else {
                if !item_is_held(self.player.held_object, &self.baddies, i) {
                    let mut freed = it;
                    freed.state = ItemState::Idle;
                    self.level.items[i] = freed;
                }
            }
            i = i + 1;
        }
        let ghost items_done = self.level.items@;

        let mut k: usize = 0;
        while k < self.level.blocks.len()
            invariant
                game_wf(*self),
                game_wf(*old(self)),
                0 < dt <= MAX_DT,
                k <= self.level.blocks@.len(),
                combat_untouched(*self, *old(self)),
                self.baddies@ == old(self).baddies@,
                self.level.items@.len() == old(self).level.items@.len(),
                self.level.items@ == items_done,
                self.level.blocks@.len() == old(self).level.blocks@.len(),
                self.level.blocks@ == world_blocks_upto(
                    old(self).level.blocks@,
                    old(self).player.held_object,
                    old(self).baddies@,
                    old(self).level.platforms@,
                    old(self).level.ground,
                    old(self).level.left_wall,
                    old(self).level.right_wall,
                    dt as int,
                    k as int,
                ),
            decreases self.level.blocks@.len() - k,
        {
            let ghost cur = self.level.blocks@;
            let b = self.level.blocks[k];
            if b.state != BlockState::Hooked {
                if !b.on_ground {
                    let mut moved = b;
                    moved.update(dt);
                    let others = blocks_excluding(&self.level.blocks, k);
                    proof {
                        assert forall|j: int| 0 <= j < others@.len() implies block_wf(
                            #[trigger] others@[j],
                        ) by {
                            if j < k {
                                assert(others@[j] == self.level.blocks@[j]);
                            } else {
                                assert(others@[j] == self.level.blocks@[j + 1]);
                            }
                        }
                    }
                    resolve_block_collisions(
                        &mut moved,
                        &self.level.platforms,
                        &others,
                        &self.level.ground,
                        &self.level.left_wall,
                        &self.level.right_wall,
                        dt,
                    );
                    self.level.blocks[k] = moved;
                }
            } else {
                if !block_is_held(self.player.held_object, &self.baddies, k) {
                    let mut freed = b;
                    freed.state = BlockState::Idle;
                    self.level.blocks[k] = freed;
                }
            }
            proof {
                if b.state != BlockState::Hooked && b.on_ground {
                    assert(self.level.blocks@ =~= cur.update(k as int, cur[k as int]));
                }
                if b.state == BlockState::Hooked && spec_block_is_held(
                    old(self).player.held_object,
                    old(self).baddies@,
                    k as int,
                ) {
                    assert(self.level.blocks@ =~= cur.update(k as int, cur[k as int]));
                }
            }
            k = k + 1;
        }
    }

    /// Frame steps five to eight: each baddie's physics, interactions
    /// and collisions, then the slaving of grabbed blocks to their
    /// carriers, then combat and cleanup.
    pub fn update_baddies_and_collisions(&mut self, dt: u32)
        requires
            game_wf(*old(self)),
            0 < dt <= MAX_DT,
        ensures
            game_wf(*final(self)),
            baddies_phase_rel(*old(self), dt as int, *final(self)),
            final(self).level.items@.len() <= old(self).level.items@.len(),
            final(self).level.blocks@.len() == old(self).level.blocks@.len(),
            final(self).baddies@.len() <= old(self).baddies@.len(),
    {
        let mut i: usize = 0;
        while i < self.baddies.len()
            invariant
                game_wf(*self),
                0 < dt <= MAX_DT,
                i <= self.baddies@.len(),
                self.gamestate == old(self).gamestate,
                self.camera == old(self).camera,
                self.player == old(self).player,
                self.baddies@.len() == old(self).baddies@.len(),
                self.level.ground == old(self).level.ground,
                self.level.ceiling == old(self).level.ceiling,
                self.level.left_wall == old(self).level.left_wall,
                self.level.right_wall == old(self).level.right_wall,
                self.level.platforms@ == old(self).level.platforms@,
                self.level.items@.len() == old(self).level.items@.len(),
                self.level.blocks@.len() == old(self).level.blocks@.len(),
                forall|j: int|
                    0 <= j < self.level.blocks@.len() ==> #[trigger] self.level.blocks@[j] == old(
                        self,
                    ).level.blocks@[j] || (old(self).level.blocks@[j].state == BlockState::Idle
                        && self.level.blocks@[j] == (Block {
                        state: BlockState::Hooked,
                        ..old(self).level.blocks@[j]
                    })),
                forall|j: int|
                    0 <= j < self.level.items@.len() ==> (#[trigger] self.level.items@[j]).size
                        == old(self).level.items@[j].size,
                forall|j: int|
                    0 <= j < self.baddies@.len() ==> (#[trigger] self.baddies@[j]).size == old(
                        self,
                    ).baddies@[j].size,
            decreases self.baddies@.len() - i,
        {
            let ghost blocks_in = self.level.blocks@;
            let ghost items_in = self.level.items@;
            let ghost bd_in = self.baddies@[i as int];
            let mut bd = self.baddies[i];
            bd.update(dt);
            proof {
                assert(bd.size == bd_in.size) by {
                    let (jr, dr) = choose|jr: int, dr: int|
                        0 <= jr < CHANCE_SCALE && 0 <= dr
                            < CHANCE_SCALE && bd == #[trigger] baddie_stepped(
                            bd_in,
                            dt as int,
                            jr,
                            dr,
                        );
                }
            }
            bd.process_interactions(&mut self.level.items, self.player.position);
            resolve_baddie_collisions(
                &mut bd,
                &self.level.platforms,
                &mut self.level.blocks,
                &mut self.level.items,
                &self.level.ground,
                &self.level.left_wall,
                &self.level.right_wall,
                &self.level.ceiling,
                dt,
            );
            self.baddies[i] = bd;
            proof {
                assert forall|j: int| 0 <= j < self.level.blocks@.len() implies #[trigger] self.level.blocks@[j]
                    == old(self).level.blocks@[j] || (old(self).level.blocks@[j].state
                    == BlockState::Idle && self.level.blocks@[j] == (Block {
                    state: BlockState::Hooked,
                    ..old(self).level.blocks@[j]
                })) by {
                    assert(blocks_in[j] == old(self).level.blocks@[j] || (
                    old(self).level.blocks@[j].state == BlockState::Idle && blocks_in[j] == (Block {
                        state: BlockState::Hooked,
                        ..old(self).level.blocks@[j]
                    })));
                }
            }
            i = i + 1;
        }

        let ghost baddies1 = self.baddies@;
        let ghost items1 = self.level.items@;
        let ghost blocks1 = self.level.blocks@;

        let mut b: usize = 0;
        while b < self.baddies.len()
            invariant
                game_wf(*self),
                b <= self.baddies@.len(),
                self.gamestate == old(self).gamestate,
                self.camera == old(self).camera,
                self.player == old(self).player,
                self.baddies@.len() == old(self).baddies@.len(),
                self.level.ground == old(self).level.ground,
                self.level.ceiling == old(self).level.ceiling,
                self.level.left_wall == old(self).level.left_wall,
                self.level.right_wall == old(self).level.right_wall,
                self.level.platforms@ == old(self).level.platforms@,
                self.level.items@.len() == old(self).level.items@.len(),
                self.level.blocks@.len() == old(self).level.blocks@.len(),
                self.baddies@ == baddies1,
                self.level.items@ == items1,
                blocks1.len() == self.level.blocks@.len(),
                self.level.blocks@ == slaved_blocks_upto(baddies1, blocks1, b as int),
            decreases self.baddies@.len() - b,
        {
            let bd = self.baddies[b];
            match bd.grabbed_block_id {
                Some(id) => {
                    if id < self.level.blocks.len() {
                        let mut blk = self.level.blocks[id];
                        carry_block(&mut blk, bd.position, bd.size, bd.facing_right);
                        self.level.blocks[id] = blk;
                    }
                },
                None => {},
            }
            b = b + 1;
        }

        let ghost blocks2 = self.level.blocks@;
        self.resolve_combat_and_cleanup();
        proof {
            assert(blocks2 == slaved_blocks_upto(baddies1, blocks1, baddies1.len() as int));
            assert(baddies_pass_envelope(*old(self), baddies1, items1, blocks1));
        }
    }

    /// One whole frame of the level: the ten-step sequence of player,
    /// world, baddies, combat, camera and terminal checks.
    ///
    /// The frame is the composition of the three pass relations — the
    /// player pass, the world pass and the baddie pass — followed by the
    /// camera follow; and the game ends exactly when, at the end of the
    /// frame, the player's box touches a baddie or a thrown item.
    pub fn update(&mut self, input: Input, dt: u32)
        requires
            game_wf(*old(self)),
            old(self).gamestate == GameState::Level1,
            0 < dt <= MAX_DT,
        ensures
            game_wf(*final(self)),
            final(self).level.blocks@.len() == old(self).level.blocks@.len(),
            final(self).level.items@.len() <= old(self).level.items@.len(),
            final(self).baddies@.len() <= old(self).baddies@.len(),
            exists|g1: Game, g2: Game, g3: Game|
                #![trigger player_phase_rel(*old(self), input, dt as int, g1), world_phase_rel(g1, dt as int, g2), baddies_phase_rel(g2, dt as int, g3)]
                {
                    &&& player_phase_rel(*old(self), input, dt as int, g1)
                    &&& world_phase_rel(g1, dt as int, g2)
                    &&& baddies_phase_rel(g2, dt as int, g3)
                    &&& final(self).player == g3.player
                    &&& final(self).level.items@ == g3.level.items@
                    &&& final(self).level.blocks@ == g3.level.blocks@
                    &&& final(self).baddies@ == g3.baddies@
                    &&& final(self).level.ground == g3.level.ground
                    &&& final(self).level.ceiling == g3.level.ceiling
                    &&& final(self).level.left_wall == g3.level.left_wall
                    &&& final(self).level.right_wall == g3.level.right_wall
                    &&& final(self).level.platforms@ == g3.level.platforms@
                    &&& final(self).camera.rect == camera_updated(g3.camera.rect, g3.player)
                },
            final(self).gamestate == if player_hit_by_baddie(final(self).player, final(self).baddies@)
                || player_hit_by_thrown_item(final(self).player, final(self).level.items@) {
                GameState::GameOver
            } else {
                GameState::Level1
            },
    {
        self.update_player_and_collisions(input, dt);
        let ghost g1 = *self;
        self.update_world_objects(dt);
        let ghost g2 = *self;
        self.update_baddies_and_collisions(dt);
        let ghost g3 = *self;

        self.camera.update(&self.player);
        proof {
            assert(player_phase_rel(*old(self), input, dt as int, g1));
            assert(world_phase_rel(g1, dt as int, g2));
            assert(baddies_phase_rel(g2, dt as int, g3));
        }

        let mut over = false;
        let prect = self.player.rect();
        let mut i: usize = 0;
        while i < self.baddies.len()
            invariant
                i <= self.baddies@.len(),
                prect == player_rect(self.player),
                over == exists|j: int|
                    0 <= j < i && overlap(player_rect(self.player), baddie_rect(
                        #[trigger] self.baddies@[j],
                    )),
            decreases self.baddies@.len() - i,
        {
            if prect.overlaps(&self.baddies[i].rect()) {
                over = true;
            }
            i = i + 1;
        }
        proof {
            assert(over == player_hit_by_baddie(self.player, self.baddies@));
        }
        let mut k: usize = 0;
        while k < self.level.items.len()
            invariant
                k <= self.level.items@.len(),
                prect == player_rect(self.player),
                over == (player_hit_by_baddie(self.player, self.baddies@) || exists|j: int|
                    0 <= j < k && (#[trigger] self.level.items@[j]).state == ItemState::Thrown
                        && overlap(player_rect(self.player), item_rect(self.level.items@[j]))),
            decreases self.level.items@.len() - k,
        {
            let it = self.level.items[k];
            if it.state == ItemState::Thrown && prect.overlaps(&it.rect()) {
                over = true;
            }
            k = k + 1;
        }
        proof {
            assert(over == (player_hit_by_baddie(self.player, self.baddies@)
                || player_hit_by_thrown_item(self.player, self.level.items@)));
        }
        if over {
            self.gamestate = GameState::GameOver;
        }
    }
}

} // verus!
