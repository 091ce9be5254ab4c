//! Entity physics and the carrying protocol on concrete values.

use platformer_core::baddies::{Baddie, BaddieState};
use platformer_core::blocks::{Block, BlockState};
use platformer_core::geom::Vec2;
use platformer_core::items::{Item, ItemState};
use platformer_core::player::{HeldObject, Input, Player, PlayerState};

fn no_input() -> Input {
    Input { right: false, left: false, jump_pressed: false, space_pressed: false }
}

#[test]
fn gravity_adds_exactly_per_frame() {
    // An airborne item gains GRAVITY * dt / 1000 of vertical speed:
    // 1000 * 100 / 1000 = 100 units per second per tenth of a second.
    let mut item = Item::new(Vec2 { x: 100, y: 100 });
    item.update(100);
    assert_eq!(item.velocity.y, 100);
    item.update(100);
    assert_eq!(item.velocity.y, 200);
}

#[test]
fn grounded_item_does_not_move() {
    let mut item = Item::new(Vec2 { x: 100, y: 100 });
    item.on_ground = true;
    item.update(100);
    assert_eq!(item.position, Vec2 { x: 100, y: 100 });
    assert_eq!(item.velocity, Vec2 { x: 0, y: 0 });
}

#[test]
fn airborne_block_falls_like_item() {
    let mut block = Block::new(Vec2 { x: 100, y: 100 });
    block.update(100);
    assert_eq!(block.velocity.y, 100);
    // 100 units/s over 0.1 s moves 10 units down.
    assert_eq!(block.position.y, 110);
}

#[test]
fn player_gravity_and_run() {
    let mut player = Player::new();
    let input = Input { right: true, left: false, jump_pressed: false, space_pressed: false };
    player.update(input, 100);
    assert_eq!(player.velocity.y, 100);
    assert_eq!(player.velocity.x, 500);
    assert!(player.facing_right);
    // Airborne and falling: state derives to Fall.
    assert_eq!(player.state, PlayerState::Fall);
}

#[test]
fn player_jumps_only_when_grounded() {
    let mut player = Player::new();
    let jump = Input { right: false, left: false, jump_pressed: true, space_pressed: false };
    player.update(jump, 16);
    // Airborne: the jump edge is ignored, gravity accumulates.
    assert_eq!(player.velocity.y, 16);
    player.on_ground = true;
    player.velocity = Vec2 { x: 0, y: 0 };
    player.update(jump, 16);
    assert_eq!(player.velocity.y, -600);
    assert!(!player.on_ground);
    assert_eq!(player.state, PlayerState::Jump);
}

#[test]
fn baddie_enters_elevation_past_threshold() {
    // The frame the grounded counter passes the threshold, the baddie
    // starts elevating, anchored at its current column, counter reset.
    let mut baddie = Baddie::new(Vec2 { x: 300, y: 1436 });
    baddie.state = BaddieState::Idle;
    baddie.on_ground = true;
    baddie.velocity = Vec2 { x: 200, y: 0 };
    baddie.facing_right = true;
    baddie.on_ground_frames = 2000;
    baddie.step(16, 999, 999);
    assert_eq!(baddie.state, BaddieState::Elevation);
    // The anchor is the column after this frame's integration:
    // 300 + 200 * 16 / 1000 = 303.
    assert_eq!(baddie.elevation_x_axis, 303);
    assert_eq!(baddie.on_ground_frames, 0);
}

#[test]
fn baddie_below_threshold_keeps_walking() {
    let mut baddie = Baddie::new(Vec2 { x: 300, y: 1436 });
    baddie.state = BaddieState::Idle;
    baddie.on_ground = true;
    baddie.velocity = Vec2 { x: 200, y: 0 };
    baddie.facing_right = true;
    baddie.on_ground_frames = 10;
    baddie.step(16, 999, 999);
    assert_eq!(baddie.state, BaddieState::Run);
    assert_eq!(baddie.on_ground_frames, 11);
}

#[test]
fn baddie_elevation_rises_and_weaves() {
    let mut baddie = Baddie::new(Vec2 { x: 500, y: 800 });
    baddie.state = BaddieState::Elevation;
    baddie.elevation_x_axis = 500;
    baddie.elevation_time = 0;
    baddie.step(100, 999, 999);
    assert_eq!(baddie.velocity.y, -150);
    assert_eq!(baddie.velocity.x, 0);
    // Phase 100 of the 1600 ms wave: offset 40 * 100 / 400 = 10.
    assert_eq!(baddie.position.x, 510);
    // Rising 150 units/s for 0.1 s.
    assert_eq!(baddie.position.y, 785);
    assert_eq!(baddie.state, BaddieState::Elevation);
}

#[test]
fn baddie_grab_expires_and_turns() {
    let mut baddie = Baddie::new(Vec2 { x: 300, y: 1436 });
    baddie.state = BaddieState::Grab;
    baddie.on_ground = true;
    baddie.facing_right = true;
    baddie.grabbed_block_id = Some(3);
    baddie.block_grab_timer = 10;
    baddie.step(16, 999, 999);
    assert_eq!(baddie.grabbed_block_id, None);
    assert!(!baddie.facing_right);
    // Re-derived from grounded motion after the release.
    assert_eq!(baddie.state, BaddieState::Run);
}

#[test]
fn carry_slaves_item_to_player_box() {
    // A held item tracks the carrier: same top edge, flush against the
    // leading edge, wherever the item was before.
    let mut player = Player::new();
    player.position = Vec2 { x: 400, y: 700 };
    player.facing_right = true;
    player.held_object = Some(HeldObject::Item(0));
    let mut items = vec![Item::new(Vec2 { x: 0, y: 0 })];
    items[0].state = ItemState::Hooked;
    let mut blocks: Vec<Block> = Vec::new();
    player.process_interactions(&mut items, &mut blocks, false);
    assert_eq!(items[0].position.y, 700);
    assert_eq!(items[0].position.x, 450);
    // Facing left instead: flush on the other side.
    player.facing_right = false;
    player.process_interactions(&mut items, &mut blocks, false);
    assert_eq!(items[0].position.x, 400 - 25);
}

#[test]
fn throw_adds_fixed_diagonal_to_carrier_velocity() {
    let mut player = Player::new();
    player.position = Vec2 { x: 400, y: 700 };
    player.velocity = Vec2 { x: 500, y: -20 };
    player.facing_right = true;
    player.held_object = Some(HeldObject::Item(0));
    let mut items = vec![Item::new(Vec2 { x: 0, y: 0 })];
    items[0].state = ItemState::Hooked;
    let mut blocks: Vec<Block> = Vec::new();
    player.process_interactions(&mut items, &mut blocks, true);
    assert_eq!(items[0].velocity, Vec2 { x: 924, y: -444 });
    assert_eq!(items[0].state, ItemState::Thrown);
    assert!(!items[0].on_ground);
    assert_eq!(player.held_object, None);
}

#[test]
fn grab_prefers_item_over_block() {
    // Overlapping both an idle item and an idle block, a grab edge
    // hooks the item and leaves the block alone; the hand can never
    // hold both.
    let mut player = Player::new();
    player.position = Vec2 { x: 400, y: 700 };
    let mut items = vec![Item::new(Vec2 { x: 410, y: 710 })];
    let mut blocks = vec![Block::new(Vec2 { x: 400, y: 700 })];
    player.process_interactions(&mut items, &mut blocks, true);
    assert_eq!(player.held_object, Some(HeldObject::Item(0)));
    assert_eq!(items[0].state, ItemState::Hooked);
    assert_eq!(items[0].velocity, Vec2 { x: 0, y: 0 });
    assert_eq!(blocks[0].state, BlockState::Idle);
}

#[test]
fn grab_skips_block_player_stands_on() {
    // The player cannot grab the block it is standing on.
    let mut player = Player::new();
    player.position = Vec2 { x: 400, y: 650 };
    player.on_ground = true;
    let mut items: Vec<Item> = Vec::new();
    // The player's bottom edge (700) sits exactly on the block's top.
    let mut blocks = vec![Block::new(Vec2 { x: 400, y: 700 })];
    player.process_interactions(&mut items, &mut blocks, true);
    assert_eq!(player.held_object, None);
    assert_eq!(blocks[0].state, BlockState::Idle);
}

#[test]
fn release_drops_block_without_velocity() {
    let mut player = Player::new();
    player.held_object = Some(HeldObject::Block(0));
    let mut items: Vec<Item> = Vec::new();
    let mut blocks = vec![Block::new(Vec2 { x: 400, y: 700 })];
    blocks[0].state = BlockState::Hooked;
    player.process_interactions(&mut items, &mut blocks, true);
    assert_eq!(player.held_object, None);
    assert_eq!(blocks[0].state, BlockState::Idle);
    assert!(!blocks[0].on_ground);
    assert_eq!(blocks[0].velocity, Vec2 { x: 0, y: 0 });
}

#[test]
fn stale_player_item_reference_is_cleared() {
    let mut player = Player::new();
    player.held_object = Some(HeldObject::Item(7));
    let mut items = vec![Item::new(Vec2 { x: 5, y: 5 })];
    let mut blocks: Vec<Block> = Vec::new();
    let before = items[0];
    player.process_interactions(&mut items, &mut blocks, false);
    assert_eq!(player.held_object, None);
    assert_eq!(items[0], before);
}

#[test]
fn stale_baddie_item_reference_is_cleared() {
    // Removing the item a baddie holds, then running its interaction
    // pass, clears the reference and touches nothing else.
    let mut baddie = Baddie::new(Vec2 { x: 300, y: 700 });
    baddie.held_item_id = Some(10);
    let mut items = vec![Item::new(Vec2 { x: 5, y: 5 })];
    let before_item = items[0];
    let before_pos = baddie.position;
    baddie.process_interactions(&mut items, Vec2 { x: 0, y: 0 });
    assert_eq!(baddie.held_item_id, None);
    assert_eq!(items[0], before_item);
    assert_eq!(baddie.position, before_pos);
}

#[test]
fn baddie_throws_item_only_when_facing_player() {
    let mut baddie = Baddie::new(Vec2 { x: 300, y: 700 });
    baddie.facing_right = false;
    baddie.velocity = Vec2 { x: -200, y: 0 };
    baddie.held_item_id = Some(0);
    baddie.item_hold_timer = 0;
    let mut items = vec![Item::new(Vec2 { x: 0, y: 0 })];
    items[0].state = ItemState::Hooked;
    // Player to the right, baddie facing left: the item stays held.
    baddie.process_interactions(&mut items, Vec2 { x: 900, y: 700 });
    assert_eq!(baddie.held_item_id, Some(0));
    assert_eq!(items[0].state, ItemState::Hooked);
    // Player to the left: the throw happens along the facing diagonal.
    baddie.process_interactions(&mut items, Vec2 { x: 10, y: 700 });
    assert_eq!(baddie.held_item_id, None);
    assert_eq!(items[0].state, ItemState::Thrown);
    assert_eq!(items[0].velocity, Vec2 { x: -200 - 424, y: -424 });
}
