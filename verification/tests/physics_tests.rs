//! Collision resolver behaviour on concrete scenes.

use platformer_core::baddies::{Baddie, BaddieState};
use platformer_core::blocks::{Block, BlockState};
use platformer_core::geom::{Rect, Vec2};
use platformer_core::items::{Item, ItemState};
use platformer_core::physics::{
    resolve_baddie_collisions, resolve_block_collisions, resolve_item_collisions,
    resolve_player_collisions,
};
use platformer_core::player::Player;

fn far_left_wall() -> Rect {
    Rect { x: -100000, y: -100000, w: 10, h: 200000 }
}

fn far_right_wall() -> Rect {
    Rect { x: 100000, y: -100000, w: 10, h: 200000 }
}

fn far_ceiling() -> Rect {
    Rect { x: -100000, y: -100000, w: 200000, h: 10 }
}

fn far_ground() -> Rect {
    Rect { x: -100000, y: 100000, w: 200000, h: 50 }
}

fn falling_player(x: i32, y: i32, vy: i32) -> Player {
    let mut p = Player::new();
    p.position = Vec2 { x, y };
    p.velocity = Vec2 { x: 0, y: vy };
    p.on_ground = false;
    p
}

#[test]
fn player_lands_on_platform() {
    // A player whose bottom edge was above the platform top one frame
    // ago is snapped flat onto it, stopped and grounded.
    let platforms = vec![Rect { x: 0, y: 100, w: 200, h: 20 }];
    let mut player = falling_player(50, 55, 50);
    resolve_player_collisions(
        &mut player,
        &platforms,
        &Vec::new(),
        &Vec::new(),
        &far_ground(),
        &far_left_wall(),
        &far_right_wall(),
        &far_ceiling(),
        100,
    );
    assert_eq!(player.position.y, 50);
    assert_eq!(player.velocity.y, 0);
    assert!(player.on_ground);
}

#[test]
fn player_landing_is_idempotent() {
    // Resolving a second time with unchanged input moves nothing.
    let platforms = vec![Rect { x: 0, y: 100, w: 200, h: 20 }];
    let mut player = falling_player(50, 55, 50);
    for _ in 0..2 {
        resolve_player_collisions(
            &mut player,
            &platforms,
            &Vec::new(),
            &Vec::new(),
            &far_ground(),
            &far_left_wall(),
            &far_right_wall(),
            &far_ceiling(),
            100,
        );
    }
    assert_eq!(player.position.y, 50);
    assert_eq!(player.position.x, 50);
    assert_eq!(player.velocity.y, 0);
    assert!(player.on_ground);
}

#[test]
fn landing_first_match_wins() {
    // Two overlapping platforms both qualify: the first in iteration
    // order receives the player.
    let platforms = vec![
        Rect { x: 0, y: 100, w: 200, h: 20 },
        Rect { x: 0, y: 104, w: 200, h: 20 },
    ];
    let mut player = falling_player(50, 55, 50);
    resolve_player_collisions(
        &mut player,
        &platforms,
        &Vec::new(),
        &Vec::new(),
        &far_ground(),
        &far_left_wall(),
        &far_right_wall(),
        &far_ceiling(),
        100,
    );
    assert_eq!(player.position.y, 50);
}

#[test]
fn player_wall_clamp_widened_by_held_item() {
    // The wall test widens the player's box by the held item's width.
    let mut player = Player::new();
    player.position = Vec2 { x: 1950, y: 500 };
    player.facing_right = true;
    player.held_object = Some(platformer_core::player::HeldObject::Item(0));
    let items = vec![Item::new(Vec2 { x: 2000, y: 500 })];
    let right_wall = Rect { x: 1998, y: 0, w: 50, h: 1536 };
    resolve_player_collisions(
        &mut player,
        &Vec::new(),
        &items,
        &Vec::new(),
        &far_ground(),
        &far_left_wall(),
        &right_wall,
        &far_ceiling(),
        16,
    );
    // 1998 - 50 (player) - 25 (item) = 1923
    assert_eq!(player.position.x, 1923);
}

#[test]
fn thrown_item_bounces_with_restitution() {
    // Incoming vertical speed 500 above the bounce threshold: the item
    // keeps 7/10 of it, reversed, and 3/10 of its horizontal speed.
    let mut item = Item::new(Vec2 { x: 100, y: 1461 });
    item.state = ItemState::Thrown;
    item.velocity = Vec2 { x: 200, y: 500 };
    let ground = Rect { x: 0, y: 1486, w: 2048, h: 50 };
    resolve_item_collisions(
        &mut item,
        &Vec::new(),
        &Vec::new(),
        &ground,
        &far_left_wall(),
        &far_right_wall(),
        100,
    );
    assert_eq!(item.velocity.y, -350);
    assert_eq!(item.velocity.x, 60);
    assert_eq!(item.position.y, 1461);
    assert_eq!(item.state, ItemState::Thrown);
}

#[test]
fn slow_thrown_item_settles() {
    // At or below the bounce threshold the item settles: zero velocity,
    // idle, grounded, flat on the surface.
    let mut item = Item::new(Vec2 { x: 100, y: 1462 });
    item.state = ItemState::Thrown;
    item.velocity = Vec2 { x: 0, y: 50 };
    let ground = Rect { x: 0, y: 1486, w: 2048, h: 50 };
    resolve_item_collisions(
        &mut item,
        &Vec::new(),
        &Vec::new(),
        &ground,
        &far_left_wall(),
        &far_right_wall(),
        100,
    );
    assert_eq!(item.velocity.x, 0);
    assert_eq!(item.velocity.y, 0);
    assert_eq!(item.state, ItemState::Idle);
    assert!(item.on_ground);
    assert_eq!(item.position.y, 1461);
}

#[test]
fn idle_item_never_bounces() {
    // An idle falling item settles even at high speed.
    let mut item = Item::new(Vec2 { x: 100, y: 1461 });
    item.velocity = Vec2 { x: 0, y: 500 };
    let ground = Rect { x: 0, y: 1486, w: 2048, h: 50 };
    resolve_item_collisions(
        &mut item,
        &Vec::new(),
        &Vec::new(),
        &ground,
        &far_left_wall(),
        &far_right_wall(),
        100,
    );
    assert_eq!(item.velocity.y, 0);
    assert_eq!(item.state, ItemState::Idle);
    assert!(item.on_ground);
}

#[test]
fn item_reflects_off_wall() {
    // A wall reflects the horizontal speed without loss.
    let mut item = Item::new(Vec2 { x: 45, y: 500 });
    item.velocity = Vec2 { x: -300, y: 0 };
    let left_wall = Rect { x: 0, y: 0, w: 50, h: 1536 };
    resolve_item_collisions(
        &mut item,
        &Vec::new(),
        &Vec::new(),
        &far_ground(),
        &left_wall,
        &far_right_wall(),
        16,
    );
    assert_eq!(item.velocity.x, 300);
    assert_eq!(item.position.x, 50);
}

#[test]
fn block_lands_on_block() {
    // A falling block settles on an idle block below it and stops dead.
    let mut falling = Block::new(Vec2 { x: 100, y: 355 });
    falling.velocity = Vec2 { x: 0, y: 100 };
    let resting = Block::new(Vec2 { x: 100, y: 410 });
    let others = vec![resting];
    resolve_block_collisions(
        &mut falling,
        &Vec::new(),
        &others,
        &far_ground(),
        &far_left_wall(),
        &far_right_wall(),
        100,
    );
    assert_eq!(falling.position.y, 350);
    assert_eq!(falling.velocity.x, 0);
    assert_eq!(falling.velocity.y, 0);
    assert!(falling.on_ground);
    assert_eq!(falling.state, BlockState::Idle);
}

#[test]
fn block_wall_stops_outright() {
    // A block against a wall loses its horizontal speed entirely.
    let mut block = Block::new(Vec2 { x: 45, y: 500 });
    block.velocity = Vec2 { x: -300, y: -10 };
    let left_wall = Rect { x: 0, y: 0, w: 50, h: 1536 };
    resolve_block_collisions(
        &mut block,
        &Vec::new(),
        &Vec::new(),
        &far_ground(),
        &left_wall,
        &far_right_wall(),
        16,
    );
    assert_eq!(block.velocity.x, 0);
    assert_eq!(block.position.x, 50);
}

#[test]
fn ceiling_stops_rising_player() {
    // Ceiling contact clamps the player below it and cancels the climb.
    let ceiling = Rect { x: 0, y: 0, w: 2048, h: 50 };
    let mut player = falling_player(100, 40, -300);
    resolve_player_collisions(
        &mut player,
        &Vec::new(),
        &Vec::new(),
        &Vec::new(),
        &far_ground(),
        &far_left_wall(),
        &far_right_wall(),
        &ceiling,
        16,
    );
    assert_eq!(player.position.y, 50);
    assert_eq!(player.velocity.y, 0);
}

#[test]
fn ceiling_ends_baddie_elevation() {
    let ceiling = Rect { x: 0, y: 0, w: 2048, h: 50 };
    let mut baddie = Baddie::new(Vec2 { x: 300, y: 45 });
    baddie.state = BaddieState::Elevation;
    baddie.velocity = Vec2 { x: 0, y: -150 };
    let mut blocks: Vec<Block> = Vec::new();
    let mut items: Vec<Item> = Vec::new();
    resolve_baddie_collisions(
        &mut baddie,
        &Vec::new(),
        &mut blocks,
        &mut items,
        &far_ground(),
        &far_left_wall(),
        &far_right_wall(),
        &ceiling,
        16,
    );
    assert_eq!(baddie.state, BaddieState::Idle);
    assert_eq!(baddie.velocity.y, 0);
    assert_eq!(baddie.position.y, 50);
}

#[test]
fn wall_turns_baddie_around() {
    let right_wall = Rect { x: 1998, y: 0, w: 50, h: 1536 };
    let mut baddie = Baddie::new(Vec2 { x: 1970, y: 500 });
    baddie.facing_right = true;
    let mut blocks: Vec<Block> = Vec::new();
    let mut items: Vec<Item> = Vec::new();
    resolve_baddie_collisions(
        &mut baddie,
        &Vec::new(),
        &mut blocks,
        &mut items,
        &far_ground(),
        &far_left_wall(),
        &right_wall,
        &far_ceiling(),
        16,
    );
    assert!(!baddie.facing_right);
    assert_eq!(baddie.position.x, 1998 - 40);
}

#[test]
fn player_pushed_flush_against_block_side() {
    // A side hit pushes the player flush to the block's face, without
    // touching its vertical state.
    let blocks = vec![Block::new(Vec2 { x: 500, y: 1000 })];
    let mut player = Player::new();
    player.position = Vec2 { x: 460, y: 1010 };
    player.velocity = Vec2 { x: 500, y: 0 };
    resolve_player_collisions(
        &mut player,
        &Vec::new(),
        &Vec::new(),
        &blocks,
        &far_ground(),
        &far_left_wall(),
        &far_right_wall(),
        &far_ceiling(),
        100,
    );
    // previous right edge: 460 + 50 - 50 = 460 <= 500; pushed to 450.
    assert_eq!(player.position.x, 450);
    assert_eq!(player.position.y, 1010);
    assert_eq!(player.velocity.x, 500);
}
