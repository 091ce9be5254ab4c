//! Frame orchestration: combat, cleanup, terminal checks, construction.

use platformer_core::baddies::Baddie;
use platformer_core::blocks::{Block, BlockState};
use platformer_core::camera::Camera;
use platformer_core::game::{Game, GameState};
use platformer_core::geom::{Rect, Vec2};
use platformer_core::items::{Item, ItemState};
use platformer_core::level::Level;
use platformer_core::player::{HeldObject, Input, Player};

fn quiet_input() -> Input {
    Input { right: false, left: false, jump_pressed: false, space_pressed: false }
}

fn empty_level() -> Level {
    let mut level = Level::new();
    level.items = Vec::new();
    level.blocks = Vec::new();
    level
}

#[test]
fn thrown_item_defeats_overlapping_baddie() {
    // A thrown item overlapping exactly one baddie: after combat and
    // cleanup both are gone, and the block the baddie was grabbing is
    // idle again.
    let mut level = empty_level();
    let mut item = Item::new(Vec2 { x: 500, y: 700 });
    item.state = ItemState::Thrown;
    level.items.push(item);
    let mut block = Block::new(Vec2 { x: 800, y: 700 });
    block.state = BlockState::Hooked;
    level.blocks.push(block);
    let mut baddie = Baddie::new(Vec2 { x: 510, y: 705 });
    baddie.grabbed_block_id = Some(0);
    let mut game = Game {
        gamestate: GameState::Level1,
        player: Player::new(),
        level,
        camera: Camera::new(800, 600),
        baddies: vec![baddie],
    };
    game.resolve_combat_and_cleanup();
    assert_eq!(game.baddies.len(), 0);
    assert_eq!(game.level.items.len(), 0);
    assert_eq!(game.level.blocks[0].state, BlockState::Idle);
}

#[test]
fn one_item_defeats_at_most_one_baddie() {
    // Two baddies overlap the same thrown item: only the first is
    // defeated, the item is consumed.
    let mut level = empty_level();
    let mut item = Item::new(Vec2 { x: 500, y: 700 });
    item.state = ItemState::Thrown;
    level.items.push(item);
    let b1 = Baddie::new(Vec2 { x: 505, y: 700 });
    let b2 = Baddie::new(Vec2 { x: 515, y: 700 });
    let survivor_x = b2.position.x;
    let mut game = Game {
        gamestate: GameState::Level1,
        player: Player::new(),
        level,
        camera: Camera::new(800, 600),
        baddies: vec![b1, b2],
    };
    game.resolve_combat_and_cleanup();
    assert_eq!(game.baddies.len(), 1);
    assert_eq!(game.baddies[0].position.x, survivor_x);
    assert_eq!(game.level.items.len(), 0);
}

#[test]
fn idle_item_defeats_nobody() {
    let mut level = empty_level();
    level.items.push(Item::new(Vec2 { x: 500, y: 700 }));
    let baddie = Baddie::new(Vec2 { x: 505, y: 700 });
    let mut game = Game {
        gamestate: GameState::Level1,
        player: Player::new(),
        level,
        camera: Camera::new(800, 600),
        baddies: vec![baddie],
    };
    game.resolve_combat_and_cleanup();
    assert_eq!(game.baddies.len(), 1);
    assert_eq!(game.level.items.len(), 1);
}

#[test]
fn touching_baddie_ends_the_game() {
    let mut game = Game {
        gamestate: GameState::Level1,
        player: Player::new(),
        level: empty_level(),
        camera: Camera::new(800, 600),
        baddies: vec![Baddie::new(Vec2 { x: 100, y: 1436 })],
    };
    game.update(quiet_input(), 16);
    assert_eq!(game.gamestate, GameState::GameOver);
}

#[test]
fn quiet_frame_keeps_playing() {
    let mut game = Game {
        gamestate: GameState::Level1,
        player: Player::new(),
        level: empty_level(),
        camera: Camera::new(800, 600),
        baddies: Vec::new(),
    };
    game.update(quiet_input(), 16);
    assert_eq!(game.gamestate, GameState::Level1);
}

#[test]
fn orphaned_hooked_item_reverts_to_idle() {
    // A hooked item nobody holds any more is freed by the world pass.
    let mut level = empty_level();
    let mut item = Item::new(Vec2 { x: 500, y: 700 });
    item.state = ItemState::Hooked;
    level.items.push(item);
    let mut game = Game {
        gamestate: GameState::Level1,
        player: Player::new(),
        level,
        camera: Camera::new(800, 600),
        baddies: Vec::new(),
    };
    game.update_world_objects(16);
    assert_eq!(game.level.items[0].state, ItemState::Idle);
}

#[test]
fn held_hooked_item_stays_hooked() {
    let mut level = empty_level();
    let mut item = Item::new(Vec2 { x: 500, y: 700 });
    item.state = ItemState::Hooked;
    level.items.push(item);
    let mut player = Player::new();
    player.held_object = Some(HeldObject::Item(0));
    let mut game = Game {
        gamestate: GameState::Level1,
        player,
        level,
        camera: Camera::new(800, 600),
        baddies: Vec::new(),
    };
    game.update_world_objects(16);
    assert_eq!(game.level.items[0].state, ItemState::Hooked);
}

#[test]
fn baddie_grabbed_block_stays_hooked() {
    // A block grabbed by a baddie keeps its hooked state through the
    // world pass even while the player holds nothing.
    let mut level = empty_level();
    let mut block = Block::new(Vec2 { x: 800, y: 700 });
    block.state = BlockState::Hooked;
    level.blocks.push(block);
    let mut baddie = Baddie::new(Vec2 { x: 820, y: 700 });
    baddie.grabbed_block_id = Some(0);
    let mut game = Game {
        gamestate: GameState::Level1,
        player: Player::new(),
        level,
        camera: Camera::new(800, 600),
        baddies: vec![baddie],
    };
    game.update_world_objects(16);
    assert_eq!(game.level.blocks[0].state, BlockState::Hooked);
}

#[test]
fn orphaned_hooked_block_reverts_to_idle() {
    // A hooked block with no carrier left — neither the player nor any
    // baddie — is freed by the world pass.
    let mut level = empty_level();
    let mut block = Block::new(Vec2 { x: 800, y: 700 });
    block.state = BlockState::Hooked;
    level.blocks.push(block);
    let mut game = Game {
        gamestate: GameState::Level1,
        player: Player::new(),
        level,
        camera: Camera::new(800, 600),
        baddies: Vec::new(),
    };
    game.update_world_objects(16);
    assert_eq!(game.level.blocks[0].state, BlockState::Idle);
}

#[test]
fn level_places_everything_inside_the_level() {
    // The random placement always lands inside the walls, and every
    // block stays clear of the safe zone around the player spawn.
    let level = Level::new();
    assert_eq!(level.items.len(), 8);
    assert_eq!(level.blocks.len(), 27);
    assert_eq!(level.platforms.len(), 12);
    for it in &level.items {
        assert!(it.position.x >= 50 && it.position.x <= 2048 - 50 - 25);
        assert!(it.position.y >= 50 && it.position.y <= 1536 - 50 - 25);
        assert_eq!(it.state, ItemState::Idle);
    }
    let safe = Rect { x: 50, y: 50, w: 150, h: 1436 };
    for b in &level.blocks {
        assert!(b.position.x >= 50 && b.position.x <= 2048 - 50 - 60);
        assert!(b.position.y >= 50 && b.position.y <= 1536 - 50 - 60);
        assert_eq!(b.state, BlockState::Idle);
        assert!(!b.rect().overlaps(&safe));
    }
}

#[test]
fn new_game_starts_on_intro_with_full_roster() {
    let game = Game::new(800, 600);
    assert_eq!(game.gamestate, GameState::Intro);
    assert_eq!(game.baddies.len(), 8);
    for b in &game.baddies {
        assert!(b.position.x >= 0 && b.position.x < 2048);
        assert_eq!(b.position.y, 768);
    }
    assert_eq!(game.camera.rect, Rect { x: 0, y: 936, w: 800, h: 600 });
}

#[test]
fn camera_scrolls_right_and_clamps() {
    let mut camera = Camera::new(800, 600);
    let mut player = Player::new();
    player.position = Vec2 { x: 2000, y: 1000 };
    camera.update(&player);
    // Scrolled to keep the player a quarter-view from the edge:
    // 2050 - 800 - 200 = 1050, within the level.
    assert_eq!(camera.rect.x, 1050);
    // Pushing further right hits the level clamp: 2048 - 800 = 1248.
    player.position = Vec2 { x: 4000, y: 1000 };
    camera.update(&player);
    assert_eq!(camera.rect.x, 1248);
}

#[test]
fn whole_frame_lands_player_on_ground() {
    // End to end: a player spawned just above the ground settles onto
    // it within a few frames and reports itself grounded and idle.
    let mut game = Game {
        gamestate: GameState::Level1,
        player: Player::new(),
        level: empty_level(),
        camera: Camera::new(800, 600),
        baddies: Vec::new(),
    };
    for _ in 0..5 {
        game.update(quiet_input(), 16);
    }
    assert!(game.player.on_ground);
    // Flat on the ground line: 1536 - 50 - 50.
    assert_eq!(game.player.position.y, 1436);
    assert_eq!(game.gamestate, GameState::Level1);
}
