//! The camera: a view rectangle that follows the player.
//!
//! The view scrolls whenever the player comes within a quarter of the
//! view extent of its edge, and is then clamped to the level bounds.  No
//! physics: the update is a pure function of the current view and the
//! player's box.

use vstd::prelude::*;

use crate::constants::{GEO_LIMIT, LEVEL_HEIGHT, LEVEL_WIDTH, POS_LIMIT, SCREEN_QUARTER_DIVISOR};
use crate::geom::{bottom, left, right, top, Rect};
use crate::player::{player_rect, player_wf, Player};

verus! {

/// The game camera.
#[derive(Clone, Copy, PartialEq, Eq, Structural, Debug)]
pub struct Camera {
    pub rect: Rect,
}

/// Bounds kept on the camera: a positive view extent and a corner in
/// range.
pub open spec fn camera_wf(c: Camera) -> bool {
    -POS_LIMIT <= c.rect.x <= POS_LIMIT && -POS_LIMIT <= c.rect.y <= POS_LIMIT && 0 < c.rect.w
        <= GEO_LIMIT && 0 < c.rect.h <= GEO_LIMIT
}

/// The camera view after one follow step: scroll toward the player on
/// each side the player presses against, then clamp to the level.
pub open spec fn camera_updated(cam: Rect, p: Player) -> Rect {
    let qw = (cam.w as int) / (SCREEN_QUARTER_DIVISOR as int);
    let qh = (cam.h as int) / (SCREEN_QUARTER_DIVISOR as int);
    let pr = player_rect(p);
    let x1: int = if left(pr) < cam.x - qw {
        p.position.x + qw
    } else {
        cam.x as int
    };
    let x2: int = if right(pr) > x1 + cam.w + qw && x1 + cam.w < LEVEL_WIDTH {
        right(pr) - cam.w - qw
    } else {
        x1
    };
    let y1: int = if top(pr) < cam.y + qh && cam.y > 0 {
        p.position.y - qh
    } else {
        cam.y as int
    };
    let y2: int = if bottom(pr) > y1 + cam.h - qh && y1 + cam.h < LEVEL_HEIGHT {
        bottom(pr) - cam.h + qh
    } else {
        y1
    };
    let xc: int = if x2 < 0 {
        0
    } else {
        x2
    };
    let x3: int = if xc > LEVEL_WIDTH - cam.w {
        LEVEL_WIDTH - cam.w
    } else {
        xc
    };
    let yc: int = if y2 < 0 {
        0
    } else {
        y2
    };
    let y3: int = if yc > LEVEL_HEIGHT - cam.h {
        LEVEL_HEIGHT - cam.h
    } else {
        yc
    };
    Rect { x: x3 as i32, y: y3 as i32, w: cam.w, h: cam.h }
}

impl Camera {
    /// A fresh camera of the given view extent, aligned with the bottom
    /// of the level.
    pub fn new(view_w: i32, view_h: i32) -> (c: Camera)
        requires
            0 < view_w <= GEO_LIMIT,
            0 < view_h <= GEO_LIMIT,
        ensures
            c.rect == (Rect { x: 0, y: (LEVEL_HEIGHT - view_h) as i32, w: view_w, h: view_h }),
            camera_wf(c),
    {
        Camera { rect: Rect { x: 0, y: LEVEL_HEIGHT - view_h, w: view_w, h: view_h } }
    }

    /// One follow step toward the player, clamped to the level bounds.
    pub fn update(&mut self, player: &Player)
        requires
            camera_wf(*old(self)),
            player_wf(*player),
        ensures
            final(self).rect == camera_updated(old(self).rect, *player),
            camera_wf(*final(self)),
    {
        let qw = ((self.rect.w as u64) / (SCREEN_QUARTER_DIVISOR as u64)) as i64;
        let qh = ((self.rect.h as u64) / (SCREEN_QUARTER_DIVISOR as u64)) as i64;
        let px = player.position.x as i64;
        let py = player.position.y as i64;
        let pright = px + player.size.x as i64;
        let pbottom = py + player.size.y as i64;
        let w = self.rect.w as i64;
        let h = self.rect.h as i64;

        let mut x: i64 = self.rect.x as i64;
        let mut y: i64 = self.rect.y as i64;

        if px < x - qw {
            x = px + qw;
        }
        if pright > x + w + qw && x + w < LEVEL_WIDTH as i64 {
            x = pright - w - qw;
        }
        if py < y + qh && y > 0 {
            y = py - qh;
        }
        if pbottom > y + h - qh && y + h < LEVEL_HEIGHT as i64 {
            y = pbottom - h + qh;
        }

        if x < 0 {
            x = 0;
        }
        if x > LEVEL_WIDTH as i64 - w {
            x = LEVEL_WIDTH as i64 - w;
        }
        if y < 0 {
            y = 0;
        }
        if y > LEVEL_HEIGHT as i64 - h {
            y = LEVEL_HEIGHT as i64 - h;
        }

        self.rect.x = x as i32;
        self.rect.y = y as i32;
    }
}

} // verus!
