use vstd::prelude::*;
use crate::fp::{Vec2Fp, WindowSize, FP, diagonal, div_trunc, lemma_tdiv_bound, tdiv, window_diag};
use crate::map::{MAP_HEIGHT, MAP_WIDTH};
use crate::player::{SPRITE_HEIGHT, SPRITE_WIDTH};

verus! {

/// Padding, in fixed-point world units, between the player's sprite and
/// the edge of the camera's dead zone.
pub const CAMERA_PADDING: i64 = 32_000;

/// Reference window diagonal, in pixels, at which the zoom is one.
pub const DIAGONAL_PIXELS: i64 = 400;

/// Upper bound on any snapped scale for a window within
/// `MAX_WINDOW_PX`: the largest diagonal is 92682 pixels.
pub const MAX_SCALE: i64 = 231_705;

/// Bound on the world coordinates the camera update accepts.
pub const MAX_CAMERA_COORD: i64 = 2_000_000_000;

/// The zoom before snapping: the window diagonal over the reference
/// diagonal, in fixed point.
pub open spec fn raw_scale(win: WindowSize) -> int {
    window_diag(win) * FP / (DIAGONAL_PIXELS as int)
}

/// Snap a raw zoom to the discrete tiers: whole multiples above two,
/// then one-and-a-half, then one, and only very small windows keep a
/// fractional zoom below one.
pub open spec fn snap_scale(raw: int) -> int {
    if raw > 2 * FP {
        (raw / (FP as int)) * FP
    } else if raw > 3 * FP / 2 {
        3 * FP / 2
    } else if raw > FP {
        FP as int
    } else {
        raw
    }
}

pub open spec fn zoom_spec(win: WindowSize) -> int {
    snap_scale(raw_scale(win))
}

/// Zoom for a window: diagonal over the reference diagonal, snapped to
/// the discrete tiers.
pub fn calculate_zoom(win: &WindowSize) -> (scale: i64)
    requires
        win.valid(),
    ensures
        scale == zoom_spec(*win),
        2 <= scale <= MAX_SCALE,
{
    let diag: i64 = diagonal(win);
    let raw: i64 = div_trunc(diag * FP, DIAGONAL_PIXELS);
    if raw > 2 * FP {
        div_trunc(raw, FP) * FP
    } else if raw > 3 * FP / 2 {
        3 * FP / 2
    } else if raw > FP {
        FP
    } else {
        raw
    }
}

/// Half-width of the dead zone in pixel-fixed-point: half the window
/// less the scaled sprite half-extent and padding. Negative when the
/// window is smaller than the padded sprite.
pub open spec fn dead_zone_x(win: WindowSize, scale: int) -> int {
    win.width * FP / 2 - (SPRITE_WIDTH / 2 + CAMERA_PADDING) * scale / (FP as int)
}

pub open spec fn dead_zone_y(win: WindowSize, scale: int) -> int {
    win.height * FP / 2 - (SPRITE_HEIGHT / 2 + CAMERA_PADDING) * scale / (FP as int)
}

/// One axis of the player-tracking clamp: if the player sits beyond the
/// dead-zone edge, snap the camera so the player sits exactly on it.
pub open spec fn track_axis(p: int, c: int, scale: int, bound: int) -> int {
    let c1 = if (p - c) * scale > bound * FP {
        p - tdiv(bound * FP, scale)
    } else {
        c
    };
    if (p - c1) * scale < -(bound * FP) {
        p + tdiv(bound * FP, scale)
    } else {
        c1
    }
}

/// Half the window extent in world units at a given scale, computed as
/// the window over the scale, halved.
pub open spec fn half_window(px: int, scale: int) -> int {
    tdiv(tdiv(px * FP * FP, scale), 2)
}

/// One axis of the map-bounds clamp: a map smaller than the window
/// centers; otherwise the visible window is pushed back inside the map.
pub open spec fn clamp_axis(c: int, hw: int, extent: int) -> int {
    if 2 * hw > extent {
        extent / 2
    } else {
        let c1 = if c + hw > extent {
            extent - hw
        } else {
            c
        };
        if c1 < hw {
            hw
        } else {
            c1
        }
    }
}

/// The whole camera update at a given scale: track the player, then
/// keep the visible window inside the map.
pub open spec fn camera_spec(pos: Vec2Fp, cam: Vec2Fp, win: WindowSize, scale: int) -> Vec2Fp {
    let x1 = track_axis(pos.x as int, cam.x as int, scale, dead_zone_x(win, scale));
    let y1 = track_axis(pos.y as int, cam.y as int, scale, dead_zone_y(win, scale));
    Vec2Fp {
        x: clamp_axis(x1, half_window(win.width as int, scale), MAP_WIDTH as int) as i64,
        y: clamp_axis(y1, half_window(win.height as int, scale), MAP_HEIGHT as int) as i64,
    }
}

/// Frame the camera at a given scale: snap the camera so the player
/// stays within the dead zone, then clamp so the visible window never
/// leaves the map; a map smaller than the window centers instead.
pub fn frame_camera(win: &WindowSize, scale: i64, pos: Vec2Fp, cam: &mut Vec2Fp)
    requires
        win.valid(),
        2 <= scale <= MAX_SCALE,
        -MAX_CAMERA_COORD <= pos.x <= MAX_CAMERA_COORD,
        -MAX_CAMERA_COORD <= pos.y <= MAX_CAMERA_COORD,
        -MAX_CAMERA_COORD <= old(cam).x <= MAX_CAMERA_COORD,
        -MAX_CAMERA_COORD <= old(cam).y <= MAX_CAMERA_COORD,
    ensures
        *final(cam) == camera_spec(pos, *old(cam), *win, scale as int),
        2 * half_window(win.width as int, scale as int) <= MAP_WIDTH ==> half_window(
            win.width as int,
            scale as int,
        ) <= final(cam).x <= MAP_WIDTH - half_window(win.width as int, scale as int),
        2 * half_window(win.height as int, scale as int) <= MAP_HEIGHT ==> half_window(
            win.height as int,
            scale as int,
        ) <= final(cam).y <= MAP_HEIGHT - half_window(win.height as int, scale as int),
{
    // move camera if player out of bounds
    let horizontal_bound: i64 = win.width * FP / 2
        - (SPRITE_WIDTH / 2 + CAMERA_PADDING) * scale / FP;

    proof {
        assert(-(4_000_000_000 * MAX_SCALE) <= (pos.x - cam.x) * scale <= 4_000_000_000
            * MAX_SCALE) by (nonlinear_arith)
            requires
                -4_000_000_000 <= pos.x - cam.x <= 4_000_000_000,
                2 <= scale <= MAX_SCALE,
        ;
        lemma_tdiv_bound(horizontal_bound * FP, scale as int);
    }
    // clip right
    if (pos.x - cam.x) * scale > horizontal_bound * FP {
        cam.x = pos.x - div_trunc(horizontal_bound * FP, scale);
    }
    proof {
        assert(-(55_000_000_000 * MAX_SCALE) <= (pos.x - cam.x) * scale <= 55_000_000_000
            * MAX_SCALE) by (nonlinear_arith)
            requires
                -55_000_000_000 <= pos.x - cam.x <= 55_000_000_000,
                2 <= scale <= MAX_SCALE,
        ;
    }
    // clip left
    if (pos.x - cam.x) * scale < -(horizontal_bound * FP) {
        cam.x = pos.x + div_trunc(horizontal_bound * FP, scale);
    }

    let vertical_bound: i64 = win.height * FP / 2
        - (SPRITE_HEIGHT / 2 + CAMERA_PADDING) * scale / FP;

    proof {
        assert(-(4_000_000_000 * MAX_SCALE) <= (pos.y - cam.y) * scale <= 4_000_000_000
            * MAX_SCALE) by (nonlinear_arith)
            requires
                -4_000_000_000 <= pos.y - cam.y <= 4_000_000_000,
                2 <= scale <= MAX_SCALE,
        ;
        lemma_tdiv_bound(vertical_bound * FP, scale as int);
    }
    // clip top
    if (pos.y - cam.y) * scale > vertical_bound * FP {
        cam.y = pos.y - div_trunc(vertical_bound * FP, scale);
    }
    proof {
        assert(-(55_000_000_000 * MAX_SCALE) <= (pos.y - cam.y) * scale <= 55_000_000_000
            * MAX_SCALE) by (nonlinear_arith)
            requires
                -55_000_000_000 <= pos.y - cam.y <= 55_000_000_000,
                2 <= scale <= MAX_SCALE,
        ;
    }
    // clip bottom
    if (pos.y - cam.y) * scale < -(vertical_bound * FP) {
        cam.y = pos.y + div_trunc(vertical_bound * FP, scale);
    }

    // move camera if map out of bounds; a map smaller than the window
    // centers rather than pans
    proof {
        lemma_tdiv_bound(win.width * FP * FP, scale as int);
        lemma_tdiv_bound(tdiv(win.width * FP * FP, scale as int), 2);
        lemma_tdiv_bound(win.height * FP * FP, scale as int);
        lemma_tdiv_bound(tdiv(win.height * FP * FP, scale as int), 2);
    }
    let window_half_width: i64 = div_trunc(div_trunc(win.width * FP * FP, scale), 2);
    if 2 * window_half_width > MAP_WIDTH {
        cam.x = MAP_WIDTH / 2;
    } else {
        // clip right
        if cam.x + window_half_width > MAP_WIDTH {
            cam.x = MAP_WIDTH - window_half_width;
        }
        // clip left
        if cam.x < window_half_width {
            cam.x = window_half_width;
        }
    }

    let window_half_height: i64 = div_trunc(div_trunc(win.height * FP * FP, scale), 2);
    if 2 * window_half_height > MAP_HEIGHT {
        cam.y = MAP_HEIGHT / 2;
    } else {
        // clip top
        if cam.y + window_half_height > MAP_HEIGHT {
            cam.y = MAP_HEIGHT - window_half_height;
        }
        // clip bottom
        if cam.y < window_half_height {
            cam.y = window_half_height;
        }
    }
}

/// For every usable window the snapped zoom grows with the window:
/// four times the scale covers five times each window dimension, so
/// the world-space window can never outgrow the map.
pub proof fn lemma_zoom_covers_window(win: WindowSize)
    requires
        win.valid(),
    ensures
        4 * zoom_spec(win) >= 5 * win.width,
        4 * zoom_spec(win) >= 5 * win.height,
{
    let w = win.width as int;
    let h = win.height as int;
    let n = w * w + h * h;
    crate::fp::lemma_sqrt_floor_char(n);
    let diag = window_diag(win);
    assert(diag >= w && diag >= h) by (nonlinear_arith)
        requires
            n == w * w + h * h,
            n < (diag + 1) * (diag + 1),
            diag >= 0,
            w >= 1,
            h >= 1,
    ;
    let raw = raw_scale(win);
    vstd::arithmetic::div_mod::lemma_fundamental_div_mod(diag * FP, DIAGONAL_PIXELS as int);
    vstd::arithmetic::div_mod::lemma_mod_bound(diag * FP, DIAGONAL_PIXELS as int);
    assert(400 * raw <= 1000 * diag <= 400 * raw + 399);
    if raw > 2 * FP {
        let q = raw / (FP as int);
        vstd::arithmetic::div_mod::lemma_fundamental_div_mod(raw, FP as int);
        vstd::arithmetic::div_mod::lemma_mod_bound(raw, FP as int);
        assert(1000 * q <= raw <= 1000 * q + 999);
        assert(zoom_spec(win) == 1000 * q);
    }
}

/// At the snapped zoom, the visible window always fits the map: twice
/// the world-space half-extent of the window stays within each map
/// dimension.
pub proof fn lemma_window_fits_map(win: WindowSize, scale: int)
    requires
        win.valid(),
        scale == zoom_spec(win),
    ensures
        0 <= half_window(win.width as int, scale) <= 400_000,
        0 <= half_window(win.height as int, scale) <= 400_000,
        2 * half_window(win.width as int, scale) <= MAP_WIDTH,
        2 * half_window(win.height as int, scale) <= MAP_HEIGHT,
{
    lemma_zoom_covers_window(win);
    lemma_half_window_bound(win.width as int, scale);
    lemma_half_window_bound(win.height as int, scale);
}

/// The half-window bound for one axis: from `4 * scale >= 5 * px`, the
/// window's world-space half-extent is at most 400 world units.
proof fn lemma_half_window_bound(px: int, scale: int)
    requires
        px >= 1,
        4 * scale >= 5 * px,
    ensures
        0 <= half_window(px, scale) <= 400_000,
{
    let x = px * 1_000_000;
    let s = scale;
    let q1 = x / s;
    vstd::arithmetic::div_mod::lemma_fundamental_div_mod(x, s);
    vstd::arithmetic::div_mod::lemma_mod_bound(x, s);
    assert(q1 >= 0 && s * q1 <= x) by (nonlinear_arith)
        requires
            s * q1 + x % s == x,
            0 <= x % s < s,
            x >= 1,
            s >= 1,
    ;
    vstd::arithmetic::div_mod::lemma_fundamental_div_mod(q1, 2);
    vstd::arithmetic::div_mod::lemma_mod_bound(q1, 2);
    let hw = q1 / 2;
    assert(half_window(px, s) == hw);
    assert(hw <= 400_000) by (nonlinear_arith)
        requires
            2 * hw <= q1,
            s * q1 <= x,
            x == px * 1_000_000,
            4 * s >= 5 * px,
            s >= 1,
            hw >= 0,
            px >= 1,
    ;
}

/// The camera update as the frame loop runs it: compute the zoom from
/// the window, then frame the camera; returns the scale for the view
/// transform.
pub fn position_camera(win: &WindowSize, pos: Vec2Fp, cam: &mut Vec2Fp) -> (scale: i64)
    requires
        win.valid(),
        -MAX_CAMERA_COORD <= pos.x <= MAX_CAMERA_COORD,
        -MAX_CAMERA_COORD <= pos.y <= MAX_CAMERA_COORD,
        -MAX_CAMERA_COORD <= old(cam).x <= MAX_CAMERA_COORD,
        -MAX_CAMERA_COORD <= old(cam).y <= MAX_CAMERA_COORD,
    ensures
        scale == zoom_spec(*win),
        *final(cam) == camera_spec(pos, *old(cam), *win, scale as int),
        // the visible window never extends beyond the map's edges,
        // wherever the player stands
        final(cam).x - half_window(win.width as int, scale as int) >= 0,
        final(cam).x + half_window(win.width as int, scale as int) <= MAP_WIDTH,
        final(cam).y - half_window(win.height as int, scale as int) >= 0,
        final(cam).y + half_window(win.height as int, scale as int) <= MAP_HEIGHT,
{
    let scale: i64 = calculate_zoom(win);
    proof {
        lemma_window_fits_map(*win, scale as int);
    }
    frame_camera(win, scale, pos, cam);
    scale
}

/// The dead-zone law: whenever the dead zone is non-degenerate, the
/// tracked camera leaves the player within it — the player's offset
/// from the camera, in pixels, never exceeds the dead-zone half-width.
pub proof fn lemma_dead_zone(p: int, c: int, scale: int, bound: int)
    requires
        scale >= 1,
        bound >= 0,
    ensures
        -(bound * FP) <= (p - track_axis(p, c, scale, bound)) * scale <= bound * FP,
{
    let q = tdiv(bound * FP, scale);
    vstd::arithmetic::div_mod::lemma_fundamental_div_mod(bound * FP, scale);
    vstd::arithmetic::div_mod::lemma_mod_bound(bound * FP, scale);
    assert(bound * FP >= 0) by (nonlinear_arith)
        requires
            bound >= 0,
            FP == 1000,
    ;
    assert(q >= 0 && q * scale <= bound * FP) by (nonlinear_arith)
        requires
            scale * ((bound * FP) / scale) + (bound * FP) % scale == bound * FP,
            0 <= (bound * FP) % scale < scale,
            bound * FP >= 0,
            scale >= 1,
            q == (bound * FP) / scale,
    ;
    let c1 = if (p - c) * scale > bound * FP {
        p - q
    } else {
        c
    };
    if (p - c) * scale > bound * FP {
        assert((p - c1) * scale == q * scale) by (nonlinear_arith)
            requires
                c1 == p - q,
        ;
    }
    let c2 = if (p - c1) * scale < -(bound * FP) {
        p + q
    } else {
        c1
    };
    if (p - c1) * scale < -(bound * FP) {
        assert((p - c2) * scale == -(q * scale)) by (nonlinear_arith)
            requires
                c2 == p + q,
        ;
    }
}

} // verus!
