use topdown::fp::{Vec2Fp, WindowSize, diagonal, isqrt};
use topdown::game_camera::{calculate_zoom, frame_camera, position_camera};
use topdown::map::{MAP_HEIGHT, MAP_WIDTH};

#[test]
fn isqrt_exact_values() {
    assert_eq!(isqrt(0), 0);
    assert_eq!(isqrt(1), 1);
    assert_eq!(isqrt(3), 1);
    assert_eq!(isqrt(4), 2);
    assert_eq!(isqrt(2_278_400), 1509);
    assert_eq!(isqrt(u64::MAX), 4_294_967_295);
}

#[test]
fn window_diagonal_in_whole_pixels() {
    // sqrt(1280^2 + 800^2) = 1509.43...
    assert_eq!(diagonal(&WindowSize { width: 1280, height: 800 }), 1509);
    assert_eq!(diagonal(&WindowSize { width: 3, height: 4 }), 5);
}

#[test]
fn zoom_1280_by_800_snaps_to_three() {
    // raw scale 1509 * 1000 / 400 = 3772, floored to the whole tier
    let scale = calculate_zoom(&WindowSize { width: 1280, height: 800 });
    assert_eq!(scale, 3000);
}

#[test]
fn zoom_tiers() {
    // diagonal 800 -> raw 2000 -> the one-and-a-half tier cap
    assert_eq!(calculate_zoom(&WindowSize { width: 640, height: 480 }), 1500);
    // diagonal 600 -> raw 1500 -> snapped down to one
    assert_eq!(calculate_zoom(&WindowSize { width: 480, height: 360 }), 1000);
    // diagonal 300 -> raw 750, below one: kept fractional
    assert_eq!(calculate_zoom(&WindowSize { width: 240, height: 180 }), 750);
    // the smallest window still yields a positive scale
    assert_eq!(calculate_zoom(&WindowSize { width: 1, height: 1 }), 2);
}

#[test]
fn centered_player_leaves_camera_centered() {
    // map 32 x 32 tiles of 32 px; player at map center; window wider
    // than the map at this scale, so the camera centers on the map,
    // which is exactly the player
    let win = WindowSize { width: 1280, height: 800 };
    let pos = Vec2Fp { x: MAP_WIDTH / 2, y: MAP_HEIGHT / 2 };
    let mut cam = pos;
    frame_camera(&win, 1000, pos, &mut cam);
    assert_eq!(cam, pos);
}

#[test]
fn left_edge_clamps_camera_to_half_window() {
    // at scale 3 the visible half-width is 640 / 3 = 213.333 world
    // units; walking to the left map edge pins the camera there, not at
    // the player's x
    let win = WindowSize { width: 1280, height: 800 };
    let pos = Vec2Fp { x: 0, y: MAP_WIDTH / 2 };
    let mut cam = Vec2Fp { x: 0, y: MAP_WIDTH / 2 };
    frame_camera(&win, 3000, pos, &mut cam);
    assert_eq!(cam.x, 213_333);
    assert_eq!(cam.y, MAP_HEIGHT / 2);
}

#[test]
fn corner_player_keeps_window_inside_map() {
    let win = WindowSize { width: 480, height: 360 };
    for corner in [
        Vec2Fp { x: 0, y: 0 },
        Vec2Fp { x: MAP_WIDTH, y: 0 },
        Vec2Fp { x: 0, y: MAP_HEIGHT },
        Vec2Fp { x: MAP_WIDTH, y: MAP_HEIGHT },
    ] {
        let mut cam = corner;
        let scale = position_camera(&win, corner, &mut cam);
        assert_eq!(scale, 1000);
        let half_w = 480 * 1000 / 2;
        let half_h = 360 * 1000 / 2;
        assert!(cam.x - half_w >= 0);
        assert!(cam.x + half_w <= MAP_WIDTH);
        assert!(cam.y - half_h >= 0);
        assert!(cam.y + half_h <= MAP_HEIGHT);
    }
}

#[test]
fn window_never_extends_beyond_map() {
    // even extreme windows snap to a zoom that keeps the visible
    // window inside the map, wherever the player stands
    for win in [
        WindowSize { width: 65536, height: 65536 },
        WindowSize { width: 65536, height: 1 },
        WindowSize { width: 1, height: 1 },
        WindowSize { width: 800, height: 599 },
    ] {
        for pos in [
            Vec2Fp { x: 0, y: 0 },
            Vec2Fp { x: MAP_WIDTH, y: MAP_HEIGHT },
            Vec2Fp { x: MAP_WIDTH / 2, y: 13 },
        ] {
            let mut cam = Vec2Fp { x: 777_777, y: -5 };
            let scale = position_camera(&win, pos, &mut cam);
            let half_w = win.width * 1000 * 1000 / scale / 2;
            let half_h = win.height * 1000 * 1000 / scale / 2;
            assert!(cam.x - half_w >= 0);
            assert!(cam.x + half_w <= MAP_WIDTH);
            assert!(cam.y - half_h >= 0);
            assert!(cam.y + half_h <= MAP_HEIGHT);
        }
    }
}

#[test]
fn dead_zone_snaps_camera_to_player() {
    // window 480x360 at scale one: the horizontal dead-zone half-width
    // is 240 - (6 + 32) = 202 world units
    let win = WindowSize { width: 480, height: 360 };
    let pos = Vec2Fp { x: 600_000, y: MAP_HEIGHT / 2 };
    let mut cam = Vec2Fp { x: 300_000, y: MAP_HEIGHT / 2 };
    frame_camera(&win, 1000, pos, &mut cam);
    // the player sits exactly on the right dead-zone edge
    assert_eq!(cam.x, 600_000 - 202_000);
}

#[test]
fn camera_rests_while_player_inside_dead_zone() {
    let win = WindowSize { width: 480, height: 360 };
    let pos = Vec2Fp { x: 520_000, y: 500_000 };
    let mut cam = Vec2Fp { x: 512_000, y: 512_000 };
    frame_camera(&win, 1000, pos, &mut cam);
    assert_eq!(cam, Vec2Fp { x: 512_000, y: 512_000 });
}
