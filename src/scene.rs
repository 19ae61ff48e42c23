//! What a frame shows: the camera easing toward its target, and where the
//! player and the platforms are drawn.
use vstd::prelude::*;
use crate::clock::MAX_FRAME_MICROS;
use crate::fixed::{abs, div_trunc, trunc_div, lemma_trunc_div_bound, ONE};
use crate::sprite::NEG_ONE;
use crate::transform::Transform;
use crate::vector::Vector2;
use crate::world::{touch_factor, Platform, Player, WORLD_LIMIT};

verus! {

/// Camera speed in units per second, which is also millionths of a unit
/// per microsecond.
pub const CAMERA_SPEED: i64 = 32;
/// Half the width of the camera's view.
pub const VIEW_HALF_WIDTH: i64 = 16_000_000;
/// Half the height of the camera's view.
pub const VIEW_HALF_HEIGHT: i64 = 8_000_000;
/// Thickness of a drawn platform.
pub const PLATFORM_THICKNESS: i64 = 300_000;
/// Width of the drawn player.
pub const PLAYER_WIDTH: i64 = 700_000;
/// Tilt of the player at hop speed, in degrees.
pub const HOP_TILT: i64 = 15;
/// Horizontal speed, in units per second, at which the tilt is `HOP_TILT` degrees.
pub const HOP_TILT_SPEED: i64 = 18;

/// The camera height after a frame of `frame_micros`: it moves toward the
/// target at `CAMERA_SPEED`, and lands on it when the target is in reach.
pub open spec fn follow_spec(camera_y: int, target: int, frame_micros: int) -> int {
    let reach = CAMERA_SPEED * frame_micros;
    if abs(camera_y - target) > reach {
        if target > camera_y {
            camera_y + reach
        } else {
            camera_y - reach
        }
    } else {
        target
    }
}

pub fn follow_camera(camera_y: i64, target: i64, frame_micros: u64) -> (r: i64)
    requires
        abs(camera_y as int) <= WORLD_LIMIT,
        abs(target as int) <= WORLD_LIMIT,
        frame_micros <= MAX_FRAME_MICROS,
    ensures
        r == follow_spec(camera_y as int, target as int, frame_micros as int),
        abs(r - target) <= abs(camera_y - target),
{
    let reach: i64 = CAMERA_SPEED * (frame_micros as i64);
    let gap: i64 = if camera_y >= target {
        camera_y - target
    } else {
        target - camera_y
    };
    if gap > reach {
        if target > camera_y {
            camera_y + reach
        } else {
            camera_y - reach
        }
    } else {
        target
    }
}

/// The view the world is seen through.
pub fn camera_view(camera_y: i64) -> (r: Transform)
    ensures
        r.translation == (Vector2 { x: 0, y: camera_y }),
        r.rotation == (Vector2 { x: ONE, y: 0 }),
        r.scale == (Vector2 { x: VIEW_HALF_WIDTH, y: VIEW_HALF_HEIGHT }),
        r.origin == (Vector2 { x: 0, y: 0 }),
{
    Transform {
        translation: Vector2 { x: 0, y: camera_y },
        rotation: Vector2 { x: ONE, y: 0 },
        scale: Vector2 { x: VIEW_HALF_WIDTH, y: VIEW_HALF_HEIGHT },
        origin: Vector2::zero(),
    }
}

/// Where a platform is drawn: hanging from its top edge, as wide as its
/// landing width.
pub fn platform_transform(p: &Platform) -> (r: Transform)
    requires
        abs(p.half_width as int) <= WORLD_LIMIT,
    ensures
        r.translation == p.position,
        r.rotation == (Vector2 { x: ONE, y: 0 }),
        r.scale == (Vector2 { x: (p.half_width * touch_factor(*p)) as i64, y: PLATFORM_THICKNESS }),
        r.origin == (Vector2 { x: 0, y: ONE }),
{
    let factor: i64 = if p.touched {
        2
    } else {
        1
    };
    Transform {
        translation: p.position,
        rotation: Vector2 { x: ONE, y: 0 },
        scale: Vector2 { x: p.half_width * factor, y: PLATFORM_THICKNESS },
        origin: Vector2 { x: 0, y: ONE },
    }
}

/// The player's tilt in millionths of a degree: it leans with its speed
/// while rising from a hop, and stands upright otherwise.
pub open spec fn tilt_spec(p: Player) -> int {
    if p.grounded == 1 {
        trunc_div(p.velocity.x * HOP_TILT, HOP_TILT_SPEED as int)
    } else {
        0
    }
}

pub fn player_tilt(p: &Player) -> (r: i64)
    requires
        abs(p.velocity.x as int) <= WORLD_LIMIT,
    ensures
        r == tilt_spec(*p),
{
    if p.grounded == 1 {
        proof {
            lemma_trunc_div_bound(p.velocity.x * HOP_TILT, HOP_TILT_SPEED as int);
        }
        div_trunc(p.velocity.x * HOP_TILT, HOP_TILT_SPEED)
    } else {
        0
    }
}

/// Where the player is drawn: standing on its bottom edge at its position,
/// turned by `rotation` (cosine and sine of its tilt).
pub fn player_transform(p: &Player, rotation: Vector2) -> (r: Transform)
    ensures
        r.translation == p.position,
        r.rotation == rotation,
        r.scale == (Vector2 { x: PLAYER_WIDTH, y: ONE }),
        r.origin == (Vector2 { x: 0, y: NEG_ONE }),
{
    Transform {
        translation: p.position,
        rotation,
        scale: Vector2 { x: PLAYER_WIDTH, y: ONE },
        origin: Vector2 { x: 0, y: NEG_ONE },
    }
}

} // verus!
