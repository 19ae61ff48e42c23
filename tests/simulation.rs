use climber::clock::FrameClock;
use climber::random::draw_platforms;
use climber::scene::{camera_view, follow_camera, platform_transform, player_tilt};
use climber::vector::Vector2;
use climber::world::{Draw, Platform, StepOutcome, World, JITTER, LATERAL_BAND};

fn v(x: i64, y: i64) -> Vector2 {
    Vector2 { x, y }
}

fn calm() -> Vec<Draw> {
    vec![Draw { x: 0, jitter: 0 }; 4]
}

fn world_without_ground() -> World {
    let mut w = World::new();
    for p in w.platforms.iter_mut() {
        p.position.x += 50_000_000;
    }
    w
}

#[test]
fn new_world_is_seeded() {
    let w = World::new();
    assert_eq!(w.player.position, v(-8_000_000, 0));
    assert_eq!(w.player.velocity, v(200_000, 500_000));
    assert_eq!(w.platforms.len(), 4);
    for (i, p) in w.platforms.iter().enumerate() {
        let k = i as i64;
        assert_eq!(p.position, v(6_000_000 * k - 8_000_000, 6_000_000 * k));
        assert_eq!(p.half_width, 3_000_000);
        assert!(!p.touched);
    }
    assert_eq!(w.camera_y, 7_000_000);
    assert!(w.in_range());
}

#[test]
fn free_fall_ten_steps() {
    let mut w = world_without_ground();
    let draws = calm();
    let mut expected_vx = 200_000i64;
    for n in 1..=10i64 {
        assert_eq!(w.step(0, false, &draws), StepOutcome::Advanced);
        expected_vx = expected_vx * 4 / 5;
        assert_eq!(w.player.velocity.y, 500_000 - n * 486_111);
        assert_eq!(w.player.velocity.x, expected_vx);
    }
    assert_eq!(w.player.position, v(-7_987_607, -301_886));
    assert_eq!(w.player.velocity, v(21_473, -4_361_110));
}

#[test]
fn gravity_lowers_vertical_speed_each_step() {
    let mut w = world_without_ground();
    let draws = calm();
    let mut before = w.player.velocity.y;
    for _ in 0..5 {
        w.step(1, false, &draws);
        assert_eq!(w.player.velocity.y, before - 486_111);
        before = w.player.velocity.y;
    }
}

#[test]
fn landing_on_first_platform() {
    let mut w = World::new();
    let draws = calm();
    w.step(0, false, &draws);
    assert_eq!(w.player.grounded, 0);
    w.step(0, false, &draws);
    assert_eq!(w.player.position, v(-7_995_001, -477));
    assert_eq!(w.player.velocity, v(128_000, 0));
    assert_eq!(w.player.grounded, 2);
    assert!(w.platforms[0].touched);
    assert_eq!(w.platforms[0].touch_origin, v(-8_000_000, 0));
    assert_eq!(w.platforms[0].position, v(-8_000_000, -434));
    assert_eq!(w.target_height, 0);
}

#[test]
fn no_landing_outside_the_zone() {
    let mut w = world_without_ground();
    let draws = calm();
    w.step(0, false, &draws);
    w.step(0, false, &draws);
    assert_eq!(w.player.grounded, 0);
    assert!(w.platforms.iter().all(|p| !p.touched));
    assert_eq!(w.player.velocity.y, -472_222);
}

#[test]
fn directional_hop_from_platform() {
    let mut w = World::new();
    let draws = calm();
    w.step(0, false, &draws);
    w.step(0, false, &draws);
    assert_eq!(w.step(1, true, &draws), StepOutcome::Advanced);
    assert_eq!(w.player.velocity, v(18_000_000, 8_000_000));
    assert_eq!(w.player.grounded, 1);
    assert_eq!(w.player.position, v(-7_993_224, -911));
}

#[test]
fn straight_jump_without_direction() {
    let mut w = World::new();
    let draws = calm();
    w.step(0, false, &draws);
    w.step(0, false, &draws);
    w.step(0, true, &draws);
    assert_eq!(w.player.velocity, v(102_400, 24_000_000));
    assert_eq!(w.player.grounded, 0);
}

#[test]
fn held_jump_key_does_not_jump_again() {
    let mut w = World::new();
    let draws = calm();
    w.step(0, true, &draws);
    w.step(0, true, &draws);
    assert_eq!(w.player.grounded, 2);
    w.step(0, true, &draws);
    assert_eq!(w.player.velocity.y, 0);
    assert_eq!(w.player.grounded, 2);
}

#[test]
fn death_grace_then_reset() {
    let mut w = World::new();
    w.camera_y = 20_000_000;
    w.player.velocity = v(1_000_000, -3_000_000);
    w.platforms[2].position = v(40_000_000, 90_000_000);
    let draws = calm();
    for k in 1..=71u32 {
        assert_eq!(w.step(0, false, &draws), StepOutcome::Grace);
        assert_eq!(w.death_frames, k);
    }
    assert_eq!(w.step(0, false, &draws), StepOutcome::Grace);
    assert_eq!(w.death_frames, 72);
    assert_eq!(w.player.velocity, v(1_000_000, -3_000_000));
    assert_eq!(w.platforms[2].position, v(40_000_000, 90_000_000));
    assert_eq!(w.step(0, false, &draws), StepOutcome::Reset);
    assert_eq!(w.death_frames, 0);
    assert_eq!(w.player.velocity, v(0, 0));
    assert_eq!(w.player.position, v(-8_000_000, 0));
    assert_eq!(w.platforms[2].position, v(4_000_000, 12_000_000));
    assert_eq!(w.camera_y, 7_000_000);
    assert_eq!(w.target_height, 7_000_000);
}

#[test]
fn recycled_platform_narrows() {
    let mut p = Platform {
        position: v(2_000_000, -4_000_000),
        half_width: 3_000_000,
        touched: false,
        touch_origin: v(0, 3_400_000),
    };
    p.drift(7_000_000, Draw { x: 5_000_000, jitter: -250_000 });
    assert_eq!(p.position, v(5_000_000, 26_750_000));
    assert_eq!(p.half_width, 2_800_000);
    assert!(!p.touched);
}

#[test]
fn recycled_platform_width_has_a_floor() {
    let mut p = Platform {
        position: v(0, -9_000_000),
        half_width: 1_100_000,
        touched: true,
        touch_origin: v(0, -2_600_000),
    };
    p.drift(7_000_000, Draw { x: -12_000_000, jitter: 500_000 });
    assert_eq!(p.half_width, 1_000_000);
    assert_eq!(p.position, v(-12_000_000, 21_500_000));
    assert!(!p.touched);
}

#[test]
fn platform_above_threshold_stays() {
    let mut p = Platform {
        position: v(1_000_000, -2_000_000),
        half_width: 2_000_000,
        touched: true,
        touch_origin: v(0, 0),
    };
    p.drift(7_000_000, Draw { x: 9_000_000, jitter: 0 });
    assert_eq!(p.position, v(1_000_000, -2_000_434));
    assert_eq!(p.half_width, 2_000_000);
    assert!(p.touched);
}

#[test]
fn random_draws_stay_in_band_and_vary() {
    let mut xs = Vec::new();
    for _ in 0..50 {
        let d = draw_platforms();
        assert_eq!(d.len(), 4);
        for e in d {
            assert!(-LATERAL_BAND <= e.x && e.x <= LATERAL_BAND);
            assert!(-JITTER <= e.jitter && e.jitter <= JITTER);
            xs.push(e.x);
        }
    }
    assert!(xs.iter().any(|&x| x != -LATERAL_BAND));
    assert!(xs.iter().any(|&x| x != xs[0]));
}

#[test]
fn advance_steps_the_world() {
    let mut w = World::new();
    assert_eq!(w.advance(0, false), StepOutcome::Advanced);
    assert_eq!(w.player.velocity.y, 500_000 - 486_111);
}

#[test]
fn advance_restarts_a_world_out_of_range() {
    let mut w = World::new();
    w.player.position.x = i64::MAX;
    assert_eq!(w.advance(0, false), StepOutcome::Reset);
    assert_eq!(w.player.position, v(-8_000_000, 0));
}

#[test]
fn frame_clock_drains_fixed_steps() {
    let mut c = FrameClock::new();
    assert_eq!(c.add_frame(30_000), 30_000);
    let mut steps = 0;
    while c.has_step() {
        c.consume_step();
        steps += 1;
    }
    assert_eq!(steps, 2);
    assert_eq!(c.accumulated, 30_000 - 2 * 13_889);
    assert_eq!(c.add_frame(5_000_000), 250_000);
}

#[test]
fn camera_eases_toward_target() {
    assert_eq!(follow_camera(7_000_000, 0, 16_000), 6_488_000);
    assert_eq!(follow_camera(7_000_000, 9_000_000, 16_000), 7_512_000);
    assert_eq!(follow_camera(7_000_000, 7_100_000, 16_000), 7_100_000);
}

#[test]
fn drawn_shapes() {
    let view = camera_view(9_000_000);
    assert_eq!(view.translation, v(0, 9_000_000));
    assert_eq!(view.scale, v(16_000_000, 8_000_000));
    let mut w = World::new();
    w.platforms[1].touched = true;
    let t = platform_transform(&w.platforms[1]);
    assert_eq!(t.scale, v(6_000_000, 300_000));
    assert_eq!(t.origin, v(0, 1_000_000));
    w.player.grounded = 1;
    w.player.velocity.x = 18_000_000;
    assert_eq!(player_tilt(&w.player), 15_000_000);
    w.player.grounded = 2;
    assert_eq!(player_tilt(&w.player), 0);
}
