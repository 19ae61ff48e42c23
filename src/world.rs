//! The fixed-step world: player kinematics, landing on platforms, platforms
//! that sink and come back above the camera, and the fall that restarts it all.
use vstd::prelude::*;
use crate::fixed::{abs, div_trunc, round_to_unit, round_unit, trunc_div, lemma_trunc_div_bound};
use crate::vector::Vector2;

verus! {

/// Simulation steps per second; each step advances the world by this
/// fraction of a second.
pub const STEPS_PER_SECOND: i64 = 72;
/// Downward acceleration, per step (35 units per second squared).
pub const GRAVITY_STEP: i64 = 486_111;
/// Horizontal acceleration under input, per step (160 units per second squared).
pub const RUN_ACCEL_STEP: i64 = 2_222_222;
/// Horizontal speed along the input beyond which input adds no more.
pub const RUN_SPEED_CAP: i64 = 12_000_000;
/// Vertical speed of a directional hop.
pub const HOP_RISE: i64 = 8_000_000;
/// Horizontal speed of a directional hop.
pub const HOP_SPEED: i64 = 18_000_000;
/// Vertical speed of a straight jump.
pub const JUMP_RISE: i64 = 24_000_000;
/// Depth below the camera at which the player is falling to death.
pub const DEATH_DEPTH: i64 = 10_000_000;
/// Steps spent falling below the camera before the world restarts.
pub const DEATH_GRACE_STEPS: u32 = 72;
/// Camera height at the start and after a restart.
pub const CAMERA_START: i64 = 7_000_000;
/// How far above a landing the camera aims.
pub const CAMERA_LEAD: i64 = 7_000_000;
/// Extra reach of a landing zone beyond the platform's half width.
pub const LAND_MARGIN: i64 = 700_000;
/// Depth below a platform's top of the line that a landing aims at.
pub const LAND_DEPTH: i64 = 150_000;
/// Vertical distance from that line within which the player lands.
pub const LAND_TOLERANCE: i64 = 300_000;
/// Camera height at which touched platforms start to sink.
pub const SINK_BASE: i64 = 6_000_000;
/// Camera rise per unit of sink rate.
pub const SINK_DIVISOR: i64 = 32;
/// Largest sink rate, in units per second.
pub const SINK_CAP: i64 = 5_000_000;
/// Depth below the camera at which a platform is recycled.
pub const RECYCLE_DEPTH: i64 = 10_000_000;
/// Height above its touch origin at which a recycled platform comes back.
pub const RECYCLE_RISE: i64 = 24_000_000;
/// Half width lost at each recycling.
pub const WIDTH_STEP: i64 = 200_000;
/// Narrowest half width of a platform.
pub const MIN_HALF_WIDTH: i64 = 1_000_000;
/// Half width of a fresh platform.
pub const START_HALF_WIDTH: i64 = 3_000_000;
/// Recycled platforms come back at most this far left or right of centre.
pub const LATERAL_BAND: i64 = 12_000_000;
/// Largest vertical jitter of a recycled platform.
pub const JITTER: i64 = 500_000;
/// Number of platforms in the world.
pub const PLATFORM_COUNT: usize = 4;
/// Spacing of the seeded platforms, in both directions.
pub const SEED_SPACING: i64 = 6_000_000;
/// Horizontal position of the first seeded platform.
pub const SEED_LEFT: i64 = -8_000_000;
/// Magnitude bound on every coordinate of a world that can be stepped.
pub const WORLD_LIMIT: i64 = 0x4_0000_0000_0000;
/// Magnitude bound on the values a step computes along the way.
pub const WORK_LIMIT: i64 = 0x8_0000_0000_0000;

/// A ledge the player can land on.
#[derive(Clone, Copy, Debug, PartialEq, Eq, Structural)]
pub struct Platform {
    pub position: Vector2,
    pub half_width: i64,
    pub touched: bool,
    pub touch_origin: Vector2,
}

/// The player: where it is, how fast it moves, and its ground state
/// (0 airborne, 1 rising from a hop, 2 standing on a platform).
#[derive(Clone, Copy, Debug, PartialEq, Eq, Structural)]
pub struct Player {
    pub position: Vector2,
    pub velocity: Vector2,
    pub grounded: u8,
}

/// What the platforms hand on to each other while the player is tested
/// against them one by one.
#[derive(Clone, Copy, Debug, PartialEq, Eq, Structural)]
pub struct Contact {
    pub player: Player,
    pub target_height: i64,
    pub touched: bool,
}

/// The random values that place one recycled platform.
#[derive(Clone, Copy, Debug, PartialEq, Eq, Structural)]
pub struct Draw {
    pub x: i64,
    pub jitter: i64,
}

pub open spec fn draw_ok(d: Draw) -> bool {
    abs(d.x as int) <= LATERAL_BAND && abs(d.jitter as int) <= JITTER
}

/// Per-step sink of a touched platform: grows with the camera's height, capped.
pub open spec fn sink_rate(camera_y: int) -> int {
    let r = trunc_div(camera_y - SINK_BASE, SINK_DIVISOR as int);
    trunc_div(if r < SINK_CAP { r } else { SINK_CAP as int }, STEPS_PER_SECOND as int)
}

/// How far the player's landing snaps above the platform's sunk position.
pub open spec fn landing_lift(camera_y: int) -> int {
    trunc_div(sink_rate(camera_y) * 11, 10)
}

/// A touched platform is drawn and landed on at twice its width.
pub open spec fn touch_factor(p: Platform) -> int {
    if p.touched {
        2
    } else {
        1
    }
}

/// The player at `pos` is close enough to `p` to land on it.
pub open spec fn in_landing_zone(p: Platform, pos: Vector2) -> bool {
    &&& abs(pos.x - p.position.x) < p.half_width * touch_factor(p) + LAND_MARGIN
    &&& abs(pos.y - (p.position.y - LAND_DEPTH)) < LAND_TOLERANCE
}

/// Testing the player against one platform: on landing the fall stops, the
/// player stands on the platform, the platform is marked touched, and the
/// camera aims higher if this landing is above it.
pub open spec fn land_spec(c: Contact, p: Platform, camera_y: int) -> (Contact, Platform) {
    if in_landing_zone(p, c.player.position) {
        let y = p.position.y - landing_lift(camera_y);
        let player = Player {
            position: Vector2 { x: c.player.position.x, y: y as i64 },
            velocity: Vector2 { x: c.player.velocity.x, y: 0 },
            grounded: 2,
        };
        let target = if y + CAMERA_LEAD > camera_y && c.target_height <= camera_y {
            (y + CAMERA_LEAD) as i64
        } else {
            c.target_height
        };
        let origin = if p.touched {
            p.touch_origin
        } else {
            p.position
        };
        (
            Contact { player, target_height: target, touched: true },
            Platform { touched: true, touch_origin: origin, ..p },
        )
    } else {
        (c, p)
    }
}

/// The player tested against the first `n` platforms in order.
pub open spec fn collide_prefix(c: Contact, plats: Seq<Platform>, camera_y: int, n: nat) -> (
    Contact,
    Seq<Platform>,
)
    decreases n,
{
    if n == 0 {
        (c, plats)
    } else {
        let (c1, ps1) = collide_prefix(c, plats, camera_y, (n - 1) as nat);
        let (c2, p2) = land_spec(c1, ps1[n - 1], camera_y);
        (c2, ps1.update(n - 1, p2))
    }
}

/// Width of a platform after one more recycling.
pub open spec fn narrowed(half_width: int) -> int {
    if half_width - WIDTH_STEP > MIN_HALF_WIDTH {
        half_width - WIDTH_STEP
    } else {
        MIN_HALF_WIDTH as int
    }
}

/// One step of a platform: a touched one sinks; one that is far enough below
/// the camera comes back above its touch origin, narrower and untouched.
pub open spec fn drift_spec(p: Platform, camera_y: int, d: Draw) -> Platform {
    let y = if p.touched {
        p.position.y - sink_rate(camera_y)
    } else {
        p.position.y as int
    };
    if y - camera_y < -RECYCLE_DEPTH {
        Platform {
            position: Vector2 {
                x: d.x,
                y: (round_unit(p.touch_origin.y + RECYCLE_RISE) + d.jitter) as i64,
            },
            half_width: narrowed(p.half_width as int) as i64,
            touched: false,
            touch_origin: p.touch_origin,
        }
    } else {
        Platform { position: Vector2 { x: p.position.x, y: y as i64 }, ..p }
    }
}

/// Horizontal speed after one step of damping.
pub open spec fn damp(v: int) -> int {
    trunc_div(v * 4, 5)
}

/// Horizontal control and jumping for one step, with input direction `dir`
/// (-1, 0 or 1) and `edge` true on the step the jump key goes down.
pub open spec fn steer_spec(p: Player, dir: int, edge: bool) -> Player {
    let vx0 = p.velocity.x as int;
    let vx1 = if vx0 * dir < RUN_SPEED_CAP {
        vx0 + RUN_ACCEL_STEP * dir
    } else {
        vx0
    };
    let jump = p.grounded > 0 && edge;
    let hop = jump && dir != 0 && p.grounded > 1;
    let vx2 = if hop {
        dir * HOP_SPEED
    } else {
        vx1
    };
    let vy = if hop {
        HOP_RISE as int
    } else if jump {
        JUMP_RISE as int
    } else {
        p.velocity.y as int
    };
    let grounded: u8 = if hop {
        1
    } else if jump {
        0
    } else {
        p.grounded
    };
    let vx3 = if dir == 0 || vx2 * dir < 0 {
        damp(vx2)
    } else {
        vx2
    };
    Player { position: p.position, velocity: Vector2 { x: vx3 as i64, y: vy as i64 }, grounded }
}

pub open spec fn platform_in_range(p: Platform, bound: int) -> bool {
    &&& p.position.within(bound)
    &&& p.touch_origin.within(bound)
    &&& abs(p.half_width as int) <= bound
}

pub open spec fn contact_in_range(c: Contact) -> bool {
    &&& c.player.position.within(WORK_LIMIT as int)
    &&& c.player.velocity.within(WORLD_LIMIT + 0x100_0000)
    &&& abs(c.target_height as int) <= WORK_LIMIT
    &&& c.player.grounded <= 2
}

proof fn lemma_sink_rate_bound(camera_y: int)
    requires
        abs(camera_y) <= WORLD_LIMIT,
    ensures
        abs(sink_rate(camera_y)) <= 0x100_0000_0000,
        abs(landing_lift(camera_y)) <= 0x1000_0000_0000,
{
    let r = trunc_div(camera_y - SINK_BASE, SINK_DIVISOR as int);
    lemma_trunc_div_bound(camera_y - SINK_BASE, SINK_DIVISOR as int);
    let c = if r < SINK_CAP { r } else { SINK_CAP as int };
    lemma_trunc_div_bound(c, STEPS_PER_SECOND as int);
    lemma_trunc_div_bound(sink_rate(camera_y) * 11, 10);
}

/// Per-step sink of a touched platform.
pub fn sink_rate_at(camera_y: i64) -> (r: i64)
    requires
        abs(camera_y as int) <= WORLD_LIMIT,
    ensures
        r == sink_rate(camera_y as int),
        abs(r as int) <= 0x100_0000_0000,
{
    proof {
        lemma_sink_rate_bound(camera_y as int);
        lemma_trunc_div_bound(camera_y - SINK_BASE, SINK_DIVISOR as int);
    }
    let r: i64 = div_trunc(camera_y - SINK_BASE, SINK_DIVISOR);
    let c: i64 = if r < SINK_CAP {
        r
    } else {
        SINK_CAP
    };
    div_trunc(c, STEPS_PER_SECOND)
}

impl Platform {
    /// A platform of the seeded layout, at slot `i`.
    pub open spec fn seeded(i: int, touch_origin: Vector2) -> Platform {
        Platform {
            position: Vector2 {
                x: (SEED_SPACING * i + SEED_LEFT) as i64,
                y: (SEED_SPACING * i) as i64,
            },
            half_width: START_HALF_WIDTH,
            touched: false,
            touch_origin,
        }
    }

    /// Whether the player at `pos` lands on this platform.
    pub fn in_landing_zone(&self, pos: Vector2) -> (r: bool)
        requires
            platform_in_range(*self, WORLD_LIMIT as int),
            pos.within(WORK_LIMIT as int),
        ensures
            r == in_landing_zone(*self, pos),
    {
        let factor: i64 = if self.touched {
            2
        } else {
            1
        };
        let dx: i64 = pos.x - self.position.x;
        let dy: i64 = pos.y - (self.position.y - LAND_DEPTH);
        let adx: i64 = if dx >= 0 {
            dx
        } else {
            -dx
        };
        let ady: i64 = if dy >= 0 {
            dy
        } else {
            -dy
        };
        adx < self.half_width * factor + LAND_MARGIN && ady < LAND_TOLERANCE
    }

    /// Tests the player in `contact` against this platform and lands it
    /// there if it is close enough.
    pub fn land(&mut self, contact: &mut Contact, camera_y: i64)
        requires
            platform_in_range(*old(self), WORLD_LIMIT as int),
            contact_in_range(*old(contact)),
            abs(camera_y as int) <= WORLD_LIMIT,
        ensures
            (*final(contact), *final(self)) == land_spec(*old(contact), *old(self), camera_y as int),
            contact_in_range(*final(contact)),
            platform_in_range(*final(self), WORLD_LIMIT as int),
    {
        if self.in_landing_zone(contact.player.position) {
            proof {
                lemma_sink_rate_bound(camera_y as int);
                lemma_trunc_div_bound(sink_rate(camera_y as int) * 11, 10);
            }
            let rate: i64 = sink_rate_at(camera_y);
            let lift: i64 = div_trunc(rate * 11, 10);
            let y: i64 = self.position.y - lift;
            contact.player.position.y = y;
            contact.player.velocity.y = 0;
            contact.player.grounded = 2;
            if y + CAMERA_LEAD > camera_y && contact.target_height <= camera_y {
                contact.target_height = y + CAMERA_LEAD;
            }
            contact.touched = true;
            if !self.touched {
                self.touch_origin = self.position;
            }
            self.touched = true;
        }
    }

    /// Sinks the platform if touched, and recycles it with the draw `d` once
    /// it is far enough below the camera.
    pub fn drift(&mut self, camera_y: i64, d: Draw)
        requires
            platform_in_range(*old(self), WORLD_LIMIT as int),
            abs(camera_y as int) <= WORLD_LIMIT,
            draw_ok(d),
        ensures
            *final(self) == drift_spec(*old(self), camera_y as int, d),
    {
        if self.touched {
            let rate: i64 = sink_rate_at(camera_y);
            self.position.y = self.position.y - rate;
        }
        if self.position.y - camera_y < -RECYCLE_DEPTH {
            let base: i64 = round_to_unit(self.touch_origin.y + RECYCLE_RISE);
            self.position.x = d.x;
            self.position.y = base + d.jitter;
            self.half_width = if self.half_width - WIDTH_STEP > MIN_HALF_WIDTH {
                self.half_width - WIDTH_STEP
            } else {
                MIN_HALF_WIDTH
            };
            self.touched = false;
        }
    }
}

/// `v` times an input direction.
fn times_dir(v: i64, dir: i64) -> (r: i64)
    requires
        -1 <= dir <= 1,
        abs(v as int) <= WORK_LIMIT,
    ensures
        r == v * dir,
{
    if dir > 0 {
        assert(v * dir == v) by (nonlinear_arith)
            requires
                dir == 1,
        ;
        v
    } else if dir < 0 {
        assert(v * dir == -v) by (nonlinear_arith)
            requires
                dir == -1,
        ;
        -v
    } else {
        assert(v * dir == 0) by (nonlinear_arith)
            requires
                dir == 0,
        ;
        0
    }
}

impl Player {
    /// Applies horizontal control, the jump, and damping for one step.
    pub fn steer(&mut self, dir: i64, edge: bool)
        requires
            -1 <= dir <= 1,
            old(self).velocity.within(WORLD_LIMIT + 0x100_0000),
        ensures
            *final(self) == steer_spec(*old(self), dir as int, edge),
    {
        let mut vx: i64 = self.velocity.x;
        if times_dir(vx, dir) < RUN_SPEED_CAP {
            vx = vx + times_dir(RUN_ACCEL_STEP, dir);
        }
        if self.grounded > 0 && edge {
            if dir != 0 && self.grounded > 1 {
                self.velocity.y = HOP_RISE;
                vx = times_dir(HOP_SPEED, dir);
                self.grounded = 1;
            } else {
                self.velocity.y = JUMP_RISE;
                self.grounded = 0;
            }
        }
        if dir == 0 || times_dir(vx, dir) < 0 {
            proof {
                lemma_trunc_div_bound(vx * 4, 5);
            }
            vx = div_trunc(vx * 4, 5);
        }
        self.velocity.x = vx;
    }
}

/// What a step did.
#[derive(Clone, Copy, Debug, PartialEq, Eq, Structural)]
pub enum StepOutcome {
    /// The world moved on by one step.
    Advanced,
    /// The player is falling below the camera; nothing moved.
    Grace,
    /// The fall lasted too long and the world started over.
    Reset,
}

/// The whole simulation state.
#[derive(Debug)]
pub struct World {
    pub player: Player,
    pub platforms: Vec<Platform>,
    pub camera_y: i64,
    pub target_height: i64,
    pub death_frames: u32,
    /// Whether the jump key was down at the previous step.
    pub jump_held: bool,
}

/// A world as a value.
pub struct WorldView {
    pub player: Player,
    pub platforms: Seq<Platform>,
    pub camera_y: i64,
    pub target_height: i64,
    pub death_frames: u32,
    pub jump_held: bool,
}

impl View for World {
    type V = WorldView;

    open spec fn view(&self) -> WorldView {
        WorldView {
            player: self.player,
            platforms: self.platforms@,
            camera_y: self.camera_y,
            target_height: self.target_height,
            death_frames: self.death_frames,
            jump_held: self.jump_held,
        }
    }
}

/// Every coordinate is small enough for a step to be computed exactly.
pub open spec fn in_range(w: WorldView) -> bool {
    &&& w.platforms.len() == PLATFORM_COUNT
    &&& forall|i: int|
        0 <= i < w.platforms.len() ==> #[trigger] platform_in_range(
            w.platforms[i],
            WORLD_LIMIT as int,
        )
    &&& w.player.position.within(WORLD_LIMIT as int)
    &&& w.player.velocity.within(WORLD_LIMIT as int)
    &&& w.player.grounded <= 2
    &&& abs(w.camera_y as int) <= WORLD_LIMIT
    &&& abs(w.target_height as int) <= WORLD_LIMIT
    &&& w.death_frames <= DEATH_GRACE_STEPS
}

/// The player is far enough below the camera to be falling to death.
pub open spec fn below_death_line(w: WorldView) -> bool {
    w.player.position.y - w.camera_y < -DEATH_DEPTH
}

/// The world started over: platforms back in their seeded layout (each
/// keeping its touch origin), the player still on the first one, the camera
/// back at its start.
pub open spec fn restart_spec(w: WorldView) -> WorldView {
    let platforms = Seq::new(
        w.platforms.len(),
        |i: int| Platform::seeded(i, w.platforms[i].touch_origin),
    );
    WorldView {
        player: Player {
            position: Platform::seeded(0, w.platforms[0].touch_origin).position,
            velocity: Vector2 { x: 0, y: 0 },
            grounded: w.player.grounded,
        },
        platforms,
        camera_y: CAMERA_START,
        target_height: CAMERA_START,
        death_frames: 0,
        jump_held: w.jump_held,
    }
}

/// The player after gravity and one step of motion.
pub open spec fn fall_spec(p: Player) -> Player {
    let vy = p.velocity.y - GRAVITY_STEP;
    Player {
        position: Vector2 {
            x: (p.position.x + trunc_div(p.velocity.x as int, STEPS_PER_SECOND as int)) as i64,
            y: (p.position.y + trunc_div(vy, STEPS_PER_SECOND as int)) as i64,
        },
        velocity: Vector2 { x: p.velocity.x, y: vy as i64 },
        grounded: p.grounded,
    }
}

/// The contact state after testing the moved player against every platform;
/// a rising player touches none.
pub open spec fn collide_spec(w: WorldView) -> (Contact, Seq<Platform>) {
    let moved = fall_spec(w.player);
    let c = Contact { player: moved, target_height: w.target_height, touched: false };
    if moved.velocity.y <= 0 {
        collide_prefix(c, w.platforms, w.camera_y as int, w.platforms.len())
    } else {
        (c, w.platforms)
    }
}

/// One fixed step of the world, with input direction `dir` (-1, 0 or 1),
/// `jump_down` whether the jump key is down, and one draw per platform.
pub open spec fn step_spec(w: WorldView, dir: int, jump_down: bool, draws: Seq<Draw>) -> (
    WorldView,
    StepOutcome,
) {
    let edge = jump_down && !w.jump_held;
    let w0 = WorldView { jump_held: jump_down, ..w };
    if below_death_line(w) {
        if w.death_frames + 1 > DEATH_GRACE_STEPS {
            (restart_spec(w0), StepOutcome::Reset)
        } else {
            (WorldView { death_frames: (w.death_frames + 1) as u32, ..w0 }, StepOutcome::Grace)
        }
    } else {
        let (c, plats) = collide_spec(w);
        let grounded: u8 = if !c.touched && c.player.grounded != 1 {
            0
        } else {
            c.player.grounded
        };
        let player = steer_spec(Player { grounded, ..c.player }, dir, edge);
        let platforms = Seq::new(
            plats.len(),
            |i: int| drift_spec(plats[i], w.camera_y as int, draws[i]),
        );
        (
            WorldView { player, platforms, target_height: c.target_height, ..w0 },
            StepOutcome::Advanced,
        )
    }
}

proof fn lemma_collide_prefix(c: Contact, plats: Seq<Platform>, camera_y: int, n: nat)
    requires
        n <= plats.len(),
        contact_in_range(c),
        abs(camera_y) <= WORLD_LIMIT,
        forall|i: int|
            0 <= i < plats.len() ==> #[trigger] platform_in_range(plats[i], WORLD_LIMIT as int),
    ensures
        ({
            let (c1, ps1) = collide_prefix(c, plats, camera_y, n);
            &&& ps1.len() == plats.len()
            &&& contact_in_range(c1)
            &&& forall|i: int|
                0 <= i < ps1.len() ==> #[trigger] platform_in_range(ps1[i], WORLD_LIMIT as int)
            &&& forall|i: int| n <= i < ps1.len() ==> ps1[i] == plats[i]
        }),
    decreases n,
{
    if n > 0 {
        lemma_collide_prefix(c, plats, camera_y, (n - 1) as nat);
        let (c1, ps1) = collide_prefix(c, plats, camera_y, (n - 1) as nat);
        lemma_land_in_range(c1, ps1[n - 1], camera_y);
        let (c2, p2) = land_spec(c1, ps1[n - 1], camera_y);
        let ps2 = ps1.update(n - 1, p2);
        assert forall|i: int| 0 <= i < ps2.len() implies #[trigger] platform_in_range(
            ps2[i],
            WORLD_LIMIT as int,
        ) by {
            if i != n - 1 {
                assert(platform_in_range(ps1[i], WORLD_LIMIT as int));
            }
        }
    }
}

proof fn lemma_land_in_range(c: Contact, p: Platform, camera_y: int)
    requires
        contact_in_range(c),
        platform_in_range(p, WORLD_LIMIT as int),
        abs(camera_y) <= WORLD_LIMIT,
    ensures
        contact_in_range(land_spec(c, p, camera_y).0),
        platform_in_range(land_spec(c, p, camera_y).1, WORLD_LIMIT as int),
{
    lemma_sink_rate_bound(camera_y);
}

impl World {
    /// The seeded layout with the player on the first platform, moving
    /// slightly up and to the right, and the camera at its start.
    pub open spec fn initial() -> WorldView {
        let zero = Vector2 { x: 0, y: 0 };
        WorldView {
            player: Player {
                position: Platform::seeded(0, zero).position,
                velocity: Vector2 { x: 200_000, y: 500_000 },
                grounded: 0,
            },
            platforms: Seq::new(PLATFORM_COUNT as nat, |i: int| Platform::seeded(i, zero)),
            camera_y: CAMERA_START,
            target_height: 0,
            death_frames: 0,
            jump_held: false,
        }
    }

    pub fn new() -> (r: World)
        ensures
            r@ == World::initial(),
            in_range(r@),
    {
        let mut platforms: Vec<Platform> = Vec::new();
        let mut i: usize = 0;
        while i < PLATFORM_COUNT
            invariant
                i <= PLATFORM_COUNT,
                platforms@.len() == i,
                forall|j: int|
                    0 <= j < i ==> platforms@[j] == Platform::seeded(j, Vector2 { x: 0, y: 0 }),
            decreases PLATFORM_COUNT - i,
        {
            let k: i64 = i as i64;
            platforms.push(
                Platform {
                    position: Vector2 { x: SEED_SPACING * k + SEED_LEFT, y: SEED_SPACING * k },
                    half_width: START_HALF_WIDTH,
                    touched: false,
                    touch_origin: Vector2::zero(),
                },
            );
            i = i + 1;
        }
        let r = World {
            player: Player {
                position: Vector2 { x: SEED_LEFT, y: 0 },
                velocity: Vector2 { x: 200_000, y: 500_000 },
                grounded: 0,
            },
            platforms,
            camera_y: CAMERA_START,
            target_height: 0,
            death_frames: 0,
            jump_held: false,
        };
        assert(r@.platforms =~= World::initial().platforms);
        r
    }

    /// Whether every coordinate is small enough for `step`.
    pub fn in_range(&self) -> (r: bool)
        ensures
            r == in_range(self@),
    {
        let lim: i64 = WORLD_LIMIT;
        if self.platforms.len() != PLATFORM_COUNT {
            return false;
        }
        let mut i: usize = 0;
        while i < self.platforms.len()
            invariant
                i <= self.platforms@.len(),
                lim == WORLD_LIMIT,
                forall|j: int| 0 <= j < i ==> #[trigger] platform_in_range(self.platforms@[j], lim as int),
            decreases self.platforms@.len() - i,
        {
            let p = self.platforms[i];
            if !(within(p.position, lim) && within(p.touch_origin, lim) && -lim <= p.half_width
                && p.half_width <= lim) {
                assert(!platform_in_range(self.platforms@[i as int], lim as int));
                return false;
            }
            i = i + 1;
        }
        within(self.player.position, lim) && within(self.player.velocity, lim)
            && self.player.grounded <= 2 && -lim <= self.camera_y && self.camera_y <= lim && -lim
            <= self.target_height && self.target_height <= lim && self.death_frames
            <= DEATH_GRACE_STEPS
    }

    /// Starts the world over after a fatal fall.
    pub fn restart(&mut self)
        requires
            old(self).platforms@.len() == PLATFORM_COUNT,
        ensures
            final(self)@ == restart_spec(old(self)@),
    {
        let ghost w = self@;
        let mut i: usize = 0;
        while i < self.platforms.len()
            invariant
                i <= self.platforms@.len(),
                self.platforms@.len() == PLATFORM_COUNT,
                w.platforms.len() == PLATFORM_COUNT,
                w == old(self)@,
                self.player == w.player,
                self.jump_held == w.jump_held,
                forall|j: int|
                    0 <= j < i ==> self.platforms@[j] == Platform::seeded(
                        j,
                        w.platforms[j].touch_origin,
                    ),
                forall|j: int| i <= j < self.platforms@.len() ==> self.platforms@[j] == w.platforms[j],
            decreases self.platforms@.len() - i,
        {
            let k: i64 = i as i64;
            let origin = self.platforms[i].touch_origin;
            self.platforms.set(
                i,
                Platform {
                    position: Vector2 { x: SEED_SPACING * k + SEED_LEFT, y: SEED_SPACING * k },
                    half_width: START_HALF_WIDTH,
                    touched: false,
                    touch_origin: origin,
                },
            );
            i = i + 1;
        }
        self.player.position = self.platforms[0].position;
        self.player.velocity = Vector2::zero();
        self.camera_y = CAMERA_START;
        self.target_height = CAMERA_START;
        self.death_frames = 0;
        assert(self@.platforms =~= restart_spec(w).platforms);
    }
}

/// Tests the player in `contact` against every platform, in order.
fn collide_all(plats: &mut Vec<Platform>, contact: &mut Contact, camera_y: i64)
    requires
        contact_in_range(*old(contact)),
        abs(camera_y as int) <= WORLD_LIMIT,
        forall|i: int|
            0 <= i < old(plats)@.len() ==> #[trigger] platform_in_range(
                old(plats)@[i],
                WORLD_LIMIT as int,
            ),
    ensures
        (*final(contact), final(plats)@) == collide_prefix(
            *old(contact),
            old(plats)@,
            camera_y as int,
            old(plats)@.len(),
        ),
{
    let ghost c0 = *contact;
    let ghost p0 = plats@;
    let mut i: usize = 0;
    while i < plats.len()
        invariant
            i <= plats@.len(),
            plats@.len() == p0.len(),
            contact_in_range(c0),
            abs(camera_y as int) <= WORLD_LIMIT,
            forall|j: int| 0 <= j < p0.len() ==> #[trigger] platform_in_range(p0[j], WORLD_LIMIT as int),
            (*contact, plats@) == collide_prefix(c0, p0, camera_y as int, i as nat),
        decreases plats@.len() - i,
    {
        proof {
            lemma_collide_prefix(c0, p0, camera_y as int, i as nat);
        }
        let mut p = plats[i];
        p.land(contact, camera_y);
        plats.set(i, p);
        i = i + 1;
    }
}

/// Moves every platform on by one step, the `i`-th with the `i`-th draw.
fn drift_all(plats: &mut Vec<Platform>, camera_y: i64, draws: &Vec<Draw>)
    requires
        abs(camera_y as int) <= WORLD_LIMIT,
        draws@.len() == old(plats)@.len(),
        forall|i: int| 0 <= i < draws@.len() ==> #[trigger] draw_ok(draws@[i]),
        forall|i: int|
            0 <= i < old(plats)@.len() ==> #[trigger] platform_in_range(
                old(plats)@[i],
                WORLD_LIMIT as int,
            ),
    ensures
        final(plats)@ == Seq::new(
            old(plats)@.len(),
            |i: int| drift_spec(old(plats)@[i], camera_y as int, draws@[i]),
        ),
{
    let ghost p0 = plats@;
    let mut i: usize = 0;
    while i < plats.len()
        invariant
            i <= plats@.len(),
            plats@.len() == p0.len(),
            draws@.len() == p0.len(),
            abs(camera_y as int) <= WORLD_LIMIT,
            forall|j: int| 0 <= j < draws@.len() ==> #[trigger] draw_ok(draws@[j]),
            forall|j: int| 0 <= j < p0.len() ==> #[trigger] platform_in_range(p0[j], WORLD_LIMIT as int),
            forall|j: int| 0 <= j < i ==> plats@[j] == drift_spec(p0[j], camera_y as int, draws@[j]),
            forall|j: int| i <= j < plats@.len() ==> plats@[j] == p0[j],
        decreases plats@.len() - i,
    {
        let mut p = plats[i];
        assert(platform_in_range(p0[i as int], WORLD_LIMIT as int));
        assert(draw_ok(draws@[i as int]));
        p.drift(camera_y, draws[i]);
        plats.set(i, p);
        i = i + 1;
    }
    assert(plats@ =~= Seq::new(p0.len(), |i: int| drift_spec(p0[i], camera_y as int, draws@[i])));
}

impl World {
    /// One fixed step: the fall check, then gravity, landing, control and
    /// the platforms' drift. `dir` is the input direction (-1, 0 or 1),
    /// `jump_down` whether the jump key is down, and `draws` places each
    /// platform that is recycled.
    pub fn step(&mut self, dir: i64, jump_down: bool, draws: &Vec<Draw>) -> (r: StepOutcome)
        requires
            in_range(old(self)@),
            -1 <= dir <= 1,
            draws@.len() == PLATFORM_COUNT,
            forall|i: int| 0 <= i < draws@.len() ==> #[trigger] draw_ok(draws@[i]),
        ensures
            (final(self)@, r) == step_spec(old(self)@, dir as int, jump_down, draws@),
    {
        let ghost w = self@;
        let edge: bool = jump_down && !self.jump_held;
        self.jump_held = jump_down;
        if self.player.position.y - self.camera_y < -DEATH_DEPTH {
            if self.death_frames >= DEATH_GRACE_STEPS {
                self.restart();
                return StepOutcome::Reset;
            }
            self.death_frames = self.death_frames + 1;
            return StepOutcome::Grace;
        }
        let p = self.player;
        let vy: i64 = p.velocity.y - GRAVITY_STEP;
        proof {
            lemma_trunc_div_bound(p.velocity.x as int, STEPS_PER_SECOND as int);
            lemma_trunc_div_bound(vy as int, STEPS_PER_SECOND as int);
        }
        let moved = Player {
            position: Vector2 {
                x: p.position.x + div_trunc(p.velocity.x, STEPS_PER_SECOND),
                y: p.position.y + div_trunc(vy, STEPS_PER_SECOND),
            },
            velocity: Vector2 { x: p.velocity.x, y: vy },
            grounded: p.grounded,
        };
        assert(moved == fall_spec(w.player));
        let mut contact = Contact { player: moved, target_height: self.target_height, touched: false };
        let camera_y: i64 = self.camera_y;
        if vy <= 0 {
            collide_all(&mut self.platforms, &mut contact, camera_y);
            proof {
                lemma_collide_prefix(
                    Contact { player: moved, target_height: w.target_height, touched: false },
                    w.platforms,
                    camera_y as int,
                    w.platforms.len(),
                );
            }
        }
        if !contact.touched && contact.player.grounded != 1 {
            contact.player.grounded = 0;
        }
        let mut player = contact.player;
        player.steer(dir, edge);
        drift_all(&mut self.platforms, camera_y, draws);
        self.player = player;
        self.target_height = contact.target_height;
        StepOutcome::Advanced
    }
}

/// The moved player lands on some platform during this step.
pub open spec fn lands(w: WorldView) -> bool {
    let moved = fall_spec(w.player);
    &&& moved.velocity.y <= 0
    &&& exists|i: int|
        0 <= i < w.platforms.len() && #[trigger] in_landing_zone(w.platforms[i], moved.position)
}

/// `n` steps with the same input and draws.
pub open spec fn run(w: WorldView, n: nat, dir: int, jump_down: bool, draws: Seq<Draw>) -> WorldView
    decreases n,
{
    if n == 0 {
        w
    } else {
        step_spec(run(w, (n - 1) as nat, dir, jump_down, draws), dir, jump_down, draws).0
    }
}

/// Horizontal speed after `n` steps of damping.
pub open spec fn damp_n(v: int, n: nat) -> int
    decreases n,
{
    if n == 0 {
        v
    } else {
        damp(damp_n(v, (n - 1) as nat))
    }
}

proof fn lemma_no_contact(c: Contact, plats: Seq<Platform>, camera_y: int, n: nat)
    requires
        n <= plats.len(),
        forall|i: int|
            0 <= i < plats.len() ==> !#[trigger] in_landing_zone(plats[i], c.player.position),
    ensures
        collide_prefix(c, plats, camera_y, n) == (c, plats),
    decreases n,
{
    if n > 0 {
        lemma_no_contact(c, plats, camera_y, (n - 1) as nat);
        assert(plats.update(n - 1, plats[n - 1]) =~= plats);
    }
}

proof fn lemma_damp_shrinks(v: int)
    ensures
        abs(damp(v)) <= abs(v),
{
    lemma_trunc_div_bound(v * 4, 5);
}

/// Landing: a player inside a platform's landing zone stops falling and
/// stands on it, and the platform becomes touched; a player outside the zone
/// leaves both unchanged.
pub proof fn lemma_landing(c: Contact, p: Platform, camera_y: int)
    ensures
        in_landing_zone(p, c.player.position) ==> {
            let (c2, p2) = land_spec(c, p, camera_y);
            &&& c2.player.velocity.y == 0
            &&& c2.player.grounded >= 2
            &&& c2.touched
            &&& p2.touched
            &&& c2.player.position.x == c.player.position.x
        },
        !in_landing_zone(p, c.player.position) ==> land_spec(c, p, camera_y) == (c, p),
{
}

/// Gravity: a step above the death line in which the player lands nowhere
/// and does not jump lowers the vertical speed by exactly one step of gravity.
pub proof fn lemma_gravity_step(w: WorldView, dir: int, jump_down: bool, draws: Seq<Draw>)
    requires
        in_range(w),
        !below_death_line(w),
        !lands(w),
        !(jump_down && !w.jump_held),
    ensures
        step_spec(w, dir, jump_down, draws).0.player.velocity.y == w.player.velocity.y
            - GRAVITY_STEP,
        step_spec(w, dir, jump_down, draws).1 == StepOutcome::Advanced,
{
    let moved = fall_spec(w.player);
    let c = Contact { player: moved, target_height: w.target_height, touched: false };
    if moved.velocity.y <= 0 {
        lemma_no_contact(c, w.platforms, w.camera_y as int, w.platforms.len());
    }
}

/// Free fall: over `n` steps with no input, no jump, above the death line and
/// landing nowhere, the vertical speed drops by one step of gravity per step
/// and the horizontal speed is damped once per step.
pub proof fn lemma_free_fall(w: WorldView, n: nat, draws: Seq<Draw>)
    requires
        in_range(w),
        n <= 1_000_000,
        forall|k: nat|
            k < n ==> !below_death_line(#[trigger] run(w, k, 0, false, draws)) && !lands(
                run(w, k, 0, false, draws),
            ),
    ensures
        run(w, n, 0, false, draws).player.velocity.y == w.player.velocity.y - n * GRAVITY_STEP,
        run(w, n, 0, false, draws).player.velocity.x == damp_n(w.player.velocity.x as int, n),
    decreases n,
{
    if n > 0 {
        let m = (n - 1) as nat;
        assert(m < n);
        lemma_free_fall(w, m, draws);
        let v = run(w, m, 0, false, draws);
        assert(!below_death_line(v) && !lands(v));
        let moved = fall_spec(v.player);
        let c = Contact { player: moved, target_height: v.target_height, touched: false };
        if moved.velocity.y <= 0 {
            lemma_no_contact(c, v.platforms, v.camera_y as int, v.platforms.len());
        }
        lemma_damp_n_bound(w.player.velocity.x as int, m);
        lemma_damp_shrinks(damp_n(w.player.velocity.x as int, m));
        assert(n * GRAVITY_STEP == m * GRAVITY_STEP + GRAVITY_STEP) by (nonlinear_arith)
            requires
                n == m + 1,
        ;
        assert(m * GRAVITY_STEP <= 1_000_000 * GRAVITY_STEP) by (nonlinear_arith)
            requires
                m < 1_000_000,
        ;
        assert(0 * RUN_SPEED_CAP == 0);
    }
}

proof fn lemma_damp_n_bound(v: int, n: nat)
    ensures
        abs(damp_n(v, n)) <= abs(v),
    decreases n,
{
    if n > 0 {
        lemma_damp_n_bound(v, (n - 1) as nat);
        lemma_damp_shrinks(damp_n(v, (n - 1) as nat));
    }
}

/// The grace window: a player below the death line with a fresh counter
/// spends exactly `DEATH_GRACE_STEPS` steps in which nothing but the counter
/// (and the remembered jump key) changes; the next step starts the world
/// over, with the platforms back in their seeded layout and the player at rest.
pub proof fn lemma_death_grace(w: WorldView, dir: int, jump_down: bool, draws: Seq<Draw>)
    requires
        below_death_line(w),
        w.death_frames == 0,
    ensures
        forall|k: nat|
            1 <= k <= DEATH_GRACE_STEPS ==> #[trigger] run(w, k, dir, jump_down, draws) == (
            WorldView { death_frames: k as u32, jump_held: jump_down, ..w }),
        ({
            let last = run(w, DEATH_GRACE_STEPS as nat, dir, jump_down, draws);
            let (next, outcome) = step_spec(last, dir, jump_down, draws);
            &&& outcome == StepOutcome::Reset
            &&& next == restart_spec(last)
            &&& next.player.velocity == (Vector2 { x: 0, y: 0 })
            &&& forall|i: int|
                0 <= i < next.platforms.len() ==> (#[trigger] next.platforms[i]).position
                    == Platform::seeded(i, w.platforms[i].touch_origin).position
        }),
{
    assert forall|k: nat| 1 <= k <= DEATH_GRACE_STEPS implies #[trigger] run(
        w,
        k,
        dir,
        jump_down,
        draws,
    ) == (WorldView { death_frames: k as u32, jump_held: jump_down, ..w }) by {
        lemma_grace_run(w, k, dir, jump_down, draws);
    }
    lemma_grace_run(w, DEATH_GRACE_STEPS as nat, dir, jump_down, draws);
}

proof fn lemma_grace_run(w: WorldView, k: nat, dir: int, jump_down: bool, draws: Seq<Draw>)
    requires
        below_death_line(w),
        w.death_frames == 0,
        1 <= k <= DEATH_GRACE_STEPS,
    ensures
        run(w, k, dir, jump_down, draws) == (WorldView {
            death_frames: k as u32,
            jump_held: jump_down,
            ..w
        }),
    decreases k,
{
    let prev = run(w, (k - 1) as nat, dir, jump_down, draws);
    if k > 1 {
        lemma_grace_run(w, (k - 1) as nat, dir, jump_down, draws);
    } else {
        assert(prev == w);
    }
    assert(below_death_line(prev));
    assert(prev.death_frames + 1 == k);
    assert(run(w, k, dir, jump_down, draws) == step_spec(prev, dir, jump_down, draws).0);
}

/// Recycling: a platform whose height, after this step's sink, lies more
/// than `RECYCLE_DEPTH` below the camera comes back at the drawn place,
/// above its touch origin, untouched, with its half width reduced by
/// `WIDTH_STEP` but never below `MIN_HALF_WIDTH`. Any other platform keeps
/// its place across, its width and its touched mark.
pub proof fn lemma_recycle(p: Platform, camera_y: int, d: Draw)
    requires
        platform_in_range(p, WORLD_LIMIT as int),
        abs(camera_y) <= WORLD_LIMIT,
    ensures
        ({
            let sunk = if p.touched {
                p.position.y - sink_rate(camera_y)
            } else {
                p.position.y as int
            };
            let q = drift_spec(p, camera_y, d);
            &&& sunk - camera_y < -RECYCLE_DEPTH ==> {
                &&& q.position.x == d.x
                &&& q.position.y == (round_unit(p.touch_origin.y + RECYCLE_RISE) + d.jitter) as i64
                &&& q.half_width == (if p.half_width - WIDTH_STEP > MIN_HALF_WIDTH {
                    p.half_width - WIDTH_STEP
                } else {
                    MIN_HALF_WIDTH as int
                })
                &&& q.half_width >= MIN_HALF_WIDTH
                &&& !q.touched
            }
            &&& sunk - camera_y >= -RECYCLE_DEPTH ==> {
                &&& q.position.x == p.position.x
                &&& q.position.y == sunk
                &&& q.half_width == p.half_width
                &&& q.touched == p.touched
            }
        }),
{
    lemma_sink_rate_bound(camera_y);
}

fn within(v: Vector2, lim: i64) -> (r: bool)
    requires
        lim >= 0,
    ensures
        r == v.within(lim as int),
{
    -lim <= v.x && v.x <= lim && -lim <= v.y && v.y <= lim
}

} // verus!
