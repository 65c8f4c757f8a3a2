//! Movement of bodies: integration of intent and gravity, and the soft
//! correction that keeps a body out of static terrain.

use vstd::prelude::*;
use crate::aabb::{AABB, EXTENT_LIMIT};
use crate::enemy::{Explosion, ExplosionEntity, GARLIC_BLAST_RADIUS};
use crate::geometry::{Placement, Vec2, Vec3, BOX_LIMIT};
use crate::units::{
    displacement, magnitude, travel, truncated_quotient, within, MAX_TICK_NANOS, SPEED_LIMIT,
};

verus! {

/// Fastest fall, in sub-units per second (a negative vertical velocity).
pub const TERMINAL_VELOCITY: i64 = -1_500_000;

/// Deepest horizontal penetration that is corrected.
pub const HORIZONTAL_SNAP: i64 = 8_000;

/// Deepest vertical penetration that is corrected.
pub const VERTICAL_SNAP: i64 = 24_000;

/// Largest jump force: three times it is still a speed within `SPEED_LIMIT`.
pub const JUMP_FORCE_LIMIT: i64 = 333_333_333;

/// Largest value of the glide clock for which one more tick can be counted.
pub const JUMP_TIMER_LIMIT: u64 = 0xFFFF_FFFF_0000_0000;

/// Largest number of platforms that one resolution pass accepts.
pub const MAX_PLATFORMS: usize = 0xFFFF_FFFF;

/// Movement state and intent of a body.
#[derive(Clone, Copy, PartialEq, Eq, Debug, Structural)]
pub struct MovementController {
    /// Horizontal speed at full intent, in sub-units per second.
    pub speed: i64,
    pub jump_force: i64,
    /// Current velocity, in sub-units per second.
    pub velocity: Vec2,
    /// Downward speed gained on each airborne tick.
    pub gravity: i64,
    pub grounded: bool,
    /// Longest glide, in nanoseconds.
    pub jump_time: u64,
    /// Time spent gliding since the body last landed, in nanoseconds.
    pub jump_timer: u64,
    /// Horizontal intent: `-1` (left), `0` or `1` (right).
    pub horizontal: i64,
    pub gliding: bool,
    pub facing_right: bool,
}

/// Marker of the body that the camera follows.
#[derive(Clone, Copy, PartialEq, Eq, Debug, Structural)]
pub struct FollowCamera;

/// A body that moves and collides with terrain.
#[derive(Clone, Copy, PartialEq, Eq, Debug, Structural)]
pub struct Body {
    pub placement: Placement,
    pub controller: MovementController,
    /// Whether the body is a lobbed bomb, which detonates on any contact.
    pub garlic: bool,
}

/// Position `translation` after moving for `dt` nanoseconds at `velocity`.
/// The drawing depth does not move.
pub open spec fn advanced(translation: Vec3, velocity: Vec2, dt: u64) -> Vec3 {
    Vec3 {
        x: (translation.x + displacement(velocity.x as int, dt as int)) as i64,
        y: (translation.y + displacement(velocity.y as int, dt as int)) as i64,
        z: translation.z,
    }
}

impl MovementController {
    /// The state of a body that has just been created.
    pub open spec fn initial() -> MovementController {
        MovementController {
            speed: 70_000,
            jump_force: 666_000,
            velocity: Vec2 { x: 0, y: 0 },
            gravity: 100_000,
            grounded: false,
            jump_time: 1_000_000_000,
            jump_timer: 0,
            horizontal: 0,
            gliding: false,
            facing_right: true,
        }
    }

    /// Every quantity is small enough for one tick of integration.
    pub open spec fn in_bounds(self) -> bool {
        &&& within(self.speed as int, SPEED_LIMIT as int)
        &&& within(self.jump_force as int, JUMP_FORCE_LIMIT as int)
        &&& within(self.velocity.x as int, SPEED_LIMIT as int)
        &&& within(self.velocity.y as int, SPEED_LIMIT as int)
        &&& within(self.gravity as int, SPEED_LIMIT as int)
        &&& -1 <= self.horizontal <= 1
        &&& self.jump_timer <= JUMP_TIMER_LIMIT
    }

    /// Vertical velocity that one tick leaves, before the terminal clamp:
    /// unchanged on the ground; three tenths of gravity, downward, while
    /// gliding; otherwise the old velocity less gravity.
    pub open spec fn falling_velocity(self) -> int {
        if self.grounded {
            self.velocity.y as int
        } else if self.gliding {
            truncated_quotient(-self.gravity * 3, 10)
        } else {
            self.velocity.y - self.gravity
        }
    }

    /// The controller after one tick of `dt` nanoseconds: the horizontal
    /// velocity follows the intent at once, gravity or the glide sets the
    /// vertical velocity, which never falls below `TERMINAL_VELOCITY`, and
    /// an airborne glide is counted on the glide clock.
    pub open spec fn integrated(self, dt: u64) -> MovementController {
        let fall = self.falling_velocity();
        MovementController {
            velocity: Vec2 {
                x: (self.speed * self.horizontal) as i64,
                y: (if fall < TERMINAL_VELOCITY {
                    TERMINAL_VELOCITY as int
                } else {
                    fall
                }) as i64,
            },
            jump_timer: if !self.grounded && self.gliding {
                (self.jump_timer + dt) as u64
            } else {
                self.jump_timer
            },
            ..self
        }
    }

    /// Tests `in_bounds`.
    pub fn check_in_bounds(&self) -> (r: bool)
        ensures
            r == self.in_bounds(),
    {
        -SPEED_LIMIT <= self.speed && self.speed <= SPEED_LIMIT && -JUMP_FORCE_LIMIT
            <= self.jump_force && self.jump_force <= JUMP_FORCE_LIMIT && -SPEED_LIMIT
            <= self.velocity.x && self.velocity.x <= SPEED_LIMIT && -SPEED_LIMIT
            <= self.velocity.y && self.velocity.y <= SPEED_LIMIT && -SPEED_LIMIT <= self.gravity
            && self.gravity <= SPEED_LIMIT && -1 <= self.horizontal && self.horizontal <= 1
            && self.jump_timer <= JUMP_TIMER_LIMIT
    }

    /// Advances the controller by one tick and moves `translation` along the
    /// new velocity.
    pub fn integrate(&mut self, translation: &mut Vec3, dt: u64)
        requires
            old(self).in_bounds(),
            old(translation).in_bounds(),
            dt <= MAX_TICK_NANOS,
        ensures
            *final(self) == old(self).integrated(dt),
            *final(translation) == advanced(*old(translation), final(self).velocity, dt),
            final(self).velocity.x == old(self).speed * old(self).horizontal,
            final(self).velocity.y >= TERMINAL_VELOCITY,
            final(translation).x == old(translation).x + displacement(
                final(self).velocity.x as int,
                dt as int,
            ),
            final(translation).y == old(translation).y + displacement(
                final(self).velocity.y as int,
                dt as int,
            ),
            within(final(translation).x as int, BOX_LIMIT as int),
            within(final(translation).y as int, BOX_LIMIT as int),
    {
        assert(-1_000_000_000 <= self.speed * self.horizontal <= 1_000_000_000)
            by (nonlinear_arith)
            requires
                -1_000_000_000 <= self.speed <= 1_000_000_000,
                -1 <= self.horizontal <= 1,
        ;
        self.velocity.x = self.speed * self.horizontal;
        if !self.grounded {
            if self.gliding {
                self.velocity.y = (-self.gravity * 3) / 10;
                self.jump_timer = self.jump_timer + dt;
            } else {
                self.velocity.y = self.velocity.y - self.gravity;
            }
        }
        if self.velocity.y < TERMINAL_VELOCITY {
            self.velocity.y = TERMINAL_VELOCITY;
        }
        let dx: i64 = travel(self.velocity.x, dt);
        let dy: i64 = travel(self.velocity.y, dt);
        translation.x = translation.x + dx;
        translation.y = translation.y + dy;
    }
}

impl Default for MovementController {
    fn default() -> (c: MovementController)
        ensures
            c == MovementController::initial(),
    {
        MovementController {
            speed: 70_000,
            jump_force: 666_000,
            velocity: Vec2 { x: 0, y: 0 },
            gravity: 100_000,
            grounded: false,
            jump_time: 1_000_000_000,
            jump_timer: 0,
            horizontal: 0,
            gliding: false,
            facing_right: true,
        }
    }
}

/// Whether the cheap edge test tells a probe clear of a platform: the probe
/// lies strictly above it, strictly below it, or beside it (touching sides
/// count as beside, touching top or bottom do not).
pub open spec fn clear_of(probe: AABB, platform: AABB) -> bool {
    ||| probe.spec_bottom() > platform.spec_top()
    ||| probe.spec_left() >= platform.spec_right()
    ||| probe.spec_right() <= platform.spec_left()
    ||| probe.spec_top() < platform.spec_bottom()
}

/// A body in the middle of one resolution pass over the platforms.
#[derive(Clone, Copy, PartialEq, Eq, Debug, Structural)]
pub struct Resolution {
    /// Position corrected so far.
    pub translation: Vec3,
    /// Box that the platforms are tested against. It keeps the centre of the
    /// last horizontal correction: a vertical correction alone moves the body
    /// and leaves the probe where it was.
    pub probe: AABB,
    pub controller: MovementController,
    /// Whether any platform has passed the edge test so far.
    pub collided: bool,
}

impl Resolution {
    /// Largest magnitude among the coordinates of the body and of its probe.
    pub open spec fn reach(self) -> int {
        let a = magnitude(self.translation.x as int);
        let b = magnitude(self.translation.y as int);
        let c = magnitude(self.probe.center.x as int);
        let d = magnitude(self.probe.center.y as int);
        let ab = if a >= b {
            a
        } else {
            b
        };
        let cd = if c >= d {
            c
        } else {
            d
        };
        if ab >= cd {
            ab
        } else {
            cd
        }
    }

    /// Small enough for one more platform to be resolved without overflow.
    pub open spec fn in_bounds(self) -> bool {
        &&& self.reach() <= EXTENT_LIMIT - VERTICAL_SNAP
        &&& 0 <= self.probe.half_size.x <= EXTENT_LIMIT
        &&& 0 <= self.probe.half_size.y <= EXTENT_LIMIT
    }

    /// Start of a pass: the probe is the body's own box.
    pub open spec fn start(body: Body) -> Resolution {
        Resolution {
            translation: body.placement.translation,
            probe: AABB {
                center: body.placement.translation.plane(),
                half_size: body.placement.half_extent(),
            },
            controller: body.controller,
            collided: false,
        }
    }

    /// Horizontal correction against one platform. A depth of at most
    /// `HORIZONTAL_SNAP` moves the body by that depth, stops it horizontally
    /// and brings the probe to the body's position; a greater depth is left
    /// alone.
    pub open spec fn after_horizontal(self, platform: AABB) -> Resolution {
        let depth = self.probe.intersection_depth(platform).0;
        if magnitude(depth) <= HORIZONTAL_SNAP {
            let translation = Vec3 {
                x: (self.translation.x + depth) as i64,
                y: self.translation.y,
                z: self.translation.z,
            };
            Resolution {
                translation,
                probe: self.probe.moved_to(translation.plane()),
                controller: MovementController {
                    velocity: Vec2 { x: 0, y: self.controller.velocity.y },
                    ..self.controller
                },
                collided: self.collided,
            }
        } else {
            self
        }
    }

    /// Vertical correction against one platform, with the depth that the
    /// probe has now. A depth of at most `VERTICAL_SNAP` moves the body by
    /// that depth and stops it vertically; if it pushed the body up, the body
    /// is grounded and its glide clock starts over.
    pub open spec fn after_vertical(self, platform: AABB) -> Resolution {
        let depth = self.probe.intersection_depth(platform).1;
        if magnitude(depth) <= VERTICAL_SNAP {
            Resolution {
                translation: Vec3 {
                    x: self.translation.x,
                    y: (self.translation.y + depth) as i64,
                    z: self.translation.z,
                },
                probe: self.probe,
                controller: MovementController {
                    velocity: Vec2 { x: self.controller.velocity.x, y: 0 },
                    grounded: depth > 0 || self.controller.grounded,
                    jump_timer: if depth > 0 {
                        0
                    } else {
                        self.controller.jump_timer
                    },
                    ..self.controller
                },
                collided: self.collided,
            }
        } else {
            self
        }
    }

    /// The pass after one more platform: nothing changes if the edge test
    /// tells the probe clear; otherwise the body has collided, and is
    /// corrected horizontally first and then vertically.
    pub open spec fn against(self, platform: AABB) -> Resolution {
        if clear_of(self.probe, platform) {
            self
        } else {
            let corrected = self.after_horizontal(platform).after_vertical(platform);
            Resolution { collided: true, ..corrected }
        }
    }

    /// The pass after the platforms in order.
    pub open spec fn against_all(self, platforms: Seq<AABB>) -> Resolution
        decreases platforms.len(),
    {
        if platforms.len() == 0 {
            self
        } else {
            self.against_all(platforms.drop_last()).against(platforms.last())
        }
    }

    /// Resolves the body against one platform.
    pub fn resolve(&mut self, platform: &AABB)
        requires
            old(self).in_bounds(),
            platform.in_bounds(),
        ensures
            *final(self) == old(self).against(*platform),
            final(self).reach() <= old(self).reach() + VERTICAL_SNAP,
            final(self).probe.half_size == old(self).probe.half_size,
    {
        if self.probe.bottom() > platform.top() {
            return ;
        }
        if self.probe.left() >= platform.right() {
            return ;
        }
        if self.probe.right() <= platform.left() {
            return ;
        }
        if self.probe.top() < platform.bottom() {
            return ;
        }
        self.collided = true;
        let mut depth: Vec2 = self.probe.get_intersection_depth(platform);
        if -HORIZONTAL_SNAP <= depth.x && depth.x <= HORIZONTAL_SNAP {
            self.translation.x = self.translation.x + depth.x;
            self.controller.velocity.x = 0;
            self.probe.center = self.translation.xy();
            depth = self.probe.get_intersection_depth(platform);
        }
        if -VERTICAL_SNAP <= depth.y && depth.y <= VERTICAL_SNAP {
            self.translation.y = self.translation.y + depth.y;
            self.controller.velocity.y = 0;
            if depth.y > 0 {
                self.controller.grounded = true;
                self.controller.jump_timer = 0;
            }
        }
    }
}

impl Body {
    /// Small enough for a resolution pass: the body has a collision box.
    pub open spec fn in_bounds(self) -> bool {
        self.placement.boxable()
    }

    /// Tests `in_bounds`.
    pub fn check_in_bounds(&self) -> (r: bool)
        ensures
            r == self.in_bounds(),
    {
        self.placement.check_boxable()
    }

    /// The body after a resolution pass over `platforms`: corrected against
    /// each platform in order, and no longer grounded if it collided with
    /// none.
    pub open spec fn resolved(self, platforms: Seq<AABB>) -> Body {
        let end = Resolution::start(self).against_all(platforms);
        Body {
            placement: Placement { translation: end.translation, scale: self.placement.scale },
            controller: if end.collided {
                end.controller
            } else {
                MovementController { grounded: false, ..end.controller }
            },
            garlic: self.garlic,
        }
    }

    /// Whether any platform passes the edge test during the pass.
    pub open spec fn collides(self, platforms: Seq<AABB>) -> bool {
        Resolution::start(self).against_all(platforms).collided
    }

    /// The explosion that the pass leaves: one at the corrected position if
    /// the body is a bomb and collided, none otherwise. A body that leaves an
    /// explosion is to be despawned.
    pub open spec fn detonation(self, platforms: Seq<AABB>) -> Option<ExplosionEntity> {
        if self.garlic && self.collides(platforms) {
            Some(
                ExplosionEntity {
                    position: self.resolved(platforms).placement.translation,
                    explosion: Explosion { radius: GARLIC_BLAST_RADIUS },
                },
            )
        } else {
            None
        }
    }

    /// Runs a resolution pass for this body.
    pub fn collide(&mut self, platforms: &Vec<AABB>) -> (spawned: Option<ExplosionEntity>)
        requires
            old(self).in_bounds(),
            platforms.len() <= MAX_PLATFORMS,
            forall|i: int| 0 <= i < platforms.len() ==> (#[trigger] platforms[i]).in_bounds(),
        ensures
            *final(self) == old(self).resolved(platforms@),
            spawned == old(self).detonation(platforms@),
            !old(self).collides(platforms@) ==> !final(self).controller.grounded,
    {
        let half_size: Vec2 = self.placement.half_size();
        let mut state = Resolution {
            translation: self.placement.translation,
            probe: AABB::new(self.placement.translation.xy(), half_size),
            controller: self.controller,
            collided: false,
        };
        let ghost begin = state;
        assert(begin == Resolution::start(*old(self)));
        let n: usize = platforms.len();
        let mut i: usize = 0;
        assert(platforms@.take(0) =~= Seq::<AABB>::empty());
        while i < n
            invariant
                i <= n,
                n == platforms.len(),
                n <= MAX_PLATFORMS,
                forall|k: int| 0 <= k < platforms.len() ==> (#[trigger] platforms[k]).in_bounds(),
                state == begin.against_all(platforms@.take(i as int)),
                state.reach() <= BOX_LIMIT + i * VERTICAL_SNAP,
                state.probe.half_size == begin.probe.half_size,
                0 <= begin.probe.half_size.x <= EXTENT_LIMIT,
                0 <= begin.probe.half_size.y <= EXTENT_LIMIT,
            decreases n - i,
        {
            assert(i * VERTICAL_SNAP <= 0xFFFF_FFFF * 24_000) by (nonlinear_arith)
                requires
                    0 <= i <= 0xFFFF_FFFF,
            ;
            assert(platforms@.take(i + 1).drop_last() =~= platforms@.take(i as int));
            assert(platforms@.take(i + 1).last() == platforms@[i as int]);
            state.resolve(&platforms[i]);
            i = i + 1;
        }
        assert(platforms@.take(n as int) =~= platforms@);
        self.placement.translation = state.translation;
        self.controller = state.controller;
        if state.collided {
            if self.garlic {
                return Some(
                    ExplosionEntity {
                        position: self.placement.translation,
                        explosion: Explosion { radius: GARLIC_BLAST_RADIUS },
                    },
                );
            }
        } else {
            self.controller.grounded = false;
        }
        None
    }
}

impl Body {
    /// The body after one tick of integration.
    pub open spec fn stepped(self, dt: u64) -> Body {
        let controller = self.controller.integrated(dt);
        Body {
            placement: Placement {
                translation: advanced(self.placement.translation, controller.velocity, dt),
                scale: self.placement.scale,
            },
            controller,
            garlic: self.garlic,
        }
    }
}

/// Integrates every body by one tick of `dt` nanoseconds.
pub fn apply_movement(bodies: &mut Vec<Body>, dt: u64)
    requires
        dt <= MAX_TICK_NANOS,
        forall|i: int|
            0 <= i < old(bodies).len() ==> (#[trigger] old(bodies)[i]).controller.in_bounds()
                && old(bodies)[i].placement.translation.in_bounds(),
    ensures
        final(bodies).len() == old(bodies).len(),
        forall|i: int|
            0 <= i < old(bodies).len() ==> #[trigger] final(bodies)[i] == old(bodies)[i].stepped(
                dt,
            ) && within(final(bodies)[i].placement.translation.x as int, BOX_LIMIT as int)
                && within(final(bodies)[i].placement.translation.y as int, BOX_LIMIT as int),
{
    let n: usize = bodies.len();
    let mut i: usize = 0;
    while i < n
        invariant
            i <= n,
            n == bodies.len(),
            n == old(bodies).len(),
            dt <= MAX_TICK_NANOS,
            forall|k: int|
                0 <= k < i ==> #[trigger] bodies[k] == old(bodies)[k].stepped(dt) && within(
                    bodies[k].placement.translation.x as int,
                    BOX_LIMIT as int,
                ) && within(bodies[k].placement.translation.y as int, BOX_LIMIT as int),
            forall|k: int| i <= k < n ==> #[trigger] bodies[k] == old(bodies)[k],
            forall|k: int|
                0 <= k < old(bodies).len() ==> (#[trigger] old(bodies)[k]).controller.in_bounds()
                    && old(bodies)[k].placement.translation.in_bounds(),
        decreases n - i,
    {
        let mut body: Body = bodies[i];
        body.controller.integrate(&mut body.placement.translation, dt);
        bodies[i] = body;
        i = i + 1;
    }
}

/// Runs a terrain resolution pass for every body. The result holds, for each
/// body in order, the explosion that it leaves, if any; a body that leaves
/// one is to be despawned.
pub fn handle_collisions(bodies: &mut Vec<Body>, platforms: &Vec<AABB>) -> (spawned: Vec<
    Option<ExplosionEntity>,
>)
    requires
        platforms.len() <= MAX_PLATFORMS,
        forall|i: int| 0 <= i < platforms.len() ==> (#[trigger] platforms[i]).in_bounds(),
        forall|i: int| 0 <= i < old(bodies).len() ==> (#[trigger] old(bodies)[i]).in_bounds(),
    ensures
        final(bodies).len() == old(bodies).len(),
        spawned.len() == old(bodies).len(),
        forall|i: int|
            0 <= i < old(bodies).len() ==> #[trigger] final(bodies)[i] == old(bodies)[i].resolved(
                platforms@,
            ),
        forall|i: int|
            0 <= i < old(bodies).len() ==> #[trigger] spawned[i] == old(bodies)[i].detonation(
                platforms@,
            ),
{
    let mut spawned: Vec<Option<ExplosionEntity>> = Vec::new();
    let n: usize = bodies.len();
    let mut i: usize = 0;
    while i < n
        invariant
            i <= n,
            n == bodies.len(),
            n == old(bodies).len(),
            spawned.len() == i,
            platforms.len() <= MAX_PLATFORMS,
            forall|k: int| 0 <= k < platforms.len() ==> (#[trigger] platforms[k]).in_bounds(),
            forall|k: int| 0 <= k < old(bodies).len() ==> (#[trigger] old(bodies)[k]).in_bounds(),
            forall|k: int|
                0 <= k < i ==> #[trigger] bodies[k] == old(bodies)[k].resolved(platforms@),
            forall|k: int|
                0 <= k < i ==> #[trigger] spawned[k] == old(bodies)[k].detonation(platforms@),
            forall|k: int| i <= k < n ==> #[trigger] bodies[k] == old(bodies)[k],
        decreases n - i,
    {
        let mut body: Body = bodies[i];
        let explosion: Option<ExplosionEntity> = body.collide(platforms);
        bodies[i] = body;
        spawned.push(explosion);
        i = i + 1;
    }
    spawned
}

/// One fixed tick of movement: every body is first integrated and then
/// resolved against the terrain, so that the terrain sees where the body has
/// moved to. The result holds, for each body in order, the explosion that it
/// leaves, if any; a body that leaves one is to be despawned.
pub fn fixed_update(bodies: &mut Vec<Body>, platforms: &Vec<AABB>, dt: u64) -> (spawned: Vec<
    Option<ExplosionEntity>,
>)
    requires
        dt <= MAX_TICK_NANOS,
        platforms.len() <= MAX_PLATFORMS,
        forall|i: int| 0 <= i < platforms.len() ==> (#[trigger] platforms[i]).in_bounds(),
        forall|i: int|
            0 <= i < old(bodies).len() ==> (#[trigger] old(bodies)[i]).controller.in_bounds()
                && old(bodies)[i].placement.in_bounds(),
    ensures
        final(bodies).len() == old(bodies).len(),
        spawned.len() == old(bodies).len(),
        forall|i: int|
            0 <= i < old(bodies).len() ==> #[trigger] final(bodies)[i] == old(bodies)[i].stepped(
                dt,
            ).resolved(platforms@),
        forall|i: int|
            0 <= i < old(bodies).len() ==> #[trigger] spawned[i] == old(bodies)[i].stepped(
                dt,
            ).detonation(platforms@),
{
    apply_movement(bodies, dt);
    assert forall|i: int| 0 <= i < bodies.len() implies (#[trigger] bodies[i]).in_bounds() by {
        assert(bodies[i] == old(bodies)[i].stepped(dt));
    }
    handle_collisions(bodies, platforms)
}

/// A pass over platforms that the edge test all tells clear of the body's
/// box changes nothing and records no collision.
pub proof fn lemma_clear_pass_is_idle(state: Resolution, platforms: Seq<AABB>)
    requires
        forall|i: int| 0 <= i < platforms.len() ==> clear_of(state.probe, #[trigger] platforms[i]),
    ensures
        state.against_all(platforms) == state,
    decreases platforms.len(),
{
    if platforms.len() > 0 {
        lemma_clear_pass_is_idle(state, platforms.drop_last());
    }
}

/// A body with no platform in range is airborne after the pass, stays where
/// it was, and leaves no explosion.
pub proof fn lemma_clear_body_is_airborne(body: Body, platforms: Seq<AABB>)
    requires
        forall|i: int|
            0 <= i < platforms.len() ==> clear_of(
                Resolution::start(body).probe,
                #[trigger] platforms[i],
            ),
    ensures
        !body.resolved(platforms).controller.grounded,
        body.resolved(platforms).placement == body.placement,
        body.resolved(platforms).controller == (MovementController {
            grounded: false,
            ..body.controller
        }),
        body.detonation(platforms) is None,
{
    lemma_clear_pass_is_idle(Resolution::start(body), platforms);
}

/// The pass over a single platform is one step against it.
pub proof fn lemma_single_platform(state: Resolution, platform: AABB)
    ensures
        state.against_all(seq![platform]) == state.against(platform),
{
    let platforms = seq![platform];
    assert(platforms.drop_last().len() == 0);
    assert(state.against_all(platforms.drop_last()) == state);
    assert(platforms.last() == platform);
}

/// The horizontal correction comes first and the vertical axis sees its
/// effect. A body that overlaps a single platform by at most
/// `HORIZONTAL_SNAP` horizontally is moved out sideways by exactly that
/// depth. Its box then only touches the platform, so the depth that the
/// vertical axis sees is zero, however deep the overlap was vertically: the
/// body keeps its height, comes to rest on both axes, and is not grounded by
/// this platform.
pub proof fn lemma_horizontal_correction_comes_first(body: Body, platform: AABB)
    requires
        body.in_bounds(),
        platform.in_bounds(),
        Resolution::start(body).probe.overlaps(platform),
        magnitude(Resolution::start(body).probe.intersection_depth(platform).0) <= HORIZONTAL_SNAP,
    ensures
        ({
            let begin = Resolution::start(body);
            let depth = begin.probe.intersection_depth(platform);
            let end = body.resolved(seq![platform]);
            &&& depth.0 != 0 && depth.1 != 0
            &&& begin.after_horizontal(platform).probe.intersection_depth(platform) == (0int, 0int)
            &&& end.placement.translation.x == body.placement.translation.x + depth.0
            &&& end.placement.translation.y == body.placement.translation.y
            &&& end.controller.velocity == Vec2::zero()
            &&& end.controller.grounded == body.controller.grounded
            &&& end.controller.jump_timer == body.controller.jump_timer
        }),
{
    lemma_single_platform(Resolution::start(body), platform);
}

/// Landing. A body that overlaps a single platform too deeply for a
/// horizontal correction, and vertically by a depth in `(0, VERTICAL_SNAP]`
/// that pushes it up, is lifted by exactly that depth, stops falling, is
/// grounded, and has its glide clock at zero.
pub proof fn lemma_landing_grounds(body: Body, platform: AABB)
    requires
        body.in_bounds(),
        platform.in_bounds(),
        Resolution::start(body).probe.overlaps(platform),
        magnitude(Resolution::start(body).probe.intersection_depth(platform).0) > HORIZONTAL_SNAP,
        0 < Resolution::start(body).probe.intersection_depth(platform).1 <= VERTICAL_SNAP,
    ensures
        ({
            let depth = Resolution::start(body).probe.intersection_depth(platform);
            let end = body.resolved(seq![platform]);
            &&& end.controller.grounded
            &&& end.controller.jump_timer == 0
            &&& end.controller.velocity.y == 0
            &&& end.controller.velocity.x == body.controller.velocity.x
            &&& end.placement.translation.x == body.placement.translation.x
            &&& end.placement.translation.y == body.placement.translation.y + depth.1
        }),
{
    lemma_single_platform(Resolution::start(body), platform);
}

/// Brings the camera level with the body it follows: the camera takes the
/// horizontal position of the target and keeps its own height and depth.
pub fn apply_follow_camera(camera: &mut Vec3, target: &Vec3)
    ensures
        *final(camera) == (Vec3 { x: target.x, y: old(camera).y, z: old(camera).z }),
{
    camera.x = target.x;
}

} // verus!
