//! Guns, the bullets they fire, and what those bullets hit.

use vstd::prelude::*;
use crate::aabb::AABB;
use crate::boss::BossEntity;
use crate::enemy::EnemyEntity;
use crate::geometry::{Placement, Vec2, Vec3};
use crate::level::{CurseLevel, LevelEvent, BOSS_CURSE, ENEMY_CURSE};
use crate::movement::advanced;
use crate::timer::{Timer, TimerMode};
use crate::units::{travel, truncated_quotient, within, COORD_LIMIT, MAX_TICK_NANOS, SPEED_LIMIT};

verus! {

/// Damage that a bullet deals.
pub const BULLET_DAMAGE: i64 = 50;

/// Time after which a bullet disappears, in nanoseconds.
pub const BULLET_LIFETIME: u64 = 700_000_000;

/// Speed of a bullet, in sub-units per second.
pub const BULLET_SPEED: i64 = 1_000_000;

/// Scale of a bullet, in thousandths.
pub const BULLET_SCALE: i64 = 300;

/// Drawing depth of a bullet.
pub const BULLET_DEPTH: i64 = 3_000;

/// Distance ahead of the shooter at which a bullet appears.
pub const MUZZLE_FORWARD: i64 = 40_000;

/// Height above the shooter at which a bullet appears.
pub const MUZZLE_UP: i64 = 22_000;

/// Number of values that a random sample can take.
pub const SAMPLE_RANGE: i64 = 0x1_0000_0000;

/// Longest cooldown, in nanoseconds, with which a gun fires for as long as
/// the button is held.
pub const AUTOMATIC_COOLDOWN: u64 = 300_000_000;

/// A gun and the state of its trigger.
#[derive(Clone, Copy, PartialEq, Eq, Debug, Structural)]
pub struct Gun {
    pub shooting_cooldown: Timer,
    pub can_shoot: bool,
    pub shooting: bool,
    pub enabled: bool,
}

/// A bullet in flight.
#[derive(Clone, Copy, PartialEq, Eq, Debug, Structural)]
pub struct Bullet {
    pub velocity: Vec2,
    pub despawn_timer: Timer,
}

/// A bullet, where it is, and which way it points.
#[derive(Clone, Copy, PartialEq, Eq, Debug, Structural)]
pub struct BulletEntity {
    pub placement: Placement,
    pub bullet: Bullet,
    pub facing_right: bool,
}

/// A gun together with the position and the facing of its bearer.
#[derive(Clone, Copy, PartialEq, Eq, Debug, Structural)]
pub struct Shooter {
    pub gun: Gun,
    pub translation: Vec3,
    pub facing_right: bool,
}

/// How a gun launches its bullets.
#[derive(Clone, Copy, PartialEq, Eq, Debug, Structural)]
pub struct GunConfig {
    /// Magnitude of the forward speed.
    pub forward_speed: i64,
    /// Where the bullet appears: `x` ahead of the shooter, `y` above it.
    pub offset: Vec2,
    /// Width of the band from which the lateral speed is drawn.
    pub spread: i64,
}

impl Bullet {
    /// A bullet at rest with its full lifetime ahead.
    pub open spec fn initial() -> Bullet {
        Bullet {
            velocity: Vec2 { x: 0, y: 0 },
            despawn_timer: Timer::fresh(BULLET_LIFETIME, TimerMode::Once),
        }
    }
}

impl Default for Bullet {
    fn default() -> (b: Bullet)
        ensures
            b == Bullet::initial(),
    {
        Bullet {
            velocity: Vec2 { x: 0, y: 0 },
            despawn_timer: Timer::new(BULLET_LIFETIME, TimerMode::Once),
        }
    }
}

/// Lateral speed drawn from a band of width `spread` centred on zero, for a
/// sample out of `SAMPLE_RANGE` equally likely values.
pub open spec fn lateral_speed(spread: int, sample: int) -> int {
    truncated_quotient(spread * sample, SAMPLE_RANGE as int) - truncated_quotient(spread, 2)
}

impl GunConfig {
    /// The configuration of the player's gun: fast, level shots from just
    /// ahead of and above the shooter.
    pub open spec fn standard() -> GunConfig {
        GunConfig {
            forward_speed: BULLET_SPEED,
            offset: Vec2 { x: MUZZLE_FORWARD, y: MUZZLE_UP },
            spread: 0,
        }
    }

    /// Small enough to launch from any position within `COORD_LIMIT`.
    pub open spec fn in_bounds(self) -> bool {
        &&& within(self.forward_speed as int, SPEED_LIMIT as int)
        &&& within(self.offset.x as int, COORD_LIMIT as int)
        &&& within(self.offset.y as int, COORD_LIMIT as int)
        &&& within(self.spread as int, SPEED_LIMIT as int)
    }

    /// The bullet that a shot from `origin` launches: it flies forward at the
    /// configured speed in the direction faced, with a lateral speed drawn by
    /// `sample`, from the muzzle offset mirrored to the side faced.
    pub open spec fn fired(self, origin: Vec3, facing_right: bool, sample: u32) -> BulletEntity {
        BulletEntity {
            placement: Placement {
                translation: Vec3 {
                    x: (if facing_right {
                        origin.x + self.offset.x
                    } else {
                        origin.x - self.offset.x
                    }) as i64,
                    y: (origin.y + self.offset.y) as i64,
                    z: BULLET_DEPTH,
                },
                scale: Vec2 { x: BULLET_SCALE, y: BULLET_SCALE },
            },
            bullet: Bullet {
                velocity: Vec2 {
                    x: (if facing_right {
                        self.forward_speed as int
                    } else {
                        -self.forward_speed
                    }) as i64,
                    y: lateral_speed(self.spread as int, sample as int) as i64,
                },
                despawn_timer: Timer::fresh(BULLET_LIFETIME, TimerMode::Once),
            },
            facing_right,
        }
    }

    /// Computes `standard`.
    pub fn new_standard() -> (c: GunConfig)
        ensures
            c == GunConfig::standard(),
            c.in_bounds(),
    {
        GunConfig {
            forward_speed: BULLET_SPEED,
            offset: Vec2 { x: MUZZLE_FORWARD, y: MUZZLE_UP },
            spread: 0,
        }
    }

    /// Launches a bullet; see `fired`.
    pub fn fire(&self, origin: Vec3, facing_right: bool, sample: u32) -> (b: BulletEntity)
        requires
            self.in_bounds(),
            origin.in_bounds(),
        ensures
            b == self.fired(origin, facing_right, sample),
            self.spread == 0 ==> b.bullet.velocity.y == 0,
    {
        let s: i64 = sample as i64;
        assert(-4_294_967_296_000_000_000 <= self.spread * s <= 4_294_967_296_000_000_000)
            by (nonlinear_arith)
            requires
                -1_000_000_000 <= self.spread <= 1_000_000_000,
                0 <= s < 4_294_967_296,
        ;
        assert(self.spread == 0 ==> self.spread * s == 0) by (nonlinear_arith);
        let drawn: i64 = (self.spread * s) / SAMPLE_RANGE;
        let lateral: i64 = drawn - self.spread / 2;
        let x: i64 = if facing_right {
            origin.x + self.offset.x
        } else {
            origin.x - self.offset.x
        };
        let forward: i64 = if facing_right {
            self.forward_speed
        } else {
            -self.forward_speed
        };
        BulletEntity {
            placement: Placement {
                translation: Vec3 { x, y: origin.y + self.offset.y, z: BULLET_DEPTH },
                scale: Vec2 { x: BULLET_SCALE, y: BULLET_SCALE },
            },
            bullet: Bullet {
                velocity: Vec2 { x: forward, y: lateral },
                despawn_timer: Timer::new(BULLET_LIFETIME, TimerMode::Once),
            },
            facing_right,
        }
    }
}

/// Draws a sample by `rand::random`, which returns a `u32` taken uniformly
/// from the thread-local generator. Nothing is claimed of the value.
#[verifier::external_body]
pub(crate) fn random_sample() -> (sample: u32) {
    rand::random::<u32>()
}

/// The bullet that the player's gun launches from `origin`.
pub open spec fn launched(origin: Vec3, facing_right: bool) -> BulletEntity {
    BulletEntity {
        placement: Placement {
            translation: Vec3 {
                x: (if facing_right {
                    origin.x + MUZZLE_FORWARD
                } else {
                    origin.x - MUZZLE_FORWARD
                }) as i64,
                y: (origin.y + MUZZLE_UP) as i64,
                z: BULLET_DEPTH,
            },
            scale: Vec2 { x: BULLET_SCALE, y: BULLET_SCALE },
        },
        bullet: Bullet {
            velocity: Vec2 {
                x: if facing_right {
                    BULLET_SPEED
                } else {
                    (-BULLET_SPEED) as i64
                },
                y: 0,
            },
            despawn_timer: Timer::fresh(BULLET_LIFETIME, TimerMode::Once),
        },
        facing_right,
    }
}

/// Launches a bullet of the player's gun. The lateral speed is drawn at
/// random from a band of width zero, so the shot is level whatever is drawn.
pub fn spawn_bullet(player_location: Vec3, player_facing_right: bool) -> (b: BulletEntity)
    requires
        player_location.in_bounds(),
    ensures
        b == launched(player_location, player_facing_right),
{
    let config = GunConfig::new_standard();
    let sample: u32 = random_sample();
    config.fire(player_location, player_facing_right, sample)
}

impl Gun {
    /// The cooldown after the trigger has been handled for one frame: it is
    /// ticked only while the gun cannot shoot, and wound back when it
    /// finishes with the trigger released.
    pub open spec fn cooled(self, dt: u64) -> Timer {
        if self.can_shoot {
            self.shooting_cooldown
        } else {
            self.shooting_cooldown.ticked(dt)
        }
    }

    /// Whether the gun fires this frame: the trigger is held, and the gun
    /// either was ready or its cooldown has just finished.
    pub open spec fn fires(self, dt: u64) -> bool {
        self.shooting && (self.can_shoot || self.cooled(dt).spec_just_finished())
    }

    /// The gun after one frame of `dt` nanoseconds.
    pub open spec fn after_frame(self, dt: u64) -> Gun {
        let cooldown = self.cooled(dt);
        if !self.shooting {
            if cooldown.spec_just_finished() {
                Gun { shooting_cooldown: cooldown.rewound(), can_shoot: true, ..self }
            } else {
                Gun { shooting_cooldown: cooldown, ..self }
            }
        } else {
            Gun {
                shooting_cooldown: cooldown,
                can_shoot: if self.fires(dt) {
                    false
                } else {
                    self.can_shoot
                },
                ..self
            }
        }
    }

    /// Handles the trigger for one frame and tells whether the gun fires.
    pub fn pull(&mut self, dt: u64) -> (fires: bool)
        ensures
            *final(self) == old(self).after_frame(dt),
            fires == old(self).fires(dt),
    {
        if !self.can_shoot {
            self.shooting_cooldown.tick(dt);
        }
        if !self.shooting {
            if self.shooting_cooldown.just_finished() {
                self.can_shoot = true;
                self.shooting_cooldown.reset();
            }
            return false;
        }
        if self.can_shoot || self.shooting_cooldown.just_finished() {
            self.can_shoot = false;
            return true;
        }
        false
    }

    /// The gun after the fire button has been read: an enabled gun shoots
    /// while the button is held if its cooldown is at most
    /// `AUTOMATIC_COOLDOWN`, and on the press alone otherwise; a disabled gun
    /// does not change.
    pub open spec fn with_input(self, pressed: bool, just_pressed: bool) -> Gun {
        if self.enabled {
            Gun {
                shooting: if self.shooting_cooldown.duration <= AUTOMATIC_COOLDOWN {
                    pressed
                } else {
                    just_pressed
                },
                ..self
            }
        } else {
            self
        }
    }

    /// Reads the fire button.
    pub fn record_input(&mut self, pressed: bool, just_pressed: bool)
        ensures
            *final(self) == old(self).with_input(pressed, just_pressed),
    {
        if self.enabled {
            if self.shooting_cooldown.duration() <= AUTOMATIC_COOLDOWN {
                self.shooting = pressed;
            } else {
                self.shooting = just_pressed;
            }
        }
    }
}

impl Shooter {
    /// The bullet that the shooter launches this frame, if its gun fires.
    pub open spec fn shot(self, dt: u64) -> Option<BulletEntity> {
        if self.gun.fires(dt) {
            Some(launched(self.translation, self.facing_right))
        } else {
            None
        }
    }

    /// The shooter after the frame.
    pub open spec fn after_frame(self, dt: u64) -> Shooter {
        Shooter { gun: self.gun.after_frame(dt), ..self }
    }
}

/// Handles the trigger of every gun for one frame. The result holds, for each
/// shooter in order, the bullet that it launched, if any.
pub fn shoot(shooters: &mut Vec<Shooter>, dt: u64) -> (bullets: Vec<Option<BulletEntity>>)
    requires
        forall|i: int|
            0 <= i < old(shooters).len() ==> (#[trigger] old(shooters)[i]).translation.in_bounds(),
    ensures
        final(shooters).len() == old(shooters).len(),
        bullets.len() == old(shooters).len(),
        forall|i: int|
            0 <= i < old(shooters).len() ==> #[trigger] final(shooters)[i] == old(
                shooters,
            )[i].after_frame(dt),
        forall|i: int|
            0 <= i < old(shooters).len() ==> #[trigger] bullets[i] == old(shooters)[i].shot(dt),
{
    let mut bullets: Vec<Option<BulletEntity>> = Vec::new();
    let n: usize = shooters.len();
    let mut i: usize = 0;
    while i < n
        invariant
            i <= n,
            n == shooters.len(),
            n == old(shooters).len(),
            bullets.len() == i,
            forall|k: int|
                0 <= k < old(shooters).len() ==> (#[trigger] old(
                    shooters,
                )[k]).translation.in_bounds(),
            forall|k: int|
                0 <= k < i ==> #[trigger] shooters[k] == old(shooters)[k].after_frame(dt),
            forall|k: int| 0 <= k < i ==> #[trigger] bullets[k] == old(shooters)[k].shot(dt),
            forall|k: int| i <= k < n ==> #[trigger] shooters[k] == old(shooters)[k],
        decreases n - i,
    {
        let mut shooter: Shooter = shooters[i];
        let fires: bool = shooter.gun.pull(dt);
        shooters[i] = shooter;
        if fires {
            bullets.push(Some(spawn_bullet(shooter.translation, shooter.facing_right)));
        } else {
            bullets.push(None);
        }
        i = i + 1;
    }
    bullets
}

impl BulletEntity {
    /// Small enough to fly for one tick.
    pub open spec fn in_bounds(self) -> bool {
        &&& self.placement.in_bounds()
        &&& within(self.bullet.velocity.x as int, SPEED_LIMIT as int)
        &&& within(self.bullet.velocity.y as int, SPEED_LIMIT as int)
    }

    /// The bullet after flying straight for `dt` nanoseconds.
    pub open spec fn flown(self, dt: u64) -> BulletEntity {
        BulletEntity {
            placement: Placement {
                translation: advanced(self.placement.translation, self.bullet.velocity, dt),
                scale: self.placement.scale,
            },
            ..self
        }
    }

    /// Moves the bullet along its velocity: no gravity, no drag.
    pub fn fly(&mut self, dt: u64)
        requires
            old(self).in_bounds(),
            dt <= MAX_TICK_NANOS,
        ensures
            *final(self) == old(self).flown(dt),
            final(self).placement.boxable(),
    {
        let dx: i64 = travel(self.bullet.velocity.x, dt);
        let dy: i64 = travel(self.bullet.velocity.y, dt);
        self.placement.translation.x = self.placement.translation.x + dx;
        self.placement.translation.y = self.placement.translation.y + dy;
    }
}

/// Moves every bullet along its velocity for one tick.
pub fn update_bullets(bullets: &mut Vec<BulletEntity>, dt: u64)
    requires
        dt <= MAX_TICK_NANOS,
        forall|i: int| 0 <= i < old(bullets).len() ==> (#[trigger] old(bullets)[i]).in_bounds(),
    ensures
        final(bullets).len() == old(bullets).len(),
        forall|i: int|
            0 <= i < old(bullets).len() ==> #[trigger] final(bullets)[i] == old(bullets)[i].flown(
                dt,
            ) && final(bullets)[i].placement.boxable(),
{
    let n: usize = bullets.len();
    let mut i: usize = 0;
    while i < n
        invariant
            i <= n,
            n == bullets.len(),
            n == old(bullets).len(),
            dt <= MAX_TICK_NANOS,
            forall|k: int| 0 <= k < old(bullets).len() ==> (#[trigger] old(bullets)[k]).in_bounds(),
            forall|k: int|
                0 <= k < i ==> #[trigger] bullets[k] == old(bullets)[k].flown(dt)
                    && bullets[k].placement.boxable(),
            forall|k: int| i <= k < n ==> #[trigger] bullets[k] == old(bullets)[k],
        decreases n - i,
    {
        let mut bullet: BulletEntity = bullets[i];
        bullet.fly(dt);
        bullets[i] = bullet;
        i = i + 1;
    }
}

/// What became of a bullet in one round of hit resolution.
#[derive(Clone, Copy, PartialEq, Eq, Debug, Structural)]
pub enum BulletOutcome {
    /// Its lifetime ran out: it disappears without effect.
    Expired,
    /// It struck terrain: it disappears without effect.
    HitPlatform,
    /// It struck the enemy at `index`, which died if `killed`: it disappears.
    HitEnemy { index: usize, killed: bool },
    /// It struck the boss at `index`, which died if `killed`: it disappears.
    HitBoss { index: usize, killed: bool },
    /// It struck nothing and flies on.
    Flying,
}

/// Everything that bullets can change: the enemies, the bosses, and the
/// curse level.
pub struct Battlefield {
    pub enemies: Seq<EnemyEntity>,
    pub bosses: Seq<BossEntity>,
    pub level: CurseLevel,
}

/// Index of the first box, at or after `from`, that overlaps `probe`.
pub open spec fn first_overlap(boxes: Seq<AABB>, probe: AABB, from: int) -> Option<int>
    decreases boxes.len() - from,
{
    if from < 0 || from >= boxes.len() {
        None
    } else if boxes[from].overlaps(probe) {
        Some(from)
    } else {
        first_overlap(boxes, probe, from + 1)
    }
}

/// The collision boxes of the enemies, in order.
pub open spec fn enemy_boxes(enemies: Seq<EnemyEntity>) -> Seq<AABB> {
    Seq::new(enemies.len(), |i: int| enemies[i].placement.collider())
}

/// The collision boxes of the bosses, in order.
pub open spec fn boss_boxes(bosses: Seq<BossEntity>) -> Seq<AABB> {
    Seq::new(bosses.len(), |i: int| bosses[i].placement.collider())
}

impl BulletOutcome {
    /// Whether the bullet is to be despawned.
    pub open spec fn despawns(self) -> bool {
        self != BulletOutcome::Flying
    }

    /// Curse that the outcome adds to the level: `ENEMY_CURSE` for an enemy
    /// killed, `BOSS_CURSE` for a boss killed, nothing otherwise.
    pub open spec fn curse(self) -> int {
        match self {
            BulletOutcome::HitEnemy { index, killed } => if killed {
                ENEMY_CURSE as int
            } else {
                0
            },
            BulletOutcome::HitBoss { index, killed } => if killed {
                BOSS_CURSE as int
            } else {
                0
            },
            _ => 0,
        }
    }

    /// Computes `curse`.
    pub fn curse_gained(&self) -> (gain: u32)
        ensures
            gain == self.curse(),
    {
        match self {
            BulletOutcome::HitEnemy { index, killed } => if *killed {
                ENEMY_CURSE
            } else {
                0
            },
            BulletOutcome::HitBoss { index, killed } => if *killed {
                BOSS_CURSE
            } else {
                0
            },
            _ => 0,
        }
    }

    /// Tests `despawns`.
    pub fn is_despawned(&self) -> (r: bool)
        ensures
            r == self.despawns(),
    {
        match self {
            BulletOutcome::Flying => false,
            _ => true,
        }
    }
}

impl BulletEntity {
    /// The bullet after its lifetime has been ticked by `dt`.
    pub open spec fn aged(self, dt: u64) -> BulletEntity {
        BulletEntity {
            bullet: Bullet { despawn_timer: self.bullet.despawn_timer.ticked(dt), ..self.bullet },
            ..self
        }
    }
}

/// What becomes of a bullet whose lifetime has been ticked. The tests are
/// made in strict order and the first that applies decides: the lifetime has
/// just run out; some platform overlaps the bullet; some enemy does, and the
/// first such enemy is struck; some boss does, and the first such boss is
/// struck. A target dies if the damage leaves it no health.
pub open spec fn hit(
    bullet: BulletEntity,
    platforms: Seq<AABB>,
    enemies: Seq<EnemyEntity>,
    bosses: Seq<BossEntity>,
) -> BulletOutcome {
    let probe = bullet.placement.collider();
    if bullet.bullet.despawn_timer.spec_just_finished() {
        BulletOutcome::Expired
    } else if first_overlap(platforms, probe, 0) is Some {
        BulletOutcome::HitPlatform
    } else if first_overlap(enemy_boxes(enemies), probe, 0) is Some {
        let index = first_overlap(enemy_boxes(enemies), probe, 0)->Some_0;
        BulletOutcome::HitEnemy {
            index: index as usize,
            killed: enemies[index].enemy.health - BULLET_DAMAGE <= 0,
        }
    } else if first_overlap(boss_boxes(bosses), probe, 0) is Some {
        let index = first_overlap(boss_boxes(bosses), probe, 0)->Some_0;
        BulletOutcome::HitBoss {
            index: index as usize,
            killed: bosses[index].boss.health - BULLET_DAMAGE <= 0,
        }
    } else {
        BulletOutcome::Flying
    }
}

impl Battlefield {
    /// What becomes of a bullet whose lifetime has been ticked; see `hit`.
    /// The curse level has no part in it.
    pub open spec fn outcome(self, bullet: BulletEntity, platforms: Seq<AABB>) -> BulletOutcome {
        hit(bullet, platforms, self.enemies, self.bosses)
    }

    /// The battlefield after an outcome: a struck target loses
    /// `BULLET_DAMAGE` health, and a death is recorded on the curse level.
    /// A target that died stays in place until the round is over.
    pub open spec fn after(self, outcome: BulletOutcome) -> Battlefield {
        match outcome {
            BulletOutcome::HitEnemy { index, killed } => Battlefield {
                enemies: self.enemies.update(
                    index as int,
                    EnemyEntity {
                        enemy: crate::enemy::Enemy {
                            health: (self.enemies[index as int].enemy.health - BULLET_DAMAGE) as i64,
                            ..self.enemies[index as int].enemy
                        },
                        ..self.enemies[index as int]
                    },
                ),
                bosses: self.bosses,
                level: if killed {
                    self.level.after(LevelEvent::EnemyDied)
                } else {
                    self.level
                },
            },
            BulletOutcome::HitBoss { index, killed } => Battlefield {
                enemies: self.enemies,
                bosses: self.bosses.update(
                    index as int,
                    BossEntity {
                        boss: crate::boss::Boss {
                            health: (self.bosses[index as int].boss.health - BULLET_DAMAGE) as i64,
                            ..self.bosses[index as int].boss
                        },
                        ..self.bosses[index as int]
                    },
                ),
                level: if killed {
                    self.level.after(LevelEvent::BossDied)
                } else {
                    self.level
                },
            },
            _ => self,
        }
    }

    /// The battlefield after one bullet has been aged by `dt` and resolved.
    pub open spec fn struck_by(self, bullet: BulletEntity, dt: u64, platforms: Seq<AABB>)
        -> Battlefield {
        self.after(self.outcome(bullet.aged(dt), platforms))
    }

    /// The battlefield after the bullets have been resolved in order, each
    /// against what the bullets before it left.
    pub open spec fn battle(self, bullets: Seq<BulletEntity>, dt: u64, platforms: Seq<AABB>)
        -> Battlefield
        decreases bullets.len(),
    {
        if bullets.len() == 0 {
            self
        } else {
            self.battle(bullets.drop_last(), dt, platforms).struck_by(
                bullets.last(),
                dt,
                platforms,
            )
        }
    }

    /// Every target can be placed, and its health can take `hits` hits.
    pub open spec fn targets_can_take(self, hits: int) -> bool {
        &&& forall|j: int|
            0 <= j < self.enemies.len() ==> (#[trigger] self.enemies[j]).placement.boxable()
                && self.enemies[j].enemy.health >= i64::MIN + BULLET_DAMAGE * hits
        &&& forall|j: int|
            0 <= j < self.bosses.len() ==> (#[trigger] self.bosses[j]).placement.boxable()
                && self.bosses[j].boss.health >= i64::MIN + BULLET_DAMAGE * hits
    }

    /// The most curse that one bullet can add: `BOSS_CURSE` where a boss
    /// stands, `ENEMY_CURSE` where only enemies do, nothing where there is no
    /// target at all.
    pub open spec fn largest_gain(self) -> int {
        if self.bosses.len() > 0 {
            BOSS_CURSE as int
        } else if self.enemies.len() > 0 {
            ENEMY_CURSE as int
        } else {
            0
        }
    }

    /// Every target can take `hits` hits, and so can the curse level, each
    /// hit adding the most that a hit can add here.
    pub open spec fn can_take_hits(self, hits: int) -> bool {
        &&& self.targets_can_take(hits)
        &&& self.level.value + self.largest_gain() * hits <= u32::MAX
    }
}

/// Finds the first platform that overlaps `probe`.
fn find_platform(platforms: &Vec<AABB>, probe: &AABB) -> (found: Option<usize>)
    requires
        probe.in_bounds(),
        forall|i: int| 0 <= i < platforms.len() ==> (#[trigger] platforms[i]).in_bounds(),
    ensures
        match found {
            Some(i) => first_overlap(platforms@, *probe, 0) == Some(i as int),
            None => first_overlap(platforms@, *probe, 0) is None,
        },
{
    let n: usize = platforms.len();
    let mut i: usize = 0;
    while i < n
        invariant
            i <= n,
            n == platforms.len(),
            probe.in_bounds(),
            forall|k: int| 0 <= k < platforms.len() ==> (#[trigger] platforms[k]).in_bounds(),
            first_overlap(platforms@, *probe, 0) == first_overlap(platforms@, *probe, i as int),
        decreases n - i,
    {
        let depth: Vec2 = probe.get_intersection_depth(&platforms[i]);
        if !depth.is_zero() {
            return Some(i);
        }
        i = i + 1;
    }
    None
}

/// Finds the first enemy whose box overlaps `probe`.
fn find_enemy(enemies: &Vec<EnemyEntity>, probe: &AABB) -> (found: Option<usize>)
    requires
        probe.in_bounds(),
        forall|i: int| 0 <= i < enemies.len() ==> (#[trigger] enemies[i]).placement.boxable(),
    ensures
        match found {
            Some(i) => first_overlap(enemy_boxes(enemies@), *probe, 0) == Some(i as int)
                && i < enemies.len(),
            None => first_overlap(enemy_boxes(enemies@), *probe, 0) is None,
        },
{
    let n: usize = enemies.len();
    let mut i: usize = 0;
    while i < n
        invariant
            i <= n,
            n == enemies.len(),
            probe.in_bounds(),
            forall|k: int| 0 <= k < enemies.len() ==> (#[trigger] enemies[k]).placement.boxable(),
            first_overlap(enemy_boxes(enemies@), *probe, 0) == first_overlap(
                enemy_boxes(enemies@),
                *probe,
                i as int,
            ),
        decreases n - i,
    {
        let target: AABB = enemies[i].placement.aabb();
        let depth: Vec2 = target.get_intersection_depth(probe);
        if !depth.is_zero() {
            return Some(i);
        }
        i = i + 1;
    }
    None
}

/// Finds the first boss whose box overlaps `probe`.
fn find_boss(bosses: &Vec<BossEntity>, probe: &AABB) -> (found: Option<usize>)
    requires
        probe.in_bounds(),
        forall|i: int| 0 <= i < bosses.len() ==> (#[trigger] bosses[i]).placement.boxable(),
    ensures
        match found {
            Some(i) => first_overlap(boss_boxes(bosses@), *probe, 0) == Some(i as int)
                && i < bosses.len(),
            None => first_overlap(boss_boxes(bosses@), *probe, 0) is None,
        },
{
    let n: usize = bosses.len();
    let mut i: usize = 0;
    while i < n
        invariant
            i <= n,
            n == bosses.len(),
            probe.in_bounds(),
            forall|k: int| 0 <= k < bosses.len() ==> (#[trigger] bosses[k]).placement.boxable(),
            first_overlap(boss_boxes(bosses@), *probe, 0) == first_overlap(
                boss_boxes(bosses@),
                *probe,
                i as int,
            ),
        decreases n - i,
    {
        let target: AABB = bosses[i].placement.aabb();
        let depth: Vec2 = target.get_intersection_depth(probe);
        if !depth.is_zero() {
            return Some(i);
        }
        i = i + 1;
    }
    None
}

/// Decides what becomes of a bullet whose lifetime has been ticked.
fn decide(
    bullet: &BulletEntity,
    platforms: &Vec<AABB>,
    enemies: &Vec<EnemyEntity>,
    bosses: &Vec<BossEntity>,
) -> (outcome: BulletOutcome)
    requires
        bullet.placement.boxable(),
        forall|i: int| 0 <= i < platforms.len() ==> (#[trigger] platforms[i]).in_bounds(),
        forall|i: int| 0 <= i < enemies.len() ==> (#[trigger] enemies[i]).placement.boxable(),
        forall|i: int| 0 <= i < bosses.len() ==> (#[trigger] bosses[i]).placement.boxable(),
    ensures
        outcome == hit(*bullet, platforms@, enemies@, bosses@),
        outcome matches BulletOutcome::HitEnemy { index, killed } ==> index < enemies.len(),
        outcome matches BulletOutcome::HitBoss { index, killed } ==> index < bosses.len(),
{
    if bullet.bullet.despawn_timer.just_finished() {
        return BulletOutcome::Expired;
    }
    let probe: AABB = bullet.placement.aabb();
    if find_platform(platforms, &probe).is_some() {
        return BulletOutcome::HitPlatform;
    }
    match find_enemy(enemies, &probe) {
        Some(index) => {
            return BulletOutcome::HitEnemy {
                index,
                killed: enemies[index].enemy.health <= BULLET_DAMAGE,
            };
        },
        None => {},
    }
    match find_boss(bosses, &probe) {
        Some(index) => {
            return BulletOutcome::HitBoss {
                index,
                killed: bosses[index].boss.health <= BULLET_DAMAGE,
            };
        },
        None => {},
    }
    BulletOutcome::Flying
}

impl BulletEntity {
    /// Tells what `strike` would make of the bullet, and changes nothing. A
    /// caller learns from it how much curse the strike would add.
    pub fn would_hit(
        &self,
        dt: u64,
        platforms: &Vec<AABB>,
        enemies: &Vec<EnemyEntity>,
        bosses: &Vec<BossEntity>,
    ) -> (outcome: BulletOutcome)
        requires
            self.placement.boxable(),
            forall|i: int| 0 <= i < platforms.len() ==> (#[trigger] platforms[i]).in_bounds(),
            forall|i: int| 0 <= i < enemies.len() ==> (#[trigger] enemies[i]).placement.boxable(),
            forall|i: int| 0 <= i < bosses.len() ==> (#[trigger] bosses[i]).placement.boxable(),
        ensures
            outcome == hit(self.aged(dt), platforms@, enemies@, bosses@),
    {
        let mut aged: BulletEntity = *self;
        aged.bullet.despawn_timer.tick(dt);
        decide(&aged, platforms, enemies, bosses)
    }

    /// Ages the bullet by `dt` and resolves what it hits; see `hit` and
    /// `Battlefield::after`. The curse level must have room for what this
    /// very strike adds, which `would_hit` tells beforehand.
    pub fn strike(
        &mut self,
        dt: u64,
        platforms: &Vec<AABB>,
        enemies: &mut Vec<EnemyEntity>,
        bosses: &mut Vec<BossEntity>,
        level: &mut CurseLevel,
    ) -> (outcome: BulletOutcome)
        requires
            old(self).placement.boxable(),
            forall|i: int| 0 <= i < platforms.len() ==> (#[trigger] platforms[i]).in_bounds(),
            (Battlefield {
                enemies: old(enemies)@,
                bosses: old(bosses)@,
                level: *old(level),
            }).targets_can_take(1),
            old(level).value + hit(
                old(self).aged(dt),
                platforms@,
                old(enemies)@,
                old(bosses)@,
            ).curse() <= u32::MAX,
        ensures
            *final(self) == old(self).aged(dt),
            outcome == hit(old(self).aged(dt), platforms@, old(enemies)@, old(bosses)@),
            (Battlefield { enemies: final(enemies)@, bosses: final(bosses)@, level: *final(level) })
                == (Battlefield {
                enemies: old(enemies)@,
                bosses: old(bosses)@,
                level: *old(level),
            }).after(outcome),
            final(enemies).len() == old(enemies).len(),
            final(bosses).len() == old(bosses).len(),
            forall|j: int|
                0 <= j < old(enemies).len() ==> (#[trigger] final(enemies)[j]).placement == old(
                    enemies,
                )[j].placement && final(enemies)[j].enemy.health >= old(enemies)[j].enemy.health
                    - BULLET_DAMAGE,
            forall|j: int|
                0 <= j < old(bosses).len() ==> (#[trigger] final(bosses)[j]).placement == old(
                    bosses,
                )[j].placement && final(bosses)[j].boss.health >= old(bosses)[j].boss.health
                    - BULLET_DAMAGE,
            final(level).value == old(level).value + outcome.curse(),
            outcome.curse() <= (Battlefield {
                enemies: old(enemies)@,
                bosses: old(bosses)@,
                level: *old(level),
            }).largest_gain(),
    {
        self.bullet.despawn_timer.tick(dt);
        let outcome: BulletOutcome = decide(self, platforms, enemies, bosses);
        match outcome {
            BulletOutcome::HitEnemy { index, killed } => {
                let health: i64 = enemies[index].enemy.health - BULLET_DAMAGE;
                enemies[index].enemy.health = health;
                if killed {
                    level.record(LevelEvent::EnemyDied);
                }
                assert(enemies@ =~= old(enemies)@.update(
                    index as int,
                    EnemyEntity {
                        enemy: crate::enemy::Enemy { health, ..old(enemies)[index as int].enemy },
                        ..old(enemies)[index as int]
                    },
                ));
            },
            BulletOutcome::HitBoss { index, killed } => {
                let health: i64 = bosses[index].boss.health - BULLET_DAMAGE;
                bosses[index].boss.health = health;
                if killed {
                    level.record(LevelEvent::BossDied);
                }
                assert(bosses@ =~= old(bosses)@.update(
                    index as int,
                    BossEntity {
                        boss: crate::boss::Boss { health, ..old(bosses)[index as int].boss },
                        ..old(bosses)[index as int]
                    },
                ));
            },
            _ => {},
        }
        outcome
    }
}

/// Ages every bullet by `dt` and resolves, in order, what each of them hits.
/// A bullet scores at most one effect. Targets that die stay in place until
/// the round is over, so a later bullet of the same round can still strike
/// them; the caller despawns them afterwards, together with every bullet
/// whose outcome is not `Flying`. The curse level never falls.
pub fn handle_collisions(
    bullets: &mut Vec<BulletEntity>,
    dt: u64,
    platforms: &Vec<AABB>,
    enemies: &mut Vec<EnemyEntity>,
    bosses: &mut Vec<BossEntity>,
    level: &mut CurseLevel,
) -> (outcomes: Vec<BulletOutcome>)
    requires
        forall|i: int|
            0 <= i < old(bullets).len() ==> (#[trigger] old(bullets)[i]).placement.boxable(),
        forall|i: int| 0 <= i < platforms.len() ==> (#[trigger] platforms[i]).in_bounds(),
        (Battlefield {
            enemies: old(enemies)@,
            bosses: old(bosses)@,
            level: *old(level),
        }).can_take_hits(old(bullets).len() as int),
    ensures
        final(bullets).len() == old(bullets).len(),
        outcomes.len() == old(bullets).len(),
        forall|i: int|
            0 <= i < old(bullets).len() ==> #[trigger] final(bullets)[i] == old(bullets)[i].aged(
                dt,
            ),
        forall|i: int|
            0 <= i < old(bullets).len() ==> #[trigger] outcomes[i] == (Battlefield {
                enemies: old(enemies)@,
                bosses: old(bosses)@,
                level: *old(level),
            }).battle(old(bullets)@.take(i), dt, platforms@).outcome(
                old(bullets)[i].aged(dt),
                platforms@,
            ),
        (Battlefield { enemies: final(enemies)@, bosses: final(bosses)@, level: *final(level) })
            == (Battlefield {
            enemies: old(enemies)@,
            bosses: old(bosses)@,
            level: *old(level),
        }).battle(old(bullets)@, dt, platforms@),
        final(enemies).len() == old(enemies).len(),
        final(bosses).len() == old(bosses).len(),
        final(level).value >= old(level).value,
{
    let ghost begin = Battlefield {
        enemies: old(enemies)@,
        bosses: old(bosses)@,
        level: *old(level),
    };
    let mut outcomes: Vec<BulletOutcome> = Vec::new();
    let n: usize = bullets.len();
    let mut i: usize = 0;
    assert(old(bullets)@.take(0) =~= Seq::<BulletEntity>::empty());
    while i < n
        invariant
            i <= n,
            n == bullets.len(),
            n == old(bullets).len(),
            outcomes.len() == i,
            enemies.len() == old(enemies).len(),
            bosses.len() == old(bosses).len(),
            level.value >= old(level).value,
            begin == (Battlefield {
                enemies: old(enemies)@,
                bosses: old(bosses)@,
                level: *old(level),
            }),
            forall|k: int|
                0 <= k < old(bullets).len() ==> (#[trigger] old(bullets)[k]).placement.boxable(),
            forall|k: int| 0 <= k < platforms.len() ==> (#[trigger] platforms[k]).in_bounds(),
            (Battlefield { enemies: enemies@, bosses: bosses@, level: *level }) == begin.battle(
                old(bullets)@.take(i as int),
                dt,
                platforms@,
            ),
            (Battlefield { enemies: enemies@, bosses: bosses@, level: *level }).can_take_hits(
                n - i,
            ),
            forall|k: int| 0 <= k < i ==> #[trigger] bullets[k] == old(bullets)[k].aged(dt),
            forall|k: int| i <= k < n ==> #[trigger] bullets[k] == old(bullets)[k],
            forall|k: int|
                0 <= k < i ==> #[trigger] outcomes[k] == begin.battle(
                    old(bullets)@.take(k),
                    dt,
                    platforms@,
                ).outcome(old(bullets)[k].aged(dt), platforms@),
        decreases n - i,
    {
        assert(old(bullets)@.take(i + 1).drop_last() =~= old(bullets)@.take(i as int));
        assert(old(bullets)@.take(i + 1).last() == old(bullets)@[i as int]);
        let mut bullet: BulletEntity = bullets[i];
        proof {
            let field = Battlefield { enemies: enemies@, bosses: bosses@, level: *level };
            let gain = field.largest_gain();
            lemma_hit_adds_at_most_the_largest_gain(field, bullet.aged(dt), platforms@);
            assert(gain * (n - i) == gain * (n - i - 1) + gain && gain * (n - i - 1) >= 0)
                by (nonlinear_arith)
                requires
                    gain >= 0,
                    n - i >= 1,
            ;
        }
        let outcome: BulletOutcome = bullet.strike(dt, platforms, enemies, bosses, level);
        bullets[i] = bullet;
        outcomes.push(outcome);
        i = i + 1;
    }
    assert(old(bullets)@.take(n as int) =~= old(bullets)@);
    outcomes
}

/// The bullets after each has flown for `dt` nanoseconds.
pub open spec fn flown_all(bullets: Seq<BulletEntity>, dt: u64) -> Seq<BulletEntity> {
    Seq::new(bullets.len(), |i: int| bullets[i].flown(dt))
}

/// One fixed tick of the bullets: every bullet first flies on and is then
/// aged and resolved where it has arrived, so that a hit is scored on the
/// tick on which the bullet reaches its target.
pub fn fixed_update(
    bullets: &mut Vec<BulletEntity>,
    dt: u64,
    platforms: &Vec<AABB>,
    enemies: &mut Vec<EnemyEntity>,
    bosses: &mut Vec<BossEntity>,
    level: &mut CurseLevel,
) -> (outcomes: Vec<BulletOutcome>)
    requires
        dt <= MAX_TICK_NANOS,
        forall|i: int| 0 <= i < old(bullets).len() ==> (#[trigger] old(bullets)[i]).in_bounds(),
        forall|i: int| 0 <= i < platforms.len() ==> (#[trigger] platforms[i]).in_bounds(),
        (Battlefield {
            enemies: old(enemies)@,
            bosses: old(bosses)@,
            level: *old(level),
        }).can_take_hits(old(bullets).len() as int),
    ensures
        final(bullets).len() == old(bullets).len(),
        outcomes.len() == old(bullets).len(),
        forall|i: int|
            0 <= i < old(bullets).len() ==> #[trigger] final(bullets)[i] == old(bullets)[i].flown(
                dt,
            ).aged(dt),
        forall|i: int|
            0 <= i < old(bullets).len() ==> #[trigger] outcomes[i] == (Battlefield {
                enemies: old(enemies)@,
                bosses: old(bosses)@,
                level: *old(level),
            }).battle(flown_all(old(bullets)@, dt).take(i), dt, platforms@).outcome(
                old(bullets)[i].flown(dt).aged(dt),
                platforms@,
            ),
        (Battlefield { enemies: final(enemies)@, bosses: final(bosses)@, level: *final(level) })
            == (Battlefield {
            enemies: old(enemies)@,
            bosses: old(bosses)@,
            level: *old(level),
        }).battle(flown_all(old(bullets)@, dt), dt, platforms@),
        final(enemies).len() == old(enemies).len(),
        final(bosses).len() == old(bosses).len(),
        final(level).value >= old(level).value,
{
    update_bullets(bullets, dt);
    assert(bullets@ =~= flown_all(old(bullets)@, dt));
    handle_collisions(bullets, dt, platforms, enemies, bosses, level)
}

/// A bullet adds no more curse than the largest gain of the battlefield: it
/// can kill an enemy only where an enemy stands, and a boss only where a boss
/// does.
pub proof fn lemma_hit_adds_at_most_the_largest_gain(
    field: Battlefield,
    bullet: BulletEntity,
    platforms: Seq<AABB>,
)
    ensures
        0 <= field.outcome(bullet, platforms).curse() <= field.largest_gain(),
{
}

/// A box that is found stands at or after `from`, and overlaps the probe.
pub proof fn lemma_first_overlap_is_in_range(boxes: Seq<AABB>, probe: AABB, from: int)
    requires
        0 <= from,
    ensures
        first_overlap(boxes, probe, from) is Some ==> from <= first_overlap(
            boxes,
            probe,
            from,
        )->Some_0 < boxes.len() && boxes[first_overlap(boxes, probe, from)->Some_0].overlaps(probe),
    decreases boxes.len() - from,
{
    if from < boxes.len() && !boxes[from].overlaps(probe) {
        lemma_first_overlap_is_in_range(boxes, probe, from + 1);
    }
}

/// A bullet leaves every target in its place: the battlefield after it has
/// as many enemies and bosses as before.
pub proof fn lemma_hit_keeps_the_targets(
    field: Battlefield,
    bullet: BulletEntity,
    platforms: Seq<AABB>,
)
    ensures
        field.after(field.outcome(bullet, platforms)).enemies.len() == field.enemies.len(),
        field.after(field.outcome(bullet, platforms)).bosses.len() == field.bosses.len(),
{
    let probe = bullet.placement.collider();
    lemma_first_overlap_is_in_range(enemy_boxes(field.enemies), probe, 0);
    lemma_first_overlap_is_in_range(boss_boxes(field.bosses), probe, 0);
}

/// Bullets never lower the curse level: after a round it is at least what it
/// was, and higher by at most the largest gain of the battlefield for each
/// bullet. The targets all stay in place.
pub proof fn lemma_battle_never_lowers_curse(
    field: Battlefield,
    bullets: Seq<BulletEntity>,
    dt: u64,
    platforms: Seq<AABB>,
)
    requires
        field.level.value + field.largest_gain() * bullets.len() <= u32::MAX,
    ensures
        field.level.value <= field.battle(bullets, dt, platforms).level.value <= field.level.value
            + field.largest_gain() * bullets.len(),
        field.battle(bullets, dt, platforms).enemies.len() == field.enemies.len(),
        field.battle(bullets, dt, platforms).bosses.len() == field.bosses.len(),
    decreases bullets.len(),
{
    if bullets.len() > 0 {
        let gain = field.largest_gain();
        let n = bullets.len() as int;
        assert(gain * n == gain * (n - 1) + gain && gain * (n - 1) >= 0) by (nonlinear_arith)
            requires
                gain >= 0,
                n >= 1,
        ;
        lemma_battle_never_lowers_curse(field, bullets.drop_last(), dt, platforms);
        let before = field.battle(bullets.drop_last(), dt, platforms);
        lemma_hit_adds_at_most_the_largest_gain(before, bullets.last().aged(dt), platforms);
        lemma_hit_keeps_the_targets(before, bullets.last().aged(dt), platforms);
    }
}

/// If some box at or after `from` overlaps the probe, a first one is found:
/// it overlaps the probe, and no box between `from` and it does.
pub proof fn lemma_first_overlap_finds(boxes: Seq<AABB>, probe: AABB, from: int, witness: int)
    requires
        0 <= from <= witness < boxes.len(),
        boxes[witness].overlaps(probe),
    ensures
        first_overlap(boxes, probe, from) is Some,
        from <= first_overlap(boxes, probe, from)->Some_0 <= witness,
        boxes[first_overlap(boxes, probe, from)->Some_0].overlaps(probe),
        forall|k: int|
            from <= k < first_overlap(boxes, probe, from)->Some_0 ==> !(#[trigger] boxes[k]).overlaps(
                probe,
            ),
    decreases witness - from,
{
    if !boxes[from].overlaps(probe) {
        lemma_first_overlap_finds(boxes, probe, from + 1, witness);
    }
}

/// If no box at or after `from` overlaps the probe, none is found.
pub proof fn lemma_first_overlap_misses(boxes: Seq<AABB>, probe: AABB, from: int)
    requires
        0 <= from,
        forall|k: int| from <= k < boxes.len() ==> !(#[trigger] boxes[k]).overlaps(probe),
    ensures
        first_overlap(boxes, probe, from) is None,
    decreases boxes.len() - from,
{
    if from < boxes.len() {
        lemma_first_overlap_misses(boxes, probe, from + 1);
    }
}

/// Terrain comes first. A live bullet that overlaps any platform is stopped
/// by it: no enemy and no boss is damaged and the curse level stays, whatever
/// else the bullet overlaps.
pub proof fn lemma_platform_shields_targets(
    field: Battlefield,
    bullet: BulletEntity,
    platforms: Seq<AABB>,
    platform: int,
)
    requires
        !bullet.bullet.despawn_timer.spec_just_finished(),
        0 <= platform < platforms.len(),
        platforms[platform].overlaps(bullet.placement.collider()),
    ensures
        field.outcome(bullet, platforms) == BulletOutcome::HitPlatform,
        field.after(field.outcome(bullet, platforms)) == field,
{
    lemma_first_overlap_finds(platforms, bullet.placement.collider(), 0, platform);
}

/// A live bullet clear of terrain strikes the first enemy that it overlaps.
/// That enemy loses exactly `BULLET_DAMAGE` health. If that leaves it no
/// health, it is reported killed and the curse level rises by exactly one and
/// is marked as changed; otherwise the level stays. Nothing else changes.
pub proof fn lemma_bullet_strikes_first_enemy(
    field: Battlefield,
    bullet: BulletEntity,
    platforms: Seq<AABB>,
    enemy: int,
)
    requires
        !bullet.bullet.despawn_timer.spec_just_finished(),
        forall|k: int|
            0 <= k < platforms.len() ==> !(#[trigger] platforms[k]).overlaps(
                bullet.placement.collider(),
            ),
        0 <= enemy < field.enemies.len() <= usize::MAX,
        field.enemies[enemy].placement.collider().overlaps(bullet.placement.collider()),
        forall|k: int|
            0 <= k < enemy ==> !(#[trigger] field.enemies[k]).placement.collider().overlaps(
                bullet.placement.collider(),
            ),
        field.enemies[enemy].enemy.health >= i64::MIN + BULLET_DAMAGE,
        field.level.value < u32::MAX,
    ensures
        ({
            let health = field.enemies[enemy].enemy.health;
            let outcome = field.outcome(bullet, platforms);
            let end = field.after(outcome);
            &&& outcome == (BulletOutcome::HitEnemy {
                index: enemy as usize,
                killed: health <= BULLET_DAMAGE,
            })
            &&& outcome.despawns()
            &&& end.enemies.len() == field.enemies.len()
            &&& end.enemies[enemy].enemy.health == health - BULLET_DAMAGE
            &&& end.enemies[enemy].placement == field.enemies[enemy].placement
            &&& forall|k: int|
                0 <= k < field.enemies.len() && k != enemy ==> end.enemies[k] == field.enemies[k]
            &&& end.bosses == field.bosses
            &&& health <= BULLET_DAMAGE ==> end.level.value == field.level.value + 1
                && end.level.needs_change
            &&& health > BULLET_DAMAGE ==> end.level == field.level
        }),
{
    let probe = bullet.placement.collider();
    let boxes = enemy_boxes(field.enemies);
    lemma_first_overlap_misses(platforms, probe, 0);
    lemma_first_overlap_finds(boxes, probe, 0, enemy);
    assert(first_overlap(boxes, probe, 0) == Some(enemy)) by {
        let found = first_overlap(boxes, probe, 0)->Some_0;
        if found < enemy {
            assert(boxes[found] == field.enemies[found].placement.collider());
        }
    }
}

/// A live bullet clear of terrain and of every enemy strikes the first boss
/// that it overlaps. That boss loses exactly `BULLET_DAMAGE` health. If that
/// leaves it no health, it is reported killed and the curse level rises by
/// exactly `BOSS_CURSE` and is marked as changed; otherwise the level stays.
/// Nothing else changes.
pub proof fn lemma_bullet_strikes_first_boss(
    field: Battlefield,
    bullet: BulletEntity,
    platforms: Seq<AABB>,
    boss: int,
)
    requires
        !bullet.bullet.despawn_timer.spec_just_finished(),
        forall|k: int|
            0 <= k < platforms.len() ==> !(#[trigger] platforms[k]).overlaps(
                bullet.placement.collider(),
            ),
        forall|k: int|
            0 <= k < field.enemies.len() ==> !(#[trigger] field.enemies[k]).placement.collider().overlaps(
                bullet.placement.collider(),
            ),
        0 <= boss < field.bosses.len() <= usize::MAX,
        field.bosses[boss].placement.collider().overlaps(bullet.placement.collider()),
        forall|k: int|
            0 <= k < boss ==> !(#[trigger] field.bosses[k]).placement.collider().overlaps(
                bullet.placement.collider(),
            ),
        field.bosses[boss].boss.health >= i64::MIN + BULLET_DAMAGE,
        field.level.value <= u32::MAX - BOSS_CURSE,
    ensures
        ({
            let health = field.bosses[boss].boss.health;
            let outcome = field.outcome(bullet, platforms);
            let end = field.after(outcome);
            &&& outcome == (BulletOutcome::HitBoss {
                index: boss as usize,
                killed: health <= BULLET_DAMAGE,
            })
            &&& outcome.despawns()
            &&& end.bosses.len() == field.bosses.len()
            &&& end.bosses[boss].boss.health == health - BULLET_DAMAGE
            &&& end.bosses[boss].placement == field.bosses[boss].placement
            &&& forall|k: int|
                0 <= k < field.bosses.len() && k != boss ==> end.bosses[k] == field.bosses[k]
            &&& end.enemies == field.enemies
            &&& health <= BULLET_DAMAGE ==> end.level.value == field.level.value + BOSS_CURSE
                && end.level.needs_change
            &&& health > BULLET_DAMAGE ==> end.level == field.level
        }),
{
    let probe = bullet.placement.collider();
    let boxes = boss_boxes(field.bosses);
    lemma_first_overlap_misses(platforms, probe, 0);
    assert forall|k: int| 0 <= k < enemy_boxes(field.enemies).len() implies !(
    #[trigger] enemy_boxes(field.enemies)[k]).overlaps(probe) by {
        assert(enemy_boxes(field.enemies)[k] == field.enemies[k].placement.collider());
    }
    lemma_first_overlap_misses(enemy_boxes(field.enemies), probe, 0);
    lemma_first_overlap_finds(boxes, probe, 0, boss);
    assert(first_overlap(boxes, probe, 0) == Some(boss)) by {
        let found = first_overlap(boxes, probe, 0)->Some_0;
        if found < boss {
            assert(boxes[found] == field.bosses[found].placement.collider());
        }
    }
}

/// A bullet that overlaps nothing, and whose lifetime has not just run out,
/// flies on and leaves the battlefield as it was.
pub proof fn lemma_stray_bullet_flies_on(
    field: Battlefield,
    bullet: BulletEntity,
    platforms: Seq<AABB>,
)
    requires
        !bullet.bullet.despawn_timer.spec_just_finished(),
        forall|k: int|
            0 <= k < platforms.len() ==> !(#[trigger] platforms[k]).overlaps(
                bullet.placement.collider(),
            ),
        forall|k: int|
            0 <= k < field.enemies.len() ==> !(#[trigger] field.enemies[k]).placement.collider().overlaps(
                bullet.placement.collider(),
            ),
        forall|k: int|
            0 <= k < field.bosses.len() ==> !(#[trigger] field.bosses[k]).placement.collider().overlaps(
                bullet.placement.collider(),
            ),
    ensures
        field.outcome(bullet, platforms) == BulletOutcome::Flying,
        !field.outcome(bullet, platforms).despawns(),
        field.after(field.outcome(bullet, platforms)) == field,
{
    let probe = bullet.placement.collider();
    lemma_first_overlap_misses(platforms, probe, 0);
    assert forall|k: int| 0 <= k < enemy_boxes(field.enemies).len() implies !(
    #[trigger] enemy_boxes(field.enemies)[k]).overlaps(probe) by {
        assert(enemy_boxes(field.enemies)[k] == field.enemies[k].placement.collider());
    }
    lemma_first_overlap_misses(enemy_boxes(field.enemies), probe, 0);
    assert forall|k: int| 0 <= k < boss_boxes(field.bosses).len() implies !(
    #[trigger] boss_boxes(field.bosses)[k]).overlaps(probe) by {
        assert(boss_boxes(field.bosses)[k] == field.bosses[k].placement.collider());
    }
    lemma_first_overlap_misses(boss_boxes(field.bosses), probe, 0);
}

} // verus!
