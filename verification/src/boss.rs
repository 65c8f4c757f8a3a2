//! The boss: a single large combatant that wakes once the curse is deep.

use vstd::prelude::*;
use crate::geometry::{Placement, Vec2, Vec3};
use crate::enemy::{lob, lobbed};
use crate::level::CurseLevel;
use crate::movement::Body;
use crate::timer::{Timer, TimerMode};
use crate::units::{
    abs_i64, displacement, magnitude, sign, sign_i64, travel, within, COORD_LIMIT, MAX_TICK_NANOS,
    SPEED_LIMIT,
};

verus! {

/// Health of a newly spawned boss.
pub const BOSS_HEALTH: i64 = 1200;

/// Speed of the boss, in sub-units per second.
pub const BOSS_SPEED: i64 = 500_000;

/// Time between two retargets of the boss, in nanoseconds.
pub const BOSS_RETARGET: u64 = 1_000_000_000;

/// Scale of the boss, in thousandths.
pub const BOSS_SCALE: i64 = 5_000;

/// Drawing depth of the boss.
pub const BOSS_DEPTH: i64 = 3_000;

/// The boss: its health and the state of its approach-and-attack cycle.
#[derive(Clone, Copy, PartialEq, Eq, Debug, Structural)]
pub struct Boss {
    pub health: i64,
    pub max_health: i64,
    pub speed: i64,
    /// Horizontal position that the boss is heading for.
    pub target_x: i64,
    pub move_cooldown: Timer,
    /// Whether the boss has attacked since it last chose a target.
    pub attacked: bool,
}

/// The boss and where it stands.
#[derive(Clone, Copy, PartialEq, Eq, Debug, Structural)]
pub struct BossEntity {
    pub boss: Boss,
    pub placement: Placement,
}

/// A newly spawned boss.
pub open spec fn new_boss(location: Vec2) -> BossEntity {
    BossEntity {
        boss: Boss {
            health: BOSS_HEALTH,
            max_health: BOSS_HEALTH,
            speed: BOSS_SPEED,
            target_x: location.x,
            move_cooldown: Timer::fresh(BOSS_RETARGET, TimerMode::Repeating),
            attacked: false,
        },
        placement: Placement {
            translation: Vec3 { x: location.x, y: location.y, z: BOSS_DEPTH },
            scale: Vec2 { x: BOSS_SCALE, y: BOSS_SCALE },
        },
    }
}

/// Creates the boss at `location`, at full health and heading nowhere.
pub fn boss(location: Vec2) -> (b: BossEntity)
    ensures
        b == new_boss(location),
{
    BossEntity {
        boss: Boss {
            health: BOSS_HEALTH,
            max_health: BOSS_HEALTH,
            speed: BOSS_SPEED,
            target_x: location.x,
            move_cooldown: Timer::new(BOSS_RETARGET, TimerMode::Repeating),
            attacked: false,
        },
        placement: Placement::new(location.extend(BOSS_DEPTH), Vec2::new(BOSS_SCALE, BOSS_SCALE)),
    }
}

/// Curse level from which the boss is awake.
pub const BOSS_WAKE_LEVEL: u32 = 8;

/// Distance from its target within which the boss stops and attacks.
pub const BOSS_ARRIVAL: i64 = 30_000;

/// Vertical speed with which a bomb leaves the boss: it is dropped.
pub const BOSS_DROP_SPEED: i64 = -250_000;

impl BossEntity {
    /// Small enough to move for one tick.
    pub open spec fn in_bounds(self) -> bool {
        &&& self.placement.translation.in_bounds()
        &&& within(self.boss.target_x as int, COORD_LIMIT as int)
        &&& within(self.boss.speed as int, SPEED_LIMIT as int)
    }

    /// The boss after its retarget clock has been ticked: when the clock
    /// finishes, the boss may attack again and heads for where the player is
    /// now.
    pub open spec fn retargeted(self, player_x: i64, dt: u64) -> Boss {
        let cooldown = self.boss.move_cooldown.ticked(dt);
        if cooldown.spec_just_finished() {
            Boss { move_cooldown: cooldown, attacked: false, target_x: player_x, ..self.boss }
        } else {
            Boss { move_cooldown: cooldown, ..self.boss }
        }
    }

    /// Horizontal offset of the target from the boss, once retargeted.
    pub open spec fn offset_to_target(self, player_x: i64, dt: u64) -> int {
        self.retargeted(player_x, dt).target_x - self.placement.translation.x
    }

    /// Whether the boss attacks this tick: it has arrived within
    /// `BOSS_ARRIVAL` of its target and has not attacked since it chose it.
    pub open spec fn attacks(self, player_x: i64, dt: u64) -> bool {
        magnitude(self.offset_to_target(player_x, dt)) < BOSS_ARRIVAL && !self.retargeted(
            player_x,
            dt,
        ).attacked
    }

    /// The boss after one tick while awake: retargeted, then either moved
    /// toward its target at its speed, or, once arrived, marked as having
    /// attacked.
    pub open spec fn after_tick(self, player_x: i64, dt: u64) -> BossEntity {
        let boss = self.retargeted(player_x, dt);
        let dx = self.offset_to_target(player_x, dt);
        if magnitude(dx) >= BOSS_ARRIVAL {
            BossEntity {
                boss,
                placement: Placement {
                    translation: Vec3 {
                        x: (self.placement.translation.x + displacement(
                            sign(dx) * boss.speed,
                            dt as int,
                        )) as i64,
                        ..self.placement.translation
                    },
                    ..self.placement
                },
            }
        } else {
            BossEntity { boss: Boss { attacked: true, ..boss }, placement: self.placement }
        }
    }

    /// The bomb that the boss drops this tick, if it attacks.
    pub open spec fn attack(self, player_x: i64, dt: u64) -> Option<Body> {
        if self.attacks(player_x, dt) {
            Some(
                lobbed(
                    self.placement.translation,
                    self.offset_to_target(player_x, dt),
                    0,
                    BOSS_DROP_SPEED,
                ),
            )
        } else {
            None
        }
    }

    /// Runs the boss for one tick while awake; see `after_tick` and `attack`.
    pub fn advance(&mut self, player_x: i64, dt: u64) -> (bomb: Option<Body>)
        requires
            old(self).in_bounds(),
            within(player_x as int, COORD_LIMIT as int),
            dt <= MAX_TICK_NANOS,
        ensures
            *final(self) == old(self).after_tick(player_x, dt),
            bomb == old(self).attack(player_x, dt),
    {
        self.boss.move_cooldown.tick(dt);
        if self.boss.move_cooldown.just_finished() {
            self.boss.attacked = false;
            self.boss.target_x = player_x;
        }
        let diff_x: i64 = self.boss.target_x - self.placement.translation.x;
        let direction: i64 = sign_i64(diff_x);
        if abs_i64(diff_x) >= BOSS_ARRIVAL {
            assert(-1_000_000_000 <= direction * self.boss.speed <= 1_000_000_000)
                by (nonlinear_arith)
                requires
                    -1 <= direction <= 1,
                    -1_000_000_000 <= self.boss.speed <= 1_000_000_000,
            ;
            let step: i64 = travel(direction * self.boss.speed, dt);
            self.placement.translation.x = self.placement.translation.x + step;
            None
        } else if !self.boss.attacked {
            self.boss.attacked = true;
            Some(lob(self.placement.translation, diff_x, 0, BOSS_DROP_SPEED))
        } else {
            None
        }
    }
}

/// Runs every boss for one tick against the player at `player_x`. Below the
/// curse level `BOSS_WAKE_LEVEL` the bosses sleep: nothing changes and
/// nothing is dropped. The result holds, for each boss in order, the bomb
/// that it dropped, if any.
pub fn move_boss(bosses: &mut Vec<BossEntity>, player_x: i64, dt: u64, level: &CurseLevel) -> (bombs:
    Vec<Option<Body>>)
    requires
        within(player_x as int, COORD_LIMIT as int),
        dt <= MAX_TICK_NANOS,
        forall|i: int| 0 <= i < old(bosses).len() ==> (#[trigger] old(bosses)[i]).in_bounds(),
    ensures
        final(bosses).len() == old(bosses).len(),
        bombs.len() == old(bosses).len(),
        forall|i: int|
            0 <= i < old(bosses).len() ==> #[trigger] final(bosses)[i] == if level.value
                < BOSS_WAKE_LEVEL {
                old(bosses)[i]
            } else {
                old(bosses)[i].after_tick(player_x, dt)
            },
        forall|i: int|
            0 <= i < old(bosses).len() ==> #[trigger] bombs[i] == if level.value
                < BOSS_WAKE_LEVEL {
                None
            } else {
                old(bosses)[i].attack(player_x, dt)
            },
{
    let awake: bool = level.value >= BOSS_WAKE_LEVEL;
    let mut bombs: Vec<Option<Body>> = Vec::new();
    let n: usize = bosses.len();
    let mut i: usize = 0;
    while i < n
        invariant
            i <= n,
            n == bosses.len(),
            n == old(bosses).len(),
            bombs.len() == i,
            awake == (level.value >= BOSS_WAKE_LEVEL),
            within(player_x as int, COORD_LIMIT as int),
            dt <= MAX_TICK_NANOS,
            forall|k: int| 0 <= k < old(bosses).len() ==> (#[trigger] old(bosses)[k]).in_bounds(),
            forall|k: int|
                0 <= k < i ==> #[trigger] bosses[k] == if awake {
                    old(bosses)[k].after_tick(player_x, dt)
                } else {
                    old(bosses)[k]
                },
            forall|k: int|
                0 <= k < i ==> #[trigger] bombs[k] == if awake {
                    old(bosses)[k].attack(player_x, dt)
                } else {
                    None
                },
            forall|k: int| i <= k < n ==> #[trigger] bosses[k] == old(bosses)[k],
        decreases n - i,
    {
        if awake {
            let mut boss: BossEntity = bosses[i];
            let bomb: Option<Body> = boss.advance(player_x, dt);
            bosses[i] = boss;
            bombs.push(bomb);
        } else {
            bombs.push(None);
        }
        i = i + 1;
    }
    bombs
}

} // verus!
