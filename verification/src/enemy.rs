//! Enemies, the bombs they lob, and the explosions those leave.

use vstd::prelude::*;
use crate::animation::MovementAnimation;
use crate::geometry::{Placement, Vec2, Vec3};
use crate::movement::{Body, MovementController};
use crate::player::{Player, PlayerEntity};
use crate::units::{abs_i64, magnitude, sign, sign_i64, truncated_quotient, within, COORD_LIMIT};
use crate::timer::{Timer, TimerMode};

verus! {

/// Radius of the explosion that a detonating bomb leaves.
pub const GARLIC_BLAST_RADIUS: i64 = 60_000;

/// Marker of a lobbed bomb.
#[derive(Clone, Copy, PartialEq, Eq, Debug, Structural)]
pub struct Garlic;

/// A blast that hurts the player within `radius` for one tick.
#[derive(Clone, Copy, PartialEq, Eq, Debug, Structural)]
pub struct Explosion {
    pub radius: i64,
}

/// An explosion and the place where it stands.
#[derive(Clone, Copy, PartialEq, Eq, Debug, Structural)]
pub struct ExplosionEntity {
    pub position: Vec3,
    pub explosion: Explosion,
}

/// Time between two bombs of an enemy in range, in nanoseconds.
pub const GARLIC_COOLDOWN: u64 = 1_200_000_000;

/// Walking speed of an enemy, in sub-units per second.
pub const ENEMY_SPEED: i64 = 300_000;

/// An enemy: a combatant that keeps its distance and lobs bombs.
#[derive(Clone, Copy, PartialEq, Eq, Debug, Structural)]
pub struct Enemy {
    pub health: i64,
    pub max_health: i64,
    pub garlic_cooldown: Timer,
    pub can_attack: bool,
}

/// An enemy with everything that places, moves and shows it.
#[derive(Clone, Copy, PartialEq, Eq, Debug, Structural)]
pub struct EnemyEntity {
    pub enemy: Enemy,
    pub placement: Placement,
    pub controller: MovementController,
    pub animation: MovementAnimation,
}

/// A newly spawned mushroom enemy.
pub open spec fn new_mushroom(health: i64, location: Vec3, size_modifier: i64) -> EnemyEntity {
    EnemyEntity {
        enemy: Enemy {
            health,
            max_health: health,
            garlic_cooldown: Timer::fresh(GARLIC_COOLDOWN, TimerMode::Repeating),
            can_attack: true,
        },
        placement: Placement {
            translation: location,
            scale: Vec2 { x: size_modifier, y: size_modifier },
        },
        controller: MovementController { speed: ENEMY_SPEED, ..MovementController::initial() },
        animation: MovementAnimation::starting(
            crate::animation::MovementAnimationState::Idling,
        ),
    }
}

/// Creates a mushroom enemy with full health at `location`, scaled by
/// `size_modifier` thousandths on both axes.
pub fn mushroom(health: i64, location: Vec3, size_modifier: i64) -> (e: EnemyEntity)
    ensures
        e == new_mushroom(health, location, size_modifier),
        e.animation.wf(),
{
    let mut controller = MovementController::default();
    controller.speed = ENEMY_SPEED;
    EnemyEntity {
        enemy: Enemy {
            health,
            max_health: health,
            garlic_cooldown: Timer::new(GARLIC_COOLDOWN, TimerMode::Repeating),
            can_attack: true,
        },
        placement: Placement::new(location, Vec2::new(size_modifier, size_modifier)),
        controller,
        animation: MovementAnimation::new(),
    }
}

/// Distance beyond which an enemy ignores the player.
pub const AGGRO_RANGE: i64 = 1_500_000;

/// Distance beyond which an enemy in pursuit closes in.
pub const ENGAGE_MAX: i64 = 500_000;

/// Distance within which an enemy backs away.
pub const ENGAGE_MIN: i64 = 300_000;

/// Upward speed with which a bomb leaves an enemy.
pub const GARLIC_LAUNCH_SPEED: i64 = 1_500_000;

/// Horizontal speed of a bomb lobbed from the distance `ENGAGE_MAX`.
pub const GARLIC_REACH_SPEED: i64 = 1_111_000;

/// Gravity on a bomb.
pub const GARLIC_GRAVITY: i64 = 100_000;

/// Scale of a bomb, in thousandths.
pub const GARLIC_SCALE: i64 = 1_500;

/// Damage that an explosion deals to the player.
pub const BLAST_DAMAGE: i64 = 40;

/// What an enemy does about a player at the horizontal offset `dx`.
#[derive(Clone, Copy, PartialEq, Eq, Debug, Structural)]
pub enum Stance {
    /// The player is out of range: nothing changes.
    Idle,
    /// The player is far: walk toward it.
    Approach,
    /// The player is close: walk away from it.
    Retreat,
    /// The player is at the right distance: stand and lob bombs.
    Engage,
}

/// The stance for a player at the horizontal offset `dx`.
pub open spec fn stance_for(dx: int) -> Stance {
    if magnitude(dx) > AGGRO_RANGE {
        Stance::Idle
    } else if magnitude(dx) > ENGAGE_MAX {
        Stance::Approach
    } else if magnitude(dx) < ENGAGE_MIN {
        Stance::Retreat
    } else {
        Stance::Engage
    }
}

/// Horizontal speed of a bomb lobbed at a player `distance` away: in
/// proportion to the distance, `GARLIC_REACH_SPEED` at `ENGAGE_MAX`.
pub open spec fn lob_speed(distance: int) -> int {
    truncated_quotient(distance * GARLIC_REACH_SPEED, ENGAGE_MAX as int)
}

/// A bomb lobbed from `origin` with the horizontal speed `speed`, the
/// vertical speed `launch`, toward the side of `dx`.
pub open spec fn lobbed(origin: Vec3, dx: int, speed: i64, launch: i64) -> Body {
    Body {
        placement: Placement { translation: origin, scale: Vec2 { x: GARLIC_SCALE, y: GARLIC_SCALE } },
        controller: MovementController {
            speed,
            horizontal: sign(dx) as i64,
            velocity: Vec2 { x: 0, y: launch },
            gravity: GARLIC_GRAVITY,
            grounded: false,
            facing_right: dx > 0,
            ..MovementController::initial()
        },
        garlic: true,
    }
}

/// Builds `lobbed`.
pub fn lob(origin: Vec3, dx: i64, speed: i64, launch: i64) -> (bomb: Body)
    ensures
        bomb == lobbed(origin, dx as int, speed, launch),
{
    let mut controller = MovementController::default();
    controller.speed = speed;
    controller.horizontal = sign_i64(dx);
    controller.velocity = Vec2::new(0, launch);
    controller.gravity = GARLIC_GRAVITY;
    controller.grounded = false;
    controller.facing_right = dx > 0;
    Body {
        placement: Placement::new(origin, Vec2::new(GARLIC_SCALE, GARLIC_SCALE)),
        controller,
        garlic: true,
    }
}

impl EnemyEntity {
    /// Horizontal offset of a player at `player_x` from the enemy.
    pub open spec fn offset_to(self, player_x: i64) -> int {
        player_x - self.placement.translation.x
    }

    /// The enemy after one frame facing a player at `player_x`. Out of range
    /// nothing changes. In range the enemy faces the player, and walks toward
    /// it, away from it, or stands, by its stance; only while it stands is
    /// its bomb cooldown ticked.
    pub open spec fn after_frame(self, player_x: i64, dt: u64) -> EnemyEntity {
        let dx = self.offset_to(player_x);
        match stance_for(dx) {
            Stance::Idle => self,
            Stance::Approach => EnemyEntity {
                controller: MovementController {
                    facing_right: dx > 0,
                    horizontal: sign(dx) as i64,
                    ..self.controller
                },
                ..self
            },
            Stance::Retreat => EnemyEntity {
                controller: MovementController {
                    facing_right: dx > 0,
                    horizontal: (-sign(dx)) as i64,
                    ..self.controller
                },
                ..self
            },
            Stance::Engage => EnemyEntity {
                controller: MovementController {
                    facing_right: dx > 0,
                    horizontal: 0,
                    ..self.controller
                },
                enemy: Enemy {
                    garlic_cooldown: self.enemy.garlic_cooldown.ticked(dt),
                    ..self.enemy
                },
                ..self
            },
        }
    }

    /// The bomb that the enemy lobs this frame: one aimed at the player when
    /// the enemy stands in the engagement band and its cooldown has just
    /// finished, none otherwise.
    pub open spec fn attack(self, player_x: i64, dt: u64) -> Option<Body> {
        let dx = self.offset_to(player_x);
        if stance_for(dx) == Stance::Engage && self.enemy.garlic_cooldown.ticked(
            dt,
        ).spec_just_finished() {
            Some(
                lobbed(
                    self.placement.translation,
                    dx,
                    lob_speed(magnitude(dx)) as i64,
                    GARLIC_LAUNCH_SPEED,
                ),
            )
        } else {
            None
        }
    }

    /// Runs the enemy for one frame; see `after_frame` and `attack`.
    pub fn think(&mut self, player_x: i64, dt: u64) -> (bomb: Option<Body>)
        requires
            within(old(self).placement.translation.x as int, COORD_LIMIT as int),
            within(player_x as int, COORD_LIMIT as int),
        ensures
            *final(self) == old(self).after_frame(player_x, dt),
            bomb == old(self).attack(player_x, dt),
    {
        let diff_x: i64 = player_x - self.placement.translation.x;
        let distance: i64 = abs_i64(diff_x);
        if distance > AGGRO_RANGE {
            return None;
        }
        self.controller.facing_right = diff_x > 0;
        self.controller.horizontal = 0;
        let direction: i64 = sign_i64(diff_x);
        if distance > ENGAGE_MAX {
            self.controller.horizontal = direction;
        } else if distance < ENGAGE_MIN {
            self.controller.horizontal = -direction;
        } else {
            self.enemy.garlic_cooldown.tick(dt);
            if self.enemy.garlic_cooldown.just_finished() {
                let speed: i64 = distance * GARLIC_REACH_SPEED / ENGAGE_MAX;
                return Some(lob(self.placement.translation, diff_x, speed, GARLIC_LAUNCH_SPEED));
            }
        }
        None
    }
}

/// Runs every enemy for one frame against the player at `player_x`. The
/// result holds, for each enemy in order, the bomb that it lobbed, if any.
pub fn update_enemies(enemies: &mut Vec<EnemyEntity>, player_x: i64, dt: u64) -> (bombs: Vec<
    Option<Body>,
>)
    requires
        within(player_x as int, COORD_LIMIT as int),
        forall|i: int|
            0 <= i < old(enemies).len() ==> within(
                (#[trigger] old(enemies)[i]).placement.translation.x as int,
                COORD_LIMIT as int,
            ),
    ensures
        final(enemies).len() == old(enemies).len(),
        bombs.len() == old(enemies).len(),
        forall|i: int|
            0 <= i < old(enemies).len() ==> #[trigger] final(enemies)[i] == old(
                enemies,
            )[i].after_frame(player_x, dt),
        forall|i: int|
            0 <= i < old(enemies).len() ==> #[trigger] bombs[i] == old(enemies)[i].attack(
                player_x,
                dt,
            ),
{
    let mut bombs: Vec<Option<Body>> = Vec::new();
    let n: usize = enemies.len();
    let mut i: usize = 0;
    while i < n
        invariant
            i <= n,
            n == enemies.len(),
            n == old(enemies).len(),
            bombs.len() == i,
            within(player_x as int, COORD_LIMIT as int),
            forall|k: int|
                0 <= k < old(enemies).len() ==> within(
                    (#[trigger] old(enemies)[k]).placement.translation.x as int,
                    COORD_LIMIT as int,
                ),
            forall|k: int|
                0 <= k < i ==> #[trigger] enemies[k] == old(enemies)[k].after_frame(player_x, dt),
            forall|k: int| 0 <= k < i ==> #[trigger] bombs[k] == old(enemies)[k].attack(
                player_x,
                dt,
            ),
            forall|k: int| i <= k < n ==> #[trigger] enemies[k] == old(enemies)[k],
        decreases n - i,
    {
        let mut enemy: EnemyEntity = enemies[i];
        let bomb: Option<Body> = enemy.think(player_x, dt);
        enemies[i] = enemy;
        bombs.push(bomb);
        i = i + 1;
    }
    bombs
}

/// Number of explosions, among the first `count`, that reach `position`:
/// those within whose radius the position lies, measured in the plane. The
/// drawing depths of the position and of the explosion do not count.
pub open spec fn blasts_reaching(position: Vec3, explosions: Seq<ExplosionEntity>, count: int)
    -> int
    decreases count,
{
    if count <= 0 {
        0
    } else {
        blasts_reaching(position, explosions, count - 1) + if position.planar_closer_than(
            explosions[count - 1].position,
            explosions[count - 1].explosion.radius as int,
        ) {
            1int
        } else {
            0int
        }
    }
}

/// Whether every explosion is small and near enough for its radius test.
pub open spec fn blasts_in_bounds(explosions: Seq<ExplosionEntity>) -> bool {
    forall|i: int|
        0 <= i < explosions.len() ==> (#[trigger] explosions[i]).position.plane_in_bounds()
            && within(explosions[i].explosion.radius as int, COORD_LIMIT as int)
}

impl Player {
    /// The player after the explosions have acted on it where it stands at
    /// `position`: each explosion that reaches it has taken `BLAST_DAMAGE`
    /// from its health.
    pub open spec fn blasted(self, position: Vec3, explosions: Seq<ExplosionEntity>) -> Player {
        Player {
            health: (self.health - BLAST_DAMAGE * blasts_reaching(
                position,
                explosions,
                explosions.len() as int,
            )) as i64,
            ..self
        }
    }

    /// Whether the explosions deplete the player: at least one reaches it,
    /// and they leave it no health.
    pub open spec fn depleted_by(self, position: Vec3, explosions: Seq<ExplosionEntity>) -> bool {
        let blasts = blasts_reaching(position, explosions, explosions.len() as int);
        blasts > 0 && self.health - BLAST_DAMAGE * blasts <= 0
    }

    /// Whether the health can take a blast from each of `blasts` explosions.
    pub open spec fn can_take_blasts(self, blasts: int) -> bool {
        self.health - BLAST_DAMAGE * blasts >= i64::MIN
    }

    /// Lets the explosions act on the player and tells whether they deplete
    /// it; see `blasted` and `depleted_by`. The explosions stay.
    pub fn take_blasts(&mut self, position: Vec3, explosions: &Vec<ExplosionEntity>) -> (depleted:
        bool)
        requires
            position.plane_in_bounds(),
            blasts_in_bounds(explosions@),
            old(self).can_take_blasts(explosions.len() as int),
        ensures
            *final(self) == old(self).blasted(position, explosions@),
            final(self).health == old(self).health - BLAST_DAMAGE * blasts_reaching(
                position,
                explosions@,
                explosions.len() as int,
            ),
            depleted == old(self).depleted_by(position, explosions@),
    {
        let mut depleted: bool = false;
        let n: usize = explosions.len();
        let mut i: usize = 0;
        while i < n
            invariant
                i <= n,
                n == explosions.len(),
                position.plane_in_bounds(),
                blasts_in_bounds(explosions@),
                old(self).health - BLAST_DAMAGE * n >= i64::MIN,
                0 <= blasts_reaching(position, explosions@, i as int) <= i,
                self.health == old(self).health - BLAST_DAMAGE * blasts_reaching(
                    position,
                    explosions@,
                    i as int,
                ),
                self.max_health == old(self).max_health,
                self.has_gun == old(self).has_gun,
                depleted == (blasts_reaching(position, explosions@, i as int) > 0 && self.health
                    <= 0),
            decreases n - i,
        {
            if position.is_planar_closer_than(
                explosions[i].position,
                explosions[i].explosion.radius,
            ) {
                self.health = self.health - BLAST_DAMAGE;
                if self.health <= 0 {
                    depleted = true;
                }
            }
            i = i + 1;
        }
        depleted
    }
}

/// Lets every explosion act on the player for its single tick: each one
/// within whose radius the player stands, measured in the plane, takes
/// `BLAST_DAMAGE` from the player's health. The result tells whether the
/// session ends, which it does when a blast leaves the player no health. All
/// the explosions are spent: none is left when the call returns.
pub fn explode(player: &mut Player, position: Vec3, explosions: &mut Vec<ExplosionEntity>) -> (ended:
    bool)
    requires
        position.plane_in_bounds(),
        blasts_in_bounds(old(explosions)@),
        old(player).can_take_blasts(old(explosions).len() as int),
    ensures
        *final(player) == old(player).blasted(position, old(explosions)@),
        final(player).health == old(player).health - BLAST_DAMAGE * blasts_reaching(
            position,
            old(explosions)@,
            old(explosions).len() as int,
        ),
        final(player).max_health == old(player).max_health,
        final(player).has_gun == old(player).has_gun,
        ended == old(player).depleted_by(position, old(explosions)@),
        ended == (final(player).health <= 0 && final(player).health < old(player).health),
        final(explosions).len() == 0,
{
    let ended: bool = player.take_blasts(position, explosions);
    explosions.clear();
    ended
}

/// Whether the explosions deplete any of the first `count` players.
pub open spec fn any_depleted(
    players: Seq<PlayerEntity>,
    explosions: Seq<ExplosionEntity>,
    count: int,
) -> bool {
    exists|i: int|
        0 <= i < count && (#[trigger] players[i]).player.depleted_by(
            players[i].placement.translation,
            explosions,
        )
}

/// The explosion phase, for any number of players and none as well. Every
/// explosion acts on every player, each where it stands; see
/// `Player::blasted`. The result tells whether the session ends, which it
/// does when the explosions deplete some player. Whatever happened, and
/// whether or not there is a player at all, every explosion is spent: none
/// is left when the call returns.
pub fn explode_all(players: &mut Vec<PlayerEntity>, explosions: &mut Vec<ExplosionEntity>) -> (ended:
    bool)
    requires
        blasts_in_bounds(old(explosions)@),
        forall|i: int|
            0 <= i < old(players).len() ==> (#[trigger] old(
                players,
            )[i]).placement.translation.plane_in_bounds() && old(players)[i].player.can_take_blasts(
                old(explosions).len() as int,
            ),
    ensures
        final(players).len() == old(players).len(),
        forall|i: int|
            0 <= i < old(players).len() ==> #[trigger] final(players)[i] == (PlayerEntity {
                player: old(players)[i].player.blasted(
                    old(players)[i].placement.translation,
                    old(explosions)@,
                ),
                ..old(players)[i]
            }),
        ended == any_depleted(old(players)@, old(explosions)@, old(players).len() as int),
        final(explosions).len() == 0,
{
    let mut ended: bool = false;
    let n: usize = players.len();
    let mut i: usize = 0;
    while i < n
        invariant
            i <= n,
            n == players.len(),
            n == old(players).len(),
            explosions@ == old(explosions)@,
            blasts_in_bounds(explosions@),
            forall|k: int|
                0 <= k < old(players).len() ==> (#[trigger] old(
                    players,
                )[k]).placement.translation.plane_in_bounds() && old(
                    players,
                )[k].player.can_take_blasts(explosions.len() as int),
            forall|k: int|
                0 <= k < i ==> #[trigger] players[k] == (PlayerEntity {
                    player: old(players)[k].player.blasted(
                        old(players)[k].placement.translation,
                        explosions@,
                    ),
                    ..old(players)[k]
                }),
            forall|k: int| i <= k < n ==> #[trigger] players[k] == old(players)[k],
            ended == any_depleted(old(players)@, explosions@, i as int),
        decreases n - i,
    {
        let mut target: PlayerEntity = players[i];
        let depleted: bool = target.player.take_blasts(target.placement.translation, explosions);
        players[i] = target;
        proof {
            assert(any_depleted(old(players)@, explosions@, i + 1) == (any_depleted(
                old(players)@,
                explosions@,
                i as int,
            ) || depleted)) by {
                if depleted {
                    assert(old(players)@[i as int].player.depleted_by(
                        old(players)@[i as int].placement.translation,
                        explosions@,
                    ));
                }
            }
        }
        if depleted {
            ended = true;
        }
        i = i + 1;
    }
    explosions.clear();
    ended
}

} // verus!
