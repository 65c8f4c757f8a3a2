//! The player: its health, and the input that steers it.

use vstd::prelude::*;
use crate::animation::MovementAnimation;
use crate::geometry::{Placement, Vec2, Vec3};
use crate::gun::Gun;
use crate::movement::{FollowCamera, MovementController, JUMP_FORCE_LIMIT};
use crate::timer::{Timer, TimerMode};
use crate::units::within;

verus! {

/// Health of a newly spawned player.
pub const PLAYER_HEALTH: i64 = 100;

/// Cooldown of the player's gun before the curse quickens it, in nanoseconds.
pub const PLAYER_GUN_COOLDOWN: u64 = 800_000_000;

/// Scale of the player, in thousandths.
pub const PLAYER_SCALE: i64 = 2_000;

/// Where the player appears.
pub const PLAYER_START_X: i64 = -250_000;

/// Height at which the player appears.
pub const PLAYER_START_Y: i64 = -200_000;

/// Drawing depth of the player.
pub const PLAYER_DEPTH: i64 = 10_000;

/// Largest magnitude of a health value for which a health bar is computed.
pub const BAR_HEALTH_LIMIT: i64 = 1_000_000_000_000;

/// Half the width of a health bar, in sub-units per thousandth of health.
pub const BAR_HALF_WIDTH: i64 = 40;

/// The player character.
#[derive(Clone, Copy, PartialEq, Eq, Debug, Structural)]
pub struct Player {
    pub has_gun: bool,
    pub health: i64,
    pub max_health: i64,
}

/// The player with everything that places, moves, shows and arms it.
#[derive(Clone, Copy, PartialEq, Eq, Debug, Structural)]
pub struct PlayerEntity {
    pub player: Player,
    pub placement: Placement,
    pub controller: MovementController,
    pub camera: FollowCamera,
    pub animation: MovementAnimation,
    pub gun: Gun,
}

/// The input of one frame, already decoded.
#[derive(Clone, Copy, PartialEq, Eq, Debug, Structural)]
pub struct InputIntents {
    pub move_left: bool,
    pub move_right: bool,
    pub jump_held: bool,
    pub fire_held: bool,
    pub fire_just_pressed: bool,
    pub interact_just_pressed: bool,
}

/// A newly spawned player.
pub open spec fn new_player(max_speed: i64) -> PlayerEntity {
    PlayerEntity {
        player: Player { has_gun: false, health: PLAYER_HEALTH, max_health: PLAYER_HEALTH },
        placement: Placement {
            translation: Vec3 { x: PLAYER_START_X, y: PLAYER_START_Y, z: PLAYER_DEPTH },
            scale: Vec2 { x: PLAYER_SCALE, y: PLAYER_SCALE },
        },
        controller: MovementController { speed: max_speed, ..MovementController::initial() },
        camera: FollowCamera,
        animation: MovementAnimation::starting(crate::animation::MovementAnimationState::Idling),
        gun: Gun {
            shooting_cooldown: Timer::fresh(PLAYER_GUN_COOLDOWN, TimerMode::Repeating),
            can_shoot: true,
            shooting: false,
            enabled: false,
        },
    }
}

/// Creates the player character, unarmed and at full health.
pub fn player(max_speed: i64) -> (p: PlayerEntity)
    ensures
        p == new_player(max_speed),
        p.animation.wf(),
{
    let mut controller = MovementController::default();
    controller.speed = max_speed;
    PlayerEntity {
        player: Player { has_gun: false, health: PLAYER_HEALTH, max_health: PLAYER_HEALTH },
        placement: Placement::new(
            Vec3::new(PLAYER_START_X, PLAYER_START_Y, PLAYER_DEPTH),
            Vec2::new(PLAYER_SCALE, PLAYER_SCALE),
        ),
        controller,
        camera: FollowCamera,
        animation: MovementAnimation::new(),
        gun: Gun {
            shooting_cooldown: Timer::new(PLAYER_GUN_COOLDOWN, TimerMode::Repeating),
            can_shoot: true,
            shooting: false,
            enabled: false,
        },
    }
}

impl InputIntents {
    /// Horizontal intent: `-1` for left, `1` for right, `0` for neither or
    /// both.
    pub open spec fn horizontal(self) -> int {
        (if self.move_right {
            1int
        } else {
            0int
        }) - (if self.move_left {
            1int
        } else {
            0int
        })
    }
}

impl MovementController {
    /// The controller after the directional input of one frame. Holding jump
    /// on the ground launches the body at three times its jump force and
    /// changes nothing else; holding it in the air glides while the body
    /// falls and its glide clock is short of the glide time. Without jump
    /// there is no glide. The horizontal intent is taken over, and a
    /// non-zero intent turns the body to face its way.
    pub open spec fn steered(self, input: InputIntents) -> MovementController {
        let intent = input.horizontal();
        let jumps = input.jump_held && self.grounded;
        MovementController {
            velocity: Vec2 {
                x: self.velocity.x,
                y: if jumps {
                    (self.jump_force * 3) as i64
                } else {
                    self.velocity.y
                },
            },
            grounded: self.grounded && !jumps,
            gliding: if jumps {
                self.gliding
            } else {
                input.jump_held && self.velocity.y < 0 && self.jump_timer < self.jump_time
            },
            horizontal: intent as i64,
            facing_right: if intent < 0 {
                false
            } else if intent > 0 {
                true
            } else {
                self.facing_right
            },
            ..self
        }
    }

    /// Applies the directional input of one frame; see `steered`.
    pub fn steer(&mut self, input: &InputIntents)
        requires
            within(old(self).jump_force as int, JUMP_FORCE_LIMIT as int),
        ensures
            *final(self) == old(self).steered(*input),
            -1 <= final(self).horizontal <= 1,
    {
        let mut intent: i64 = 0;
        if input.move_left {
            intent = intent - 1;
        }
        if input.move_right {
            intent = intent + 1;
        }
        if input.jump_held {
            if self.grounded {
                self.velocity.y = self.jump_force * 3;
                self.grounded = false;
            } else if self.velocity.y < 0 && self.jump_timer < self.jump_time {
                self.gliding = true;
            } else {
                self.gliding = false;
            }
        } else {
            self.gliding = false;
        }
        self.horizontal = intent;
        if intent < 0 {
            self.facing_right = false;
        }
        if intent > 0 {
            self.facing_right = true;
        }
    }
}

/// Applies the directional input of one frame to every controller that the
/// player steers.
pub fn record_player_directional_input(
    input: &InputIntents,
    controllers: &mut Vec<MovementController>,
)
    requires
        forall|i: int|
            0 <= i < old(controllers).len() ==> within(
                (#[trigger] old(controllers)[i]).jump_force as int,
                JUMP_FORCE_LIMIT as int,
            ),
    ensures
        final(controllers).len() == old(controllers).len(),
        forall|i: int|
            0 <= i < old(controllers).len() ==> #[trigger] final(controllers)[i] == old(
                controllers,
            )[i].steered(*input),
{
    let n: usize = controllers.len();
    let mut i: usize = 0;
    while i < n
        invariant
            i <= n,
            n == controllers.len(),
            n == old(controllers).len(),
            forall|k: int|
                0 <= k < old(controllers).len() ==> within(
                    (#[trigger] old(controllers)[k]).jump_force as int,
                    JUMP_FORCE_LIMIT as int,
                ),
            forall|k: int|
                0 <= k < i ==> #[trigger] controllers[k] == old(controllers)[k].steered(*input),
            forall|k: int| i <= k < n ==> #[trigger] controllers[k] == old(controllers)[k],
        decreases n - i,
    {
        let mut controller: MovementController = controllers[i];
        controller.steer(input);
        controllers[i] = controller;
        i = i + 1;
    }
}

/// Reads the fire button into every gun. The result tells whether the honk
/// is to be heard, which it is for each gun when the button has just been
/// pressed.
pub fn record_shooting_input(input: &InputIntents, guns: &mut Vec<Gun>) -> (honk: bool)
    ensures
        final(guns).len() == old(guns).len(),
        forall|i: int|
            0 <= i < old(guns).len() ==> #[trigger] final(guns)[i] == old(guns)[i].with_input(
                input.fire_held,
                input.fire_just_pressed,
            ),
        honk == (input.fire_just_pressed && old(guns).len() > 0),
{
    let n: usize = guns.len();
    let mut i: usize = 0;
    while i < n
        invariant
            i <= n,
            n == guns.len(),
            n == old(guns).len(),
            forall|k: int|
                0 <= k < i ==> #[trigger] guns[k] == old(guns)[k].with_input(
                    input.fire_held,
                    input.fire_just_pressed,
                ),
            forall|k: int| i <= k < n ==> #[trigger] guns[k] == old(guns)[k],
        decreases n - i,
    {
        let mut gun: Gun = guns[i];
        gun.record_input(input.fire_held, input.fire_just_pressed);
        guns[i] = gun;
        i = i + 1;
    }
    input.fire_just_pressed && n > 0
}

/// Where a health bar is drawn for a combatant.
#[derive(Clone, Copy, PartialEq, Eq, Debug, Structural)]
pub struct HealthBar {
    /// Horizontal scale of the bar, in thousandths: the share of health
    /// left, never below zero.
    pub scale_x: i64,
    /// Horizontal offset of the bar from its full position, in sub-units.
    pub offset_x: i64,
}

/// Share of the health that is left, in thousandths.
pub open spec fn health_share(health: int, max_health: int) -> int
    recommends
        max_health > 0,
{
    crate::units::truncated_quotient(health * 1000, max_health)
}

/// Computes the health bar of a combatant: scaled to the share of health
/// left, and shifted so that its left end stays in place.
pub fn update_health_bar(health: i64, max_health: i64) -> (bar: HealthBar)
    requires
        max_health > 0,
        within(health as int, BAR_HEALTH_LIMIT as int),
    ensures
        bar.scale_x == if health_share(health as int, max_health as int) < 0 {
            0
        } else {
            health_share(health as int, max_health as int)
        },
        bar.offset_x == health_share(health as int, max_health as int) * BAR_HALF_WIDTH
            - BAR_HALF_WIDTH * 1000,
{
    let share: i64 = health * 1000 / max_health;
    assert(-1_000_000_000_000_000 <= share <= 1_000_000_000_000_000) by (nonlinear_arith)
        requires
            max_health > 0,
            -1_000_000_000_000_000 <= health * 1000 <= 1_000_000_000_000_000,
            share == if health * 1000 >= 0 {
                (health * 1000) / (max_health as int)
            } else {
                -((-(health * 1000)) / (max_health as int))
            },
    ;
    HealthBar {
        scale_x: if share < 0 {
            0
        } else {
            share
        },
        offset_x: share * BAR_HALF_WIDTH - BAR_HALF_WIDTH * 1000,
    }
}

} // verus!
