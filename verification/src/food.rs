//! Food that the player eats, one piece of which is the gun.

use vstd::prelude::*;
use crate::geometry::Vec3;
use crate::gun::{launched, spawn_bullet, BulletEntity, Gun};
use crate::level::{CurseLevel, LevelEvent};

verus! {

/// Distance within which the player reaches food.
pub const PICKUP_RADIUS: i64 = 64_000;

/// Something to eat.
#[derive(Clone, Copy, PartialEq, Eq, Debug, Structural)]
pub struct Food {
    /// Whether eating it arms the player.
    pub gives_gun: bool,
}

/// A piece of food and the place where it lies.
#[derive(Clone, Copy, PartialEq, Eq, Debug, Structural)]
pub struct FoodEntity {
    pub position: Vec3,
    pub food: Food,
}

/// What the player did with one piece of food.
#[derive(Clone, Copy, PartialEq, Eq, Debug, Structural)]
pub struct Bite {
    /// Whether the food was eaten: it is to be despawned, with a honk.
    pub eaten: bool,
    /// The bullet that goes off when the gun is picked up.
    pub bullet: Option<BulletEntity>,
}

impl FoodEntity {
    /// Whether a player at `position` reaches the food.
    pub open spec fn in_reach(self, position: Vec3) -> bool {
        position.closer_than(self.position, PICKUP_RADIUS as int)
    }

    /// What a player at `position` does with the food when `interacts`: it
    /// eats what it reaches, and the gun goes off as it is picked up.
    pub open spec fn bitten(self, interacts: bool, position: Vec3, facing_right: bool) -> Bite {
        if interacts && self.in_reach(position) {
            Bite {
                eaten: true,
                bullet: if self.food.gives_gun {
                    Some(launched(position, facing_right))
                } else {
                    None
                },
            }
        } else {
            Bite { eaten: false, bullet: None }
        }
    }
}

/// Whether any of the first `count` pieces is the gun and within reach.
pub open spec fn gun_in_reach(position: Vec3, foods: Seq<FoodEntity>, count: int) -> bool {
    exists|i: int| 0 <= i < count && (#[trigger] foods[i]).food.gives_gun && foods[i].in_reach(position)
}

/// Lets the player eat. Nothing happens unless `interacts`. Otherwise every
/// piece of food within reach is eaten. Eating the gun sets the curse level
/// to one and marks it as changed, enables the gun, winds its cooldown back,
/// and fires one bullet at once. The result holds one bite for each piece of
/// food, in order.
pub fn eat(
    interacts: bool,
    position: Vec3,
    facing_right: bool,
    gun: &mut Gun,
    foods: &Vec<FoodEntity>,
    level: &mut CurseLevel,
) -> (bites: Vec<Bite>)
    requires
        position.in_bounds(),
        forall|i: int| 0 <= i < foods.len() ==> (#[trigger] foods[i]).position.in_bounds(),
    ensures
        bites.len() == foods.len(),
        forall|i: int|
            0 <= i < foods.len() ==> #[trigger] bites[i] == foods[i].bitten(
                interacts,
                position,
                facing_right,
            ),
        interacts && gun_in_reach(position, foods@, foods.len() as int) ==> *final(level) == old(
            level,
        ).after(LevelEvent::GunPickedUp) && *final(gun) == (Gun {
            enabled: true,
            shooting_cooldown: old(gun).shooting_cooldown.rewound(),
            ..*old(gun)
        }),
        !(interacts && gun_in_reach(position, foods@, foods.len() as int)) ==> *final(level)
            == *old(level) && *final(gun) == *old(gun),
{
    let mut bites: Vec<Bite> = Vec::new();
    let n: usize = foods.len();
    let mut i: usize = 0;
    while i < n
        invariant
            i <= n,
            n == foods.len(),
            bites.len() == i,
            position.in_bounds(),
            forall|k: int| 0 <= k < foods.len() ==> (#[trigger] foods[k]).position.in_bounds(),
            forall|k: int|
                0 <= k < i ==> #[trigger] bites[k] == foods[k].bitten(
                    interacts,
                    position,
                    facing_right,
                ),
            interacts && gun_in_reach(position, foods@, i as int) ==> *level == old(level).after(
                LevelEvent::GunPickedUp,
            ) && *gun == (Gun {
                enabled: true,
                shooting_cooldown: old(gun).shooting_cooldown.rewound(),
                ..*old(gun)
            }),
            !(interacts && gun_in_reach(position, foods@, i as int)) ==> *level == *old(level)
                && *gun == *old(gun),
        decreases n - i,
    {
        let food: FoodEntity = foods[i];
        let mut bite = Bite { eaten: false, bullet: None };
        if interacts && position.is_closer_than(food.position, PICKUP_RADIUS) {
            bite.eaten = true;
            if food.food.gives_gun {
                level.record(LevelEvent::GunPickedUp);
                gun.enabled = true;
                gun.shooting_cooldown.reset();
                bite.bullet = Some(spawn_bullet(position, facing_right));
            }
        }
        proof {
            let reached = food.food.gives_gun && food.in_reach(position);
            assert(gun_in_reach(position, foods@, i + 1) == (gun_in_reach(
                position,
                foods@,
                i as int,
            ) || reached)) by {
                if reached {
                    assert(foods@[i as int].food.gives_gun && foods@[i as int].in_reach(position));
                }
            }
        }
        bites.push(bite);
        i = i + 1;
    }
    bites
}

} // verus!
