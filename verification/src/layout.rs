//! The layout of the main level: what stands where when a session begins.

use vstd::prelude::*;
use crate::aabb::AABB;
use crate::boss::{boss, new_boss, BossEntity};
use crate::enemy::{mushroom, new_mushroom, EnemyEntity};
use crate::food::{Food, FoodEntity};
use crate::geometry::{Placement, Vec2, Vec3};
use crate::gun::{random_sample, SAMPLE_RANGE};
use crate::platform::{laid_out, platform, Platform, PlatformEntity};
use crate::player::{new_player, player, PlayerEntity};

verus! {

/// Speed of the player, in sub-units per second.
pub const PLAYER_SPEED: i64 = 400_000;

/// Number of pieces of hay.
pub const HAY_COUNT: usize = 10;

/// Number of mushrooms in the pack.
pub const PACK_SIZE: usize = 15;

/// Number of random samples that a layout takes: one for each piece of hay
/// and two for each mushroom of the pack.
pub const LAYOUT_SAMPLES: usize = 40;

/// Where the first piece of hay lies at the earliest.
pub const HAY_START: i64 = 800_000;

/// Distance from one piece of hay to the next.
pub const HAY_STRIDE: i64 = 200_000;

/// Width of the band within which a piece of hay is shifted at random.
pub const HAY_JITTER: i64 = 180_000;

/// Height at which food lies.
pub const FOOD_HEIGHT: i64 = -300_000;

/// Drawing depth of food.
pub const FOOD_DEPTH: i64 = 3_000;

/// Scale of food, in thousandths.
pub const FOOD_SCALE: i64 = 1_500;

/// Where the gun lies.
pub const GUN_X: i64 = 3_500_000;

/// Where the guard stands, the large mushroom before the pack.
pub const GUARD_X: i64 = 5_000_000;

/// Health of the guard.
pub const GUARD_HEALTH: i64 = 250;

/// Scale of the guard, in thousandths.
pub const GUARD_SCALE: i64 = 5_000;

/// Where the first mushroom of the pack stands at the earliest.
pub const PACK_START: i64 = 5_500_000;

/// Distance from one mushroom of the pack to the next, and width of the band
/// within which each is shifted at random.
pub const PACK_STRIDE: i64 = 100_000;

/// Health of a mushroom of the pack.
pub const PACK_HEALTH: i64 = 100;

/// Smallest scale of a mushroom of the pack, in thousandths; each is larger
/// by a random amount of less than one.
pub const PACK_SCALE: i64 = 3_000;

/// Height at which enemies stand.
pub const ENEMY_HEIGHT: i64 = -200_000;

/// Drawing depth of enemies.
pub const ENEMY_DEPTH: i64 = 4_000;

/// Where the boss stands.
pub const BOSS_X: i64 = 10_000_000;

/// Height at which the signs near the start hang.
pub const SIGN_HEIGHT: i64 = -100_000;

/// Drawing depth of signs.
pub const SIGN_DEPTH: i64 = 10_000;

/// Where the sign past the boss hangs.
pub const QUIT_SIGN_X: i64 = 12_500_000;

/// Where the sign at the far end hangs.
pub const HIDDEN_SIGN_X: i64 = 17_500_000;

/// Centre of the collision box of the barn.
pub const BARN_BOX_X: i64 = -384_000;

pub const BARN_BOX_Y: i64 = -128_000;

/// Half-size of the collision box of the barn.
pub const BARN_HALF_WIDTH: i64 = 64_000;

pub const BARN_HALF_HEIGHT: i64 = 256_000;

/// Where the barn is drawn.
pub const BARN_X: i64 = -729_600;

pub const BARN_Y: i64 = 320_000;

/// Scale of the barn, in thousandths.
pub const BARN_SCALE: i64 = 10_000;

/// Where the ground is laid out, in thousandths of a grid cell.
pub const GROUND_X: i64 = 120_000;

pub const GROUND_Y: i64 = -5_500;

/// Half-extent of the ground, in thousandths of a grid cell.
pub const GROUND_WIDTH: i64 = 300_000;

pub const GROUND_HEIGHT: i64 = 1_000;

/// What a sign tells the player.
#[derive(Clone, Copy, PartialEq, Eq, Debug, Structural)]
pub enum SignKind {
    /// How to honk.
    Honk,
    /// How to eat.
    Eat,
    /// That it is time to quit.
    Quit,
    /// That nobody was meant to come this far.
    Hidden,
}

/// A sign and the place where it hangs.
#[derive(Clone, Copy, PartialEq, Eq, Debug, Structural)]
pub struct Sign {
    pub kind: SignKind,
    pub position: Vec3,
}

/// The barn: a building that is drawn in one place and blocks in another.
#[derive(Clone, Copy, PartialEq, Eq, Debug, Structural)]
pub struct Barn {
    pub platform: Platform,
    pub aabb: AABB,
    pub placement: Placement,
}

/// Everything that a new session starts with.
pub struct LevelLayout {
    pub player: PlayerEntity,
    pub barn: Barn,
    pub ground: PlatformEntity,
    /// The food that is the gun.
    pub gun: FoodEntity,
    pub guard: EnemyEntity,
    pub boss: BossEntity,
    pub hay: Vec<FoodEntity>,
    pub pack: Vec<EnemyEntity>,
    /// The four signs: honk, quit, hidden, eat.
    pub signs: Vec<Sign>,
}

/// Shift within a band of `width` for a sample out of `SAMPLE_RANGE` equally
/// likely values: the sample's share of the width, rounded down.
pub open spec fn jitter(width: int, sample: u32) -> int {
    width * sample / (SAMPLE_RANGE as int)
}

/// The barn.
pub open spec fn the_barn() -> Barn {
    Barn {
        platform: Platform,
        aabb: AABB {
            center: Vec2 { x: BARN_BOX_X, y: BARN_BOX_Y },
            half_size: Vec2 { x: BARN_HALF_WIDTH, y: BARN_HALF_HEIGHT },
        },
        placement: Placement {
            translation: Vec3 { x: BARN_X, y: BARN_Y, z: 1_000 },
            scale: Vec2 { x: BARN_SCALE, y: BARN_SCALE },
        },
    }
}

/// The food that is the gun.
pub open spec fn the_gun() -> FoodEntity {
    FoodEntity {
        position: Vec3 { x: GUN_X, y: FOOD_HEIGHT, z: FOOD_DEPTH },
        food: Food { gives_gun: true },
    }
}

/// The guard.
pub open spec fn the_guard() -> EnemyEntity {
    new_mushroom(GUARD_HEALTH, Vec3 { x: GUARD_X, y: ENEMY_HEIGHT, z: ENEMY_DEPTH }, GUARD_SCALE)
}

/// The piece of hay number `index`, shifted by `sample`.
pub open spec fn hay_at(index: int, sample: u32) -> FoodEntity {
    FoodEntity {
        position: Vec3 {
            x: (HAY_START + HAY_STRIDE * index + jitter(HAY_JITTER as int, sample)) as i64,
            y: FOOD_HEIGHT,
            z: FOOD_DEPTH,
        },
        food: Food { gives_gun: false },
    }
}

/// The mushroom number `index` of the pack, shifted by `shift` and sized by
/// `size`.
pub open spec fn pack_member(index: int, shift: u32, size: u32) -> EnemyEntity {
    new_mushroom(
        PACK_HEALTH,
        Vec3 {
            x: (PACK_START + PACK_STRIDE * index + jitter(PACK_STRIDE as int, shift)) as i64,
            y: ENEMY_HEIGHT,
            z: ENEMY_DEPTH,
        },
        (PACK_SCALE + jitter(1000, size)) as i64,
    )
}

/// The signs, the last of which hangs over the first piece of hay.
pub open spec fn the_signs(first_hay: FoodEntity) -> Seq<Sign> {
    seq![
        Sign { kind: SignKind::Honk, position: Vec3 { x: 0, y: SIGN_HEIGHT, z: SIGN_DEPTH } },
        Sign { kind: SignKind::Quit, position: Vec3 { x: QUIT_SIGN_X, y: 0, z: SIGN_DEPTH } },
        Sign { kind: SignKind::Hidden, position: Vec3 { x: HIDDEN_SIGN_X, y: 0, z: SIGN_DEPTH } },
        Sign {
            kind: SignKind::Eat,
            position: Vec3 { x: first_hay.position.x, y: SIGN_HEIGHT, z: SIGN_DEPTH },
        },
    ]
}

impl LevelLayout {
    /// The layout is the one that `samples` give: everything stands in its
    /// fixed place, but for the hay, which takes the first `HAY_COUNT`
    /// samples, and the pack, each mushroom of which takes two of the rest.
    pub open spec fn drawn_from(&self, samples: Seq<u32>) -> bool {
        &&& samples.len() == LAYOUT_SAMPLES
        &&& self.player == new_player(PLAYER_SPEED)
        &&& self.barn == the_barn()
        &&& self.ground == laid_out(
            Vec2 { x: GROUND_X, y: GROUND_Y },
            Vec2 { x: GROUND_WIDTH, y: GROUND_HEIGHT },
        )
        &&& self.gun == the_gun()
        &&& self.guard == the_guard()
        &&& self.boss == new_boss(Vec2 { x: BOSS_X, y: 0 })
        &&& self.hay@.len() == HAY_COUNT
        &&& forall|i: int| 0 <= i < HAY_COUNT ==> #[trigger] self.hay@[i] == hay_at(i, samples[i])
        &&& self.pack@.len() == PACK_SIZE
        &&& forall|i: int|
            0 <= i < PACK_SIZE ==> #[trigger] self.pack@[i] == pack_member(
                i,
                samples[HAY_COUNT + 2 * i],
                samples[HAY_COUNT + 2 * i + 1],
            )
        &&& self.signs@ == the_signs(self.hay@[0])
    }

    /// Every piece of hay lies within its band, every mushroom of the pack
    /// stands within its band, and each is at least `PACK_SCALE` and less
    /// than one more in scale.
    pub open spec fn in_bands(&self) -> bool {
        &&& self.hay@.len() == HAY_COUNT
        &&& forall|i: int|
            0 <= i < HAY_COUNT ==> HAY_START + HAY_STRIDE * i <= (#[trigger] self.hay@[i]).position.x
                < HAY_START + HAY_STRIDE * i + HAY_JITTER
        &&& self.pack@.len() == PACK_SIZE
        &&& forall|i: int|
            0 <= i < PACK_SIZE ==> PACK_START + PACK_STRIDE * i <= (
            #[trigger] self.pack@[i]).placement.translation.x < PACK_START + PACK_STRIDE * (i + 1)
                && PACK_SCALE <= self.pack@[i].placement.scale.x < PACK_SCALE + 1000
    }
}

/// Computes `jitter` for a width of at most a million.
pub fn shift_within(width: i64, sample: u32) -> (shift: i64)
    requires
        0 < width <= 1_000_000,
    ensures
        shift == jitter(width as int, sample),
        0 <= shift < width,
{
    let s: i64 = sample as i64;
    assert(0 <= width * s < width * 0x1_0000_0000 <= 0x1_0000_0000 * 1_000_000)
        by (nonlinear_arith)
        requires
            0 < width <= 1_000_000,
            0 <= s < 0x1_0000_0000,
    ;
    let shift: i64 = width * s / SAMPLE_RANGE;
    assert(shift < width) by (nonlinear_arith)
        requires
            shift == (width * s) / 0x1_0000_0000,
            0 <= width * s < width * 0x1_0000_0000,
    ;
    shift
}

/// Builds the barn.
pub fn barn() -> (b: Barn)
    ensures
        b == the_barn(),
        b.aabb.in_bounds(),
{
    Barn {
        platform: Platform,
        aabb: AABB::new(
            Vec2::new(BARN_BOX_X, BARN_BOX_Y),
            Vec2::new(BARN_HALF_WIDTH, BARN_HALF_HEIGHT),
        ),
        placement: Placement::new(
            Vec3::new(BARN_X, BARN_Y, 1_000),
            Vec2::new(BARN_SCALE, BARN_SCALE),
        ),
    }
}

/// Lays the level out from `LAYOUT_SAMPLES` samples.
pub fn lay_out(samples: &Vec<u32>) -> (layout: LevelLayout)
    requires
        samples.len() == LAYOUT_SAMPLES,
    ensures
        layout.drawn_from(samples@),
        layout.in_bands(),
{
    let mut hay: Vec<FoodEntity> = Vec::new();
    let mut i: usize = 0;
    while i < HAY_COUNT
        invariant
            i <= HAY_COUNT,
            samples.len() == LAYOUT_SAMPLES,
            hay.len() == i,
            forall|k: int| 0 <= k < i ==> #[trigger] hay@[k] == hay_at(k, samples[k]),
            forall|k: int|
                0 <= k < i ==> HAY_START + HAY_STRIDE * k <= (#[trigger] hay@[k]).position.x
                    < HAY_START + HAY_STRIDE * k + HAY_JITTER,
        decreases HAY_COUNT - i,
    {
        let shift: i64 = shift_within(HAY_JITTER, samples[i]);
        let x: i64 = HAY_START + HAY_STRIDE * (i as i64) + shift;
        hay.push(
            FoodEntity {
                position: Vec3::new(x, FOOD_HEIGHT, FOOD_DEPTH),
                food: Food { gives_gun: false },
            },
        );
        i = i + 1;
    }
    let mut pack: Vec<EnemyEntity> = Vec::new();
    let mut j: usize = 0;
    while j < PACK_SIZE
        invariant
            j <= PACK_SIZE,
            samples.len() == LAYOUT_SAMPLES,
            pack.len() == j,
            forall|k: int|
                0 <= k < j ==> #[trigger] pack@[k] == pack_member(
                    k,
                    samples[HAY_COUNT + 2 * k],
                    samples[HAY_COUNT + 2 * k + 1],
                ),
            forall|k: int|
                0 <= k < j ==> PACK_START + PACK_STRIDE * k <= (
                #[trigger] pack@[k]).placement.translation.x < PACK_START + PACK_STRIDE * (k + 1)
                    && PACK_SCALE <= pack@[k].placement.scale.x < PACK_SCALE + 1000,
        decreases PACK_SIZE - j,
    {
        let shift: i64 = shift_within(PACK_STRIDE, samples[HAY_COUNT + 2 * j]);
        let size: i64 = shift_within(1000, samples[HAY_COUNT + 2 * j + 1]);
        let x: i64 = PACK_START + PACK_STRIDE * (j as i64) + shift;
        pack.push(mushroom(PACK_HEALTH, Vec3::new(x, ENEMY_HEIGHT, ENEMY_DEPTH), PACK_SCALE + size));
        j = j + 1;
    }
    let first_hay: FoodEntity = hay[0];
    let mut signs: Vec<Sign> = Vec::new();
    signs.push(Sign { kind: SignKind::Honk, position: Vec3::new(0, SIGN_HEIGHT, SIGN_DEPTH) });
    signs.push(Sign { kind: SignKind::Quit, position: Vec3::new(QUIT_SIGN_X, 0, SIGN_DEPTH) });
    signs.push(Sign { kind: SignKind::Hidden, position: Vec3::new(HIDDEN_SIGN_X, 0, SIGN_DEPTH) });
    signs.push(
        Sign {
            kind: SignKind::Eat,
            position: Vec3::new(first_hay.position.x, SIGN_HEIGHT, SIGN_DEPTH),
        },
    );
    assert(signs@ =~= the_signs(hay@[0]));
    LevelLayout {
        player: player(PLAYER_SPEED),
        barn: barn(),
        ground: platform(Vec2::new(GROUND_X, GROUND_Y), Vec2::new(GROUND_WIDTH, GROUND_HEIGHT)),
        gun: FoodEntity {
            position: Vec3::new(GUN_X, FOOD_HEIGHT, FOOD_DEPTH),
            food: Food { gives_gun: true },
        },
        guard: mushroom(GUARD_HEALTH, Vec3::new(GUARD_X, ENEMY_HEIGHT, ENEMY_DEPTH), GUARD_SCALE),
        boss: boss(Vec2::new(BOSS_X, 0)),
        hay,
        pack,
        signs,
    }
}

/// Lays the main level out, with the hay and the pack scattered at random.
/// Whatever is drawn, the layout is that of some forty samples, and every
/// scattered body lies within its band.
pub fn spawn_level() -> (layout: LevelLayout)
    ensures
        exists|samples: Seq<u32>| layout.drawn_from(samples),
        layout.in_bands(),
{
    let mut samples: Vec<u32> = Vec::new();
    let mut i: usize = 0;
    while i < LAYOUT_SAMPLES
        invariant
            i <= LAYOUT_SAMPLES,
            samples.len() == i,
        decreases LAYOUT_SAMPLES - i,
    {
        samples.push(random_sample());
        i = i + 1;
    }
    let layout = lay_out(&samples);
    assert(layout.drawn_from(samples@));
    layout
}

} // verus!
