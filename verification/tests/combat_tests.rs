use sidescroller_core::aabb::AABB;
use sidescroller_core::boss::{boss, move_boss, BossEntity};
use sidescroller_core::enemy::{
    explode, explode_all, lob, mushroom, update_enemies, EnemyEntity, Explosion, ExplosionEntity,
};
use sidescroller_core::food::{eat, Bite, Food, FoodEntity};
use sidescroller_core::geometry::{Placement, Vec2, Vec3};
use sidescroller_core::gun::{
    fixed_update, handle_collisions, shoot, spawn_bullet, update_bullets, Bullet, BulletEntity,
    BulletOutcome, Gun, GunConfig, Shooter,
};
use sidescroller_core::level::{
    curse_level_change, tier, CurseLevel, LevelEvent, Tier, TierChange,
};
use sidescroller_core::player::{player, Player};
use sidescroller_core::timer::{Timer, TimerMode};

const MS: u64 = 1_000_000;

fn bullet_at(x: i64, y: i64) -> BulletEntity {
    let mut b = spawn_bullet(Vec3::new(0, 0, 0), true);
    b.placement.translation = Vec3::new(x, y, 3_000);
    b
}

fn enemy_at(x: i64, y: i64, health: i64) -> EnemyEntity {
    mushroom(health, Vec3::new(x, y, 4_000), 3_000)
}

fn boss_at(x: i64, y: i64) -> BossEntity {
    boss(Vec2::new(x, y))
}

fn slab() -> AABB {
    AABB::new(Vec2::new(0, 0), Vec2::new(100_000, 10_000))
}

fn blast_at(x: i64, y: i64, z: i64) -> ExplosionEntity {
    ExplosionEntity { position: Vec3::new(x, y, z), explosion: Explosion { radius: 60_000 } }
}

fn food_at(x: i64, y: i64, z: i64, gives_gun: bool) -> FoodEntity {
    FoodEntity { position: Vec3::new(x, y, z), food: Food { gives_gun } }
}

fn fresh_level() -> CurseLevel {
    CurseLevel::new()
}

#[test]
fn spawned_bullet_flies_level_from_the_muzzle() {
    let right = spawn_bullet(Vec3::new(100_000, 50_000, 10_000), true);
    assert_eq!(right.placement.translation, Vec3::new(140_000, 72_000, 3_000));
    assert_eq!(right.placement.scale, Vec2::new(300, 300));
    assert_eq!(right.bullet.velocity, Vec2::new(1_000_000, 0));
    assert_eq!(right.bullet.despawn_timer, Timer::new(700 * MS, TimerMode::Once));
    assert!(right.facing_right);
    let left = spawn_bullet(Vec3::new(100_000, 50_000, 10_000), false);
    assert_eq!(left.placement.translation, Vec3::new(60_000, 72_000, 3_000));
    assert_eq!(left.bullet.velocity, Vec2::new(-1_000_000, 0));
    assert!(!left.facing_right);
}

#[test]
fn spawned_bullets_are_all_alike() {
    let first = spawn_bullet(Vec3::new(0, 0, 0), true);
    for _ in 0..50 {
        assert_eq!(spawn_bullet(Vec3::new(0, 0, 0), true), first);
    }
}

#[test]
fn default_bullet_rests_with_its_lifetime_ahead() {
    let b = Bullet::default();
    assert_eq!(b.velocity, Vec2::new(0, 0));
    assert_eq!(b.despawn_timer, Timer::new(700 * MS, TimerMode::Once));
}

#[test]
fn spread_draws_the_lateral_speed_from_a_centred_band() {
    let config = GunConfig {
        forward_speed: 500_000,
        offset: Vec2::new(10_000, 0),
        spread: 1_000,
    };
    let origin = Vec3::new(0, 0, 0);
    assert_eq!(config.fire(origin, true, 0).bullet.velocity, Vec2::new(500_000, -500));
    assert_eq!(config.fire(origin, true, 0x8000_0000).bullet.velocity, Vec2::new(500_000, 0));
    assert_eq!(config.fire(origin, false, u32::MAX).bullet.velocity, Vec2::new(-500_000, 499));
    assert_eq!(config.fire(origin, false, 0).placement.translation, Vec3::new(-10_000, 0, 3_000));
    let level = GunConfig::new_standard();
    assert_eq!(level.fire(origin, true, 12_345), spawn_bullet(origin, true));
}

#[test]
fn bullets_fly_straight() {
    let mut bullets = vec![bullet_at(0, 0), bullet_at(5_000, 5_000)];
    bullets[1].bullet.velocity = Vec2::new(-1_000_000, 64_000);
    update_bullets(&mut bullets, 15_625_000);
    assert_eq!(bullets[0].placement.translation, Vec3::new(15_625, 0, 3_000));
    assert_eq!(bullets[1].placement.translation, Vec3::new(-10_625, 6_000, 3_000));
    assert_eq!(bullets[0].bullet.velocity, Vec2::new(1_000_000, 0));
}

#[test]
fn ready_gun_fires_at_once_and_then_cools_down() {
    let mut gun = player(1).gun;
    gun.enabled = true;
    gun.shooting = true;
    assert!(gun.pull(16 * MS));
    assert!(!gun.can_shoot);
    assert_eq!(gun.shooting_cooldown.elapsed, 0);
    assert!(!gun.pull(400 * MS));
    assert_eq!(gun.shooting_cooldown.elapsed, 400 * MS);
    assert!(gun.pull(400 * MS));
    assert!(!gun.can_shoot);
    assert!(!gun.pull(100 * MS));
}

#[test]
fn released_gun_becomes_ready_when_its_cooldown_finishes() {
    let mut gun = player(1).gun;
    gun.can_shoot = false;
    assert!(!gun.pull(500 * MS));
    assert!(!gun.can_shoot);
    assert!(!gun.pull(300 * MS));
    assert!(gun.can_shoot);
    assert_eq!(gun.shooting_cooldown, Timer::new(800 * MS, TimerMode::Repeating));
    // a ready gun does not tick
    assert!(!gun.pull(300 * MS));
    assert_eq!(gun.shooting_cooldown.elapsed, 0);
}

#[test]
fn shoot_launches_a_bullet_for_each_firing_gun() {
    let mut ready = player(1).gun;
    ready.shooting = true;
    let idle = player(1).gun;
    let mut shooters = vec![
        Shooter { gun: idle, translation: Vec3::new(0, 0, 10_000), facing_right: true },
        Shooter { gun: ready, translation: Vec3::new(7_000, 0, 10_000), facing_right: false },
    ];
    let bullets = shoot(&mut shooters, 16 * MS);
    assert_eq!(bullets[0], None);
    assert_eq!(bullets[1], Some(spawn_bullet(Vec3::new(7_000, 0, 10_000), false)));
    assert!(shooters[0].gun.can_shoot);
    assert!(!shooters[1].gun.can_shoot);
}

#[test]
fn bullet_expires_without_effect() {
    let mut bullets = vec![bullet_at(0, 0)];
    let mut enemies = vec![enemy_at(0, 0, 50)];
    let mut bosses = Vec::new();
    let mut level = fresh_level();
    let first = handle_collisions(
        &mut bullets,
        699 * MS,
        &Vec::new(),
        &mut Vec::new(),
        &mut bosses,
        &mut level,
    );
    assert_eq!(first, vec![BulletOutcome::Flying]);
    assert!(!first[0].is_despawned());
    let second =
        handle_collisions(&mut bullets, MS, &Vec::new(), &mut enemies, &mut bosses, &mut level);
    assert_eq!(second, vec![BulletOutcome::Expired]);
    assert!(second[0].is_despawned());
    assert_eq!(enemies[0].enemy.health, 50);
    assert_eq!(level, fresh_level());
}

#[test]
fn platform_shields_the_enemy_behind_it() {
    let mut bullets = vec![bullet_at(0, 0)];
    let mut enemies = vec![enemy_at(0, 0, 50)];
    let mut bosses = vec![boss_at(0, 0)];
    let mut level = fresh_level();
    let outcomes = handle_collisions(
        &mut bullets,
        16 * MS,
        &vec![slab()],
        &mut enemies,
        &mut bosses,
        &mut level,
    );
    assert_eq!(outcomes, vec![BulletOutcome::HitPlatform]);
    assert_eq!(enemies[0], enemy_at(0, 0, 50));
    assert_eq!(bosses[0], boss_at(0, 0));
    assert_eq!(level, fresh_level());
}

#[test]
fn lethal_hit_kills_the_enemy_and_curses_once() {
    let mut bullets = vec![bullet_at(0, 0)];
    let mut enemies = vec![enemy_at(500_000, 0, 50), enemy_at(0, 0, 50), enemy_at(0, 0, 50)];
    let mut bosses = vec![boss_at(0, 0)];
    let mut level = CurseLevel { value: 4, needs_change: false };
    let outcomes = handle_collisions(
        &mut bullets,
        16 * MS,
        &Vec::new(),
        &mut enemies,
        &mut bosses,
        &mut level,
    );
    assert_eq!(outcomes, vec![BulletOutcome::HitEnemy { index: 1, killed: true }]);
    assert_eq!(enemies[0].enemy.health, 50);
    assert_eq!(enemies[1].enemy.health, 0);
    assert_eq!(enemies[2].enemy.health, 50);
    assert_eq!(bosses[0].boss.health, 1_200);
    assert_eq!(level, CurseLevel { value: 5, needs_change: true });
}

#[test]
fn wounding_hit_spends_the_bullet_and_leaves_the_curse() {
    let mut bullets = vec![bullet_at(0, 0)];
    let mut enemies = vec![enemy_at(0, 0, 250)];
    let mut level = fresh_level();
    let outcomes = handle_collisions(
        &mut bullets,
        16 * MS,
        &Vec::new(),
        &mut enemies,
        &mut Vec::new(),
        &mut level,
    );
    assert_eq!(outcomes, vec![BulletOutcome::HitEnemy { index: 0, killed: false }]);
    assert!(outcomes[0].is_despawned());
    assert_eq!(enemies[0].enemy.health, 200);
    assert_eq!(enemies[0].enemy.max_health, 250);
    assert_eq!(level, fresh_level());
}

#[test]
fn lethal_hit_on_the_boss_curses_a_hundredfold() {
    let mut bullets = vec![bullet_at(0, 0)];
    let mut enemies = vec![enemy_at(900_000, 0, 50)];
    let mut bosses = vec![boss_at(0, 0)];
    bosses[0].boss.health = 30;
    let mut level = CurseLevel { value: 9, needs_change: false };
    let outcomes = handle_collisions(
        &mut bullets,
        16 * MS,
        &Vec::new(),
        &mut enemies,
        &mut bosses,
        &mut level,
    );
    assert_eq!(outcomes, vec![BulletOutcome::HitBoss { index: 0, killed: true }]);
    assert_eq!(bosses[0].boss.health, -20);
    assert_eq!(enemies[0].enemy.health, 50);
    assert_eq!(level, CurseLevel { value: 109, needs_change: true });
}

#[test]
fn wounding_hit_on_the_boss_leaves_the_curse() {
    let mut bullets = vec![bullet_at(0, 0)];
    let mut bosses = vec![boss_at(0, 0)];
    let mut level = CurseLevel { value: 9, needs_change: false };
    let outcomes = handle_collisions(
        &mut bullets,
        16 * MS,
        &Vec::new(),
        &mut Vec::new(),
        &mut bosses,
        &mut level,
    );
    assert_eq!(outcomes, vec![BulletOutcome::HitBoss { index: 0, killed: false }]);
    assert_eq!(bosses[0].boss.health, 1_150);
    assert_eq!(level, CurseLevel { value: 9, needs_change: false });
}

#[test]
fn enemy_comes_before_the_boss() {
    let mut bullets = vec![bullet_at(0, 0)];
    let mut enemies = vec![enemy_at(0, 0, 100)];
    let mut bosses = vec![boss_at(0, 0)];
    let mut level = fresh_level();
    let outcomes = handle_collisions(
        &mut bullets,
        16 * MS,
        &Vec::new(),
        &mut enemies,
        &mut bosses,
        &mut level,
    );
    assert_eq!(outcomes, vec![BulletOutcome::HitEnemy { index: 0, killed: false }]);
    assert_eq!(bosses[0].boss.health, 1_200);
}

#[test]
fn stray_bullet_flies_on_with_an_older_timer() {
    let mut bullets = vec![bullet_at(0, 900_000)];
    let mut enemies = vec![enemy_at(0, 0, 50)];
    let mut level = fresh_level();
    let outcomes = handle_collisions(
        &mut bullets,
        16 * MS,
        &vec![slab()],
        &mut enemies,
        &mut Vec::new(),
        &mut level,
    );
    assert_eq!(outcomes, vec![BulletOutcome::Flying]);
    assert_eq!(bullets[0].bullet.despawn_timer.elapsed, 16 * MS);
    assert_eq!(enemies[0].enemy.health, 50);
}

#[test]
fn two_bullets_of_one_round_can_strike_the_same_dying_enemy() {
    let mut bullets = vec![bullet_at(0, 0), bullet_at(1_000, 0)];
    let mut enemies = vec![enemy_at(0, 0, 50)];
    let mut level = fresh_level();
    let outcomes = handle_collisions(
        &mut bullets,
        16 * MS,
        &Vec::new(),
        &mut enemies,
        &mut Vec::new(),
        &mut level,
    );
    assert_eq!(
        outcomes,
        vec![
            BulletOutcome::HitEnemy { index: 0, killed: true },
            BulletOutcome::HitEnemy { index: 0, killed: true },
        ]
    );
    assert_eq!(enemies[0].enemy.health, -50);
    assert_eq!(level, CurseLevel { value: 2, needs_change: true });
}

#[test]
fn shot_across_forty_units_kills_the_enemy() {
    // The player stands at the origin and faces right; an enemy with 50
    // health stands 40 units ahead, level with the muzzle.
    let origin = Vec3::new(0, 0, 10_000);
    let mut bullets = vec![spawn_bullet(origin, true)];
    let mut enemies = vec![enemy_at(40_000, 22_000, 50)];
    let mut bosses = Vec::new();
    let mut level = fresh_level();
    let dt: u64 = 40 * MS;
    let outcomes =
        fixed_update(&mut bullets, dt, &Vec::new(), &mut enemies, &mut bosses, &mut level);
    assert_eq!(bullets[0].placement.translation, Vec3::new(80_000, 22_000, 3_000));
    assert_eq!(bullets[0].bullet.despawn_timer.elapsed, dt);
    assert_eq!(outcomes, vec![BulletOutcome::HitEnemy { index: 0, killed: true }]);
    assert!(outcomes[0].is_despawned());
    assert!(enemies[0].enemy.health <= 0);
    assert_eq!(level.value, 1);
    assert!(level.needs_change);
}

#[test]
fn new_mushroom_has_full_health_and_walks_fast() {
    let e = mushroom(250, Vec3::new(5_000_000, -200_000, 4_000), 5_000);
    assert_eq!(e.enemy.health, 250);
    assert_eq!(e.enemy.max_health, 250);
    assert!(e.enemy.can_attack);
    assert_eq!(e.enemy.garlic_cooldown, Timer::new(1_200 * MS, TimerMode::Repeating));
    assert_eq!(e.placement.translation, Vec3::new(5_000_000, -200_000, 4_000));
    assert_eq!(e.placement.scale, Vec2::new(5_000, 5_000));
    assert_eq!(e.controller.speed, 300_000);
    assert_eq!(e.controller.gravity, 100_000);
}

#[test]
fn enemy_ignores_a_player_out_of_range() {
    let mut enemies = vec![enemy_at(0, 0, 100)];
    enemies[0].controller.horizontal = 1;
    let before = enemies[0];
    let bombs = update_enemies(&mut enemies, 1_500_001, 16 * MS);
    assert_eq!(bombs, vec![None]);
    assert_eq!(enemies[0], before);
}

#[test]
fn enemy_approaches_a_distant_player() {
    let mut enemies = vec![enemy_at(0, 0, 100), enemy_at(0, 0, 100)];
    update_enemies(&mut enemies, 1_500_000, 16 * MS);
    assert_eq!(enemies[0].controller.horizontal, 1);
    assert!(enemies[0].controller.facing_right);
    update_enemies(&mut enemies, -500_001, 16 * MS);
    assert_eq!(enemies[1].controller.horizontal, -1);
    assert!(!enemies[1].controller.facing_right);
    assert_eq!(enemies[1].enemy.garlic_cooldown.elapsed, 0);
}

#[test]
fn enemy_retreats_from_a_close_player() {
    let mut enemies = vec![enemy_at(0, 0, 100)];
    update_enemies(&mut enemies, 299_999, 16 * MS);
    assert_eq!(enemies[0].controller.horizontal, -1);
    assert!(enemies[0].controller.facing_right);
    update_enemies(&mut enemies, -100_000, 16 * MS);
    assert_eq!(enemies[0].controller.horizontal, 1);
    assert!(!enemies[0].controller.facing_right);
}

#[test]
fn enemy_on_top_of_the_player_stands_still() {
    let mut enemies = vec![enemy_at(70_000, 0, 100)];
    enemies[0].controller.horizontal = 1;
    update_enemies(&mut enemies, 70_000, 16 * MS);
    assert_eq!(enemies[0].controller.horizontal, 0);
    assert!(!enemies[0].controller.facing_right);
}

#[test]
fn enemy_in_the_band_lobs_a_bomb_when_its_cooldown_finishes() {
    let mut enemies = vec![enemy_at(100_000, -200_000, 100)];
    enemies[0].controller.horizontal = 1;
    let bombs = update_enemies(&mut enemies, 500_000, 1_199 * MS);
    assert_eq!(bombs, vec![None]);
    assert_eq!(enemies[0].controller.horizontal, 0);
    let bombs = update_enemies(&mut enemies, 500_000, MS);
    let bomb = bombs[0].unwrap();
    assert!(bomb.garlic);
    assert_eq!(bomb.placement.translation, Vec3::new(100_000, -200_000, 4_000));
    assert_eq!(bomb.placement.scale, Vec2::new(1_500, 1_500));
    // 400 units away: 400 / 500 * 1111 units per second
    assert_eq!(bomb.controller.speed, 888_800);
    assert_eq!(bomb.controller.horizontal, 1);
    assert_eq!(bomb.controller.velocity, Vec2::new(0, 1_500_000));
    assert_eq!(bomb.controller.gravity, 100_000);
    assert!(!bomb.controller.grounded);
    assert!(bomb.controller.facing_right);
    assert_eq!(bomb.controller.jump_force, 666_000);
    let bombs = update_enemies(&mut enemies, 500_000, MS);
    assert_eq!(bombs, vec![None]);
}

#[test]
fn bomb_speed_at_the_edges_of_the_band() {
    let mut enemies = vec![enemy_at(0, 0, 100), enemy_at(0, 0, 100)];
    let far = update_enemies(&mut enemies, -500_000, 1_200 * MS);
    assert_eq!(far[0].unwrap().controller.speed, 1_111_000);
    assert_eq!(far[0].unwrap().controller.horizontal, -1);
    assert!(!far[0].unwrap().controller.facing_right);
    let near = update_enemies(&mut enemies, 300_000, 1_200 * MS);
    assert_eq!(near[1].unwrap().controller.speed, 666_600);
}

#[test]
fn lobbed_bomb_toward_nowhere_has_no_direction() {
    let bomb = lob(Vec3::new(1, 2, 3), 0, 0, -250_000);
    assert_eq!(bomb.controller.horizontal, 0);
    assert!(!bomb.controller.facing_right);
    assert_eq!(bomb.controller.velocity, Vec2::new(0, -250_000));
}

#[test]
fn explosion_hurts_a_player_within_its_radius() {
    let mut p = Player { has_gun: true, health: 100, max_health: 100 };
    let here = Vec3::new(0, 0, 10_000);
    let mut blasts = vec![
        blast_at(30_000, 40_000, 10_000),
        blast_at(60_000, 0, 10_000),
        blast_at(0, -59_000, 4_000),
    ];
    assert!(!explode(&mut p, here, &mut blasts));
    assert!(blasts.is_empty());
    assert_eq!(p.health, 20);
    assert!(p.has_gun);
    assert_eq!(p.max_health, 100);
}

#[test]
fn explosion_that_leaves_no_health_ends_the_session() {
    let mut p = Player { has_gun: false, health: 40, max_health: 100 };
    let here = Vec3::new(0, 0, 0);
    assert!(explode(&mut p, here, &mut vec![blast_at(0, 0, 0)]));
    assert_eq!(p.health, 0);
    let mut q = Player { has_gun: false, health: 0, max_health: 100 };
    let mut far = vec![blast_at(900_000, 0, 0)];
    assert!(!explode(&mut q, here, &mut far));
    assert!(far.is_empty());
    assert_eq!(q.health, 0);
    assert!(!explode(&mut q, here, &mut Vec::new()));
}

#[test]
fn new_boss_has_full_health_and_stays_put() {
    let b = boss(Vec2::new(10_000_000, 0));
    assert_eq!(b.boss.health, 1_200);
    assert_eq!(b.boss.max_health, 1_200);
    assert_eq!(b.boss.speed, 500_000);
    assert_eq!(b.boss.target_x, 10_000_000);
    assert!(!b.boss.attacked);
    assert_eq!(b.boss.move_cooldown, Timer::new(1_000 * MS, TimerMode::Repeating));
    assert_eq!(b.placement.translation, Vec3::new(10_000_000, 0, 3_000));
    assert_eq!(b.placement.scale, Vec2::new(5_000, 5_000));
}

#[test]
fn boss_sleeps_below_its_wake_level() {
    let mut bosses = vec![boss_at(0, 0)];
    let level = CurseLevel { value: 7, needs_change: false };
    let bombs = move_boss(&mut bosses, 900_000, 2_000 * MS, &level);
    assert_eq!(bombs, vec![None]);
    assert_eq!(bosses[0], boss_at(0, 0));
}

#[test]
fn boss_attacks_once_where_it_stands_and_then_waits() {
    let mut bosses = vec![boss_at(0, 0)];
    let level = CurseLevel { value: 8, needs_change: false };
    let bombs = move_boss(&mut bosses, 900_000, 16 * MS, &level);
    let bomb = bombs[0].unwrap();
    assert!(bomb.garlic);
    assert_eq!(bomb.placement.translation, Vec3::new(0, 0, 3_000));
    assert_eq!(bomb.placement.scale, Vec2::new(1_500, 1_500));
    assert_eq!(bomb.controller.speed, 0);
    assert_eq!(bomb.controller.horizontal, 0);
    assert_eq!(bomb.controller.velocity, Vec2::new(0, -250_000));
    assert!(bosses[0].boss.attacked);
    let bombs = move_boss(&mut bosses, 900_000, 16 * MS, &level);
    assert_eq!(bombs, vec![None]);
    assert_eq!(bosses[0].placement.translation.x, 0);
}

#[test]
fn boss_retargets_every_second_and_walks_to_its_target() {
    let mut bosses = vec![boss_at(0, 0)];
    let level = CurseLevel { value: 8, needs_change: false };
    move_boss(&mut bosses, 900_000, 16 * MS, &level);
    assert!(bosses[0].boss.attacked);
    // the clock finishes: new target, and the boss may attack again
    let bombs = move_boss(&mut bosses, 900_000, 984 * MS, &level);
    assert_eq!(bombs, vec![None]);
    assert_eq!(bosses[0].boss.target_x, 900_000);
    assert!(!bosses[0].boss.attacked);
    // 500 units per second for 0.984 s
    assert_eq!(bosses[0].placement.translation.x, 492_000);
    // the player moves on, the boss keeps its target until the next second
    move_boss(&mut bosses, -5_000_000, 800 * MS, &level);
    assert_eq!(bosses[0].boss.target_x, 900_000);
    assert_eq!(bosses[0].placement.translation.x, 892_000);
    let bombs = move_boss(&mut bosses, -5_000_000, 16 * MS, &level);
    let bomb = bombs[0].unwrap();
    assert_eq!(bomb.placement.translation.x, 892_000);
    assert_eq!(bomb.controller.horizontal, 1);
    assert!(bomb.controller.facing_right);
    assert!(bosses[0].boss.attacked);
}

#[test]
fn boss_walks_left_toward_a_target_behind_it() {
    let mut bosses = vec![boss_at(0, 0)];
    bosses[0].boss.target_x = -30_000;
    let level = CurseLevel { value: 200, needs_change: false };
    let bombs = move_boss(&mut bosses, 0, 10 * MS, &level);
    assert_eq!(bombs, vec![None]);
    assert_eq!(bosses[0].placement.translation.x, -5_000);
    assert!(!bosses[0].boss.attacked);
}

#[test]
fn tiers_follow_the_bands_of_the_curse() {
    assert_eq!(tier(0), Tier::Tier0);
    assert_eq!(tier(1), Tier::Tier1);
    assert_eq!(tier(2), Tier::Tier2);
    assert_eq!(tier(6), Tier::Tier2);
    assert_eq!(tier(7), Tier::Tier3);
    assert_eq!(tier(u32::MAX), Tier::Tier3);
}

#[test]
fn events_move_the_curse() {
    let mut level = fresh_level();
    assert_eq!(level, CurseLevel { value: 0, needs_change: false });
    level.record(LevelEvent::EnemyDied);
    assert_eq!(level, CurseLevel { value: 1, needs_change: true });
    level.record(LevelEvent::BossDied);
    assert_eq!(level.value, 101);
    level.record(LevelEvent::GunPickedUp);
    assert_eq!(level, CurseLevel { value: 1, needs_change: true });
}

#[test]
fn curse_only_falls_on_pickup() {
    let mut level = CurseLevel { value: 5, needs_change: false };
    let mut last = level.value;
    for event in [LevelEvent::EnemyDied, LevelEvent::BossDied, LevelEvent::EnemyDied] {
        level.record(event);
        assert!(level.value >= last);
        last = level.value;
        level.reconcile();
        assert_eq!(level.value, last);
    }
    assert_eq!(level.value, 107);
    level.record(LevelEvent::GunPickedUp);
    assert_eq!(level.value, 1);
}

#[test]
fn events_that_would_overflow_are_told_apart() {
    let high = CurseLevel { value: u32::MAX - 50, needs_change: false };
    assert!(high.can_record(LevelEvent::EnemyDied));
    assert!(!high.can_record(LevelEvent::BossDied));
    assert!(high.can_record(LevelEvent::GunPickedUp));
    let top = CurseLevel { value: u32::MAX, needs_change: false };
    assert!(!top.can_record(LevelEvent::EnemyDied));
}

#[test]
fn reconciliation_reports_once_per_change() {
    let mut level = CurseLevel { value: 1, needs_change: true };
    assert_eq!(
        level.reconcile(),
        Some(TierChange { tier: Tier::Tier1, fast_fire: false, terminal: false })
    );
    assert_eq!(level, CurseLevel { value: 1, needs_change: false });
    assert_eq!(level.reconcile(), None);
    assert_eq!(level, CurseLevel { value: 1, needs_change: false });
}

#[test]
fn reconciliation_reports_the_end_above_a_hundred() {
    let mut level = CurseLevel { value: 100, needs_change: true };
    assert_eq!(
        level.reconcile(),
        Some(TierChange { tier: Tier::Tier3, fast_fire: true, terminal: false })
    );
    level.record(LevelEvent::EnemyDied);
    assert_eq!(
        level.reconcile(),
        Some(TierChange { tier: Tier::Tier3, fast_fire: true, terminal: true })
    );
    assert_eq!(level.reconcile(), None);
}

#[test]
fn guns_fire_fast_from_the_second_level_on() {
    let slow = player(1).gun;
    let mut guns = vec![slow, slow];
    guns[1].enabled = true;
    let mut level = CurseLevel { value: 1, needs_change: true };
    curse_level_change(&mut level, &mut guns);
    assert_eq!(guns[0], slow);
    level.record(LevelEvent::EnemyDied);
    let change = curse_level_change(&mut level, &mut guns);
    assert_eq!(change, Some(TierChange { tier: Tier::Tier2, fast_fire: true, terminal: false }));
    assert_eq!(guns[0].shooting_cooldown, Timer::new(100 * MS, TimerMode::Repeating));
    assert_eq!(guns[1].shooting_cooldown, Timer::new(100 * MS, TimerMode::Repeating));
    assert!(guns[1].enabled);
    assert!(!guns[0].enabled);
    // a second run without a change touches nothing
    guns[0].shooting_cooldown.tick(30 * MS);
    let ticked = guns[0];
    assert_eq!(curse_level_change(&mut level, &mut guns), None);
    assert_eq!(guns[0], ticked);
}

#[test]
fn fast_gun_fires_while_the_button_is_held() {
    let mut gun = Gun {
        shooting_cooldown: Timer::new(100 * MS, TimerMode::Repeating),
        can_shoot: true,
        shooting: false,
        enabled: true,
    };
    gun.record_input(true, false);
    assert!(gun.shooting);
    gun.shooting_cooldown = Timer::new(300 * MS, TimerMode::Repeating);
    gun.record_input(false, true);
    assert!(!gun.shooting);
    gun.shooting_cooldown = Timer::new(300 * MS + 1, TimerMode::Repeating);
    gun.record_input(false, true);
    assert!(gun.shooting);
}

#[test]
fn eating_the_gun_arms_the_player_and_resets_the_curse() {
    let mut gun = player(1).gun;
    gun.shooting_cooldown.tick(500 * MS);
    let mut level = CurseLevel { value: 0, needs_change: false };
    let here = Vec3::new(3_500_000, -300_000, 10_000);
    let foods = vec![
        food_at(3_400_000, -300_000, 3_000, false),
        food_at(3_510_000, -300_000, 3_000, true),
        food_at(3_490_000, -300_000, 3_000, false),
    ];
    let bites = eat(true, here, false, &mut gun, &foods, &mut level);
    assert_eq!(bites[0], Bite { eaten: false, bullet: None });
    assert_eq!(bites[1], Bite { eaten: true, bullet: Some(spawn_bullet(here, false)) });
    assert_eq!(bites[2], Bite { eaten: true, bullet: None });
    assert_eq!(level, CurseLevel { value: 1, needs_change: true });
    assert!(gun.enabled);
    assert_eq!(gun.shooting_cooldown, Timer::new(800 * MS, TimerMode::Repeating));
}

#[test]
fn eating_the_gun_lowers_a_high_curse_to_one() {
    let mut gun = player(1).gun;
    let mut level = CurseLevel { value: 42, needs_change: false };
    let here = Vec3::new(0, 0, 0);
    let foods = vec![FoodEntity { position: here, food: Food { gives_gun: true } }];
    eat(true, here, true, &mut gun, &foods, &mut level);
    assert_eq!(level, CurseLevel { value: 1, needs_change: true });
}

#[test]
fn nothing_is_eaten_without_the_button_or_out_of_reach() {
    let mut gun = player(1).gun;
    let before = gun;
    let mut level = CurseLevel { value: 3, needs_change: false };
    let here = Vec3::new(0, 0, 10_000);
    let foods = vec![
        FoodEntity { position: Vec3::new(0, 0, 3_000), food: Food { gives_gun: true } },
        FoodEntity { position: Vec3::new(64_000, 0, 10_000), food: Food { gives_gun: true } },
    ];
    let bites = eat(false, here, true, &mut gun, &foods, &mut level);
    assert_eq!(bites, vec![Bite { eaten: false, bullet: None }; 2]);
    assert_eq!(gun, before);
    assert_eq!(level, CurseLevel { value: 3, needs_change: false });
    let bites = eat(true, here, true, &mut gun, &foods[1..].to_vec(), &mut level);
    assert_eq!(bites, vec![Bite { eaten: false, bullet: None }]);
    assert_eq!(level, CurseLevel { value: 3, needs_change: false });
    // plain food leaves the curse and the gun alone
    let hay = vec![FoodEntity { position: here, food: Food { gives_gun: false } }];
    let bites = eat(true, here, true, &mut gun, &hay, &mut level);
    assert_eq!(bites, vec![Bite { eaten: true, bullet: None }]);
    assert_eq!(gun, before);
    assert_eq!(level, CurseLevel { value: 3, needs_change: false });
}

#[test]
fn placement_of_a_bullet_is_what_it_was_given() {
    let p = Placement::new(Vec3::new(1, 2, 3), Vec2::new(300, 300));
    let b = BulletEntity { placement: p, bullet: Bullet::default(), facing_right: true };
    assert_eq!(b.placement.translation, Vec3::new(1, 2, 3));
}

#[test]
fn bullet_hits_where_it_arrives_not_where_it_was() {
    // The enemy stands 200 units ahead of the muzzle; the bullet needs more
    // than one tick to reach it.
    let mut bullets = vec![spawn_bullet(Vec3::new(0, 0, 10_000), true)];
    let mut enemies = vec![enemy_at(240_000, 22_000, 100)];
    let mut bosses = Vec::new();
    let mut level = fresh_level();
    let first =
        fixed_update(&mut bullets, 100 * MS, &Vec::new(), &mut enemies, &mut bosses, &mut level);
    assert_eq!(first, vec![BulletOutcome::Flying]);
    assert_eq!(bullets[0].placement.translation.x, 140_000);
    let second =
        fixed_update(&mut bullets, 100 * MS, &Vec::new(), &mut enemies, &mut bosses, &mut level);
    assert_eq!(second, vec![BulletOutcome::HitEnemy { index: 0, killed: false }]);
    assert_eq!(bullets[0].placement.translation.x, 240_000);
    assert_eq!(enemies[0].enemy.health, 50);
}

#[test]
fn bullet_that_flies_into_terrain_is_stopped_there() {
    let mut bullets = vec![bullet_at(-150_000, 0)];
    let mut enemies = vec![enemy_at(-100_000, 0, 50)];
    let mut bosses = Vec::new();
    let mut level = fresh_level();
    // before the tick the bullet is clear of the slab; after 50 units it is in it
    let outcomes =
        fixed_update(&mut bullets, 50 * MS, &vec![slab()], &mut enemies, &mut bosses, &mut level);
    assert_eq!(outcomes, vec![BulletOutcome::HitPlatform]);
    assert_eq!(enemies[0].enemy.health, 50);
    assert_eq!(level, fresh_level());
}

#[test]
fn blast_is_measured_in_the_plane() {
    // 59.9 units away in the plane, six layers apart in drawing depth
    let mut p = Player { has_gun: false, health: 100, max_health: 100 };
    let here = Vec3::new(0, 0, 10_000);
    assert!(!explode(&mut p, here, &mut vec![blast_at(59_900, 0, 4_000)]));
    assert_eq!(p.health, 60);
    // the drawing depth makes no difference, however far apart
    assert!(!explode(&mut p, here, &mut vec![blast_at(0, 59_999, -900_000_000)]));
    assert_eq!(p.health, 20);
    // on the radius itself there is no damage
    assert!(!explode(&mut p, here, &mut vec![blast_at(60_000, 0, 10_000)]));
    assert_eq!(p.health, 20);
    assert!(!explode(&mut p, here, &mut vec![blast_at(36_000, 48_000, 10_000)]));
    assert_eq!(p.health, 20);
    assert!(explode(&mut p, here, &mut vec![blast_at(35_999, 48_000, 0)]));
    assert_eq!(p.health, -20);
}

#[test]
fn take_blasts_leaves_the_explosions() {
    let mut p = Player { has_gun: true, health: 100, max_health: 100 };
    let blasts = vec![blast_at(0, 0, 0), blast_at(500_000, 0, 0), blast_at(10_000, 0, 0)];
    assert!(!p.take_blasts(Vec3::new(0, 0, 10_000), &blasts));
    assert_eq!(p, Player { has_gun: true, health: 20, max_health: 100 });
    assert_eq!(blasts.len(), 3);
    assert!(p.take_blasts(Vec3::new(0, 0, 10_000), &blasts));
    assert_eq!(p.health, -60);
}

#[test]
fn explosions_are_spent_even_without_a_player() {
    let mut blasts = vec![blast_at(0, 0, 0), blast_at(1, 2, 3)];
    assert!(!explode_all(&mut Vec::new(), &mut blasts));
    assert!(blasts.is_empty());
    assert!(!explode_all(&mut Vec::new(), &mut blasts));
}

#[test]
fn explosions_act_on_every_player() {
    let mut near = player(400_000);
    near.placement.translation = Vec3::new(0, 0, 10_000);
    near.player.health = 40;
    let mut far = player(400_000);
    far.placement.translation = Vec3::new(900_000, 0, 10_000);
    let mut between = player(400_000);
    between.placement.translation = Vec3::new(50_000, 0, 10_000);
    let mut players = vec![far, near, between];
    let mut blasts = vec![blast_at(0, 0, 4_000), blast_at(100_000, 0, 4_000)];
    assert!(explode_all(&mut players, &mut blasts));
    assert!(blasts.is_empty());
    assert_eq!(players[0], far);
    assert_eq!(players[1].player.health, 0);
    assert_eq!(players[2].player.health, 20);
    assert_eq!(players[1].placement, near.placement);
    assert_eq!(players[1].gun, near.gun);
    // nobody is depleted the second time: nothing is left to explode
    assert!(!explode_all(&mut players, &mut blasts));
    assert_eq!(players[2].player.health, 20);
}

#[test]
fn explosions_that_reach_nobody_end_nothing() {
    let mut dead = player(400_000);
    dead.player.health = 0;
    let mut players = vec![dead];
    let mut blasts = vec![blast_at(900_000, 900_000, 0)];
    assert!(!explode_all(&mut players, &mut blasts));
    assert!(blasts.is_empty());
    assert_eq!(players[0], dead);
}

#[test]
fn curse_has_room_for_a_kill_just_short_of_its_end() {
    let mut bullets = vec![bullet_at(0, 0)];
    let mut enemies = vec![enemy_at(0, 0, 50)];
    let mut level = CurseLevel { value: u32::MAX - 1, needs_change: false };
    let outcomes = handle_collisions(
        &mut bullets,
        16 * MS,
        &Vec::new(),
        &mut enemies,
        &mut Vec::new(),
        &mut level,
    );
    assert_eq!(outcomes, vec![BulletOutcome::HitEnemy { index: 0, killed: true }]);
    assert_eq!(level, CurseLevel { value: u32::MAX, needs_change: true });
}

#[test]
fn would_hit_tells_the_outcome_and_changes_nothing() {
    let bullet = bullet_at(0, 0);
    let enemies = vec![enemy_at(0, 0, 50)];
    let bosses = vec![boss_at(0, 0)];
    let outcome = bullet.would_hit(16 * MS, &Vec::new(), &enemies, &bosses);
    assert_eq!(outcome, BulletOutcome::HitEnemy { index: 0, killed: true });
    assert_eq!(outcome.curse_gained(), 1);
    assert_eq!(bullet, bullet_at(0, 0));
    assert_eq!(enemies[0].enemy.health, 50);
    let outcome = bullet.would_hit(16 * MS, &vec![slab()], &enemies, &bosses);
    assert_eq!(outcome, BulletOutcome::HitPlatform);
    assert_eq!(outcome.curse_gained(), 0);
    let outcome = bullet.would_hit(700 * MS, &Vec::new(), &enemies, &bosses);
    assert_eq!(outcome, BulletOutcome::Expired);
    let outcome = bullet.would_hit(16 * MS, &Vec::new(), &Vec::new(), &bosses);
    assert_eq!(outcome, BulletOutcome::HitBoss { index: 0, killed: false });
    assert_eq!(outcome.curse_gained(), 0);
    let mut weak = boss_at(0, 0);
    weak.boss.health = 50;
    let outcome = bullet.would_hit(16 * MS, &Vec::new(), &Vec::new(), &vec![weak]);
    assert_eq!(outcome, BulletOutcome::HitBoss { index: 0, killed: true });
    assert_eq!(outcome.curse_gained(), 100);
    let wounded = BulletOutcome::HitEnemy { index: 3, killed: false };
    assert_eq!(wounded.curse_gained(), 0);
}

#[test]
fn strike_resolves_one_bullet() {
    let mut bullet = bullet_at(0, 0);
    let mut enemies = vec![enemy_at(0, 0, 50)];
    let mut bosses = vec![boss_at(0, 0)];
    let mut level = CurseLevel { value: u32::MAX - 1, needs_change: false };
    let outcome = bullet.strike(16 * MS, &Vec::new(), &mut enemies, &mut bosses, &mut level);
    assert_eq!(outcome, BulletOutcome::HitEnemy { index: 0, killed: true });
    assert_eq!(bullet.bullet.despawn_timer.elapsed, 16 * MS);
    assert_eq!(enemies[0].enemy.health, 0);
    assert_eq!(bosses[0].boss.health, 1_200);
    assert_eq!(level, CurseLevel { value: u32::MAX, needs_change: true });
}
