use sidescroller_core::boss::boss;
use sidescroller_core::despawn::{
    despawn_marked, detonated, eaten, killed_bosses, killed_enemies, spent_bullets,
};
use sidescroller_core::enemy::{mushroom, Explosion, ExplosionEntity};
use sidescroller_core::food::Bite;
use sidescroller_core::geometry::{Vec2, Vec3};
use sidescroller_core::gun::{fixed_update, spawn_bullet, BulletOutcome};
use sidescroller_core::level::CurseLevel;

#[test]
fn marked_entities_leave_and_the_others_keep_their_order() {
    let mut entities = vec![10, 20, 30, 40, 50];
    despawn_marked(&mut entities, &vec![false, true, false, true, false]);
    assert_eq!(entities, vec![10, 30, 50]);
    despawn_marked(&mut entities, &vec![false, false, false]);
    assert_eq!(entities, vec![10, 30, 50]);
    despawn_marked(&mut entities, &vec![true, true, true]);
    assert!(entities.is_empty());
    despawn_marked(&mut entities, &Vec::new());
    assert!(entities.is_empty());
}

#[test]
fn every_bullet_but_a_flying_one_is_spent() {
    let outcomes = vec![
        BulletOutcome::Flying,
        BulletOutcome::Expired,
        BulletOutcome::HitPlatform,
        BulletOutcome::HitEnemy { index: 0, killed: false },
        BulletOutcome::HitBoss { index: 0, killed: true },
    ];
    assert_eq!(spent_bullets(&outcomes), vec![false, true, true, true, true]);
}

#[test]
fn only_lethal_hits_mark_their_target() {
    let outcomes = vec![
        BulletOutcome::HitEnemy { index: 2, killed: false },
        BulletOutcome::HitEnemy { index: 1, killed: true },
        BulletOutcome::HitBoss { index: 0, killed: true },
        BulletOutcome::HitEnemy { index: 1, killed: true },
        BulletOutcome::HitBoss { index: 1, killed: false },
        BulletOutcome::Flying,
    ];
    assert_eq!(killed_enemies(&outcomes, 3), vec![false, true, false]);
    assert_eq!(killed_bosses(&outcomes, 2), vec![true, false]);
    assert_eq!(killed_enemies(&outcomes, 1), vec![false]);
    assert_eq!(killed_enemies(&Vec::new(), 2), vec![false, false]);
    assert!(killed_bosses(&outcomes, 0).is_empty());
}

#[test]
fn detonated_bodies_and_eaten_food_are_marked() {
    let blast = ExplosionEntity {
        position: Vec3::new(0, 0, 0),
        explosion: Explosion { radius: 60_000 },
    };
    assert_eq!(detonated(&vec![None, Some(blast), None]), vec![false, true, false]);
    let bites = vec![
        Bite { eaten: true, bullet: None },
        Bite { eaten: false, bullet: None },
        Bite { eaten: true, bullet: Some(spawn_bullet(Vec3::new(0, 0, 0), true)) },
    ];
    assert_eq!(eaten(&bites), vec![true, false, true]);
}

#[test]
fn a_round_clears_the_dead_and_the_spent_at_the_barrier() {
    let origin = Vec3::new(0, 0, 10_000);
    let mut bullets = vec![
        spawn_bullet(origin, true),
        spawn_bullet(origin, false),
        spawn_bullet(origin, true),
    ];
    let mut enemies = vec![
        mushroom(100, Vec3::new(900_000, 22_000, 4_000), 3_000),
        mushroom(50, Vec3::new(60_000, 22_000, 4_000), 3_000),
    ];
    let mut bosses = vec![boss(Vec2::new(-5_000_000, 0))];
    let mut level = CurseLevel::new();
    let outcomes = fixed_update(
        &mut bullets,
        15_625_000,
        &Vec::new(),
        &mut enemies,
        &mut bosses,
        &mut level,
    );
    assert_eq!(
        outcomes,
        vec![
            BulletOutcome::HitEnemy { index: 1, killed: true },
            BulletOutcome::Flying,
            BulletOutcome::HitEnemy { index: 1, killed: true },
        ]
    );
    let dead = killed_enemies(&outcomes, enemies.len());
    despawn_marked(&mut enemies, &dead);
    despawn_marked(&mut bosses, &killed_bosses(&outcomes, 1));
    despawn_marked(&mut bullets, &spent_bullets(&outcomes));
    assert_eq!(enemies, vec![mushroom(100, Vec3::new(900_000, 22_000, 4_000), 3_000)]);
    assert_eq!(bosses.len(), 1);
    assert_eq!(bullets.len(), 1);
    assert!(!bullets[0].facing_right);
    assert_eq!(level, CurseLevel { value: 2, needs_change: true });
}
