use sidescroller_core::aabb::AABB;
use sidescroller_core::boss::boss;
use sidescroller_core::enemy::mushroom;
use sidescroller_core::food::Food;
use sidescroller_core::geometry::{Vec2, Vec3};
use sidescroller_core::layout::{barn, lay_out, shift_within, spawn_level, SignKind};
use sidescroller_core::movement::apply_follow_camera;
use sidescroller_core::platform::platform;
use sidescroller_core::player::player;

#[test]
fn shift_is_the_share_of_the_width_rounded_down() {
    assert_eq!(shift_within(180_000, 0), 0);
    assert_eq!(shift_within(180_000, 0x8000_0000), 90_000);
    assert_eq!(shift_within(180_000, u32::MAX), 179_999);
    assert_eq!(shift_within(1_000, 0x4000_0000), 250);
    assert_eq!(shift_within(1, u32::MAX), 0);
}

#[test]
fn barn_blocks_beside_where_it_is_drawn() {
    let b = barn();
    assert_eq!(b.aabb, AABB::new(Vec2::new(-384_000, -128_000), Vec2::new(64_000, 256_000)));
    assert_eq!(b.placement.translation, Vec3::new(-729_600, 320_000, 1_000));
    assert_eq!(b.placement.scale, Vec2::new(10_000, 10_000));
}

#[test]
fn layout_without_jitter_stands_on_the_marks() {
    let layout = lay_out(&vec![0; 40]);
    assert_eq!(layout.player, player(400_000));
    assert_eq!(layout.barn, barn());
    assert_eq!(layout.ground, platform(Vec2::new(120_000, -5_500), Vec2::new(300_000, 1_000)));
    assert_eq!(layout.gun.position, Vec3::new(3_500_000, -300_000, 3_000));
    assert_eq!(layout.gun.food, Food { gives_gun: true });
    assert_eq!(layout.guard, mushroom(250, Vec3::new(5_000_000, -200_000, 4_000), 5_000));
    assert_eq!(layout.boss, boss(Vec2::new(10_000_000, 0)));
    assert_eq!(layout.hay.len(), 10);
    for i in 0..10 {
        assert_eq!(
            layout.hay[i].position,
            Vec3::new(800_000 + 200_000 * i as i64, -300_000, 3_000)
        );
        assert!(!layout.hay[i].food.gives_gun);
    }
    assert_eq!(layout.pack.len(), 15);
    for i in 0..15 {
        assert_eq!(
            layout.pack[i],
            mushroom(100, Vec3::new(5_500_000 + 100_000 * i as i64, -200_000, 4_000), 3_000)
        );
    }
    assert_eq!(layout.signs.len(), 4);
    assert_eq!(layout.signs[0].kind, SignKind::Honk);
    assert_eq!(layout.signs[0].position, Vec3::new(0, -100_000, 10_000));
    assert_eq!(layout.signs[1].kind, SignKind::Quit);
    assert_eq!(layout.signs[1].position, Vec3::new(12_500_000, 0, 10_000));
    assert_eq!(layout.signs[2].kind, SignKind::Hidden);
    assert_eq!(layout.signs[2].position, Vec3::new(17_500_000, 0, 10_000));
    assert_eq!(layout.signs[3].kind, SignKind::Eat);
    assert_eq!(layout.signs[3].position, Vec3::new(800_000, -100_000, 10_000));
}

#[test]
fn layout_takes_its_samples_in_order() {
    let mut samples: Vec<u32> = vec![0; 40];
    samples[0] = 0x8000_0000;
    samples[9] = u32::MAX;
    samples[10] = 0x4000_0000;
    samples[11] = 0x8000_0000;
    samples[38] = u32::MAX;
    samples[39] = u32::MAX;
    let layout = lay_out(&samples);
    assert_eq!(layout.hay[0].position.x, 890_000);
    assert_eq!(layout.hay[1].position.x, 1_000_000);
    assert_eq!(layout.hay[9].position.x, 2_600_000 + 179_999);
    assert_eq!(layout.pack[0].placement.translation.x, 5_525_000);
    assert_eq!(layout.pack[0].placement.scale, Vec2::new(3_500, 3_500));
    assert_eq!(layout.pack[1].placement.translation.x, 5_600_000);
    assert_eq!(layout.pack[14].placement.translation.x, 6_900_000 + 99_999);
    assert_eq!(layout.pack[14].placement.scale, Vec2::new(3_999, 3_999));
    assert_eq!(layout.signs[3].position.x, 890_000);
}

#[test]
fn spawned_level_keeps_everything_within_its_band() {
    for _ in 0..20 {
        let layout = spawn_level();
        assert_eq!(layout.player, player(400_000));
        assert_eq!(layout.boss, boss(Vec2::new(10_000_000, 0)));
        assert_eq!(layout.hay.len(), 10);
        assert_eq!(layout.pack.len(), 15);
        for i in 0..10 {
            let low = 800_000 + 200_000 * i as i64;
            let x = layout.hay[i].position.x;
            assert!(low <= x && x < low + 180_000);
        }
        for i in 0..15 {
            let low = 5_500_000 + 100_000 * i as i64;
            let x = layout.pack[i].placement.translation.x;
            assert!(low <= x && x < low + 100_000);
            let scale = layout.pack[i].placement.scale;
            assert!(3_000 <= scale.x && scale.x < 4_000);
            assert_eq!(scale.x, scale.y);
            assert_eq!(layout.pack[i].enemy.health, 100);
        }
        assert_eq!(layout.signs[3].position.x, layout.hay[0].position.x);
    }
}

#[test]
fn spawned_levels_differ() {
    let first = spawn_level();
    let mut differs = false;
    for _ in 0..20 {
        let next = spawn_level();
        if next.hay[0].position != first.hay[0].position
            || next.pack[3].placement != first.pack[3].placement
        {
            differs = true;
        }
    }
    assert!(differs);
}

#[test]
fn camera_follows_horizontally_only() {
    let mut camera = Vec3::new(1, 2, 3);
    apply_follow_camera(&mut camera, &Vec3::new(70, 80, 90));
    assert_eq!(camera, Vec3::new(70, 2, 3));
}
