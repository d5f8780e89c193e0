use last_stanza::layers::{giant_layers, projectile_layers, CollisionLayers, PhysicsLayers};
use last_stanza::player::{
    charge_size, enemy_hit, player_center, Aim, ChargeTimer, FrameInput, MouseData, Phase,
    PlayerProjectile, ProjectileBundle, ProjectileSlot, RigidBody, AIM_SLACK, CHARGE_PERIOD_MS,
    CHARGE_REPEATS,
};
use last_stanza::units::{PhysicMaterial, Vec2};

fn quiet() -> FrameInput {
    FrameInput {
        just_pressed: false,
        just_released: false,
        sine_squared: 0,
        contacts: Vec::new(),
        rearm: false,
    }
}

fn enemy_body() -> CollisionLayers {
    CollisionLayers::none().with_group(PhysicsLayers::Enemy)
}

fn thrown_body() -> CollisionLayers {
    CollisionLayers::none().with_group(PhysicsLayers::Enemy).with_group(PhysicsLayers::EnemyProj)
}

fn flying() -> PlayerProjectile {
    let mut p = PlayerProjectile::new();
    p.mouse_input(true, false, false);
    p.mouse_input(false, true, false);
    p.launch(&MouseData::new());
    p
}

/// The aim as the game computes it from a world point, in thousandths.
fn aim_of(world: (f32, f32)) -> (i32, i32) {
    let (dx, dy) = (world.0 - 0.0, world.1 - 8.0);
    let len = (dx * dx + dy * dy).sqrt();
    let (bx, by) = (dx / len, dy / len);
    let mut angle = by.acos();
    if -bx < 0.0 {
        angle = -angle;
    }
    let (x, y) = (-angle.sin(), angle.cos());
    ((x * 1000.0).round() as i32, (y * 1000.0).round() as i32)
}

#[test]
fn charge_size_values() {
    assert_eq!(charge_size(0), 1);
    assert_eq!(charge_size(124), 1);
    assert_eq!(charge_size(125), 2);
    assert_eq!(charge_size(374), 2);
    assert_eq!(charge_size(375), 3);
    assert_eq!(charge_size(500), 3);
    assert_eq!(charge_size(625), 4);
    assert_eq!(charge_size(874), 4);
    assert_eq!(charge_size(875), 5);
    assert_eq!(charge_size(1000), 5);
}

#[test]
fn charge_size_stays_in_range() {
    for s in 0..=1000u32 {
        let size = charge_size(s);
        assert!((1..=5).contains(&size));
        let sine_squared = s as f64 / 1000.0;
        assert_eq!(size, (sine_squared * 4.0 + 1.0).round() as i32);
    }
    assert_eq!(charge_size(1001), 5);
    assert_eq!(charge_size(u32::MAX), 5);
}

#[test]
fn charge_size_of_cut_down_thousandths_is_exact() {
    for step in 0..=100000u32 {
        let sine_squared = step as f64 / 100000.0;
        let thousandths = (sine_squared * 1000.0).floor() as u32;
        assert_eq!(
            charge_size(thousandths),
            (sine_squared * 4.0 + 1.0).round() as i32,
            "sine squared {}",
            sine_squared
        );
    }
    assert_eq!(charge_size((0.1247f64 * 1000.0).floor() as u32), 1);
    assert_eq!(charge_size((0.1250f64 * 1000.0).floor() as u32), 2);
}

#[test]
fn aim_parts_must_fit() {
    assert_eq!(Aim::new(0, 1000).map(|a| a.vector()), Some(Vec2::new(0, 1000)));
    assert_eq!(Aim::new(-600, -800).map(|a| a.vector()), Some(Vec2::new(-600, -800)));
    assert_eq!(Aim::new(707, -707).map(|a| a.vector()), Some(Vec2::new(707, -707)));
    assert_eq!(Aim::new(1000, 44).map(|a| a.vector()), Some(Vec2::new(1000, 44)));
    assert_eq!(Aim::new(999, 0).map(|a| a.vector()), Some(Vec2::new(999, 0)));
    assert_eq!(Aim::new(1000, 45), None);
    assert_eq!(Aim::new(998, 0), None);
    assert_eq!(Aim::new(1001, 0), None);
    assert_eq!(Aim::new(0, -1001), None);
    assert_eq!(Aim::new(1000, 1000), None);
    assert_eq!(Aim::new(-1000, -1000), None);
    assert_eq!(Aim::new(0, 0), None);
    assert_eq!(Aim::new(i32::MAX, i32::MIN), None);
    assert_eq!(AIM_SLACK, 2000);
    assert_eq!(Aim::up().vector(), Vec2::new(0, 1000));
}

#[test]
fn mouse_data_starts_upwards() {
    let m = MouseData::new();
    assert_eq!(m.world_pos, Vec2::new(0, 0));
    assert_eq!(m.vec_from_player.vector(), Vec2::new(0, 1000));
    assert_eq!(player_center(), Vec2::new(0, 8000));
}

#[test]
fn last_pointer_move_wins() {
    let mut m = MouseData::new();
    assert!(m.track(&vec![Vec2::new(1, 2), Vec2::new(3, 4), Vec2::new(-5, 6)]));
    assert_eq!(m.world_pos, Vec2::new(-5, 6));
    assert!(!m.track(&Vec::new()));
    assert_eq!(m.world_pos, Vec2::new(-5, 6));
    assert_eq!(m.vec_from_player.vector(), Vec2::new(0, 1000));
}

#[test]
fn set_aim_keeps_the_old_aim_on_misfit() {
    let mut m = MouseData::new();
    assert!(m.set_aim(600, -800));
    assert_eq!(m.vec_from_player.vector(), Vec2::new(600, -800));
    assert!(!m.set_aim(2000, 0));
    assert_eq!(m.vec_from_player.vector(), Vec2::new(600, -800));
    assert!(!m.set_aim(1000, 1000));
    assert_eq!(m.vec_from_player.vector(), Vec2::new(600, -800));
    assert!(!m.set_aim(300, 400));
    assert_eq!(m.vec_from_player.vector(), Vec2::new(600, -800));
    assert_eq!(m.world_pos, Vec2::new(0, 0));
}

#[test]
fn aim_straight_above_the_player_is_up() {
    for k in [0.001f32, 0.5, 1.0, 37.0, 10000.0] {
        let (x, y) = aim_of((0.0, 8.0 + k));
        let mut m = MouseData::new();
        assert!(m.set_aim(1000, 0));
        assert!(m.set_aim(x, y));
        assert_eq!(m.vec_from_player.vector(), Vec2::new(0, 1000));
    }
}

#[test]
fn new_projectile_rests() {
    let p = PlayerProjectile::new();
    assert_eq!(
        p,
        PlayerProjectile {
            size: 1,
            phase: Phase::Resting,
            body: RigidBody::Static,
            fired: false,
            position: Vec2::new(-10000, 45000),
            scale: 1000,
            velocity: Vec2::new(0, 0),
        }
    );
}

#[test]
fn press_starts_the_charge() {
    let mut p = PlayerProjectile::new();
    p.mouse_input(true, false, false);
    assert_eq!(p.phase, Phase::Charging);
    assert_eq!(p.body, RigidBody::Static);
    assert!(!p.fired);
    let held = p;
    p.mouse_input(true, false, false);
    assert_eq!(p, held);
    p.mouse_input(false, false, false);
    assert_eq!(p, held);
}

#[test]
fn press_and_release_in_one_frame_launch() {
    let mut p = PlayerProjectile::new();
    p.mouse_input(true, true, false);
    assert_eq!(p.phase, Phase::Flying);
    assert_eq!(p.body, RigidBody::Dynamic);
    assert!(p.fired);
    assert_eq!(p.charge_timer(), None);
    assert_eq!(p.size, 1);
    assert_eq!(p.position, PlayerProjectile::new().position);
    let flying = p;
    p.mouse_input(true, true, false);
    assert_eq!(p, flying);
}

#[test]
fn release_comes_after_press_for_a_charging_projectile() {
    let mut p = PlayerProjectile::new();
    p.mouse_input(true, false, false);
    p.mouse_input(true, true, false);
    assert_eq!(p.phase, Phase::Flying);
    assert!(p.fired);
}

#[test]
fn charge_timer_runs_while_charging_only() {
    let mut p = PlayerProjectile::new();
    assert_eq!(p.charge_timer(), None);
    p.mouse_input(true, false, false);
    assert_eq!(p.charge_timer(), Some(ChargeTimer { period_ms: 10000, repeating: true }));
    assert_eq!(CHARGE_PERIOD_MS, 10000);
    assert!(CHARGE_REPEATS);
    p.mouse_input(false, true, false);
    assert_eq!(p.charge_timer(), None);
    assert!(p.projectile_destruction(&vec![enemy_body()]));
    assert_eq!(p.charge_timer(), None);
}

#[test]
fn launch_speed_is_twelve() {
    for (x, y) in [(0, 1000), (600, -800), (-707, 707), (1000, 44), (-28, -1000)] {
        let mut m = MouseData::new();
        assert!(m.set_aim(x, y));
        let mut p = PlayerProjectile::new();
        p.mouse_input(true, true, false);
        p.launch(&m);
        assert_eq!(p.velocity, Vec2::new(12 * x, 12 * y));
        let squared = (p.velocity.x as i64).pow(2) + (p.velocity.y as i64).pow(2);
        assert!(144 * 998_000 <= squared && squared <= 144 * 1_002_000);
    }
}

#[test]
fn fresh_projectile_bundle() {
    let mut slot = ProjectileSlot::new();
    let made = slot.spawn_projectile();
    assert_eq!(
        made,
        Some(ProjectileBundle {
            projectile: PlayerProjectile::new(),
            sprite_size: Vec2::new(1000, 1000),
            radius: 500,
            material: PhysicMaterial { density: 1000, friction: 0, restitution: 1500 },
            layers: projectile_layers(),
        })
    );
    assert_eq!(made, Some(ProjectileBundle::new()));
    let layers = made.unwrap().layers;
    assert!(layers.contains_group(PhysicsLayers::PlayerProj));
    assert!(!layers.contains_group(PhysicsLayers::Enemy));
    assert!(layers.contains_mask(PhysicsLayers::Ground));
    assert!(layers.contains_mask(PhysicsLayers::Enemy));
    assert!(layers.contains_mask(PhysicsLayers::EnemyProj));
    assert!(!layers.contains_mask(PhysicsLayers::PlayerProj));
    assert!(!layers.contains_mask(PhysicsLayers::Giant));
    assert_eq!(slot.projectile, Some(PlayerProjectile::new()));
    assert_eq!(slot.spawn_projectile(), None);
}

#[test]
fn press_and_release_in_one_frame_through_the_slot() {
    let mut slot = ProjectileSlot::new();
    assert!(slot.spawn_projectile().is_some());
    let mut m = MouseData::new();
    assert!(m.set_aim(-800, 600));
    let both = FrameInput { just_pressed: true, just_released: true, ..quiet() };
    assert!(!slot.frame(&m, &both));
    let p = slot.projectile.unwrap();
    assert_eq!(p.phase, Phase::Flying);
    assert_eq!(p.body, RigidBody::Dynamic);
    assert_eq!(p.size, 1);
    assert_eq!(p.velocity, Vec2::new(-9600, 7200));
    assert!(!p.fired);
    assert_eq!(p.charge_timer(), None);
}

#[test]
fn release_without_charge_does_nothing() {
    let mut p = PlayerProjectile::new();
    p.mouse_input(false, true, false);
    assert_eq!(p, PlayerProjectile::new());
}

#[test]
fn charging_follows_the_aim() {
    let mut m = MouseData::new();
    assert!(m.set_aim(600, -800));
    let mut p = PlayerProjectile::new();
    p.aim(&m, 1000);
    assert_eq!(p, PlayerProjectile::new());
    p.mouse_input(true, false, false);
    p.aim(&m, 1000);
    assert_eq!(p.size, 5);
    assert_eq!(p.scale, 750);
    assert_eq!(p.position, Vec2::new(1200, 6400));
    p.aim(&m, 500);
    assert_eq!(p.size, 3);
    assert_eq!(p.scale, 650);
    assert_eq!(p.phase, Phase::Charging);
}

#[test]
fn launch_sets_velocity_once() {
    let mut m = MouseData::new();
    assert!(m.set_aim(600, -800));
    let mut p = PlayerProjectile::new();
    p.launch(&m);
    assert_eq!(p.velocity, Vec2::new(0, 0));
    p.mouse_input(true, false, false);
    p.mouse_input(false, true, false);
    assert_eq!(p.phase, Phase::Flying);
    assert_eq!(p.body, RigidBody::Dynamic);
    assert!(p.fired);
    p.launch(&m);
    assert_eq!(p.velocity, Vec2::new(7200, -9600));
    assert!(!p.fired);
    assert!(m.set_aim(0, 1000));
    p.launch(&m);
    assert_eq!(p.velocity, Vec2::new(7200, -9600));
}

#[test]
fn press_and_release_at_once_gives_smallest_size() {
    let mut slot = ProjectileSlot::new();
    assert!(slot.spawn_projectile().is_some());
    let mut m = MouseData::new();
    assert!(m.set_aim(-800, 600));
    let press = FrameInput { just_pressed: true, ..quiet() };
    let release = FrameInput { just_released: true, ..quiet() };
    assert!(!slot.frame(&m, &press));
    let p = slot.projectile.unwrap();
    assert_eq!(p.phase, Phase::Charging);
    assert_eq!(p.size, 1);
    assert_eq!(p.scale, 550);
    assert_eq!(p.position, Vec2::new(-1600, 9200));
    assert!(!slot.frame(&m, &release));
    let p = slot.projectile.unwrap();
    assert_eq!(p.phase, Phase::Flying);
    assert_eq!(p.size, 1);
    assert_eq!(p.velocity, Vec2::new(-9600, 7200));
    assert!(!p.fired);
}

#[test]
fn enemy_hit_filter() {
    assert!(enemy_hit(&enemy_body()));
    assert!(enemy_hit(&giant_layers(false)));
    assert!(!enemy_hit(&thrown_body()));
    assert!(!enemy_hit(&projectile_layers()));
    assert!(!enemy_hit(&CollisionLayers::none()));
    assert!(!enemy_hit(&CollisionLayers::none().with_mask(PhysicsLayers::Enemy)));
}

#[test]
fn impact_retires_a_flying_projectile_once() {
    let mut p = flying();
    let velocity = p.velocity;
    let contacts = vec![thrown_body(), enemy_body(), enemy_body(), giant_layers(false)];
    assert!(p.projectile_destruction(&contacts));
    assert_eq!(p.phase, Phase::Spent);
    assert_eq!(p.body, RigidBody::Inert);
    assert_eq!(p.position, Vec2::new(0, -50000));
    assert_eq!(p.velocity, velocity);
    let spent = p;
    assert!(!p.projectile_destruction(&contacts));
    assert_eq!(p, spent);

    let mut single = flying();
    assert!(single.projectile_destruction(&vec![enemy_body()]));
    assert_eq!(single, spent);
}

#[test]
fn other_contacts_do_not_retire() {
    let mut p = flying();
    let before = p;
    assert!(!p.projectile_destruction(&vec![thrown_body(), projectile_layers()]));
    assert_eq!(p, before);
    assert!(!p.projectile_destruction(&Vec::new()));
    assert_eq!(p, before);
}

#[test]
fn only_a_flying_projectile_is_retired() {
    let mut resting = PlayerProjectile::new();
    assert!(!resting.projectile_destruction(&vec![enemy_body()]));
    assert_eq!(resting, PlayerProjectile::new());
    let mut charging = PlayerProjectile::new();
    charging.mouse_input(true, false, false);
    let held = charging;
    assert!(!charging.projectile_destruction(&vec![enemy_body()]));
    assert_eq!(charging, held);
}

#[test]
fn spent_projectile_charges_again_only_on_rearm() {
    let mut p = flying();
    assert!(p.projectile_destruction(&vec![enemy_body()]));
    let spent = p;
    p.mouse_input(true, false, false);
    assert_eq!(p, spent);
    p.mouse_input(true, false, true);
    assert_eq!(p.phase, Phase::Charging);
    assert_eq!(p.body, RigidBody::Static);
}

#[test]
fn flying_projectile_ignores_the_button() {
    let mut p = flying();
    let before = p;
    p.mouse_input(true, false, true);
    assert_eq!(p, before);
    p.mouse_input(false, true, true);
    assert_eq!(p, before);
}

#[test]
fn there_is_one_projectile() {
    let mut slot = ProjectileSlot::new();
    assert!(slot.projectile.is_none());
    assert!(!slot.frame(&MouseData::new(), &quiet()));
    assert!(slot.projectile.is_none());
    assert!(slot.spawn_projectile().is_some());
    assert_eq!(slot.projectile, Some(PlayerProjectile::new()));
    let m = MouseData::new();
    let press = FrameInput { just_pressed: true, sine_squared: 300, ..quiet() };
    slot.frame(&m, &press);
    let charging = slot.projectile;
    assert!(slot.spawn_projectile().is_none());
    assert_eq!(slot.projectile, charging);
    let release = FrameInput { just_released: true, ..quiet() };
    slot.frame(&m, &release);
    let hit = FrameInput { contacts: vec![enemy_body(), enemy_body()], ..quiet() };
    assert!(slot.frame(&m, &hit));
    assert_eq!(slot.projectile.map(|p| p.phase), Some(Phase::Spent));
    assert!(!slot.frame(&m, &hit));
    assert!(slot.projectile.is_some());
    assert!(slot.spawn_projectile().is_none());
}

#[test]
fn release_and_hit_in_one_frame() {
    let mut slot = ProjectileSlot::new();
    assert!(slot.spawn_projectile().is_some());
    let m = MouseData::new();
    slot.frame(&m, &FrameInput { just_pressed: true, ..quiet() });
    let both = FrameInput { just_released: true, contacts: vec![enemy_body()], ..quiet() };
    assert!(slot.frame(&m, &both));
    let p = slot.projectile.unwrap();
    assert_eq!(p.phase, Phase::Spent);
    assert_eq!(p.velocity, Vec2::new(0, 12000));
    assert!(!p.fired);
}
