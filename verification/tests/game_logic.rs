use tower_defense::assets::GameAssets;
use tower_defense::bullet::BULLET_LIFETIME_MILLIS;
use tower_defense::bullet::Lifetime;
use tower_defense::countdown::Countdown;
use tower_defense::scene::ColorRgb;
use tower_defense::scene::DEFAULT_HEIGHT;
use tower_defense::scene::DEFAULT_WIDTH;
use tower_defense::scene::SceneObject;
use tower_defense::scene::Vec3Centi;
use tower_defense::scene::basic_scene_objects;
use tower_defense::scene::camera_object;
use tower_defense::scene::clear_color;
use tower_defense::scene::window_config;
use tower_defense::tower::BulletSpawn;
use tower_defense::tower::TOWER_PERIOD_MILLIS;
use tower_defense::tower::Tower;
use tower_defense::tower::bullet_spawn;

#[test]
fn repeating_countdown_counts_down_and_rearms() {
    let mut c = Countdown::new_repeating(1000);
    assert_eq!(c.remaining, 1000);
    assert_eq!(c.period, 1000);
    assert!(c.repeating);
    assert!(!c.tick(999));
    assert_eq!(c.remaining, 1);
    assert!(c.tick(1));
    assert_eq!(c.remaining, 1000);
}

#[test]
fn repeating_countdown_carries_overshoot() {
    let mut c = Countdown::new_repeating(1000);
    assert!(c.tick(1250));
    // The firing instant was at 1000 ms; 250 ms of the frame are already
    // spent of the next period, so 750 ms remain until the next firing.
    assert_eq!(c.remaining, 750);
    assert!(c.tick(750));
    assert_eq!(c.remaining, 1000);
}

#[test]
fn countdown_zero_delta_changes_nothing() {
    let mut c = Countdown::new_repeating(1000);
    assert!(!c.tick(0));
    assert_eq!(c.remaining, 1000);
    let mut l = Countdown::new_one_shot(500);
    assert!(!l.tick(0));
    assert_eq!(l.remaining, 500);
}

#[test]
fn one_shot_countdown_fires_once_and_stops() {
    let mut c = Countdown::new_one_shot(500);
    assert!(!c.tick(499));
    assert_eq!(c.remaining, 1);
    assert!(c.tick(1));
    assert_eq!(c.remaining, 0);
    assert!(!c.tick(1000));
    assert_eq!(c.remaining, 0);
}

#[test]
fn one_shot_countdown_saturates_on_overshoot() {
    let mut c = Countdown::new_one_shot(500);
    assert!(c.tick(10_000));
    assert_eq!(c.remaining, 0);
}

#[test]
fn tower_fires_every_period() {
    let mut t = Tower::new();
    assert_eq!(t.shooting_timer.period, TOWER_PERIOD_MILLIS);
    assert!(t.tick(1000).is_some());
    assert!(t.tick(999).is_none());
    assert!(t.tick(1).is_some());
    assert!(t.tick(1000).is_some());
}

#[test]
fn tower_spawns_stay_one_period_apart_with_uneven_frames() {
    let mut t = Tower::new();
    // Frames of 400 ms: cumulative 400, 800, 1200, 1600, 2000, ...
    // The shot instants are at 1000 and 2000 ms, so the third and the
    // fifth frame each spawn one bullet: exactly one period apart.
    assert!(t.tick(400).is_none());
    assert!(t.tick(400).is_none());
    assert!(t.tick(400).is_some());
    assert_eq!(t.shooting_timer.remaining, 800);
    assert!(t.tick(400).is_none());
    assert!(t.tick(400).is_some());
    assert_eq!(t.shooting_timer.remaining, 1000);
}

#[test]
fn tower_shot_is_the_fixed_bullet_spawn() {
    let mut t = Tower::new();
    let shot = t.tick(1500).expect("the cooldown elapsed");
    let expected = BulletSpawn {
        position: Vec3Centi { x: 0, y: 70, z: 60 },
        yaw_degrees: -90,
        lifetime: Lifetime {
            timer: Countdown { remaining: 500, period: 500, repeating: false },
        },
    };
    assert_eq!(shot, expected);
    assert_eq!(bullet_spawn(), expected);
}

#[test]
fn bullet_lives_its_full_lifetime_and_not_longer() {
    let mut l = Lifetime::new();
    assert_eq!(l.timer.period, BULLET_LIFETIME_MILLIS);
    assert!(!l.tick(200));
    assert!(!l.tick(200));
    assert!(l.tick(100));
    // Despawn is signalled once; afterwards nothing remains to elapse.
    assert!(!l.tick(1000));
    assert_eq!(l.timer.remaining, 0);
}

#[test]
fn bootstrap_camera_is_fixed() {
    let camera = camera_object();
    assert_eq!(
        camera,
        SceneObject::Camera {
            position: Vec3Centi { x: -200, y: 250, z: 500 },
            look_at: Vec3Centi { x: 0, y: 0, z: 0 },
        }
    );
    assert_eq!(camera.name(), "Camera");
}

#[test]
fn bootstrap_scene_has_ground_tower_and_light_at_fixed_coordinates() {
    let objs = basic_scene_objects();
    assert_eq!(objs.len(), 3);
    assert_eq!(
        objs[0],
        SceneObject::Ground { size: 500, color: ColorRgb { r: 30, g: 50, b: 30 } }
    );
    assert_eq!(
        objs[1],
        SceneObject::Tower {
            size: 100,
            color: ColorRgb { r: 67, g: 84, b: 92 },
            position: Vec3Centi { x: 0, y: 50, z: 0 },
        }
    );
    assert_eq!(
        objs[2],
        SceneObject::Light {
            intensity: 1500,
            shadows_enabled: true,
            position: Vec3Centi { x: 400, y: 800, z: 400 },
        }
    );
    assert_eq!(objs[0].name(), "Ground");
    assert_eq!(objs[1].name(), "Tower");
    assert_eq!(objs[2].name(), "Light");
}

#[test]
fn bootstrap_spawns_exactly_one_of_each_kind() {
    let mut objs = vec![camera_object()];
    objs.extend(basic_scene_objects());
    let cameras = objs.iter().filter(|o| matches!(o, SceneObject::Camera { .. })).count();
    let grounds = objs.iter().filter(|o| matches!(o, SceneObject::Ground { .. })).count();
    let towers = objs.iter().filter(|o| matches!(o, SceneObject::Tower { .. })).count();
    let lights = objs.iter().filter(|o| matches!(o, SceneObject::Light { .. })).count();
    assert_eq!(objs.len(), 4);
    assert_eq!(cameras, 1);
    assert_eq!(grounds, 1);
    assert_eq!(towers, 1);
    assert_eq!(lights, 1);
}

#[test]
fn window_is_fixed_and_not_resizable() {
    let w = window_config();
    assert_eq!(w.width, DEFAULT_WIDTH);
    assert_eq!(w.height, DEFAULT_HEIGHT);
    assert_eq!(w.width, 1280);
    assert_eq!(w.height, 720);
    assert_eq!(w.title, "Bevy Tower Defense");
    assert!(!w.resizable);
}

#[test]
fn world_is_cleared_to_beige() {
    assert_eq!(clear_color(), ColorRgb { r: 96, g: 96, b: 86 });
}

#[test]
fn assets_hold_the_bullet_scene_path() {
    let assets = GameAssets::new();
    assert_eq!(assets.bullet_scene, "Bullet.glb#Scene0");
}
