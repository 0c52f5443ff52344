use asteroids::components::{Camera2d, Ship, SpriteRender, Transform};
use asteroids::components::{make_camera, make_camera_transform, make_ship_transform};
use asteroids::scene::{init_camera, init_ship, start_application, BaseState, StartupError};
use asteroids::world::Registry;

fn sample_sprite() -> SpriteRender {
    SpriteRender { sprite_sheet: 7, sprite_number: 0 }
}

#[test]
fn ship_new_fields() {
    let s = Ship::new(3);
    assert_eq!(s.width, 32);
    assert_eq!(s.height, 32);
    assert_eq!(s.lives, 3);
    let s5 = Ship::new(5);
    assert_eq!(s5.width, 32);
    assert_eq!(s5.height, 32);
    assert_eq!(s5.lives, 5);
}

#[test]
fn camera_centred_for_any_viewport() {
    // A 7 x 9 viewport: the camera sits at exactly (3.5, 4.5, 1.0),
    // which in half-units is (7, 9, 2) -- no rounding.
    let t = make_camera_transform(7, 9);
    assert_eq!(t, Transform { x_half: 7, y_half: 9, z_half: 2 });
    let c = make_camera(7, 9);
    assert_eq!(c, Camera2d { width: 7, height: 9 });
}

#[test]
fn ship_shares_centre_with_camera() {
    // For the same viewport the ship starts under the camera: same x and y,
    // depth exactly 1 unit (2 half-units) behind it.
    let cam = make_camera_transform(64, 48);
    let ship = make_ship_transform(64, 48);
    assert_eq!(cam.x_half, ship.x_half);
    assert_eq!(cam.y_half, ship.y_half);
    assert_eq!(ship.z_half, 0);
    assert_eq!(cam.z_half - ship.z_half, 2);
}

#[test]
fn init_camera_places_one_camera() {
    let mut world = Registry::new();
    init_camera(&mut world, 100, 100);
    assert_eq!(world.entity_count, 1);
    assert_eq!(world.cameras.len(), 1);
    assert_eq!(world.cameras[0], (0, Camera2d { width: 100, height: 100 }));
    assert_eq!(world.transforms.len(), 1);
    // (50.0, 50.0, 1.0) in half-units.
    assert_eq!(world.transforms[0], (0, Transform { x_half: 100, y_half: 100, z_half: 2 }));
    assert_eq!(world.ships.len(), 0);
    assert_eq!(world.sprites.len(), 0);
}

#[test]
fn init_ship_places_one_ship() {
    let mut world = Registry::new();
    world.register_ship();
    init_ship(&mut world, 100, 100, sample_sprite());
    assert_eq!(world.entity_count, 1);
    assert_eq!(world.ships.len(), 1);
    assert_eq!(world.ships[0], (0, Ship { width: 32, height: 32, lives: 3 }));
    // (50.0, 50.0, 0.0) in half-units.
    assert_eq!(world.transforms[0], (0, Transform { x_half: 100, y_half: 100, z_half: 0 }));
    assert_eq!(world.sprites[0], (0, sample_sprite()));
    assert_eq!(world.cameras.len(), 0);
}

#[test]
fn scene_start_concrete() {
    // The whole scene for the fixed 100 x 100 viewport: camera transform
    // (50.0, 50.0, 1.0), ship transform (50.0, 50.0, 0.0), ship.lives == 3.
    let mut world = Registry::new();
    let mut state = BaseState;
    state.on_start(&mut world, sample_sprite());
    assert!(world.ship_registered);
    assert_eq!(world.entity_count, 2);
    assert_eq!(world.cameras, vec![(0, Camera2d { width: 100, height: 100 })]);
    assert_eq!(
        world.transforms,
        vec![
            (0, Transform { x_half: 100, y_half: 100, z_half: 2 }),
            (1, Transform { x_half: 100, y_half: 100, z_half: 0 }),
        ]
    );
    assert_eq!(world.ships, vec![(1, Ship { width: 32, height: 32, lives: 3 })]);
    assert_eq!(world.sprites, vec![(1, sample_sprite())]);
}

#[test]
fn scene_start_creates_exactly_two_entities() {
    let mut world = Registry::new();
    let mut state = BaseState;
    state.on_start(&mut world, sample_sprite());
    assert_eq!(world.entity_count, 2);
    // The sprite reference is a component on the ship entity, not a third
    // entity.
    assert_eq!(world.sprites.len(), 1);
    assert_eq!(world.sprites[0].0, world.ships[0].0);
    assert_ne!(world.cameras[0].0, world.ships[0].0);
}

#[test]
fn exactly_one_ship_component_at_scene_start() {
    let mut world = Registry::new();
    let mut state = BaseState;
    state.on_start(&mut world, sample_sprite());
    assert_eq!(world.ships.len(), 1);
    let (entity, ship) = world.ships[0];
    assert_eq!(entity, 1);
    assert_eq!(ship.lives, 3);
    assert_eq!(ship.width, 32);
    assert_eq!(ship.height, 32);
}

#[test]
fn missing_display_config_fails_before_any_entity() {
    let mut world = Registry::new();
    let r = start_application(&mut world, false, Some(sample_sprite()));
    assert_eq!(r, Err(StartupError::MissingDisplayConfig));
    // No partial world state.
    assert_eq!(world.entity_count, 0);
    assert_eq!(world.transforms.len(), 0);
    assert_eq!(world.cameras.len(), 0);
    assert_eq!(world.ships.len(), 0);
    assert_eq!(world.sprites.len(), 0);
    assert!(!world.ship_registered);
}

#[test]
fn missing_sprite_sheet_fails_before_any_entity() {
    let mut world = Registry::new();
    let r = start_application(&mut world, true, None);
    assert_eq!(r, Err(StartupError::SpriteSheetUnavailable));
    assert_eq!(world.entity_count, 0);
    assert_eq!(world.ships.len(), 0);
    assert!(!world.ship_registered);
}

#[test]
fn successful_start_spawns_the_scene() {
    let mut world = Registry::new();
    let r = start_application(&mut world, true, Some(sample_sprite()));
    assert_eq!(r, Ok(()));
    assert_eq!(world.entity_count, 2);
    assert_eq!(world.ships.len(), 1);
    assert_eq!(world.ships[0].1.lives, 3);
}

#[test]
fn register_ship_is_idempotent() {
    let mut world = Registry::new();
    world.register_ship();
    world.register_ship();
    assert!(world.ship_registered);
    assert_eq!(world.entity_count, 0);
    assert_eq!(world.ships.len(), 0);
}

#[test]
fn create_entity_hands_out_consecutive_ids() {
    let mut world = Registry::new();
    assert_eq!(world.create_entity(), 0);
    assert_eq!(world.create_entity(), 1);
    assert_eq!(world.create_entity(), 2);
    assert_eq!(world.entity_count, 3);
}

#[test]
fn attach_fills_the_right_arena() {
    let mut world = Registry::new();
    let e = world.create_entity();
    world.attach_transform(e, Transform { x_half: 4, y_half: 6, z_half: 0 });
    world.attach_camera(e, Camera2d { width: 2, height: 3 });
    assert_eq!(world.transforms, vec![(e, Transform { x_half: 4, y_half: 6, z_half: 0 })]);
    assert_eq!(world.cameras, vec![(e, Camera2d { width: 2, height: 3 })]);
    assert_eq!(world.ships.len(), 0);
    assert_eq!(world.sprites.len(), 0);
}
