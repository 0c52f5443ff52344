//! The scene bootstrap: one-time world setup when the scene becomes active,
//! and the startup decision taken before the engine's run loop begins.

use crate::components::{
    camera_for, camera_transform, make_camera, make_camera_transform, make_ship_transform,
    ship_transform, ship_with_lives, Ship, SpriteRender, INITIAL_LIVES, SHIP_HEIGHT, SHIP_WIDTH,
    VIEW_HEIGHT, VIEW_WIDTH,
};
use crate::world::Registry;
use vstd::prelude::*;

verus! {

/// The initial game state: the scene handler the engine invokes once on
/// startup.
pub struct BaseState;

/// What one scene start does to the store: on top of `pre`, a camera entity
/// and then a ship entity are created — exactly two entities — and the ship
/// entity alone carries the `Ship` component and the sprite reference.
pub open spec fn scene_started(
    pre: Registry,
    post: Registry,
    w: u32,
    h: u32,
    sprite: SpriteRender,
) -> bool {
    let camera_entity = pre.entity_count;
    let ship_entity = (pre.entity_count + 1) as usize;
    &&& post.entity_count == pre.entity_count + 2
    &&& post.ship_registered
    &&& post.cameras@ == pre.cameras@.push((camera_entity, camera_for(w, h)))
    &&& post.transforms@ == pre.transforms@.push((camera_entity, camera_transform(w, h))).push(
        (ship_entity, ship_transform(w, h)),
    )
    &&& post.ships@ == pre.ships@.push((ship_entity, ship_with_lives(INITIAL_LIVES)))
    &&& post.sprites@ == pre.sprites@.push((ship_entity, sprite))
}

/// Create the camera entity for a `w × h` viewport: a standard 2D camera,
/// placed at the viewport's centre at depth 1 — `(w, h, 2)` in half-units.
pub fn init_camera(world: &mut Registry, w: u32, h: u32)
    requires
        old(world).inv(),
        old(world).entity_count < usize::MAX,
    ensures
        final(world).inv(),
        final(world).entity_count == old(world).entity_count + 1,
        final(world).ship_registered == old(world).ship_registered,
        final(world).cameras@ == old(world).cameras@.push(
            (old(world).entity_count, camera_for(w, h)),
        ),
        final(world).transforms@ == old(world).transforms@.push(
            (old(world).entity_count, camera_transform(w, h)),
        ),
        final(world).ships@ == old(world).ships@,
        final(world).sprites@ == old(world).sprites@,
{
    let entity = world.create_entity();
    world.attach_camera(entity, make_camera(w, h));
    world.attach_transform(entity, make_camera_transform(w, h));
}

/// Create the ship entity for a `w × h` viewport: a sprite reference, a
/// `Ship` with `INITIAL_LIVES` lives, and a placement at the viewport's
/// centre at depth 0 — `(w, h, 0)` in half-units.
pub fn init_ship(world: &mut Registry, w: u32, h: u32, sprite: SpriteRender)
    requires
        old(world).inv(),
        old(world).ship_registered,
        old(world).entity_count < usize::MAX,
    ensures
        final(world).inv(),
        final(world).entity_count == old(world).entity_count + 1,
        final(world).ship_registered,
        final(world).sprites@ == old(world).sprites@.push((old(world).entity_count, sprite)),
        final(world).ships@ == old(world).ships@.push(
            (old(world).entity_count, ship_with_lives(INITIAL_LIVES)),
        ),
        final(world).transforms@ == old(world).transforms@.push(
            (old(world).entity_count, ship_transform(w, h)),
        ),
        final(world).cameras@ == old(world).cameras@,
{
    let entity = world.create_entity();
    world.attach_sprite(entity, sprite);
    let lives: i32 = INITIAL_LIVES;
    world.attach_ship(entity, Ship::new(lives));
    world.attach_transform(entity, make_ship_transform(w, h));
}

/// Why startup failed before the scene could be set up.
#[derive(Clone, Copy, Debug, PartialEq, Eq, Structural)]
pub enum StartupError {
    /// The display configuration resource could not be read.
    MissingDisplayConfig,
    /// The ship's sprite sheet could not be loaded from the asset store.
    SpriteSheetUnavailable,
}

impl BaseState {
    /// One-time scene setup: register the `Ship` component kind, create the
    /// camera entity, then create the ship entity, for the fixed
    /// `VIEW_WIDTH × VIEW_HEIGHT` viewport.  The sprite reference for the
    /// ship is handed in by the embedding application, which loaded the
    /// sheet from the asset store beforehand.
    pub fn on_start(&mut self, world: &mut Registry, sprite: SpriteRender)
        requires
            old(world).inv(),
            old(world).entity_count + 2 <= usize::MAX,
        ensures
            final(world).inv(),
            scene_started(*old(world), *final(world), VIEW_WIDTH, VIEW_HEIGHT, sprite),
            *final(self) == *old(self),
    {
        world.register_ship();
        init_camera(world, VIEW_WIDTH, VIEW_HEIGHT);
        init_ship(world, VIEW_WIDTH, VIEW_HEIGHT, sprite);
    }
}

/// The application-entry decision.  Startup needs the display configuration
/// and the ship's sprite sheet; the embedding application reports whether the
/// configuration was read (`display_config_loaded`) and hands over the sprite
/// reference if the sheet loaded (`sprite`).  On any failure the store is
/// left exactly as it was — no partial world state — and on success the
/// scene is started.
pub fn start_application(
    world: &mut Registry,
    display_config_loaded: bool,
    sprite: Option<SpriteRender>,
) -> (r: Result<(), StartupError>)
    requires
        old(world).inv(),
        old(world).entity_count + 2 <= usize::MAX,
    ensures
        final(world).inv(),
        !display_config_loaded ==> r == Err::<(), StartupError>(
            StartupError::MissingDisplayConfig,
        ) && *final(world) == *old(world),
        display_config_loaded && sprite is None ==> r == Err::<(), StartupError>(
            StartupError::SpriteSheetUnavailable,
        ) && *final(world) == *old(world),
        display_config_loaded && sprite is Some ==> r is Ok && scene_started(
            *old(world),
            *final(world),
            VIEW_WIDTH,
            VIEW_HEIGHT,
            sprite->0,
        ),
{
    if !display_config_loaded {
        return Err(StartupError::MissingDisplayConfig);
    }
    match sprite {
        None => Err(StartupError::SpriteSheetUnavailable),
        Some(s) => {
            let mut state = BaseState;
            state.on_start(world, s);
            Ok(())
        },
    }
}

/// Law: at scene start the ship entity carries exactly one `Ship` component,
/// with `INITIAL_LIVES` lives and the fixed `SHIP_WIDTH × SHIP_HEIGHT` size,
/// whatever the viewport — starting from an empty store, the ship arena holds
/// the one entry `(1, ship_with_lives(INITIAL_LIVES))`.
pub proof fn lemma_single_ship_at_scene_start(
    pre: Registry,
    post: Registry,
    w: u32,
    h: u32,
    sprite: SpriteRender,
)
    requires
        pre.is_empty(),
        scene_started(pre, post, w, h, sprite),
    ensures
        post.ships@.len() == 1,
        post.ships@[0].0 == 1,
        post.ships@[0].1 == ship_with_lives(INITIAL_LIVES),
        post.ships@[0].1.lives == INITIAL_LIVES,
        post.ships@[0].1.width == SHIP_WIDTH,
        post.ships@[0].1.height == SHIP_HEIGHT,
{
}

/// Law: scene start creates exactly two entities — the camera and the ship —
/// and nothing else.  The sprite reference goes onto the ship entity itself,
/// not onto a third entity.
pub proof fn lemma_two_entities_at_scene_start(
    pre: Registry,
    post: Registry,
    w: u32,
    h: u32,
    sprite: SpriteRender,
)
    requires
        scene_started(pre, post, w, h, sprite),
    ensures
        post.entity_count == pre.entity_count + 2,
        post.cameras@.len() == pre.cameras@.len() + 1,
        post.ships@.len() == pre.ships@.len() + 1,
        post.sprites@.len() == pre.sprites@.len() + 1,
        post.transforms@.len() == pre.transforms@.len() + 2,
        post.sprites@.last().0 == post.ships@.last().0,
        post.cameras@.last().0 != post.ships@.last().0,
{
}

} // verus!
