//! The entity store: a registry of entities and their attached components,
//! with component storage modelled as typed arenas keyed by entity identifier.

use crate::components::{Camera2d, Ship, SpriteRender, Transform};
use vstd::prelude::*;

verus! {

/// Does `entity` appear as a key in the arena?
pub open spec fn arena_has_key<T>(arena: Seq<(usize, T)>, entity: usize) -> bool {
    exists|i: int| 0 <= i < arena.len() && (#[trigger] arena[i]).0 == entity
}

/// Every key of the arena is a live entity (below `count`), and no key
/// appears twice: an entity carries at most one component of each kind.
pub open spec fn arena_wf<T>(arena: Seq<(usize, T)>, count: usize) -> bool {
    &&& forall|i: int| 0 <= i < arena.len() ==> (#[trigger] arena[i]).0 < count
    &&& forall|i: int, j: int|
        0 <= i < j < arena.len() ==> (#[trigger] arena[i]).0 != (#[trigger] arena[j]).0
}

/// The shared registry of entities and components.  Entities are the
/// identifiers `0 .. entity_count`; each component kind lives in its own
/// arena of `(entity, component)` pairs.
pub struct Registry {
    /// Whether the `Ship` component kind has been registered with the store.
    /// The engine convention asks for one registration per component kind
    /// before any entity may carry it.
    pub ship_registered: bool,
    /// Number of entities created so far; identifiers are `0 .. entity_count`.
    pub entity_count: usize,
    /// Placements, one per placed entity.
    pub transforms: Vec<(usize, Transform)>,
    /// Cameras, one per camera entity.
    pub cameras: Vec<(usize, Camera2d)>,
    /// Ship components, one per ship entity.
    pub ships: Vec<(usize, Ship)>,
    /// Sprite references, one per drawn entity.
    pub sprites: Vec<(usize, SpriteRender)>,
}

impl Registry {
    /// Every arena is well-formed with respect to the entity count.
    pub open spec fn inv(self) -> bool {
        &&& arena_wf(self.transforms@, self.entity_count)
        &&& arena_wf(self.cameras@, self.entity_count)
        &&& arena_wf(self.ships@, self.entity_count)
        &&& arena_wf(self.sprites@, self.entity_count)
    }

    /// A store with no entities, no components, and nothing registered.
    pub open spec fn is_empty(self) -> bool {
        &&& !self.ship_registered
        &&& self.entity_count == 0
        &&& self.transforms@.len() == 0
        &&& self.cameras@.len() == 0
        &&& self.ships@.len() == 0
        &&& self.sprites@.len() == 0
    }

    /// Make an empty registry.
    pub fn new() -> (r: Registry)
        ensures
            r.inv(),
            r.is_empty(),
    {
        Registry {
            ship_registered: false,
            entity_count: 0,
            transforms: Vec::new(),
            cameras: Vec::new(),
            ships: Vec::new(),
            sprites: Vec::new(),
        }
    }

    /// Declare the `Ship` component kind to the store.  Registering is
    /// idempotent: it touches nothing but the flag.
    pub fn register_ship(&mut self)
        requires
            old(self).inv(),
        ensures
            final(self).inv(),
            final(self).ship_registered,
            final(self).entity_count == old(self).entity_count,
            final(self).transforms@ == old(self).transforms@,
            final(self).cameras@ == old(self).cameras@,
            final(self).ships@ == old(self).ships@,
            final(self).sprites@ == old(self).sprites@,
    {
        self.ship_registered = true;
    }

    /// Create a fresh entity and return its identifier.  The new entity
    /// carries no components yet.
    pub fn create_entity(&mut self) -> (entity: usize)
        requires
            old(self).inv(),
            old(self).entity_count < usize::MAX,
        ensures
            final(self).inv(),
            entity == old(self).entity_count,
            final(self).entity_count == old(self).entity_count + 1,
            final(self).ship_registered == old(self).ship_registered,
            final(self).transforms@ == old(self).transforms@,
            final(self).cameras@ == old(self).cameras@,
            final(self).ships@ == old(self).ships@,
            final(self).sprites@ == old(self).sprites@,
            !arena_has_key(final(self).transforms@, entity),
            !arena_has_key(final(self).cameras@, entity),
            !arena_has_key(final(self).ships@, entity),
            !arena_has_key(final(self).sprites@, entity),
    {
        let entity = self.entity_count;
        self.entity_count = self.entity_count + 1;
        entity
    }

    /// Attach a placement to an entity that has none yet.
    pub fn attach_transform(&mut self, entity: usize, t: Transform)
        requires
            old(self).inv(),
            entity < old(self).entity_count,
            !arena_has_key(old(self).transforms@, entity),
        ensures
            final(self).inv(),
            final(self).transforms@ == old(self).transforms@.push((entity, t)),
            final(self).entity_count == old(self).entity_count,
            final(self).ship_registered == old(self).ship_registered,
            final(self).cameras@ == old(self).cameras@,
            final(self).ships@ == old(self).ships@,
            final(self).sprites@ == old(self).sprites@,
    {
        self.transforms.push((entity, t));
    }

    /// Attach a camera to an entity that has none yet.
    pub fn attach_camera(&mut self, entity: usize, c: Camera2d)
        requires
            old(self).inv(),
            entity < old(self).entity_count,
            !arena_has_key(old(self).cameras@, entity),
        ensures
            final(self).inv(),
            final(self).cameras@ == old(self).cameras@.push((entity, c)),
            final(self).entity_count == old(self).entity_count,
            final(self).ship_registered == old(self).ship_registered,
            final(self).transforms@ == old(self).transforms@,
            final(self).ships@ == old(self).ships@,
            final(self).sprites@ == old(self).sprites@,
    {
        self.cameras.push((entity, c));
    }

    /// Attach a `Ship` component to an entity that has none yet.  The kind
    /// must have been registered with the store first.
    pub fn attach_ship(&mut self, entity: usize, s: Ship)
        requires
            old(self).inv(),
            old(self).ship_registered,
            entity < old(self).entity_count,
            !arena_has_key(old(self).ships@, entity),
        ensures
            final(self).inv(),
            final(self).ships@ == old(self).ships@.push((entity, s)),
            final(self).entity_count == old(self).entity_count,
            final(self).ship_registered == old(self).ship_registered,
            final(self).transforms@ == old(self).transforms@,
            final(self).cameras@ == old(self).cameras@,
            final(self).sprites@ == old(self).sprites@,
    {
        self.ships.push((entity, s));
    }

    /// Attach a sprite reference to an entity that has none yet.
    pub fn attach_sprite(&mut self, entity: usize, sr: SpriteRender)
        requires
            old(self).inv(),
            entity < old(self).entity_count,
            !arena_has_key(old(self).sprites@, entity),
        ensures
            final(self).inv(),
            final(self).sprites@ == old(self).sprites@.push((entity, sr)),
            final(self).entity_count == old(self).entity_count,
            final(self).ship_registered == old(self).ship_registered,
            final(self).transforms@ == old(self).transforms@,
            final(self).cameras@ == old(self).cameras@,
            final(self).ships@ == old(self).ships@,
    {
        self.sprites.push((entity, sr));
    }
}

} // verus!
