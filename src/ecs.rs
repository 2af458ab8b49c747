use vstd::prelude::*;

use hecs::{Entity, World};

use crate::role::{AlreadyHasRole, Role};
use crate::surface::{
    committed_after, initial_surface, offset_rejected, subsurface_after, surface_after_request,
    with_destroy, with_post_commit, with_pre_commit, Buffer, HookId, SurfaceData, SurfaceError,
    SurfaceRequest, SurfaceView,
};

verus! {

#[verifier::external_type_specification]
#[verifier::external_body]
pub struct ExWorld(World);

/// The core surface components that a world holds, keyed by the bits of
/// their entities.
pub uninterp spec fn surface_table(w: World) -> Map<u64, SurfaceData>;

/// Relies on `hecs::World::new`: a new world holds no entity.
#[verifier::external_body]
fn empty_world() -> (r: World)
    ensures
        surface_table(r) =~= Map::empty(),
{
    World::new()
}

/// Relies on `hecs::World::spawn`: the entity it allocates is not alive
/// before, and holds the given component after; `Entity::to_bits` gives its
/// bits.
#[verifier::external_body]
fn spawn_surface(w: &mut World, data: SurfaceData) -> (id: u64)
    ensures
        !surface_table(*old(w)).contains_key(id),
        surface_table(*final(w)) == surface_table(*old(w)).insert(id, data),
{
    w.spawn((data,)).to_bits().get()
}

/// Relies on `hecs::World::query_one_mut` for `&mut SurfaceData`: it succeeds
/// exactly on a live entity holding the component, and hands out that
/// component in place. `Entity::from_bits` rebuilds the entity.
#[verifier::external_body]
fn surface_mut(w: &mut World, id: u64) -> (r: Option<&mut SurfaceData>)
    ensures
        r.is_some() == surface_table(*old(w)).contains_key(id),
        r.is_some() ==> *r.unwrap() == surface_table(*old(w))[id],
        r.is_some() ==> surface_table(*final(w)) == surface_table(*old(w)).insert(id, *final(r.unwrap())),
        r.is_none() ==> surface_table(*final(w)) == surface_table(*old(w)),
{
    match Entity::from_bits(id) {
        Some(e) => w.query_one_mut::<&mut SurfaceData>(e).ok(),
        None => None,
    }
}

/// Relies on `hecs::World::despawn`: a live entity is removed with all its
/// components; any other entity is left alone. `Entity::from_bits` rebuilds
/// the entity.
#[verifier::external_body]
fn despawn_entity(w: &mut World, id: u64) -> (r: bool)
    ensures
        surface_table(*final(w)) == surface_table(*old(w)).remove(id),
        surface_table(*old(w)).contains_key(id) ==> r,
{
    match Entity::from_bits(id) {
        Some(e) => w.despawn(e).is_ok(),
        None => false,
    }
}

/// The identity of a surface entity, as protocol objects carry it.
#[derive(Clone, Copy, Debug, PartialEq, Eq, Structural)]
pub struct EntityData(pub u64);

/// An entity together with a value.
#[derive(Clone, Copy, Debug, PartialEq, Eq)]
pub struct TypedEntity<T>(pub u64, pub T);

impl<T> TypedEntity<T> {
    pub fn entity(&self) -> (r: u64)
        ensures
            r == self.0,
    {
        self.0
    }

    pub fn value(&self) -> (r: &T)
        ensures
            *r == self.1,
    {
        &self.1
    }
}

/// The views of the surface components in a table.
pub open spec fn views_of(t: Map<u64, SurfaceData>) -> Map<u64, SurfaceView> {
    t.map_values(|d: SurfaceData| d@)
}

proof fn lemma_views_insert(t: Map<u64, SurfaceData>, k: u64, d: SurfaceData)
    ensures
        views_of(t.insert(k, d)) == views_of(t).insert(k, d@),
{
    assert(views_of(t.insert(k, d)) =~= views_of(t).insert(k, d@));
}

proof fn lemma_views_remove(t: Map<u64, SurfaceData>, k: u64)
    ensures
        views_of(t.remove(k)) == views_of(t).remove(k),
{
    assert(views_of(t.remove(k)) =~= views_of(t).remove(k));
}

/// The component store: a `hecs` world whose surfaces carry `SurfaceData`.
pub struct Ecs {
    world: World,
}

impl View for Ecs {
    type V = Map<u64, SurfaceView>;

    /// The live surfaces, by entity bits.
    closed spec fn view(&self) -> Map<u64, SurfaceView> {
        views_of(surface_table(self.world))
    }
}

impl Ecs {
    /// An empty store.
    pub fn new() -> (r: Ecs)
        ensures
            r@ == Map::<u64, SurfaceView>::empty(),
    {
        let r = Ecs { world: empty_world() };
        assert(r@ =~= Map::<u64, SurfaceView>::empty());
        r
    }

    /// Low-level access to the world, for extensions' own components.
    pub fn world(&mut self) -> (r: &mut World)
        ensures
            views_of(surface_table(*r)) == old(self)@,
            final(self)@ == views_of(surface_table(*final(r))),
    {
        &mut self.world
    }

    /// Creates a surface entity with its core components: no role, no hooks,
    /// default pending and committed state.
    pub fn create_surface(&mut self) -> (r: EntityData)
        ensures
            !old(self)@.contains_key(r.0),
            final(self)@ == old(self)@.insert(r.0, initial_surface()),
    {
        let data = SurfaceData::new();
        let id = spawn_surface(&mut self.world, data);
        proof {
            lemma_views_insert(surface_table(old(self).world), id, data);
        }
        EntityData(id)
    }

    /// Whether `surface` is a live surface.
    pub fn contains(&mut self, surface: EntityData) -> (r: bool)
        ensures
            r == old(self)@.contains_key(surface.0),
            final(self)@ == old(self)@,
    {
        match surface_mut(&mut self.world, surface.0) {
            Some(data) => {
                proof {
                    lemma_views_insert(surface_table(old(self).world), surface.0, *data);
                    assert(surface_table(old(self).world).insert(surface.0, *data) =~= surface_table(old(self).world));
                }
                true
            },
            None => false,
        }
    }

    /// Applies a surface request other than commit to the surface's pending
    /// state.
    pub fn apply_request(&mut self, surface: EntityData, version: u32, req: SurfaceRequest) -> (r: Result<(), SurfaceError>)
        ensures
            !old(self)@.contains_key(surface.0) ==> r == Err::<(), SurfaceError>(SurfaceError::NoSuchSurface)
                && final(self)@ == old(self)@,
            old(self)@.contains_key(surface.0) ==> {
                &&& r.is_err() == offset_rejected(version, req)
                &&& r.is_err() ==> r == Err::<(), SurfaceError>(SurfaceError::InvalidOffset)
                &&& final(self)@ == old(self)@.insert(
                    surface.0,
                    surface_after_request(old(self)@[surface.0], version, req),
                )
            },
    {
        match surface_mut(&mut self.world, surface.0) {
            Some(data) => {
                let r = data.apply(version, req);
                proof {
                    lemma_views_insert(surface_table(old(self).world), surface.0, *data);
                }
                r
            },
            None => Err(SurfaceError::NoSuchSurface),
        }
    }
    /// The surface's role, in place.
    pub fn role_mut(&mut self, surface: EntityData) -> (r: Option<&mut Role>)
        ensures
            r.is_some() == old(self)@.contains_key(surface.0),
            r.is_some() ==> r.unwrap().tag() == old(self)@[surface.0].role,
            r.is_some() ==> final(self)@ == old(self)@.insert(
                surface.0,
                SurfaceView { role: final(r.unwrap()).tag(), ..old(self)@[surface.0] },
            ),
            r.is_none() ==> final(self)@ == old(self)@,
    {
        match surface_mut(&mut self.world, surface.0) {
            Some(data) => {
                proof {
                    lemma_views_insert(surface_table(old(self).world), surface.0, *final(data));
                }
                let role = data.role_mut();
                Some(role)
            },
            None => None,
        }
    }

    /// The surface's committed state, in place, for rendering to read and to
    /// drain damage from.
    pub fn buffer_mut(&mut self, surface: EntityData) -> (r: Option<&mut Buffer>)
        ensures
            r.is_some() == old(self)@.contains_key(surface.0),
            r.is_some() ==> r.unwrap()@ == old(self)@[surface.0].current,
            r.is_some() ==> final(self)@ == old(self)@.insert(
                surface.0,
                SurfaceView { current: final(r.unwrap())@, ..old(self)@[surface.0] },
            ),
            r.is_none() ==> final(self)@ == old(self)@,
    {
        match surface_mut(&mut self.world, surface.0) {
            Some(data) => {
                proof {
                    lemma_views_insert(surface_table(old(self).world), surface.0, *final(data));
                }
                let buffer = data.buffer_mut();
                Some(buffer)
            },
            None => None,
        }
    }

    /// A copy of the surface's pre-commit hooks, in registration order, taken
    /// before any of them runs.
    pub fn pre_commit_hooks(&mut self, surface: EntityData) -> (r: Option<Vec<HookId>>)
        ensures
            r.is_some() == old(self)@.contains_key(surface.0),
            r.is_some() ==> r.unwrap()@ == old(self)@[surface.0].hooks.pre_commit,
            final(self)@ == old(self)@,
    {
        match surface_mut(&mut self.world, surface.0) {
            Some(data) => {
                let hooks = data.pre_commit_hooks();
                proof {
                    lemma_views_insert(surface_table(old(self).world), surface.0, *data);
                    assert(surface_table(old(self).world).insert(surface.0, *data) =~= surface_table(old(self).world));
                }
                Some(hooks)
            },
            None => None,
        }
    }

    /// The transfer step of a commit, after the pre-commit hooks have run:
    /// the pending state becomes the committed state. Returns a copy of the
    /// post-commit hooks, in registration order, to run next.
    ///
    /// A pre-commit hook that rejects the pending state does so by raising a
    /// protocol error on its object; the pipeline does not stop for it, so the
    /// transfer and the post-commit hooks still run for that commit.
    pub fn commit(&mut self, surface: EntityData) -> (r: Option<Vec<HookId>>)
        ensures
            r.is_some() == old(self)@.contains_key(surface.0),
            r.is_some() ==> r.unwrap()@ == old(self)@[surface.0].hooks.post_commit,
            r.is_some() ==> final(self)@ == old(self)@.insert(surface.0, committed_after(old(self)@[surface.0])),
            r.is_none() ==> final(self)@ == old(self)@,
    {
        match surface_mut(&mut self.world, surface.0) {
            Some(data) => {
                data.commit_pending();
                let hooks = data.post_commit_hooks();
                proof {
                    lemma_views_insert(surface_table(old(self).world), surface.0, *data);
                }
                Some(hooks)
            },
            None => None,
        }
    }

    /// A copy of the surface's destroy hooks, in registration order.
    pub fn destroy_hooks(&mut self, surface: EntityData) -> (r: Option<Vec<HookId>>)
        ensures
            r.is_some() == old(self)@.contains_key(surface.0),
            r.is_some() ==> r.unwrap()@ == old(self)@[surface.0].hooks.destroy,
            final(self)@ == old(self)@,
    {
        match surface_mut(&mut self.world, surface.0) {
            Some(data) => {
                let hooks = data.destroy_hooks();
                proof {
                    lemma_views_insert(surface_table(old(self).world), surface.0, *data);
                    assert(surface_table(old(self).world).insert(surface.0, *data) =~= surface_table(old(self).world));
                }
                Some(hooks)
            },
            None => None,
        }
    }

    /// Appends a pre-commit hook to the surface's list.
    pub fn add_pre_commit(&mut self, surface: EntityData, hook: HookId) -> (r: Result<(), NoSuchSurface>)
        ensures
            r.is_ok() == old(self)@.contains_key(surface.0),
            r.is_ok() ==> final(self)@ == old(self)@.insert(surface.0, with_pre_commit(old(self)@[surface.0], hook)),
            r.is_err() ==> final(self)@ == old(self)@,
    {
        match surface_mut(&mut self.world, surface.0) {
            Some(data) => {
                data.add_pre_commit(hook);
                proof {
                    lemma_views_insert(surface_table(old(self).world), surface.0, *data);
                }
                Ok(())
            },
            None => Err(NoSuchSurface),
        }
    }

    /// Appends a post-commit hook to the surface's list.
    pub fn add_post_commit(&mut self, surface: EntityData, hook: HookId) -> (r: Result<(), NoSuchSurface>)
        ensures
            r.is_ok() == old(self)@.contains_key(surface.0),
            r.is_ok() ==> final(self)@ == old(self)@.insert(surface.0, with_post_commit(old(self)@[surface.0], hook)),
            r.is_err() ==> final(self)@ == old(self)@,
    {
        match surface_mut(&mut self.world, surface.0) {
            Some(data) => {
                data.add_post_commit(hook);
                proof {
                    lemma_views_insert(surface_table(old(self).world), surface.0, *data);
                }
                Ok(())
            },
            None => Err(NoSuchSurface),
        }
    }

    /// Appends a destroy hook to the surface's list.
    pub fn add_destroy(&mut self, surface: EntityData, hook: HookId) -> (r: Result<(), NoSuchSurface>)
        ensures
            r.is_ok() == old(self)@.contains_key(surface.0),
            r.is_ok() ==> final(self)@ == old(self)@.insert(surface.0, with_destroy(old(self)@[surface.0], hook)),
            r.is_err() ==> final(self)@ == old(self)@,
    {
        match surface_mut(&mut self.world, surface.0) {
            Some(data) => {
                data.add_destroy(hook);
                proof {
                    lemma_views_insert(surface_table(old(self).world), surface.0, *data);
                }
                Ok(())
            },
            None => Err(NoSuchSurface),
        }
    }

    /// Gives `surface` the subsurface role with `parent` as its parent, in
    /// synchronized mode; fails, changing nothing, if it already has a role.
    pub fn make_subsurface(&mut self, surface: EntityData, parent: EntityData) -> (r: Result<(), SubsurfaceError>)
        ensures
            !old(self)@.contains_key(surface.0) ==> r == Err::<(), SubsurfaceError>(SubsurfaceError::NoSuchSurface)
                && final(self)@ == old(self)@,
            old(self)@.contains_key(surface.0) ==> {
                &&& r.is_ok() == old(self)@[surface.0].role.is_none()
                &&& r.is_err() ==> r == Err::<(), SubsurfaceError>(SubsurfaceError::AlreadyHasRole)
                &&& final(self)@ == old(self)@.insert(surface.0, subsurface_after(old(self)@[surface.0], parent.0))
            },
    {
        match surface_mut(&mut self.world, surface.0) {
            Some(data) => {
                let r = data.make_subsurface(parent.0);
                proof {
                    lemma_views_insert(surface_table(old(self).world), surface.0, *data);
                }
                match r {
                    Ok(()) => Ok(()),
                    Err(AlreadyHasRole) => Err(SubsurfaceError::AlreadyHasRole),
                }
            },
            None => Err(SubsurfaceError::NoSuchSurface),
        }
    }

    /// The parent of a subsurface, while the parent is alive; `None` for a
    /// surface without the subsurface data or whose parent is gone.
    pub fn subsurface_parent(&mut self, surface: EntityData) -> (r: Option<EntityData>)
        ensures
            r == (if old(self)@.contains_key(surface.0) && old(self)@[surface.0].subsurface.is_some()
                && old(self)@.contains_key(old(self)@[surface.0].subsurface.unwrap().parent) {
                Some(EntityData(old(self)@[surface.0].subsurface.unwrap().parent))
            } else {
                None
            }),
            final(self)@ == old(self)@,
    {
        let sub = match surface_mut(&mut self.world, surface.0) {
            Some(data) => {
                let sub = data.subsurface();
                proof {
                    lemma_views_insert(surface_table(old(self).world), surface.0, *data);
                    assert(surface_table(old(self).world).insert(surface.0, *data) =~= surface_table(old(self).world));
                }
                sub
            },
            None => None,
        };
        match sub {
            Some(s) => {
                let parent = EntityData(s.parent);
                if self.contains(parent) {
                    Some(parent)
                } else {
                    None
                }
            },
            None => None,
        }
    }

    /// Drops the surface's entity and all its components.
    pub fn remove_surface(&mut self, surface: EntityData) -> (r: bool)
        ensures
            final(self)@ == old(self)@.remove(surface.0),
            old(self)@.contains_key(surface.0) ==> r,
    {
        let r = despawn_entity(&mut self.world, surface.0);
        proof {
            lemma_views_remove(surface_table(old(self).world), surface.0);
        }
        r
    }
}

/// The entity holds no surface.
#[derive(Clone, Copy, Debug, PartialEq, Eq, Structural)]
pub struct NoSuchSurface;

/// Why a surface could not be made a subsurface.
#[derive(Clone, Copy, Debug, PartialEq, Eq, Structural)]
pub enum SubsurfaceError {
    NoSuchSurface,
    AlreadyHasRole,
}

} // verus!
