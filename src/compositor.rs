use vstd::prelude::*;

use std::collections::HashMap;

use wayland_server::protocol::wl_surface::WlSurface;

use crate::ecs::{Ecs, EntityData, NoSuchSurface};
use crate::surface::{with_destroy, with_post_commit, with_pre_commit, HookId, SurfaceView};

verus! {

broadcast use vstd::std_specs::hash::group_hash_axioms;

#[verifier::external_type_specification]
#[verifier::external_body]
pub struct ExWlSurface(WlSurface);

/// The surface registry: the live protocol object of each surface entity.
pub struct Compositor {
    surfaces: HashMap<u64, WlSurface>,
}

impl View for Compositor {
    type V = Map<u64, WlSurface>;

    closed spec fn view(&self) -> Map<u64, WlSurface> {
        self.surfaces@
    }
}

/// The destroy hooks to run for a surface whose components are `surfaces`:
/// its destroy list, or none once its components are gone.
pub open spec fn destroy_hooks_of(surfaces: Map<u64, SurfaceView>, id: u64) -> Seq<HookId> {
    if surfaces.contains_key(id) {
        surfaces[id].hooks.destroy
    } else {
        Seq::empty()
    }
}

impl Compositor {
    /// An empty registry.
    pub fn new() -> (r: Compositor)
        ensures
            r@ == Map::<u64, WlSurface>::empty(),
    {
        Compositor { surfaces: HashMap::new() }
    }

    /// Records the protocol object of a newly created surface.
    pub fn register(&mut self, surface: EntityData, object: WlSurface) -> (r: Option<WlSurface>)
        ensures
            final(self)@ == old(self)@.insert(surface.0, object),
            r == old(self)@.get(surface.0),
    {
        self.surfaces.insert(surface.0, object)
    }

    /// The protocol object of a live surface.
    pub fn surface(&self, surface: EntityData) -> (r: Option<&WlSurface>)
        ensures
            r.is_some() == self@.contains_key(surface.0),
            r.is_some() ==> *r.unwrap() == self@[surface.0],
    {
        self.surfaces.get(&surface.0)
    }

    /// Whether the surface is registered.
    pub fn contains(&self, surface: EntityData) -> (r: bool)
        ensures
            r == self@.contains_key(surface.0),
    {
        self.surfaces.contains_key(&surface.0)
    }

    /// The first step of destroying a surface: it leaves the registry, and
    /// its protocol object is returned with a copy of its destroy hooks, in
    /// registration order. Its components stay in `ecs` so that the hooks can
    /// query them; `Ecs::remove_surface` drops them afterwards. A surface that
    /// is not registered, such as one destroyed before, gives `None`.
    pub fn destroy(&mut self, ecs: &mut Ecs, surface: EntityData) -> (r: Option<(WlSurface, Vec<HookId>)>)
        ensures
            r.is_some() == old(self)@.contains_key(surface.0),
            final(self)@ == old(self)@.remove(surface.0),
            final(ecs)@ == old(ecs)@,
            r.is_some() ==> r.unwrap().0 == old(self)@[surface.0],
            r.is_some() ==> r.unwrap().1@ == destroy_hooks_of(old(ecs)@, surface.0),
    {
        match self.surfaces.remove(&surface.0) {
            Some(object) => {
                let hooks = match ecs.destroy_hooks(surface) {
                    Some(hooks) => hooks,
                    None => Vec::new(),
                };
                Some((object, hooks))
            },
            None => None,
        }
    }

    /// Appends a pre-commit hook to the surface's list.
    pub fn add_pre_commit(ecs: &mut Ecs, surface: EntityData, hook: HookId) -> (r: Result<(), NoSuchSurface>)
        ensures
            r.is_ok() == old(ecs)@.contains_key(surface.0),
            r.is_ok() ==> final(ecs)@ == old(ecs)@.insert(surface.0, with_pre_commit(old(ecs)@[surface.0], hook)),
            r.is_err() ==> final(ecs)@ == old(ecs)@,
    {
        ecs.add_pre_commit(surface, hook)
    }

    /// Appends a post-commit hook to the surface's list.
    pub fn add_post_commit(ecs: &mut Ecs, surface: EntityData, hook: HookId) -> (r: Result<(), NoSuchSurface>)
        ensures
            r.is_ok() == old(ecs)@.contains_key(surface.0),
            r.is_ok() ==> final(ecs)@ == old(ecs)@.insert(surface.0, with_post_commit(old(ecs)@[surface.0], hook)),
            r.is_err() ==> final(ecs)@ == old(ecs)@,
    {
        ecs.add_post_commit(surface, hook)
    }

    /// Appends a destroy hook to the surface's list.
    pub fn add_destroy(ecs: &mut Ecs, surface: EntityData, hook: HookId) -> (r: Result<(), NoSuchSurface>)
        ensures
            r.is_ok() == old(ecs)@.contains_key(surface.0),
            r.is_ok() ==> final(ecs)@ == old(ecs)@.insert(surface.0, with_destroy(old(ecs)@[surface.0], hook)),
            r.is_err() ==> final(ecs)@ == old(ecs)@,
    {
        ecs.add_destroy(surface, hook)
    }
}

/// Destroy hooks are handed out once per surface: `destroy` on a registered
/// surface hands them out and leaves a registry without it, on which a
/// second `destroy` hands out nothing; the components stay, so the hooks see
/// the surface's state.
pub proof fn lemma_destroy_once(registry: Map<u64, WlSurface>, surfaces: Map<u64, SurfaceView>, id: u64)
    requires
        registry.contains_key(id),
        surfaces.contains_key(id),
    ensures
        !registry.remove(id).contains_key(id),
        destroy_hooks_of(surfaces, id) == surfaces[id].hooks.destroy,
{
}

} // verus!
