use vstd::prelude::*;

use crate::ecs::{Ecs, EntityData};
use crate::role::role_after_set;
use crate::surface::SurfaceView;

verus! {

/// The xdg-shell extension's roles.
#[derive(Debug)]
pub struct XdgShell {}

/// Why an xdg-shell role request was refused.
#[derive(Clone, Copy, Debug, PartialEq, Eq, Structural)]
pub enum XdgRoleError {
    /// The entity holds no surface.
    NoSuchSurface,
    /// The surface already has a role.
    AlreadyHasRole,
    /// The surface's role is not the generic xdg surface role.
    NotXdgSurface,
}

impl XdgShell {
    pub const SURFACE_ROLE: &'static str = "xdg_surface";

    pub const TOPLEVEL_ROLE: &'static str = "xdg_toplevel";

    pub fn new() -> (r: XdgShell) {
        XdgShell {}
    }

    /// Gives a surface the generic xdg surface role; fails, changing nothing,
    /// if it already has a role.
    pub fn assign_surface_role(ecs: &mut Ecs, surface: EntityData) -> (r: Result<(), XdgRoleError>)
        ensures
            !old(ecs)@.contains_key(surface.0) ==> r == Err::<(), XdgRoleError>(XdgRoleError::NoSuchSurface)
                && final(ecs)@ == old(ecs)@,
            old(ecs)@.contains_key(surface.0) ==> {
                &&& r.is_ok() == old(ecs)@[surface.0].role.is_none()
                &&& r.is_err() ==> r == Err::<(), XdgRoleError>(XdgRoleError::AlreadyHasRole)
                &&& final(ecs)@ == old(ecs)@.insert(
                    surface.0,
                    SurfaceView {
                        role: role_after_set(old(ecs)@[surface.0].role, XdgShell::SURFACE_ROLE),
                        ..old(ecs)@[surface.0]
                    },
                )
            },
    {
        match ecs.role_mut(surface) {
            Some(role) => match role.set_role(XdgShell::SURFACE_ROLE) {
                Ok(()) => Ok(()),
                Err(_) => Err(XdgRoleError::AlreadyHasRole),
            },
            None => Err(XdgRoleError::NoSuchSurface),
        }
    }

    /// Specializes a surface's generic xdg surface role into the toplevel
    /// role; fails, changing nothing, if its role is another one or unset.
    pub fn assign_toplevel_role(ecs: &mut Ecs, surface: EntityData) -> (r: Result<(), XdgRoleError>)
        ensures
            !old(ecs)@.contains_key(surface.0) ==> r == Err::<(), XdgRoleError>(XdgRoleError::NoSuchSurface)
                && final(ecs)@ == old(ecs)@,
            old(ecs)@.contains_key(surface.0) ==> {
                let role = old(ecs)@[surface.0].role;
                let specialized = role.is_some() && role.unwrap()@ == XdgShell::SURFACE_ROLE@;
                &&& r.is_ok() == specialized
                &&& r.is_err() ==> r == Err::<(), XdgRoleError>(XdgRoleError::NotXdgSurface)
                &&& final(ecs)@ == if specialized {
                    old(ecs)@.insert(
                        surface.0,
                        SurfaceView { role: Some(XdgShell::TOPLEVEL_ROLE), ..old(ecs)@[surface.0] },
                    )
                } else {
                    old(ecs)@
                }
            },
    {
        match ecs.role_mut(surface) {
            Some(role) => {
                if role.is(XdgShell::SURFACE_ROLE) {
                    role.replace_role(XdgShell::TOPLEVEL_ROLE);
                    Ok(())
                } else {
                    Err(XdgRoleError::NotXdgSurface)
                }
            },
            None => Err(XdgRoleError::NoSuchSurface),
        }
    }
}

} // verus!
