use smithay_ecs::role::{str_equal, Role};
use smithay_ecs::surface::Subsurface;
use smithay_ecs::xdg_shell::{XdgRoleError, XdgShell};
use smithay_ecs::{Ecs, EntityData};

#[test]
fn set_role_succeeds_once() {
    let mut role = Role::new();
    assert_eq!(role.role(), None);
    assert!(role.set_role("subsurface").is_ok());
    assert_eq!(role.role(), Some("subsurface"));
    assert!(role.set_role("xdg_surface").is_err());
    assert!(role.set_role("subsurface").is_err());
    assert_eq!(role.role(), Some("subsurface"));
}

#[test]
fn replace_role_after_set() {
    let mut role = Role::new();
    role.set_role(XdgShell::SURFACE_ROLE).unwrap();
    role.replace_role(XdgShell::TOPLEVEL_ROLE);
    assert_eq!(role.role(), Some("xdg_toplevel"));
    assert!(role.set_role("other").is_err());
}

#[test]
fn role_is_compares_characters() {
    let mut role = Role::new();
    assert!(!role.is("xdg_surface"));
    role.set_role("xdg_surface").unwrap();
    let owned = String::from("xdg_") + "surface";
    assert!(role.is(&owned));
    assert!(!role.is("xdg_surfac"));
    assert!(!role.is("xdg_toplevel"));
}

#[test]
fn str_equal_cases() {
    assert!(str_equal("", ""));
    assert!(str_equal("abc", "abc"));
    assert!(!str_equal("abc", "abd"));
    assert!(!str_equal("abc", "ab"));
    assert!(str_equal("é", "é"));
}

#[test]
fn xdg_toplevel_needs_xdg_surface() {
    let mut ecs = Ecs::new();
    let s = ecs.create_surface();
    assert_eq!(XdgShell::assign_toplevel_role(&mut ecs, s), Err(XdgRoleError::NotXdgSurface));
    assert_eq!(XdgShell::assign_surface_role(&mut ecs, s), Ok(()));
    assert_eq!(XdgShell::assign_surface_role(&mut ecs, s), Err(XdgRoleError::AlreadyHasRole));
    assert_eq!(XdgShell::assign_toplevel_role(&mut ecs, s), Ok(()));
    assert_eq!(ecs.role_mut(s).unwrap().role(), Some(XdgShell::TOPLEVEL_ROLE));
    assert_eq!(XdgShell::assign_toplevel_role(&mut ecs, s), Err(XdgRoleError::NotXdgSurface));
}

#[test]
fn xdg_role_on_missing_surface() {
    let mut ecs = Ecs::new();
    let s = ecs.create_surface();
    assert!(ecs.remove_surface(s));
    assert_eq!(XdgShell::assign_surface_role(&mut ecs, s), Err(XdgRoleError::NoSuchSurface));
    assert_eq!(XdgShell::assign_toplevel_role(&mut ecs, s), Err(XdgRoleError::NoSuchSurface));
    assert!(ecs.role_mut(EntityData(0)).is_none());
}

#[test]
fn subsurface_role_is_exclusive() {
    let mut ecs = Ecs::new();
    let parent = ecs.create_surface();
    let child = ecs.create_surface();
    assert!(XdgShell::assign_surface_role(&mut ecs, parent).is_ok());
    assert!(ecs.make_subsurface(parent, child).is_err());
    assert!(ecs.make_subsurface(child, parent).is_ok());
    assert_eq!(ecs.role_mut(child).unwrap().role(), Some(Subsurface::ROLE));
    assert!(ecs.make_subsurface(child, parent).is_err());
}
