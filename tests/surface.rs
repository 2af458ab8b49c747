use smithay_ecs::commit::CommitAction;
use smithay_ecs::compositor::Compositor;
use smithay_ecs::ecs::{NoSuchSurface, SubsurfaceError};
use smithay_ecs::geometry::{Point, Rect};
use smithay_ecs::region::RegionAttributes;
use smithay_ecs::surface::{BufferAssignment, Damage, HookId, SurfaceError, SurfaceRequest, Transform};
use smithay_ecs::{Ecs, EntityData};

fn is_removed(b: &Option<BufferAssignment>) -> bool {
    matches!(b, Some(BufferAssignment::Removed))
}

#[test]
fn new_surface_defaults() {
    let mut ecs = Ecs::new();
    let s = ecs.create_surface();
    assert!(ecs.contains(s));
    assert_eq!(ecs.role_mut(s).unwrap().role(), None);
    let buffer = ecs.buffer_mut(s).unwrap();
    assert!(buffer.buffer().is_none());
    assert_eq!(buffer.delta(), None);
    assert_eq!(buffer.scale(), 1);
    assert_eq!(buffer.transform(), Transform::Normal);
    assert!(buffer.damage().is_empty());
}

#[test]
fn surfaces_are_distinct() {
    let mut ecs = Ecs::new();
    let a = ecs.create_surface();
    let b = ecs.create_surface();
    assert_ne!(a, b);
    ecs.apply_request(a, 4, SurfaceRequest::SetBufferScale(3)).unwrap();
    ecs.commit(a).unwrap();
    ecs.commit(b).unwrap();
    assert_eq!(ecs.buffer_mut(a).unwrap().scale(), 3);
    assert_eq!(ecs.buffer_mut(b).unwrap().scale(), 1);
}

#[test]
fn commit_applies_pending_state() {
    let mut ecs = Ecs::new();
    let s = ecs.create_surface();
    ecs.apply_request(s, 4, SurfaceRequest::Attach { buffer: None, x: 3, y: -2 }).unwrap();
    ecs.apply_request(s, 4, SurfaceRequest::SetBufferScale(2)).unwrap();
    ecs.apply_request(s, 4, SurfaceRequest::SetBufferTransform(Transform::Rotate90)).unwrap();
    ecs.apply_request(s, 4, SurfaceRequest::Damage(Rect::new(1, 2, 3, 4))).unwrap();
    ecs.commit(s).unwrap();
    let buffer = ecs.buffer_mut(s).unwrap();
    assert!(is_removed(&buffer.buffer()));
    assert_eq!(buffer.delta(), Some(Point::new(3, -2)));
    assert_eq!(buffer.scale(), 2);
    assert_eq!(buffer.transform(), Transform::Rotate90);
    assert_eq!(*buffer.damage(), vec![Damage::Surface(Rect::new(1, 2, 3, 4))]);
}

#[test]
fn requests_after_commit_do_not_touch_committed_state() {
    let mut ecs = Ecs::new();
    let s = ecs.create_surface();
    ecs.apply_request(s, 4, SurfaceRequest::SetBufferScale(2)).unwrap();
    ecs.commit(s).unwrap();
    ecs.apply_request(s, 4, SurfaceRequest::SetBufferScale(3)).unwrap();
    ecs.apply_request(s, 4, SurfaceRequest::Offset { x: 5, y: 5 }).unwrap();
    ecs.apply_request(s, 4, SurfaceRequest::DamageBuffer(Rect::new(0, 0, 1, 1))).unwrap();
    ecs.apply_request(s, 4, SurfaceRequest::SetOpaqueRegion(Some(RegionAttributes::new()))).unwrap();
    ecs.apply_request(s, 4, SurfaceRequest::SetInputRegion(None)).unwrap();
    {
        let buffer = ecs.buffer_mut(s).unwrap();
        assert_eq!(buffer.scale(), 2);
        assert_eq!(buffer.delta(), None);
        assert!(buffer.damage().is_empty());
    }
    ecs.commit(s).unwrap();
    let buffer = ecs.buffer_mut(s).unwrap();
    assert_eq!(buffer.scale(), 3);
    assert_eq!(buffer.delta(), Some(Point::new(5, 5)));
    assert_eq!(*buffer.damage(), vec![Damage::Buffer(Rect::new(0, 0, 1, 1))]);
}

#[test]
fn buffer_and_offset_are_single_shot() {
    let mut ecs = Ecs::new();
    let s = ecs.create_surface();
    ecs.apply_request(s, 4, SurfaceRequest::Attach { buffer: None, x: 1, y: 1 }).unwrap();
    ecs.commit(s).unwrap();
    ecs.commit(s).unwrap();
    let buffer = ecs.buffer_mut(s).unwrap();
    assert!(buffer.buffer().is_none());
    assert_eq!(buffer.delta(), None);
    assert_eq!(buffer.scale(), 1);
}

#[test]
fn damage_accumulates_across_commits() {
    let mut ecs = Ecs::new();
    let s = ecs.create_surface();
    let a = Rect::new(0, 0, 10, 10);
    let b = Rect::new(20, 20, 5, 5);
    ecs.apply_request(s, 4, SurfaceRequest::Damage(a)).unwrap();
    ecs.commit(s).unwrap();
    ecs.apply_request(s, 4, SurfaceRequest::Damage(b)).unwrap();
    ecs.commit(s).unwrap();
    let buffer = ecs.buffer_mut(s).unwrap();
    assert_eq!(*buffer.damage(), vec![Damage::Surface(a), Damage::Surface(b)]);
    buffer.damage().clear();
    ecs.commit(s).unwrap();
    assert!(ecs.buffer_mut(s).unwrap().damage().is_empty());
}

#[test]
fn attach_offset_rejected_at_version_five() {
    let mut ecs = Ecs::new();
    let s = ecs.create_surface();
    let r = ecs.apply_request(s, 5, SurfaceRequest::Attach { buffer: None, x: 1, y: 0 });
    assert_eq!(r, Err(SurfaceError::InvalidOffset));
    ecs.commit(s).unwrap();
    let buffer = ecs.buffer_mut(s).unwrap();
    assert!(buffer.buffer().is_none());
    assert_eq!(buffer.delta(), None);
}

#[test]
fn attach_zero_offset_allowed_at_version_five() {
    let mut ecs = Ecs::new();
    let s = ecs.create_surface();
    ecs.apply_request(s, 5, SurfaceRequest::Offset { x: 4, y: 4 }).unwrap();
    assert_eq!(ecs.apply_request(s, 5, SurfaceRequest::Attach { buffer: None, x: 0, y: 0 }), Ok(()));
    ecs.commit(s).unwrap();
    let buffer = ecs.buffer_mut(s).unwrap();
    assert!(is_removed(&buffer.buffer()));
    assert_eq!(buffer.delta(), Some(Point::new(4, 4)));
}

#[test]
fn attach_offset_allowed_before_version_five() {
    let mut ecs = Ecs::new();
    let s = ecs.create_surface();
    assert_eq!(ecs.apply_request(s, 4, SurfaceRequest::Attach { buffer: None, x: 0, y: 7 }), Ok(()));
    ecs.commit(s).unwrap();
    assert_eq!(ecs.buffer_mut(s).unwrap().delta(), Some(Point::new(0, 7)));
}

#[test]
fn requests_on_missing_surface() {
    let mut ecs = Ecs::new();
    let missing = EntityData(12345);
    assert_eq!(ecs.apply_request(missing, 4, SurfaceRequest::SetBufferScale(2)), Err(SurfaceError::NoSuchSurface));
    assert!(ecs.commit(missing).is_none());
    assert!(ecs.pre_commit_hooks(missing).is_none());
    assert!(ecs.destroy_hooks(missing).is_none());
    assert!(ecs.buffer_mut(missing).is_none());
    assert_eq!(Compositor::add_pre_commit(&mut ecs, missing, HookId(1)), Err(NoSuchSurface));
    assert_eq!(ecs.make_subsurface(missing, missing), Err(SubsurfaceError::NoSuchSurface));
}

/// Runs a commit the way a dispatcher does, recording each action.
fn commit_with_trace(ecs: &mut Ecs, s: EntityData, trace: &mut Vec<CommitAction>) {
    let mut run = ecs.begin_commit(s).unwrap();
    while let Some(action) = ecs.next_commit_step(&mut run) {
        trace.push(action);
    }
}

#[test]
fn hooks_run_in_registration_order() {
    let mut ecs = Ecs::new();
    let s = ecs.create_surface();
    Compositor::add_pre_commit(&mut ecs, s, HookId(1)).unwrap();
    Compositor::add_post_commit(&mut ecs, s, HookId(3)).unwrap();
    Compositor::add_pre_commit(&mut ecs, s, HookId(2)).unwrap();
    Compositor::add_post_commit(&mut ecs, s, HookId(4)).unwrap();
    let mut trace = Vec::new();
    commit_with_trace(&mut ecs, s, &mut trace);
    commit_with_trace(&mut ecs, s, &mut trace);
    let once = vec![
        CommitAction::RunHook(HookId(1)),
        CommitAction::RunHook(HookId(2)),
        CommitAction::RunHook(HookId(3)),
        CommitAction::RunHook(HookId(4)),
        CommitAction::Committed,
    ];
    let twice: Vec<_> = once.iter().chain(once.iter()).cloned().collect();
    assert_eq!(trace, twice);
}

#[test]
fn transfer_happens_between_pre_and_post_hooks() {
    let mut ecs = Ecs::new();
    let s = ecs.create_surface();
    Compositor::add_pre_commit(&mut ecs, s, HookId(1)).unwrap();
    Compositor::add_post_commit(&mut ecs, s, HookId(2)).unwrap();
    ecs.apply_request(s, 4, SurfaceRequest::SetBufferScale(4)).unwrap();
    let mut run = ecs.begin_commit(s).unwrap();
    assert_eq!(ecs.next_commit_step(&mut run), Some(CommitAction::RunHook(HookId(1))));
    assert_eq!(ecs.buffer_mut(s).unwrap().scale(), 1);
    assert_eq!(ecs.next_commit_step(&mut run), Some(CommitAction::RunHook(HookId(2))));
    assert_eq!(ecs.buffer_mut(s).unwrap().scale(), 4);
    assert_eq!(ecs.next_commit_step(&mut run), Some(CommitAction::Committed));
    assert_eq!(ecs.next_commit_step(&mut run), None);
    assert_eq!(ecs.next_commit_step(&mut run), None);
}

#[test]
fn pre_commit_hook_sees_its_changes_committed() {
    let mut ecs = Ecs::new();
    let s = ecs.create_surface();
    Compositor::add_pre_commit(&mut ecs, s, HookId(1)).unwrap();
    let mut run = ecs.begin_commit(s).unwrap();
    assert_eq!(ecs.next_commit_step(&mut run), Some(CommitAction::RunHook(HookId(1))));
    // the hook adjusts the pending state and registers a post-commit hook
    ecs.apply_request(s, 4, SurfaceRequest::Offset { x: 2, y: 3 }).unwrap();
    Compositor::add_post_commit(&mut ecs, s, HookId(9)).unwrap();
    Compositor::add_pre_commit(&mut ecs, s, HookId(5)).unwrap();
    assert_eq!(ecs.next_commit_step(&mut run), Some(CommitAction::RunHook(HookId(9))));
    assert_eq!(ecs.buffer_mut(s).unwrap().delta(), Some(Point::new(2, 3)));
    assert_eq!(ecs.next_commit_step(&mut run), Some(CommitAction::Committed));
    assert_eq!(ecs.pre_commit_hooks(s).unwrap(), vec![HookId(1), HookId(5)]);
}

#[test]
fn commit_without_hooks_reports_once() {
    let mut ecs = Ecs::new();
    let s = ecs.create_surface();
    let mut trace = Vec::new();
    commit_with_trace(&mut ecs, s, &mut trace);
    assert_eq!(trace, vec![CommitAction::Committed]);
}

#[test]
fn commit_of_surface_destroyed_by_hook_ends() {
    let mut ecs = Ecs::new();
    let s = ecs.create_surface();
    Compositor::add_pre_commit(&mut ecs, s, HookId(1)).unwrap();
    let mut run = ecs.begin_commit(s).unwrap();
    assert_eq!(ecs.next_commit_step(&mut run), Some(CommitAction::RunHook(HookId(1))));
    ecs.remove_surface(s);
    assert_eq!(ecs.next_commit_step(&mut run), None);
    assert!(ecs.begin_commit(s).is_none());
}

#[test]
fn hooks_are_not_deduplicated() {
    let mut ecs = Ecs::new();
    let s = ecs.create_surface();
    Compositor::add_destroy(&mut ecs, s, HookId(7)).unwrap();
    Compositor::add_destroy(&mut ecs, s, HookId(7)).unwrap();
    Compositor::add_destroy(&mut ecs, s, HookId(8)).unwrap();
    assert_eq!(ecs.destroy_hooks(s).unwrap(), vec![HookId(7), HookId(7), HookId(8)]);
}

#[test]
fn removed_surface_is_gone() {
    let mut ecs = Ecs::new();
    let s = ecs.create_surface();
    Compositor::add_destroy(&mut ecs, s, HookId(1)).unwrap();
    assert_eq!(ecs.destroy_hooks(s).unwrap(), vec![HookId(1)]);
    assert!(ecs.contains(s));
    assert!(ecs.remove_surface(s));
    assert!(!ecs.contains(s));
    assert!(ecs.destroy_hooks(s).is_none());
    assert!(!ecs.remove_surface(s));
    let t = ecs.create_surface();
    assert_ne!(s, t);
    assert!(!ecs.contains(s));
}

#[test]
fn subsurface_parent_resolves_while_alive() {
    let mut ecs = Ecs::new();
    let parent = ecs.create_surface();
    let child = ecs.create_surface();
    assert_eq!(ecs.subsurface_parent(child), None);
    ecs.make_subsurface(child, parent).unwrap();
    assert_eq!(ecs.subsurface_parent(child), Some(parent));
    ecs.remove_surface(parent);
    assert_eq!(ecs.subsurface_parent(child), None);
}

#[test]
fn empty_registry() {
    let registry = Compositor::new();
    let mut ecs = Ecs::new();
    let s = ecs.create_surface();
    assert!(!registry.contains(s));
    assert!(registry.surface(s).is_none());
}

#[test]
fn destroy_of_unregistered_surface_keeps_components() {
    let mut registry = Compositor::new();
    let mut ecs = Ecs::new();
    let s = ecs.create_surface();
    Compositor::add_destroy(&mut ecs, s, HookId(1)).unwrap();
    assert!(registry.destroy(&mut ecs, s).is_none());
    assert_eq!(ecs.destroy_hooks(s).unwrap(), vec![HookId(1)]);
}

#[test]
fn extensions_attach_their_own_components() {
    let mut ecs = Ecs::new();
    let s = ecs.create_surface();
    let entity = hecs::Entity::from_bits(s.0).unwrap();
    ecs.world().insert_one(entity, 42u32).unwrap();
    ecs.apply_request(s, 4, SurfaceRequest::SetBufferScale(2)).unwrap();
    ecs.commit(s).unwrap();
    assert_eq!(ecs.buffer_mut(s).unwrap().scale(), 2);
    assert_eq!(*ecs.world().query_one_mut::<&u32>(entity).unwrap(), 42);
    let other = ecs.world().spawn((7u8,));
    assert!(!ecs.contains(EntityData(other.to_bits().get())));
}
