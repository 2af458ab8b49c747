use vstd::prelude::*;

use wayland_server::protocol::wl_buffer::WlBuffer;
use wayland_server::protocol::wl_callback::WlCallback;

use crate::geometry::{Point, Rect};
use crate::region::{RectangleKind, RegionAttributes};
use crate::role::{AlreadyHasRole, Role};

verus! {

#[verifier::external_type_specification]
#[verifier::external_body]
pub struct ExWlBuffer(WlBuffer);

#[verifier::external_type_specification]
#[verifier::external_body]
pub struct ExWlCallback(WlCallback);

/// Relies on the `Clone` impl of `WlBuffer`, which copies the handle; nothing
/// is claimed of the copy.
pub assume_specification[ <WlBuffer as Clone>::clone ](b: &WlBuffer) -> WlBuffer;

/// How the client transformed the buffer's contents.
#[derive(Clone, Copy, Debug, PartialEq, Eq, Structural)]
pub enum Transform {
    Normal,
    Rotate90,
    Rotate180,
    Rotate270,
    Flipped,
    Flipped90,
    Flipped180,
    Flipped270,
}

/// A damaged rectangle, in surface or in buffer coordinates.
#[derive(Clone, Copy, Debug, PartialEq, Eq, Structural)]
pub enum Damage {
    Surface(Rect),
    Buffer(Rect),
}

/// What a commit does to the surface's buffer.
#[derive(Debug, Clone)]
pub enum BufferAssignment {
    /// A new buffer is attached.
    NewBuffer(WlBuffer),
    /// The buffer is removed.
    Removed,
}

/// An opaque handle to a hook registered by an extension.
#[derive(Clone, Copy, Debug, PartialEq, Eq, Structural)]
pub struct HookId(pub u64);

/// The committed state of a surface, as rendering sees it.
#[derive(Debug)]
pub struct Buffer {
    buffer: Option<BufferAssignment>,
    delta: Option<Point>,
    scale: i32,
    transform: Transform,
    damage: Vec<Damage>,
}

/// The pending state of a surface, filled by requests until a commit.
#[derive(Debug)]
pub struct Pending {
    damage: Vec<Damage>,
    frame_callbacks: Vec<WlCallback>,
    transform: Transform,
    scale: i32,
    delta: Option<Point>,
    buffer: Option<BufferAssignment>,
    opaque_region: Option<RegionAttributes>,
    input_region: Option<RegionAttributes>,
}

/// The hooks of one surface, each list in the order of registration.
#[derive(Debug)]
pub struct Hooks {
    pre_commit: Vec<HookId>,
    post_commit: Vec<HookId>,
    destroy: Vec<HookId>,
}

/// The subsurface role's data: the parent surface and the sync flag.
#[derive(Clone, Copy, Debug, PartialEq, Eq, Structural)]
pub struct Subsurface {
    /// The entity bits of the parent surface.
    pub parent: u64,
    /// Whether the subsurface is in synchronized mode.
    pub sync: bool,
}

/// The core component of every surface entity.
#[derive(Debug)]
pub struct SurfaceData {
    role: Role,
    hooks: Hooks,
    pending: Pending,
    current: Buffer,
    subsurface: Option<Subsurface>,
}

/// A request on a surface other than commit and destroy.
#[derive(Debug)]
pub enum SurfaceRequest {
    Attach { buffer: Option<WlBuffer>, x: i32, y: i32 },
    Damage(Rect),
    DamageBuffer(Rect),
    Frame(WlCallback),
    SetOpaqueRegion(Option<RegionAttributes>),
    SetInputRegion(Option<RegionAttributes>),
    SetBufferTransform(Transform),
    SetBufferScale(i32),
    Offset { x: i32, y: i32 },
}

/// Why a surface request was not applied.
#[derive(Clone, Copy, Debug, PartialEq, Eq, Structural)]
pub enum SurfaceError {
    /// The entity holds no surface.
    NoSuchSurface,
    /// A non-zero offset was passed to attach at protocol version 5 or later.
    InvalidOffset,
}

/// The committed state as values: what rendering sees.
pub struct CommittedView {
    pub buffer: Option<BufferAssignment>,
    pub delta: Option<Point>,
    pub scale: i32,
    pub transform: Transform,
    pub damage: Seq<Damage>,
}

/// The pending state as values.
pub struct PendingView {
    pub damage: Seq<Damage>,
    pub frame_callbacks: Seq<WlCallback>,
    pub transform: Transform,
    pub scale: i32,
    pub delta: Option<Point>,
    pub buffer: Option<BufferAssignment>,
    pub opaque_region: Option<Seq<(RectangleKind, Rect)>>,
    pub input_region: Option<Seq<(RectangleKind, Rect)>>,
}

/// The hook lists as sequences, in registration order.
pub struct HooksView {
    pub pre_commit: Seq<HookId>,
    pub post_commit: Seq<HookId>,
    pub destroy: Seq<HookId>,
}

/// A surface's core component as values.
pub struct SurfaceView {
    pub role: Option<&'static str>,
    pub hooks: HooksView,
    pub pending: PendingView,
    pub current: CommittedView,
    pub subsurface: Option<Subsurface>,
}

impl View for Buffer {
    type V = CommittedView;

    closed spec fn view(&self) -> CommittedView {
        CommittedView {
            buffer: self.buffer,
            delta: self.delta,
            scale: self.scale,
            transform: self.transform,
            damage: self.damage@,
        }
    }
}

impl View for Pending {
    type V = PendingView;

    closed spec fn view(&self) -> PendingView {
        PendingView {
            damage: self.damage@,
            frame_callbacks: self.frame_callbacks@,
            transform: self.transform,
            scale: self.scale,
            delta: self.delta,
            buffer: self.buffer,
            opaque_region: region_rects(self.opaque_region),
            input_region: region_rects(self.input_region),
        }
    }
}

impl View for Hooks {
    type V = HooksView;

    closed spec fn view(&self) -> HooksView {
        HooksView {
            pre_commit: self.pre_commit@,
            post_commit: self.post_commit@,
            destroy: self.destroy@,
        }
    }
}

impl View for SurfaceData {
    type V = SurfaceView;

    closed spec fn view(&self) -> SurfaceView {
        SurfaceView {
            role: self.role.tag(),
            hooks: self.hooks@,
            pending: self.pending@,
            current: self.current@,
            subsurface: self.subsurface,
        }
    }
}

/// The rectangles of an optional region.
pub open spec fn region_rects(r: Option<RegionAttributes>) -> Option<Seq<(RectangleKind, Rect)>> {
    match r {
        Some(a) => Some(a.rects@),
        None => None,
    }
}

/// The committed state of a new surface.
pub open spec fn initial_committed() -> CommittedView {
    CommittedView {
        buffer: None,
        delta: None,
        scale: 1,
        transform: Transform::Normal,
        damage: Seq::empty(),
    }
}

/// The pending state of a new surface.
pub open spec fn initial_pending() -> PendingView {
    PendingView {
        damage: Seq::empty(),
        frame_callbacks: Seq::empty(),
        transform: Transform::Normal,
        scale: 1,
        delta: None,
        buffer: None,
        opaque_region: None,
        input_region: None,
    }
}

/// A new surface: no role, no hooks, default pending and committed state.
pub open spec fn initial_surface() -> SurfaceView {
    SurfaceView {
        role: None,
        hooks: HooksView {
            pre_commit: Seq::empty(),
            post_commit: Seq::empty(),
            destroy: Seq::empty(),
        },
        pending: initial_pending(),
        current: initial_committed(),
        subsurface: None,
    }
}

/// Whether `req` is an attach with a non-zero offset at a protocol version
/// where such offsets are a protocol violation.
pub open spec fn offset_rejected(version: u32, req: SurfaceRequest) -> bool {
    match req {
        SurfaceRequest::Attach { x, y, .. } => (x != 0 || y != 0) && version >= 5,
        _ => false,
    }
}

/// The pending state after `req` is applied to `p`.
pub open spec fn pending_after(p: PendingView, req: SurfaceRequest) -> PendingView {
    match req {
        SurfaceRequest::Attach { buffer, x, y } => PendingView {
            delta: if x != 0 || y != 0 {
                Some(Point { x, y })
            } else {
                p.delta
            },
            buffer: Some(
                match buffer {
                    Some(b) => BufferAssignment::NewBuffer(b),
                    None => BufferAssignment::Removed,
                },
            ),
            ..p
        },
        SurfaceRequest::Damage(r) => PendingView { damage: p.damage.push(Damage::Surface(r)), ..p },
        SurfaceRequest::DamageBuffer(r) => PendingView {
            damage: p.damage.push(Damage::Buffer(r)),
            ..p
        },
        SurfaceRequest::Frame(c) => PendingView {
            frame_callbacks: p.frame_callbacks.push(c),
            ..p
        },
        SurfaceRequest::SetOpaqueRegion(r) => PendingView { opaque_region: region_rects(r), ..p },
        SurfaceRequest::SetInputRegion(r) => PendingView { input_region: region_rects(r), ..p },
        SurfaceRequest::SetBufferTransform(t) => PendingView { transform: t, ..p },
        SurfaceRequest::SetBufferScale(s) => PendingView { scale: s, ..p },
        SurfaceRequest::Offset { x, y } => PendingView { delta: Some(Point { x, y }), ..p },
    }
}

/// The surface after `req`: unchanged when the request is rejected.
pub open spec fn surface_after_request(s: SurfaceView, version: u32, req: SurfaceRequest) -> SurfaceView {
    if offset_rejected(version, req) {
        s
    } else {
        SurfaceView { pending: pending_after(s.pending, req), ..s }
    }
}

/// The surface after each of `reqs`, in order.
pub open spec fn surface_after_requests(
    s: SurfaceView,
    version: u32,
    reqs: Seq<SurfaceRequest>,
) -> SurfaceView
    decreases reqs.len(),
{
    if reqs.len() == 0 {
        s
    } else {
        surface_after_request(surface_after_requests(s, version, reqs.drop_last()), version, reqs.last())
    }
}

/// The surface after a commit: buffer assignment, offset, scale and transform
/// are taken from the pending state, the pending damage is appended to the
/// committed damage, and the single-shot pending fields (buffer assignment,
/// offset, damage) are cleared.
pub open spec fn committed_after(s: SurfaceView) -> SurfaceView {
    SurfaceView {
        current: CommittedView {
            buffer: s.pending.buffer,
            delta: s.pending.delta,
            scale: s.pending.scale,
            transform: s.pending.transform,
            damage: s.current.damage + s.pending.damage,
        },
        pending: PendingView { buffer: None, delta: None, damage: Seq::empty(), ..s.pending },
        ..s
    }
}

impl Buffer {
    /// The committed state of a new surface.
    pub fn new() -> (r: Buffer)
        ensures
            r@ == initial_committed(),
    {
        Buffer { buffer: None, delta: None, scale: 1, transform: Transform::Normal, damage: Vec::new() }
    }

    /// The buffer assignment of the last commit; `None` if it attached nothing.
    pub fn buffer(&self) -> (r: Option<BufferAssignment>)
        ensures
            r.is_none() == self@.buffer.is_none(),
            (r == Some(BufferAssignment::Removed)) == (self@.buffer == Some(BufferAssignment::Removed)),
    {
        match &self.buffer {
            None => None,
            Some(BufferAssignment::Removed) => Some(BufferAssignment::Removed),
            Some(BufferAssignment::NewBuffer(b)) => Some(BufferAssignment::NewBuffer(b.clone())),
        }
    }

    /// The offset of the last commit, if it set one.
    pub fn delta(&self) -> (r: Option<Point>)
        ensures
            r == self@.delta,
    {
        self.delta
    }

    pub fn scale(&self) -> (r: i32)
        ensures
            r == self@.scale,
    {
        self.scale
    }

    pub fn transform(&self) -> (r: Transform)
        ensures
            r == self@.transform,
    {
        self.transform
    }

    /// The damage accumulated over commits, for a consumer to read and drain.
    pub fn damage(&mut self) -> (r: &mut Vec<Damage>)
        ensures
            r@ == old(self)@.damage,
            final(self)@ == (CommittedView { damage: final(r)@, ..old(self)@ }),
    {
        &mut self.damage
    }
}

impl Default for Buffer {
    fn default() -> (r: Buffer)
        ensures
            r@ == initial_committed(),
    {
        Buffer::new()
    }
}

impl Pending {
    /// The pending state of a new surface.
    pub fn new() -> (r: Pending)
        ensures
            r@ == initial_pending(),
    {
        Pending {
            damage: Vec::new(),
            frame_callbacks: Vec::new(),
            transform: Transform::Normal,
            scale: 1,
            delta: None,
            buffer: None,
            opaque_region: None,
            input_region: None,
        }
    }

    /// Applies `req`, or rejects it, before any change, with `InvalidOffset`.
    pub fn apply(&mut self, version: u32, req: SurfaceRequest) -> (r: Result<(), SurfaceError>)
        ensures
            r.is_err() == offset_rejected(version, req),
            r.is_err() ==> r == Err::<(), SurfaceError>(SurfaceError::InvalidOffset),
            r.is_err() ==> final(self)@ == old(self)@,
            r.is_ok() ==> final(self)@ == pending_after(old(self)@, req),
    {
        match req {
            SurfaceRequest::Attach { buffer, x, y } => {
                let has_offset = x != 0 || y != 0;
                if has_offset && version >= 5 {
                    return Err(SurfaceError::InvalidOffset);
                }
                if has_offset {
                    self.delta = Some(Point { x, y });
                }
                self.buffer = Some(
                    match buffer {
                        Some(b) => BufferAssignment::NewBuffer(b),
                        None => BufferAssignment::Removed,
                    },
                );
            },
            SurfaceRequest::Damage(rect) => {
                self.damage.push(Damage::Surface(rect));
            },
            SurfaceRequest::DamageBuffer(rect) => {
                self.damage.push(Damage::Buffer(rect));
            },
            SurfaceRequest::Frame(callback) => {
                self.frame_callbacks.push(callback);
            },
            SurfaceRequest::SetOpaqueRegion(region) => {
                self.opaque_region = region;
            },
            SurfaceRequest::SetInputRegion(region) => {
                self.input_region = region;
            },
            SurfaceRequest::SetBufferTransform(transform) => {
                self.transform = transform;
            },
            SurfaceRequest::SetBufferScale(scale) => {
                self.scale = scale;
            },
            SurfaceRequest::Offset { x, y } => {
                self.delta = Some(Point { x, y });
            },
        }
        Ok(())
    }
}

/// The surface after `hook` is appended to its pre-commit hooks.
pub open spec fn with_pre_commit(s: SurfaceView, hook: HookId) -> SurfaceView {
    SurfaceView { hooks: HooksView { pre_commit: s.hooks.pre_commit.push(hook), ..s.hooks }, ..s }
}

/// The surface after `hook` is appended to its post-commit hooks.
pub open spec fn with_post_commit(s: SurfaceView, hook: HookId) -> SurfaceView {
    SurfaceView { hooks: HooksView { post_commit: s.hooks.post_commit.push(hook), ..s.hooks }, ..s }
}

/// The surface after `hook` is appended to its destroy hooks.
pub open spec fn with_destroy(s: SurfaceView, hook: HookId) -> SurfaceView {
    SurfaceView { hooks: HooksView { destroy: s.hooks.destroy.push(hook), ..s.hooks }, ..s }
}

/// The surface after it is made a subsurface of `parent`: the role check
/// comes first, and only on success is the subsurface data attached, in
/// synchronized mode.
pub open spec fn subsurface_after(s: SurfaceView, parent: u64) -> SurfaceView {
    if s.role.is_some() {
        s
    } else {
        SurfaceView {
            role: Some(Subsurface::ROLE),
            subsurface: Some(Subsurface { parent, sync: true }),
            ..s
        }
    }
}

/// A copy of a list of hooks, taken before any of them runs.
fn snapshot(hooks: &Vec<HookId>) -> (r: Vec<HookId>)
    ensures
        r@ == hooks@,
{
    let mut r: Vec<HookId> = Vec::new();
    let mut i: usize = 0;
    while i < hooks.len()
        invariant
            i <= hooks.len(),
            r@ == hooks@.subrange(0, i as int),
        decreases hooks.len() - i,
    {
        r.push(hooks[i]);
        i = i + 1;
    }
    assert(r@ =~= hooks@);
    r
}

impl Hooks {
    pub fn new() -> (r: Hooks)
        ensures
            r@ == initial_surface().hooks,
    {
        Hooks { pre_commit: Vec::new(), post_commit: Vec::new(), destroy: Vec::new() }
    }
}

impl Subsurface {
    pub const ROLE: &'static str = "subsurface";
}

impl SurfaceData {
    /// The components of a new surface.
    pub fn new() -> (r: SurfaceData)
        ensures
            r@ == initial_surface(),
    {
        SurfaceData {
            role: Role::new(),
            hooks: Hooks::new(),
            pending: Pending::new(),
            current: Buffer::new(),
            subsurface: None,
        }
    }

    pub fn role_mut(&mut self) -> (r: &mut Role)
        ensures
            r.tag() == old(self)@.role,
            final(self)@ == (SurfaceView { role: final(r).tag(), ..old(self)@ }),
    {
        &mut self.role
    }

    pub fn buffer_mut(&mut self) -> (r: &mut Buffer)
        ensures
            r@ == old(self)@.current,
            final(self)@ == (SurfaceView { current: final(r)@, ..old(self)@ }),
    {
        &mut self.current
    }

    pub fn subsurface(&self) -> (r: Option<Subsurface>)
        ensures
            r == self@.subsurface,
    {
        self.subsurface
    }

    /// Applies a surface request to the pending state.
    pub fn apply(&mut self, version: u32, req: SurfaceRequest) -> (r: Result<(), SurfaceError>)
        ensures
            r.is_err() == offset_rejected(version, req),
            r.is_err() ==> r == Err::<(), SurfaceError>(SurfaceError::InvalidOffset),
            final(self)@ == surface_after_request(old(self)@, version, req),
    {
        self.pending.apply(version, req)
    }

    /// The transfer step of a commit.
    pub fn commit_pending(&mut self)
        ensures
            final(self)@ == committed_after(old(self)@),
    {
        self.current.buffer = self.pending.buffer.take();
        self.current.delta = self.pending.delta.take();
        self.current.scale = self.pending.scale;
        self.current.transform = self.pending.transform;
        self.current.damage.append(&mut self.pending.damage);
    }

    pub fn add_pre_commit(&mut self, hook: HookId)
        ensures
            final(self)@ == with_pre_commit(old(self)@, hook),
    {
        self.hooks.pre_commit.push(hook);
    }

    pub fn add_post_commit(&mut self, hook: HookId)
        ensures
            final(self)@ == with_post_commit(old(self)@, hook),
    {
        self.hooks.post_commit.push(hook);
    }

    pub fn add_destroy(&mut self, hook: HookId)
        ensures
            final(self)@ == with_destroy(old(self)@, hook),
    {
        self.hooks.destroy.push(hook);
    }

    pub fn pre_commit_hooks(&self) -> (r: Vec<HookId>)
        ensures
            r@ == self@.hooks.pre_commit,
    {
        snapshot(&self.hooks.pre_commit)
    }

    pub fn post_commit_hooks(&self) -> (r: Vec<HookId>)
        ensures
            r@ == self@.hooks.post_commit,
    {
        snapshot(&self.hooks.post_commit)
    }

    pub fn destroy_hooks(&self) -> (r: Vec<HookId>)
        ensures
            r@ == self@.hooks.destroy,
    {
        snapshot(&self.hooks.destroy)
    }

    /// Gives the surface the subsurface role, with `parent` as its parent.
    pub fn make_subsurface(&mut self, parent: u64) -> (r: Result<(), AlreadyHasRole>)
        ensures
            r.is_ok() == old(self)@.role.is_none(),
            final(self)@ == subsurface_after(old(self)@, parent),
    {
        let r = self.role.set_role(Subsurface::ROLE);
        if r.is_ok() {
            self.subsurface = Some(Subsurface { parent, sync: true });
        }
        r
    }
}

/// A commit makes the committed buffer assignment, offset, scale and
/// transform those pending at the moment of the commit, and appends the
/// pending damage; requests after the commit leave that committed state as
/// it is.
pub proof fn lemma_commit_isolation(s: SurfaceView, version: u32, reqs: Seq<SurfaceRequest>)
    ensures
        committed_after(s).current.buffer == s.pending.buffer,
        committed_after(s).current.delta == s.pending.delta,
        committed_after(s).current.scale == s.pending.scale,
        committed_after(s).current.transform == s.pending.transform,
        committed_after(s).current.damage == s.current.damage + s.pending.damage,
        surface_after_requests(committed_after(s), version, reqs).current == committed_after(s).current,
    decreases reqs.len(),
{
    if reqs.len() > 0 {
        lemma_commit_isolation(s, version, reqs.drop_last());
    }
}

/// Damage is not lost across commits: after damage `a`, a commit, damage
/// `b` and a second commit, the committed damage is what it was, then the
/// damage pending before, then `a`, then `b`.
pub proof fn lemma_damage_accumulates(s: SurfaceView, version: u32, a: Rect, b: Rect)
    ensures
        ({
            let first = committed_after(surface_after_request(s, version, SurfaceRequest::Damage(a)));
            let second = committed_after(surface_after_request(first, version, SurfaceRequest::Damage(b)));
            &&& second.current.damage == s.current.damage + s.pending.damage.push(Damage::Surface(a)).push(Damage::Surface(b))
            &&& second.current.damage.contains(Damage::Surface(a))
            &&& second.current.damage.contains(Damage::Surface(b))
        }),
{
    let first = committed_after(surface_after_request(s, version, SurfaceRequest::Damage(a)));
    let second = committed_after(surface_after_request(first, version, SurfaceRequest::Damage(b)));
    let d = s.current.damage + s.pending.damage.push(Damage::Surface(a)).push(Damage::Surface(b));
    assert(second.current.damage =~= d);
    assert(d[d.len() - 2] == Damage::Surface(a));
    assert(d[d.len() - 1] == Damage::Surface(b));
}

/// Hooks run in the order they were registered: after `h1` and then `h2` are
/// registered, the pre-commit list is the earlier list followed by `h1`, then
/// `h2`; the same holds of the post-commit and destroy lists.
pub proof fn lemma_hooks_in_registration_order(s: SurfaceView, h1: HookId, h2: HookId)
    ensures
        with_pre_commit(with_pre_commit(s, h1), h2).hooks.pre_commit == s.hooks.pre_commit + seq![h1, h2],
        with_post_commit(with_post_commit(s, h1), h2).hooks.post_commit == s.hooks.post_commit + seq![h1, h2],
        with_destroy(with_destroy(s, h1), h2).hooks.destroy == s.hooks.destroy + seq![h1, h2],
{
    assert(with_pre_commit(with_pre_commit(s, h1), h2).hooks.pre_commit =~= s.hooks.pre_commit + seq![h1, h2]);
    assert(with_post_commit(with_post_commit(s, h1), h2).hooks.post_commit =~= s.hooks.post_commit + seq![h1, h2]);
    assert(with_destroy(with_destroy(s, h1), h2).hooks.destroy =~= s.hooks.destroy + seq![h1, h2]);
}

} // verus!
