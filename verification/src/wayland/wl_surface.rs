//! An onscreen surface and its double-buffered state.
//!
//! Requests mutate only the pending state record; the commit request
//! atomically makes the pending record the current one. Current state is
//! what consumers outside the protocol layer (composition, presentation)
//! observe; it never changes between commits. A surface acquires at most one
//! role, permanently; granting the same role again is a no-op, a different
//! one a protocol error.

use crate::errors::{spec_error_code, ProtocolError};
use crate::registry::Registry;
use crate::resource::Resource;
use crate::session::{
    events_error_pushed, is_client_id, Context, NextAction, Session, SessionV, SERVER_ID_BASE,
};
use crate::wayland::wl_callback::WlCallback;
use crate::wayland::wl_display::{delete_id_msg, DeleteId, DISPLAY_ID};
use crate::wire::{
    args_view, spec_decode_args, Arg, ArgKind, ArgV,
};
use vstd::prelude::*;

verus! {

/// A damage rectangle, in surface-local or buffer coordinates depending on
/// which request posted it.
#[derive(Debug, Clone, Copy, PartialEq, Eq, Structural)]
pub struct Rect {
    pub x: i32,
    pub y: i32,
    pub width: i32,
    pub height: i32,
}

/// The single, permanent semantic purpose a surface-like object can play.
#[derive(Debug, Clone, Copy, PartialEq, Eq, Structural)]
pub enum Role {
    Cursor,
    DragIcon,
    Subsurface,
    ShellSurface,
    Toplevel,
    Popup,
}

/// One copy of the double-buffered surface state.
#[derive(Debug, Clone, PartialEq, Eq)]
pub struct SurfaceState {
    /// The attached buffer's object id; none means no content.
    pub buffer: Option<u32>,
    /// Position of the pending buffer's upper-left corner relative to the
    /// current buffer's, in surface-local coordinates.
    pub buffer_x: i32,
    pub buffer_y: i32,
    /// Scale for interpreting buffer contents; a new surface has scale 1.
    pub scale: i32,
    /// Transform for interpreting buffer contents; 0 is normal, odd values
    /// rotate by 90 or 270 degrees and so swap width and height.
    pub transform: i32,
    /// The opaque region's object id; none means the empty region.
    pub opaque_region: Option<u32>,
    /// The input region's object id; none means the whole surface.
    pub input_region: Option<u32>,
    /// Damage posted in surface-local coordinates, in request order.
    pub damage: Vec<Rect>,
    /// Damage posted in buffer coordinates, in request order.
    pub buffer_damage: Vec<Rect>,
}

/// The mathematical value of one state record.
pub struct StateV {
    pub buffer: Option<u32>,
    pub buffer_x: i32,
    pub buffer_y: i32,
    pub scale: i32,
    pub transform: i32,
    pub opaque_region: Option<u32>,
    pub input_region: Option<u32>,
    pub damage: Seq<Rect>,
    pub buffer_damage: Seq<Rect>,
}

impl View for SurfaceState {
    type V = StateV;

    open spec fn view(&self) -> StateV {
        StateV {
            buffer: self.buffer,
            buffer_x: self.buffer_x,
            buffer_y: self.buffer_y,
            scale: self.scale,
            transform: self.transform,
            opaque_region: self.opaque_region,
            input_region: self.input_region,
            damage: self.damage@,
            buffer_damage: self.buffer_damage@,
        }
    }
}

/// The state of a new surface: no content, scale 1, normal transform, empty
/// opaque region, whole-surface input region, no damage.
pub open spec fn initial_state() -> StateV {
    StateV {
        buffer: None,
        buffer_x: 0,
        buffer_y: 0,
        scale: 1,
        transform: 0,
        opaque_region: None,
        input_region: None,
        damage: Seq::empty(),
        buffer_damage: Seq::empty(),
    }
}

/// An onscreen surface.
#[derive(Debug, Clone)]
pub struct WlSurface {
    /// What requests mutate, unobserved until the next commit.
    pub pending: SurfaceState,
    /// What consumers observe; replaced atomically by commit.
    pub current: SurfaceState,
    /// Whether at least one commit has occurred.
    pub committed: bool,
    /// The surface's role, assigned at most once, permanently.
    pub role: Option<Role>,
    /// The current surface size, recomputed on commit from the attached
    /// buffer's dimensions, the buffer scale and the buffer transform.
    pub width: i32,
    pub height: i32,
    /// Frame callback object ids awaiting the next repaint, request order.
    pub frame_callbacks: Vec<u32>,
    /// The shell surface created for this surface, when any.
    pub xdg_surface_id: Option<u32>,
}

/// The mathematical value of a surface.
pub struct SurfaceV {
    pub pending: StateV,
    pub current: StateV,
    pub committed: bool,
    pub role: Option<Role>,
    pub width: i32,
    pub height: i32,
    pub frame_callbacks: Seq<u32>,
    pub xdg_surface_id: Option<u32>,
}

impl View for WlSurface {
    type V = SurfaceV;

    open spec fn view(&self) -> SurfaceV {
        SurfaceV {
            pending: self.pending@,
            current: self.current@,
            committed: self.committed,
            role: self.role,
            width: self.width,
            height: self.height,
            frame_callbacks: self.frame_callbacks@,
            xdg_surface_id: self.xdg_surface_id,
        }
    }
}

/// A new surface: initial pending and current state, no commit yet, no role,
/// zero size, no queued frame callbacks.
pub open spec fn initial_surface() -> SurfaceV {
    SurfaceV {
        pending: initial_state(),
        current: initial_state(),
        committed: false,
        role: None,
        width: 0,
        height: 0,
        frame_callbacks: Seq::empty(),
        xdg_surface_id: None,
    }
}

/// The transforms the protocol recognizes: normal, rotated by 90, 180 or
/// 270 degrees, and the same four flipped.
pub open spec fn recognized_transform(t: i32) -> bool {
    0 <= t <= 7
}

/// The odd transforms rotate by 90 or 270 degrees and swap the axes.
pub open spec fn swaps_axes(t: i32) -> bool {
    t == 1 || t == 3 || t == 5 || t == 7
}

/// A buffer dimension divided by a positive scale; content never has a
/// negative size.
pub open spec fn scaled_dim(w: int, scale: int) -> int
    recommends
        scale >= 1,
{
    if w <= 0 {
        0
    } else {
        w / scale
    }
}

/// The dimensions of the buffer bound at `id`, when `id` is bound to one.
pub open spec fn buffer_dims(m: Map<u32, Resource>, id: u32) -> Option<(i32, i32)> {
    if m.contains_key(id) {
        match m[id] {
            Resource::WlBuffer(b) => Some((b.width, b.height)),
            _ => None,
        }
    } else {
        None
    }
}

/// The surface size a commit establishes: when a buffer is pending, its
/// dimensions divided by the pending scale, the axes swapped by a rotating
/// transform; with no pending buffer the size is kept.
pub open spec fn commit_size(s: SurfaceV, m: Map<u32, Resource>) -> (i32, i32)
    recommends
        s.pending.scale >= 1,
{
    match s.pending.buffer {
        Some(b) => match buffer_dims(m, b) {
            Some(d) => {
                let sw = scaled_dim(d.0 as int, s.pending.scale as int) as i32;
                let sh = scaled_dim(d.1 as int, s.pending.scale as int) as i32;
                if swaps_axes(s.pending.transform) {
                    (sh, sw)
                } else {
                    (sw, sh)
                }
            },
            None => (s.width, s.height),
        },
        None => (s.width, s.height),
    }
}

/// What a successful commit does: pending becomes current wholesale; pending
/// keeps its values except damage, which is cleared; the surface size is
/// recomputed.
pub open spec fn spec_commit(s: SurfaceV, m: Map<u32, Resource>) -> SurfaceV {
    let size = commit_size(s, m);
    SurfaceV {
        pending: StateV { damage: Seq::empty(), buffer_damage: Seq::empty(), ..s.pending },
        current: s.pending,
        committed: true,
        width: size.0,
        height: size.1,
        ..s
    }
}

/// What `attach` does: set the pending buffer (a zero id attaches no
/// content) and the pending offset.
pub open spec fn attach_t(s: SurfaceV, buffer: u32, x: i32, y: i32) -> SurfaceV {
    SurfaceV {
        pending: StateV {
            buffer: if buffer == 0 {
                None
            } else {
                Some(buffer)
            },
            buffer_x: x,
            buffer_y: y,
            ..s.pending
        },
        ..s
    }
}

/// What `damage` does: append one rectangle to the pending surface-local
/// damage.
pub open spec fn damage_t(s: SurfaceV, r: Rect) -> SurfaceV {
    SurfaceV { pending: StateV { damage: s.pending.damage.push(r), ..s.pending }, ..s }
}

/// What `damage_buffer` does: append one rectangle to the pending
/// buffer-coordinate damage.
pub open spec fn damage_buffer_t(s: SurfaceV, r: Rect) -> SurfaceV {
    SurfaceV {
        pending: StateV { buffer_damage: s.pending.buffer_damage.push(r), ..s.pending },
        ..s
    }
}

/// What `set_buffer_scale` does: set the pending scale, unvalidated until
/// commit.
pub open spec fn scale_t(s: SurfaceV, scale: i32) -> SurfaceV {
    SurfaceV { pending: StateV { scale, ..s.pending }, ..s }
}

/// What `set_buffer_transform` does: set the pending transform, unvalidated
/// until commit.
pub open spec fn transform_t(s: SurfaceV, transform: i32) -> SurfaceV {
    SurfaceV { pending: StateV { transform, ..s.pending }, ..s }
}

/// What `set_opaque_region` does: set the pending opaque region; a zero id
/// means the empty region.
pub open spec fn opaque_region_t(s: SurfaceV, region: u32) -> SurfaceV {
    SurfaceV {
        pending: StateV {
            opaque_region: if region == 0 {
                None
            } else {
                Some(region)
            },
            ..s.pending
        },
        ..s
    }
}

/// What `set_input_region` does: set the pending input region; a zero id
/// means the whole surface accepts input.
pub open spec fn input_region_t(s: SurfaceV, region: u32) -> SurfaceV {
    SurfaceV {
        pending: StateV {
            input_region: if region == 0 {
                None
            } else {
                Some(region)
            },
            ..s.pending
        },
        ..s
    }
}

/// What `frame` does to the surface itself: queue one more callback id,
/// behind those already waiting.
pub open spec fn frame_t(s: SurfaceV, callback_id: u32) -> SurfaceV {
    SurfaceV { frame_callbacks: s.frame_callbacks.push(callback_id), ..s }
}

/// A role grant succeeds when the surface has no role yet or already plays
/// exactly that role.
pub open spec fn give_role_ok(s: SurfaceV, role: Role) -> bool {
    s.role is None || s.role == Some(role)
}

/// What a successful role grant does: the role is set; re-granting the same
/// role is a no-op.
pub open spec fn give_role_t(s: SurfaceV, role: Role) -> SurfaceV {
    SurfaceV { role: Some(role), ..s }
}

/// Why a commit is rejected, when it is: a non-positive pending scale, an
/// unrecognized pending transform, or a pending buffer id not bound to a
/// buffer.
pub open spec fn commit_error(s: SurfaceV, m: Map<u32, Resource>) -> Option<ProtocolError> {
    if s.pending.scale < 1 {
        Some(ProtocolError::InvalidScale)
    } else if !recognized_transform(s.pending.transform) {
        Some(ProtocolError::InvalidTransform)
    } else {
        match s.pending.buffer {
            Some(b) => {
                if buffer_dims(m, b) is None {
                    Some(ProtocolError::WrongInterface)
                } else {
                    None
                }
            },
            None => None,
        }
    }
}

impl WlSurface {
    pub fn new() -> (s: WlSurface)
        ensures
            s@ == initial_surface(),
    {
        let state = SurfaceState {
            buffer: None,
            buffer_x: 0,
            buffer_y: 0,
            scale: 1,
            transform: 0,
            opaque_region: None,
            input_region: None,
            damage: Vec::new(),
            buffer_damage: Vec::new(),
        };
        let state2 = SurfaceState {
            buffer: None,
            buffer_x: 0,
            buffer_y: 0,
            scale: 1,
            transform: 0,
            opaque_region: None,
            input_region: None,
            damage: Vec::new(),
            buffer_damage: Vec::new(),
        };
        let s = WlSurface {
            pending: state,
            current: state2,
            committed: false,
            role: None,
            width: 0,
            height: 0,
            frame_callbacks: Vec::new(),
            xdg_surface_id: None,
        };
        proof {
            assert(s@.pending.damage =~= initial_state().damage);
            assert(s@.pending.buffer_damage =~= initial_state().buffer_damage);
            assert(s@.frame_callbacks =~= initial_surface().frame_callbacks);
            assert(s@.pending =~= initial_state());
            assert(s@.current =~= initial_state());
            assert(s@ =~= initial_surface());
        }
        s
    }

    /// Set the pending buffer; a zero buffer id attaches no content, so the
    /// next commit removes the surface content. Current state is untouched.
    pub fn attach(&mut self, buffer: u32, x: i32, y: i32)
        ensures
            final(self)@ == attach_t(old(self)@, buffer, x, y),
    {
        self.pending.buffer = if buffer == 0 {
            None
        } else {
            Some(buffer)
        };
        self.pending.buffer_x = x;
        self.pending.buffer_y = y;
    }

    /// Add a damage rectangle in surface-local coordinates to the pending
    /// damage. Current state is untouched.
    pub fn damage(&mut self, x: i32, y: i32, width: i32, height: i32)
        ensures
            final(self)@ == damage_t(old(self)@, Rect { x, y, width, height }),
    {
        self.pending.damage.push(Rect { x, y, width, height });
    }

    /// Add a damage rectangle in buffer coordinates to the pending damage.
    /// Current state is untouched.
    pub fn damage_buffer(&mut self, x: i32, y: i32, width: i32, height: i32)
        ensures
            final(self)@ == damage_buffer_t(old(self)@, Rect { x, y, width, height }),
    {
        self.pending.buffer_damage.push(Rect { x, y, width, height });
    }

    /// Set the pending buffer scale. Validation happens at commit, so a bad
    /// value leaves the committed state untouched forever.
    pub fn set_buffer_scale(&mut self, scale: i32)
        ensures
            final(self)@ == scale_t(old(self)@, scale),
    {
        self.pending.scale = scale;
    }

    /// Set the pending buffer transform. Validation happens at commit.
    pub fn set_buffer_transform(&mut self, transform: i32)
        ensures
            final(self)@ == transform_t(old(self)@, transform),
    {
        self.pending.transform = transform;
    }

    /// Set the pending opaque region; a zero region id means the empty
    /// region. Current state is untouched.
    pub fn set_opaque_region(&mut self, region: u32)
        ensures
            final(self)@ == opaque_region_t(old(self)@, region),
    {
        self.pending.opaque_region = if region == 0 {
            None
        } else {
            Some(region)
        };
    }

    /// Set the pending input region; a zero region id means the whole
    /// surface accepts input. Current state is untouched.
    pub fn set_input_region(&mut self, region: u32)
        ensures
            final(self)@ == input_region_t(old(self)@, region),
    {
        self.pending.input_region = if region == 0 {
            None
        } else {
            Some(region)
        };
    }

    /// Queue a frame callback: the engine allocates the callback's id in the
    /// server range (the `done` event announcing it carries the id), so
    /// `callback_id` here is the id the session allocated. Callbacks fire in
    /// request order at the next repaint.
    pub fn frame(&mut self, callback_id: u32)
        ensures
            final(self)@ == frame_t(old(self)@, callback_id),
    {
        self.frame_callbacks.push(callback_id);
    }

    /// Grant `role` to this surface. A surface has at most one role, set
    /// permanently: granting the same role again succeeds as a no-op, a
    /// different one fails and changes nothing.
    pub fn give_role(&mut self, role: Role) -> (r: Result<(), ProtocolError>)
        ensures
            match r {
                Ok(()) => give_role_ok(old(self)@, role) && final(self)@ == give_role_t(
                    old(self)@,
                    role,
                ),
                Err(e) => {
                    &&& e == ProtocolError::RoleAlreadySet
                    &&& !give_role_ok(old(self)@, role)
                    &&& final(self)@ == old(self)@
                },
            },
    {
        match self.role {
            None => {
                self.role = Some(role);
                Ok(())
            },
            Some(r0) => {
                if r0 == role {
                    Ok(())
                } else {
                    Err(ProtocolError::RoleAlreadySet)
                }
            },
        }
    }

    /// Apply all pending state: the commit request. In order: validate the
    /// pending scale and transform; if a buffer is pending, resolve it and
    /// recompute the surface size; replace current state with pending state;
    /// clear pending damage, leaving the other pending fields at their
    /// now-copied values. On any error nothing changes.
    pub fn commit(&mut self, resources: &Registry) -> (r: Result<(), ProtocolError>)
        ensures
            match r {
                Ok(()) => commit_error(old(self)@, resources@) is None && final(self)@
                    == spec_commit(old(self)@, resources@),
                Err(e) => commit_error(old(self)@, resources@) == Some(e) && final(self)@ == old(
                    self,
                )@,
            },
    {
        if self.pending.scale < 1 {
            return Err(ProtocolError::InvalidScale);
        }
        if self.pending.transform < 0 || self.pending.transform > 7 {
            return Err(ProtocolError::InvalidTransform);
        }
        let size: (i32, i32) = match self.pending.buffer {
            Some(b) => {
                match resources.get(b) {
                    Some(Resource::WlBuffer(buf)) => {
                        let bw = buf.width;
                        let bh = buf.height;
                        let sw: i32 = if bw <= 0 {
                            0
                        } else {
                            bw / self.pending.scale
                        };
                        let sh: i32 = if bh <= 0 {
                            0
                        } else {
                            bh / self.pending.scale
                        };
                        let t = self.pending.transform;
                        if t == 1 || t == 3 || t == 5 || t == 7 {
                            (sh, sw)
                        } else {
                            (sw, sh)
                        }
                    },
                    _ => {
                        return Err(ProtocolError::WrongInterface);
                    },
                }
            },
            None => (self.width, self.height),
        };
        let damage = copy_rects(&self.pending.damage);
        let buffer_damage = copy_rects(&self.pending.buffer_damage);
        self.current = SurfaceState {
            buffer: self.pending.buffer,
            buffer_x: self.pending.buffer_x,
            buffer_y: self.pending.buffer_y,
            scale: self.pending.scale,
            transform: self.pending.transform,
            opaque_region: self.pending.opaque_region,
            input_region: self.pending.input_region,
            damage,
            buffer_damage,
        };
        self.pending.damage = Vec::new();
        self.pending.buffer_damage = Vec::new();
        self.width = size.0;
        self.height = size.1;
        self.committed = true;
        proof {
            assert(self@.pending =~= spec_commit(old(self)@, resources@).pending);
            assert(self@.current =~= spec_commit(old(self)@, resources@).current);
            assert(self@ =~= spec_commit(old(self)@, resources@));
        }
        Ok(())
    }
}

/// Copy a list of damage rectangles.
fn copy_rects(src: &Vec<Rect>) -> (r: Vec<Rect>)
    ensures
        r@ == src@,
{
    let n = src.len();
    let mut out: Vec<Rect> = Vec::new();
    let mut j: usize = 0;
    while j < n
        invariant
            j <= n,
            n == src@.len(),
            out@ == src@.take(j as int),
        decreases n - j,
    {
        out.push(src[j]);
        assert(out@ =~= src@.take(j as int + 1));
        j = j + 1;
    }
    assert(out@ =~= src@);
    out
}

/// The registry binds `id` to a surface whose value is `sv`.
pub open spec fn surface_at(m: Map<u32, Resource>, id: u32, sv: SurfaceV) -> bool {
    m.contains_key(id) && (m[id] matches Resource::WlSurface(w) && w@ == sv)
}

/// The handled session is the incoming one with the sender rebound as a
/// surface of value `sv`; nothing else changed.
pub open spec fn rebound_as(pre: SessionV, post: SessionV, sid: u32, sv: SurfaceV) -> bool {
    &&& surface_at(post.resources, sid, sv)
    &&& post.resources.remove(sid) == pre.resources
    &&& post == (SessionV { resources: post.resources, ..pre })
}

/// The handled session is the incoming one with the sender rebound, its
/// value `sv` unchanged, and one `error` event queued naming the sender.
pub open spec fn surface_error_outcome(
    pre: SessionV,
    post: SessionV,
    sid: u32,
    sv: SurfaceV,
    e: ProtocolError,
) -> bool {
    &&& surface_at(post.resources, sid, sv)
    &&& post.resources.remove(sid) == pre.resources
    &&& events_error_pushed(pre.events, post.events, sid, e)
    &&& post == (SessionV { resources: post.resources, events: post.events, ..pre })
}

/// The argument signature of each surface request, by opcode: destroy,
/// attach, damage, frame, set_opaque_region, set_input_region, commit,
/// set_buffer_transform, set_buffer_scale, damage_buffer.
pub open spec fn surface_request_sig(opcode: u16) -> Option<Seq<ArgKind>> {
    if opcode == 0 {
        Some(Seq::empty())
    } else if opcode == 1 {
        Some(seq![ArgKind::Object, ArgKind::Int, ArgKind::Int])
    } else if opcode == 2 {
        Some(seq![ArgKind::Int, ArgKind::Int, ArgKind::Int, ArgKind::Int])
    } else if opcode == 3 {
        Some(seq![ArgKind::NewId])
    } else if opcode == 4 {
        Some(seq![ArgKind::Object])
    } else if opcode == 5 {
        Some(seq![ArgKind::Object])
    } else if opcode == 6 {
        Some(Seq::empty())
    } else if opcode == 7 {
        Some(seq![ArgKind::Int])
    } else if opcode == 8 {
        Some(seq![ArgKind::Int])
    } else if opcode == 9 {
        Some(seq![ArgKind::Int, ArgKind::Int, ArgKind::Int, ArgKind::Int])
    } else {
        None
    }
}

/// The signature table, as a vector the decoder takes.
fn surface_sig(opcode: u16) -> (r: Option<Vec<ArgKind>>)
    ensures
        match r {
            Some(v) => surface_request_sig(opcode) == Some(v@),
            None => surface_request_sig(opcode) is None,
        },
{
    let mut v: Vec<ArgKind> = Vec::new();
    match opcode {
        0 => {},
        1 => {
            v.push(ArgKind::Object);
            v.push(ArgKind::Int);
            v.push(ArgKind::Int);
            assert(v@ =~= seq![ArgKind::Object, ArgKind::Int, ArgKind::Int]);
        },
        2 => {
            v.push(ArgKind::Int);
            v.push(ArgKind::Int);
            v.push(ArgKind::Int);
            v.push(ArgKind::Int);
            assert(v@ =~= seq![ArgKind::Int, ArgKind::Int, ArgKind::Int, ArgKind::Int]);
        },
        3 => {
            v.push(ArgKind::NewId);
            assert(v@ =~= seq![ArgKind::NewId]);
        },
        4 => {
            v.push(ArgKind::Object);
            assert(v@ =~= seq![ArgKind::Object]);
        },
        5 => {
            v.push(ArgKind::Object);
            assert(v@ =~= seq![ArgKind::Object]);
        },
        6 => {},
        7 => {
            v.push(ArgKind::Int);
            assert(v@ =~= seq![ArgKind::Int]);
        },
        8 => {
            v.push(ArgKind::Int);
            assert(v@ =~= seq![ArgKind::Int]);
        },
        9 => {
            v.push(ArgKind::Int);
            v.push(ArgKind::Int);
            v.push(ArgKind::Int);
            v.push(ArgKind::Int);
            assert(v@ =~= seq![ArgKind::Int, ArgKind::Int, ArgKind::Int, ArgKind::Int]);
        },
        _ => {
            return None;
        },
    }
    Some(v)
}

/// Everything the surface dispatcher guarantees, by opcode. An unrecognized
/// opcode or an argument list that does not decode to exactly the declared
/// length is a recoverable `InvalidMethod`: the sender is rebound unchanged
/// and one error event is queued. A recognized request is decoded and
/// applied: mutators rebind the sender with only its pending state changed;
/// destroy drops the binding and acknowledges client-range ids; frame
/// allocates a server-range callback; commit applies pending state or
/// reports why it cannot.
pub open spec fn surface_dispatch_post(
    pre: SessionV,
    sid: u32,
    s0: SurfaceV,
    opcode: u16,
    args: Seq<u8>,
    post: SessionV,
    act: NextAction,
) -> bool {
    match surface_request_sig(opcode) {
        None => act == NextAction::Continue && surface_error_outcome(
            pre,
            post,
            sid,
            s0,
            ProtocolError::InvalidMethod,
        ),
        Some(sig) => {
            let d = spec_decode_args(sig, args, 0);
            if d is None || d.unwrap().1 != args.len() {
                act == NextAction::Continue && surface_error_outcome(
                    pre,
                    post,
                    sid,
                    s0,
                    ProtocolError::InvalidMethod,
                )
            } else {
                let vals = d.unwrap().0;
                if opcode == 0 {
                    act == NextAction::Continue && post == (SessionV {
                        events: if is_client_id(sid) {
                            pre.events.push(delete_id_msg(sid))
                        } else {
                            pre.events
                        },
                        ..pre
                    })
                } else if opcode == 1 {
                    act == NextAction::Continue && (vals[0] matches ArgV::Object(b) && (vals[1]
                        matches ArgV::Int(x) && (vals[2] matches ArgV::Int(y) && rebound_as(
                        pre,
                        post,
                        sid,
                        attach_t(s0, b, x, y),
                    ))))
                } else if opcode == 2 {
                    act == NextAction::Continue && (vals[0] matches ArgV::Int(x) && (vals[1]
                        matches ArgV::Int(y) && (vals[2] matches ArgV::Int(w) && (vals[3]
                        matches ArgV::Int(h) && rebound_as(
                        pre,
                        post,
                        sid,
                        damage_t(s0, Rect { x, y, width: w, height: h }),
                    )))))
                } else if opcode == 3 {
                    if pre.next_server_id == u32::MAX {
                        act == NextAction::Continue && surface_error_outcome(
                            pre,
                            post,
                            sid,
                            s0,
                            ProtocolError::NoMemory,
                        )
                    } else {
                        let nid = pre.next_server_id;
                        &&& act == NextAction::Continue
                        &&& surface_at(post.resources, sid, frame_t(s0, nid))
                        &&& post.resources.remove(sid) == pre.resources.insert(
                            nid,
                            Resource::WlCallback(WlCallback {}),
                        )
                        &&& post == (SessionV {
                            resources: post.resources,
                            next_server_id: (nid + 1) as u32,
                            ..pre
                        })
                    }
                } else if opcode == 4 {
                    act == NextAction::Continue && (vals[0] matches ArgV::Object(rg)
                        && rebound_as(pre, post, sid, opaque_region_t(s0, rg)))
                } else if opcode == 5 {
                    act == NextAction::Continue && (vals[0] matches ArgV::Object(rg)
                        && rebound_as(pre, post, sid, input_region_t(s0, rg)))
                } else if opcode == 6 {
                    match commit_error(s0, pre.resources) {
                        Some(e) => act == NextAction::Continue && surface_error_outcome(
                            pre,
                            post,
                            sid,
                            s0,
                            e,
                        ),
                        None => act == NextAction::Continue && rebound_as(
                            pre,
                            post,
                            sid,
                            spec_commit(s0, pre.resources),
                        ),
                    }
                } else if opcode == 7 {
                    act == NextAction::Continue && (vals[0] matches ArgV::Int(t) && rebound_as(
                        pre,
                        post,
                        sid,
                        transform_t(s0, t),
                    ))
                } else if opcode == 8 {
                    act == NextAction::Continue && (vals[0] matches ArgV::Int(sc) && rebound_as(
                        pre,
                        post,
                        sid,
                        scale_t(s0, sc),
                    ))
                } else {
                    act == NextAction::Continue && (vals[0] matches ArgV::Int(x) && (vals[1]
                        matches ArgV::Int(y) && (vals[2] matches ArgV::Int(w) && (vals[3]
                        matches ArgV::Int(h) && rebound_as(
                        pre,
                        post,
                        sid,
                        damage_buffer_t(s0, Rect { x, y, width: w, height: h }),
                    )))))
                }
            }
        },
    }
}

/// Rebind the sender unchanged, queue one error event naming it, and keep
/// the connection open.
fn surface_error(session: Session, sid: u32, surface: WlSurface, e: ProtocolError) -> (r: (
    Session,
    NextAction,
))
    requires
        session@.wf(),
        session@.id_ok(sid),
        !session@.resources.contains_key(sid),
    ensures
        r.1 == NextAction::Continue,
        surface_error_outcome(session@, r.0@, sid, surface@, e),
        r.0@.wf(),
{
    let ghost pre = session@;
    let mut session = session;
    session.post_error(sid, e);
    let ghost mid = session@;
    let ghost sv = surface@;
    session.resources.bind(sid, Resource::WlSurface(surface));
    proof {
        let m = choose|msg: Seq<u8>|
            mid == (SessionV {
                events: pre.events.push(
                    #[trigger] crate::wayland::wl_display::error_msg(sid, spec_error_code(e), msg),
                ),
                ..pre
            });
        assert(session@.events == pre.events.push(
            crate::wayland::wl_display::error_msg(sid, spec_error_code(e), m),
        ));
        assert(surface_at(session@.resources, sid, sv));
        assert(session@.resources.remove(sid) =~= pre.resources);
        assert forall|id: u32| #[trigger] session@.resources.contains_key(id) implies session@.id_ok(
            id,
        ) by {
            if id != sid {
                assert(pre.resources.contains_key(id));
            }
        }
    }
    (session, NextAction::Continue)
}

impl Context<WlSurface> {
    /// Route one decoded message to this surface's handler. Unknown opcodes
    /// and malformed argument lists are recoverable: they produce one
    /// display-addressed error event and the connection stays open.
    pub fn dispatch_request(self, opcode: u16, args: Vec<u8>) -> (r: (Session, NextAction))
        requires
            self.wf(),
        ensures
            r.0@.wf(),
            surface_dispatch_post(
                self.session@,
                self.sender_object_id,
                self.sender_object@,
                opcode,
                args@,
                r.0@,
                r.1,
            ),
    {
        let Context { session, sender_object_id: sid, sender_object } = self;
        let mut session = session;
        let mut surface = sender_object;
        let ghost pre = session@;
        let ghost s0 = surface@;
        let sig = match surface_sig(opcode) {
            Some(v) => v,
            None => {
                return surface_error(session, sid, surface, ProtocolError::InvalidMethod);
            },
        };
        let vals = match crate::wire::decode_args(&args, &sig) {
            Ok(v) => v,
            Err(_) => {
                return surface_error(session, sid, surface, ProtocolError::InvalidMethod);
            },
        };
        proof {
            crate::wire::lemma_decode_args_shape(sig@, args@, 0);
        }
        match opcode {
            0 => {
                if sid < SERVER_ID_BASE {
                    let ev = DeleteId { sender_object_id: DISPLAY_ID, id: sid };
                    let mut bytes: Vec<u8> = Vec::new();
                    let _ = ev.encode(&mut bytes);
                    proof {
                        assert(bytes@ =~= delete_id_msg(sid));
                    }
                    session.send_event(bytes);
                    proof {
                        assert(is_client_id(sid));
                        assert(session@ == (SessionV {
                            events: pre.events.push(delete_id_msg(sid)),
                            ..pre
                        }));
                    }
                }
                (session, NextAction::Continue)
            },
            1 => {
                let b = crate::wire::arg_object(&vals, 0);
                let x = crate::wire::arg_int(&vals, 1);
                let y = crate::wire::arg_int(&vals, 2);
                surface.attach(b, x, y);
                session.resources.bind(sid, Resource::WlSurface(surface));
                proof {
                    lemma_rebound(pre, session@, sid, attach_t(s0, b, x, y));
                }
                (session, NextAction::Continue)
            },
            2 => {
                let x = crate::wire::arg_int(&vals, 0);
                let y = crate::wire::arg_int(&vals, 1);
                let w = crate::wire::arg_int(&vals, 2);
                let h = crate::wire::arg_int(&vals, 3);
                surface.damage(x, y, w, h);
                session.resources.bind(sid, Resource::WlSurface(surface));
                proof {
                    lemma_rebound(pre, session@, sid, damage_t(s0, Rect { x, y, width: w, height: h }));
                }
                (session, NextAction::Continue)
            },
            3 => {
                match session.allocate_server_id() {
                    Some(nid) => {
                        session.resources.bind(nid, Resource::WlCallback(WlCallback {}));
                        surface.frame(nid);
                        session.resources.bind(sid, Resource::WlSurface(surface));
                        proof {
                            assert(session@.resources.remove(sid) =~= pre.resources.insert(
                                nid,
                                Resource::WlCallback(WlCallback {}),
                            ));
                            assert forall|id: u32| #[trigger] session@.resources.contains_key(id)
                                implies session@.id_ok(id) by {
                                if id != sid && id != nid {
                                    assert(pre.resources.contains_key(id));
                                }
                            }
                        }
                        (session, NextAction::Continue)
                    },
                    None => surface_error(session, sid, surface, ProtocolError::NoMemory),
                }
            },
            4 => {
                let rg = crate::wire::arg_object(&vals, 0);
                surface.set_opaque_region(rg);
                session.resources.bind(sid, Resource::WlSurface(surface));
                proof {
                    lemma_rebound(pre, session@, sid, opaque_region_t(s0, rg));
                }
                (session, NextAction::Continue)
            },
            5 => {
                let rg = crate::wire::arg_object(&vals, 0);
                surface.set_input_region(rg);
                session.resources.bind(sid, Resource::WlSurface(surface));
                proof {
                    lemma_rebound(pre, session@, sid, input_region_t(s0, rg));
                }
                (session, NextAction::Continue)
            },
            6 => {
                match surface.commit(&session.resources) {
                    Ok(()) => {
                        session.resources.bind(sid, Resource::WlSurface(surface));
                        proof {
                            lemma_rebound(pre, session@, sid, spec_commit(s0, pre.resources));
                        }
                        (session, NextAction::Continue)
                    },
                    Err(e) => surface_error(session, sid, surface, e),
                }
            },
            7 => {
                let t = crate::wire::arg_int(&vals, 0);
                surface.set_buffer_transform(t);
                session.resources.bind(sid, Resource::WlSurface(surface));
                proof {
                    lemma_rebound(pre, session@, sid, transform_t(s0, t));
                }
                (session, NextAction::Continue)
            },
            8 => {
                let sc = crate::wire::arg_int(&vals, 0);
                surface.set_buffer_scale(sc);
                session.resources.bind(sid, Resource::WlSurface(surface));
                proof {
                    lemma_rebound(pre, session@, sid, scale_t(s0, sc));
                }
                (session, NextAction::Continue)
            },
            9 => {
                let x = crate::wire::arg_int(&vals, 0);
                let y = crate::wire::arg_int(&vals, 1);
                let w = crate::wire::arg_int(&vals, 2);
                let h = crate::wire::arg_int(&vals, 3);
                surface.damage_buffer(x, y, w, h);
                session.resources.bind(sid, Resource::WlSurface(surface));
                proof {
                    lemma_rebound(pre, session@, sid, damage_buffer_t(s0, Rect { x, y, width: w, height: h }));
                }
                (session, NextAction::Continue)
            },
            _ => vstd::pervasive::unreached(),
        }
    }
}

/// Rebinding the sender as a surface of value `sv` into a session it was
/// absent from yields `rebound_as`, and preserves well-formedness.
proof fn lemma_rebound(pre: SessionV, post: SessionV, sid: u32, sv: SurfaceV)
    requires
        pre.wf(),
        pre.id_ok(sid),
        !pre.resources.contains_key(sid),
        surface_at(post.resources, sid, sv),
        post.resources.remove(sid) == pre.resources || post.resources == pre.resources.insert(
            sid,
            post.resources[sid],
        ),
        post == (SessionV { resources: post.resources, ..pre }),
    ensures
        rebound_as(pre, post, sid, sv),
        post.wf(),
{
    assert(post.resources.remove(sid) =~= pre.resources);
    assert forall|id: u32| #[trigger] post.resources.contains_key(id) implies post.id_ok(id) by {
        if id != sid {
            assert(pre.resources.contains_key(id));
        }
    }
}

/// The encoded `done` events for a list of frame callbacks, in list order.
pub open spec fn done_events(cbs: Seq<u32>, time: u32) -> Seq<Seq<u8>> {
    cbs.map_values(|cb: u32| crate::wayland::wl_callback::done_msg(cb, time))
}

/// Fire every frame callback queued on `surface_id`, the repaint step. Each
/// callback gets a `done` event carrying `time`, in the order the frame
/// requests were made; the callback objects are then removed from the
/// registry — they are server-range ids, so no `delete_id` acknowledgement
/// is owed — and the surface's queue is left empty. Fails, changing nothing,
/// when `surface_id` is unbound or not a surface.
pub fn repaint(session: &mut Session, surface_id: u32, time: u32) -> (r: Result<
    (),
    ProtocolError,
>)
    requires
        old(session)@.wf(),
    ensures
        final(session)@.wf(),
        match r {
            Ok(()) => {
                let pre = old(session)@;
                let post = final(session)@;
                &&& pre.resources.contains_key(surface_id)
                &&& pre.resources[surface_id] matches Resource::WlSurface(w0) && {
                    let cbs = w0@.frame_callbacks;
                    &&& surface_at(
                        post.resources,
                        surface_id,
                        (SurfaceV { frame_callbacks: Seq::empty(), ..w0@ }),
                    )
                    &&& post.resources.remove(surface_id) == pre.resources.remove(
                        surface_id,
                    ).remove_keys(cbs.to_set())
                    &&& post.events == pre.events + done_events(cbs, time)
                    &&& post == (SessionV {
                        resources: post.resources,
                        events: post.events,
                        ..pre
                    })
                }
            },
            Err(e) => {
                &&& e == ProtocolError::WrongInterface
                &&& !(old(session)@.resources.contains_key(surface_id) && old(
                    session,
                )@.resources[surface_id] is WlSurface)
                &&& final(session)@ == old(session)@
            },
        },
{
    let ghost pre = session@;
    let is_surface = match session.resources.get(surface_id) {
        Some(r0) => match r0 {
            Resource::WlSurface(_) => true,
            _ => false,
        },
        None => false,
    };
    if !is_surface {
        return Err(ProtocolError::WrongInterface);
    }
    let mut w = match session.resources.remove(surface_id) {
        Some(Resource::WlSurface(w)) => w,
        _ => vstd::pervasive::unreached(),
    };
    let ghost w0v = w@;
    let ghost cbs = w@.frame_callbacks;
    let n = w.frame_callbacks.len();
    let mut j: usize = 0;
    while j < n
        invariant
            j <= n,
            n == cbs.len(),
            cbs == w0v.frame_callbacks,
            w@ == w0v,
            w@.frame_callbacks == cbs,
            session@.events == pre.events + done_events(cbs.take(j as int), time),
            session@.resources == pre.resources.remove(surface_id).remove_keys(
                cbs.take(j as int).to_set(),
            ),
            session@ == (SessionV {
                resources: session@.resources,
                events: session@.events,
                ..pre
            }),
        decreases n - j,
    {
        let cb = w.frame_callbacks[j];
        let ev = crate::wayland::wl_callback::Done { sender_object_id: cb, callback_data: time };
        let mut bytes: Vec<u8> = Vec::new();
        let _ = ev.encode(&mut bytes);
        session.send_event(bytes);
        let _ = session.resources.remove(cb);
        proof {
            assert(session@.events =~= pre.events + done_events(cbs.take(j as int + 1), time)) by {
                assert(done_events(cbs.take(j as int + 1), time) =~= done_events(
                    cbs.take(j as int),
                    time,
                ).push(crate::wayland::wl_callback::done_msg(cbs[j as int], time)));
            }
            assert(session@.resources =~= pre.resources.remove(surface_id).remove_keys(
                cbs.take(j as int + 1).to_set(),
            )) by {
                assert forall|k: u32| #[trigger] cbs.take(j as int + 1).to_set().contains(k)
                    implies cbs.take(j as int).to_set().contains(k) || k == cbs[j as int] by {
                    let idx = choose|idx: int|
                        0 <= idx < j + 1 && (#[trigger] cbs.take(j as int + 1)[idx]) == k;
                    if idx < j {
                        assert(cbs.take(j as int)[idx] == k);
                    }
                }
                assert forall|k: u32|
                    cbs.take(j as int).to_set().contains(k) || k == cbs[j as int]
                    implies #[trigger] cbs.take(j as int + 1).to_set().contains(k) by {
                    if cbs.take(j as int).to_set().contains(k) {
                        let idx = choose|idx: int|
                            0 <= idx < j && (#[trigger] cbs.take(j as int)[idx]) == k;
                        assert(cbs.take(j as int + 1)[idx] == k);
                    } else {
                        assert(cbs.take(j as int + 1)[j as int] == k);
                    }
                }
            }
        }
        j = j + 1;
    }
    proof {
        assert(cbs.take(n as int) =~= cbs);
    }
    w.frame_callbacks = Vec::new();
    proof {
        assert(w@ =~= (SurfaceV { frame_callbacks: Seq::empty(), ..w0v }));
    }
    session.resources.bind(surface_id, Resource::WlSurface(w));
    proof {
        assert(session@.resources.remove(surface_id) =~= pre.resources.remove(
            surface_id,
        ).remove_keys(cbs.to_set()));
        assert forall|id: u32| #[trigger] session@.resources.contains_key(id)
            implies session@.id_ok(id) by {
            if id != surface_id {
                assert(pre.resources.contains_key(id));
            } else {
                assert(pre.resources.contains_key(surface_id));
            }
        }
    }
    Ok(())
}

/// Law: a role is granted at most once, permanently. After a surface is
/// granted a role, granting the same role again succeeds and changes
/// nothing, while granting any different role is refused.
pub proof fn lemma_role_permanence(s: SurfaceV, r1: Role, r2: Role)
    requires
        give_role_ok(s, r1),
    ensures
        ({
            let s1 = give_role_t(s, r1);
            &&& give_role_ok(s1, r1)
            &&& give_role_t(s1, r1) == s1
            &&& r2 != r1 ==> !give_role_ok(s1, r2)
        }),
{
}

/// Law: no pending-state request changes the current state a consumer
/// observes, and a commit makes exactly the pending state as of just before
/// it the current state.
pub proof fn lemma_double_buffering(
    s: SurfaceV,
    m: Map<u32, Resource>,
    buffer: u32,
    x: i32,
    y: i32,
    r: Rect,
    scale: i32,
    transform: i32,
    region: u32,
    callback_id: u32,
)
    ensures
        attach_t(s, buffer, x, y).current == s.current,
        damage_t(s, r).current == s.current,
        damage_buffer_t(s, r).current == s.current,
        scale_t(s, scale).current == s.current,
        transform_t(s, transform).current == s.current,
        opaque_region_t(s, region).current == s.current,
        input_region_t(s, region).current == s.current,
        frame_t(s, callback_id).current == s.current,
        spec_commit(s, m).current == s.pending,
{
}

} // verus!
