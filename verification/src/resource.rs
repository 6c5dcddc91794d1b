//! The closed union of every interface type a registry entry can hold, and
//! the interface tags used for typed lookups.

use crate::wayland::wl_buffer::WlBuffer;
use crate::wayland::wl_callback::WlCallback;
use crate::wayland::wl_compositor::WlCompositor;
use crate::wayland::wl_data_source::WlDataSource;
use crate::wayland::wl_display::WlDisplay;
use crate::wayland::wl_output::WlOutput;
use crate::wayland::wl_region::WlRegion;
use crate::wayland::wl_registry::WlRegistry;
use crate::wayland::wl_shell::WlShell;
use crate::wayland::wl_shell_surface::WlShellSurface;
use crate::wayland::wl_shm::WlShm;
use crate::wayland::wl_subsurface::WlSubsurface;
use crate::wayland::wl_surface::WlSurface;
use crate::xdg_shell::xdg_popup::XdgPopup;
use crate::xdg_shell::xdg_positioner::XdgPositioner;
use crate::xdg_shell::xdg_surface::XdgSurface;
use crate::xdg_shell::xdg_toplevel::XdgToplevel;
use crate::xdg_shell::xdg_wm_base::XdgWmBase;
use crate::errors::{spec_error_code, ProtocolError};
use crate::session::{
    events_error_pushed, rebind_error_outcome, Context, NextAction, Session, SessionV,
};
use crate::wayland::wl_display::error_msg;
use vstd::prelude::*;

verus! {

/// A live protocol object: one variant per interface, owning the mutable
/// state for one object. A registry entry owns its resource exclusively;
/// dispatch borrows it for the handling of one message.
#[derive(Debug, Clone)]
pub enum Resource {
    WlBuffer(WlBuffer),
    WlCallback(WlCallback),
    WlCompositor(WlCompositor),
    WlDataSource(WlDataSource),
    WlDisplay(WlDisplay),
    WlOutput(WlOutput),
    WlRegion(WlRegion),
    WlRegistry(WlRegistry),
    WlShell(WlShell),
    WlShellSurface(WlShellSurface),
    WlShm(WlShm),
    WlSubsurface(WlSubsurface),
    WlSurface(WlSurface),
    XdgPopup(XdgPopup),
    XdgPositioner(XdgPositioner),
    XdgSurface(XdgSurface),
    XdgToplevel(XdgToplevel),
    XdgWmBase(XdgWmBase),
}

/// The interface of a resource, as a bare tag.
#[derive(Debug, Clone, Copy, PartialEq, Eq, Structural)]
pub enum InterfaceKind {
    WlBuffer,
    WlCallback,
    WlCompositor,
    WlDataSource,
    WlDisplay,
    WlOutput,
    WlRegion,
    WlRegistry,
    WlShell,
    WlShellSurface,
    WlShm,
    WlSubsurface,
    WlSurface,
    XdgPopup,
    XdgPositioner,
    XdgSurface,
    XdgToplevel,
    XdgWmBase,
}

/// The interface a resource belongs to.
pub open spec fn kind_of_resource(r: Resource) -> InterfaceKind {
    match r {
        Resource::WlBuffer(_) => InterfaceKind::WlBuffer,
        Resource::WlCallback(_) => InterfaceKind::WlCallback,
        Resource::WlCompositor(_) => InterfaceKind::WlCompositor,
        Resource::WlDataSource(_) => InterfaceKind::WlDataSource,
        Resource::WlDisplay(_) => InterfaceKind::WlDisplay,
        Resource::WlOutput(_) => InterfaceKind::WlOutput,
        Resource::WlRegion(_) => InterfaceKind::WlRegion,
        Resource::WlRegistry(_) => InterfaceKind::WlRegistry,
        Resource::WlShell(_) => InterfaceKind::WlShell,
        Resource::WlShellSurface(_) => InterfaceKind::WlShellSurface,
        Resource::WlShm(_) => InterfaceKind::WlShm,
        Resource::WlSubsurface(_) => InterfaceKind::WlSubsurface,
        Resource::WlSurface(_) => InterfaceKind::WlSurface,
        Resource::XdgPopup(_) => InterfaceKind::XdgPopup,
        Resource::XdgPositioner(_) => InterfaceKind::XdgPositioner,
        Resource::XdgSurface(_) => InterfaceKind::XdgSurface,
        Resource::XdgToplevel(_) => InterfaceKind::XdgToplevel,
        Resource::XdgWmBase(_) => InterfaceKind::XdgWmBase,
    }
}

impl Resource {
    /// The interface this resource belongs to.
    pub fn kind(&self) -> (k: InterfaceKind)
        ensures
            k == kind_of_resource(*self),
    {
        match self {
            Resource::WlBuffer(_) => InterfaceKind::WlBuffer,
            Resource::WlCallback(_) => InterfaceKind::WlCallback,
            Resource::WlCompositor(_) => InterfaceKind::WlCompositor,
            Resource::WlDataSource(_) => InterfaceKind::WlDataSource,
            Resource::WlDisplay(_) => InterfaceKind::WlDisplay,
            Resource::WlOutput(_) => InterfaceKind::WlOutput,
            Resource::WlRegion(_) => InterfaceKind::WlRegion,
            Resource::WlRegistry(_) => InterfaceKind::WlRegistry,
            Resource::WlShell(_) => InterfaceKind::WlShell,
            Resource::WlShellSurface(_) => InterfaceKind::WlShellSurface,
            Resource::WlShm(_) => InterfaceKind::WlShm,
            Resource::WlSubsurface(_) => InterfaceKind::WlSubsurface,
            Resource::WlSurface(_) => InterfaceKind::WlSurface,
            Resource::XdgPopup(_) => InterfaceKind::XdgPopup,
            Resource::XdgPositioner(_) => InterfaceKind::XdgPositioner,
            Resource::XdgSurface(_) => InterfaceKind::XdgSurface,
            Resource::XdgToplevel(_) => InterfaceKind::XdgToplevel,
            Resource::XdgWmBase(_) => InterfaceKind::XdgWmBase,
        }
    }
}

/// Everything the per-resource router guarantees: the message is handed to
/// the dispatcher of the resource's interface, under that dispatcher's own
/// contract. A resource whose interface has no requests (buffers, regions,
/// the display's own requests are out of the engine's scope) is rebound
/// unchanged and the message is a recoverable `InvalidMethod`.
pub open spec fn resource_dispatch_post(
    pre: SessionV,
    sid: u32,
    resource: Resource,
    opcode: u16,
    args: Seq<u8>,
    post: SessionV,
    act: NextAction,
) -> bool {
    match resource {
        Resource::WlSurface(w) => crate::wayland::wl_surface::surface_dispatch_post(
            pre,
            sid,
            w@,
            opcode,
            args,
            post,
            act,
        ),
        Resource::WlShell(sh) => crate::wayland::wl_shell::shell_dispatch_post(
            pre,
            sid,
            sh,
            opcode,
            args,
            post,
            act,
        ),
        Resource::WlOutput(o) => crate::wayland::wl_output::output_dispatch_post(
            pre,
            sid,
            o,
            opcode,
            args,
            post,
            act,
        ),
        Resource::WlDataSource(d) => crate::wayland::wl_data_source::source_dispatch_post(
            pre,
            sid,
            d@,
            opcode,
            args,
            d,
            post,
            act,
        ),
        Resource::WlSubsurface(ss) => crate::wayland::wl_subsurface::subsurface_dispatch_post(
            pre,
            sid,
            ss,
            opcode,
            args,
            post,
            act,
        ),
        Resource::XdgPopup(p) => crate::xdg_shell::xdg_popup::popup_dispatch_post(
            pre,
            sid,
            p,
            opcode,
            args,
            post,
            act,
        ),
        Resource::XdgToplevel(t) => crate::xdg_shell::xdg_toplevel::toplevel_dispatch_post(
            pre,
            sid,
            t,
            opcode,
            args,
            post,
            act,
        ),
        Resource::XdgWmBase(b) => crate::xdg_shell::xdg_wm_base::wm_base_dispatch_post(
            pre,
            sid,
            b,
            opcode,
            args,
            post,
            act,
        ),
        _ => act == NextAction::Continue && rebind_error_outcome(
            pre,
            post,
            sid,
            resource,
            ProtocolError::InvalidMethod,
        ),
    }
}

/// Route one message to the dispatcher of the resolved resource's
/// interface: the single, centrally auditable routing point.
pub fn dispatch_request(
    resource: Resource,
    session: Session,
    sender_object_id: u32,
    opcode: u16,
    args: Vec<u8>,
) -> (r: (Session, NextAction))
    requires
        session@.wf(),
        session@.id_ok(sender_object_id),
        !session@.resources.contains_key(sender_object_id),
    ensures
        r.0@.wf(),
        resource_dispatch_post(session@, sender_object_id, resource, opcode, args@, r.0@, r.1),
{
    let sid = sender_object_id;
    match resource {
        Resource::WlSurface(w) => Context { session, sender_object_id: sid, sender_object: w }
            .dispatch_request(opcode, args),
        Resource::WlShell(sh) => crate::wayland::wl_shell::dispatch_request(
            Context { session, sender_object_id: sid, sender_object: sh },
            opcode,
            args,
        ),
        Resource::WlOutput(o) => crate::wayland::wl_output::dispatch_request(
            Context { session, sender_object_id: sid, sender_object: o },
            opcode,
            args,
        ),
        Resource::WlDataSource(d) => crate::wayland::wl_data_source::dispatch_request(
            Context { session, sender_object_id: sid, sender_object: d },
            opcode,
            args,
        ),
        Resource::WlSubsurface(ss) => crate::wayland::wl_subsurface::dispatch_request(
            Context { session, sender_object_id: sid, sender_object: ss },
            opcode,
            args,
        ),
        Resource::XdgPopup(p) => crate::xdg_shell::xdg_popup::dispatch_request(
            Context { session, sender_object_id: sid, sender_object: p },
            opcode,
            args,
        ),
        Resource::XdgToplevel(t) => crate::xdg_shell::xdg_toplevel::XdgToplevel::handle(
            Context { session, sender_object_id: sid, sender_object: t },
            opcode,
            args,
        ),
        Resource::XdgWmBase(b) => crate::xdg_shell::xdg_wm_base::dispatch_request(
            Context { session, sender_object_id: sid, sender_object: b },
            opcode,
            args,
        ),
        other => {
            let mut session = session;
            session.rebind_with_error(sid, other, ProtocolError::InvalidMethod);
            (session, NextAction::Continue)
        },
    }
}

/// Handle one framed message: resolve the target object, decode and apply
/// the request. A message naming an object the server does not recognize is
/// a fatal protocol violation: one error event addressed to the display
/// reports it and the connection is closed, since no sound recovery exists.
/// Every other violation is reported the same way with the connection kept
/// open, as the per-interface contracts state.
pub fn dispatch(session: Session, object_id: u32, opcode: u16, args: Vec<u8>) -> (r: (
    Session,
    NextAction,
))
    requires
        session@.wf(),
    ensures
        r.0@.wf(),
        ({
            let pre = session@;
            let post = r.0@;
            if !pre.resources.contains_key(object_id) || object_id == 0 {
                &&& r.1 == NextAction::Close
                &&& events_error_pushed(
                    pre.events,
                    post.events,
                    object_id,
                    ProtocolError::UnknownObject,
                )
                &&& post == (SessionV { events: post.events, ..pre })
            } else {
                resource_dispatch_post(
                    (SessionV { resources: pre.resources.remove(object_id), ..pre }),
                    object_id,
                    pre.resources[object_id],
                    opcode,
                    args@,
                    post,
                    r.1,
                )
            }
        }),
{
    let mut session = session;
    let ghost pre = session@;
    if object_id == 0 {
        session.post_error(object_id, ProtocolError::UnknownObject);
        proof {
            let m = choose|msg: Seq<u8>|
                session@ == (SessionV {
                    events: pre.events.push(
                        #[trigger] error_msg(
                            object_id,
                            spec_error_code(ProtocolError::UnknownObject),
                            msg,
                        ),
                    ),
                    ..pre
                });
            assert(session@.events == pre.events.push(
                error_msg(object_id, spec_error_code(ProtocolError::UnknownObject), m),
            ));
        }
        return (session, NextAction::Close);
    }
    match session.resources.remove(object_id) {
        None => {
            proof {
                assert(session@.resources =~= pre.resources);
                assert(session@ == pre);
            }
            session.post_error(object_id, ProtocolError::UnknownObject);
            proof {
                let m = choose|msg: Seq<u8>|
                    session@ == (SessionV {
                        events: pre.events.push(
                            #[trigger] error_msg(
                                object_id,
                                spec_error_code(ProtocolError::UnknownObject),
                                msg,
                            ),
                        ),
                        ..pre
                    });
                assert(session@.events == pre.events.push(
                    error_msg(object_id, spec_error_code(ProtocolError::UnknownObject), m),
                ));
            }
            (session, NextAction::Close)
        },
        Some(resource) => {
            proof {
                assert(session@.resources =~= pre.resources.remove(object_id));
                assert(session@ == (SessionV {
                    resources: pre.resources.remove(object_id),
                    ..pre
                }));
            }
            dispatch_request(resource, session, object_id, opcode, args)
        },
    }
}

} // verus!
