//! The desktop-shell singleton: turns surfaces into desktop windows.

use crate::errors::ProtocolError;
use crate::resource::Resource;
use crate::session::{
    is_client_id, lemma_wf_after_bind, rebind_error_outcome, rebound_value, Context, NextAction,
    Session, SessionV, SERVER_ID_BASE,
};
use crate::wayland::wl_display::delete_id_msg;
use crate::wayland::wl_surface::{surface_at, SurfaceV};
use crate::xdg_shell::xdg_positioner::XdgPositioner;
use crate::xdg_shell::xdg_surface::XdgSurface;
use crate::wire::{spec_decode_args, ArgKind, ArgV};
use vstd::prelude::*;

verus! {

/// The serial of the last ping the client answered, when any.
#[derive(Debug, Clone, PartialEq, Eq, Structural)]
pub struct XdgWmBase {
    pub last_pong_serial: Option<u32>,
}

/// The argument signature of each request, by opcode: destroy,
/// create_positioner, get_xdg_surface, pong.
pub open spec fn wm_base_request_sig(opcode: u16) -> Option<Seq<ArgKind>> {
    if opcode == 0 {
        Some(Seq::empty())
    } else if opcode == 1 {
        Some(seq![ArgKind::NewId])
    } else if opcode == 2 {
        Some(seq![ArgKind::NewId, ArgKind::Object])
    } else if opcode == 3 {
        Some(seq![ArgKind::Uint])
    } else {
        None
    }
}

/// A request-supplied new-object id is acceptable when it lies in the
/// client's range and is not bound — neither to a live object nor to the
/// sender itself, whose entry is only parked during dispatch.
pub open spec fn new_id_ok(pre: SessionV, sid: u32, id: u32) -> bool {
    is_client_id(id) && !pre.resources.contains_key(id) && id != sid
}

/// What creating a positioner guarantees: a fresh positioner bound at the
/// client-supplied id, or `InvalidNewId` with nothing created.
pub open spec fn create_positioner_post(
    pre: SessionV,
    sid: u32,
    base: XdgWmBase,
    id: u32,
    post: SessionV,
    act: NextAction,
) -> bool {
    let base_r = Resource::XdgWmBase(base);
    &&& act == NextAction::Continue
    &&& if !new_id_ok(pre, sid, id) {
        rebind_error_outcome(pre, post, sid, base_r, ProtocolError::InvalidNewId)
    } else {
        post == (SessionV {
            resources: pre.resources.insert(sid, base_r).insert(
                id,
                Resource::XdgPositioner(XdgPositioner {}),
            ),
            ..pre
        })
    }
}

/// What creating a shell surface guarantees: the target must be a bound
/// surface; it learns which shell surface was created for it, and a fresh
/// shell-surface object is bound at the client-supplied id. The shell
/// surface is not itself a role.
pub open spec fn get_xdg_surface_post(
    pre: SessionV,
    sid: u32,
    base: XdgWmBase,
    id: u32,
    surface: u32,
    post: SessionV,
    act: NextAction,
) -> bool {
    let base_r = Resource::XdgWmBase(base);
    &&& act == NextAction::Continue
    &&& if !new_id_ok(pre, sid, id) {
        rebind_error_outcome(pre, post, sid, base_r, ProtocolError::InvalidNewId)
    } else if !(pre.resources.contains_key(surface) && pre.resources[surface] is WlSurface) {
        rebind_error_outcome(pre, post, sid, base_r, ProtocolError::WrongInterface)
    } else {
        pre.resources[surface] matches Resource::WlSurface(w0) && ({
            let bound = pre.resources.insert(sid, base_r).insert(
                id,
                Resource::XdgSurface(XdgSurface { wl_surface_id: surface }),
            );
            &&& surface_at(
                post.resources,
                surface,
                (SurfaceV { xdg_surface_id: Some(id), ..w0@ }),
            )
            &&& post.resources.remove(surface) == bound.remove(surface)
            &&& post == (SessionV { resources: post.resources, ..pre })
        })
    }
}

/// Everything the shell-base dispatcher guarantees, by opcode.
pub open spec fn wm_base_dispatch_post(
    pre: SessionV,
    sid: u32,
    b0: XdgWmBase,
    opcode: u16,
    args: Seq<u8>,
    post: SessionV,
    act: NextAction,
) -> bool {
    match wm_base_request_sig(opcode) {
        None => act == NextAction::Continue && rebind_error_outcome(
            pre,
            post,
            sid,
            Resource::XdgWmBase(b0),
            ProtocolError::InvalidMethod,
        ),
        Some(sig) => {
            let d = spec_decode_args(sig, args, 0);
            if d is None || d.unwrap().1 != args.len() {
                act == NextAction::Continue && rebind_error_outcome(
                    pre,
                    post,
                    sid,
                    Resource::XdgWmBase(b0),
                    ProtocolError::InvalidMethod,
                )
            } else {
                let vals = d.unwrap().0;
                if opcode == 0 {
                    act == NextAction::Continue && post == (SessionV {
                        events: if is_client_id(sid) {
                            pre.events.push(delete_id_msg(sid))
                        } else {
                            pre.events
                        },
                        ..pre
                    })
                } else if opcode == 1 {
                    vals[0] matches ArgV::NewId(id) && create_positioner_post(
                        pre,
                        sid,
                        b0,
                        id,
                        post,
                        act,
                    )
                } else if opcode == 2 {
                    vals[0] matches ArgV::NewId(id) && (vals[1] matches ArgV::Object(surface)
                        && get_xdg_surface_post(pre, sid, b0, id, surface, post, act))
                } else {
                    act == NextAction::Continue && (vals[0] matches ArgV::Uint(serial)
                        && rebound_value(
                        pre,
                        post,
                        sid,
                        Resource::XdgWmBase(XdgWmBase { last_pong_serial: Some(serial) }),
                    ))
                }
            }
        },
    }
}

impl XdgWmBase {
    /// Create a positioner object, used to place popups relative to a parent
    /// surface.
    pub fn create_positioner(context: Context<XdgWmBase>, id: u32) -> (r: (Session, NextAction))
        requires
            context.wf(),
        ensures
            r.0@.wf(),
            create_positioner_post(
                context.session@,
                context.sender_object_id,
                context.sender_object,
                id,
                r.0@,
                r.1,
            ),
    {
        let Context { session, sender_object_id: sid, sender_object: base } = context;
        let mut session = session;
        let ghost pre = session@;
        if !(id >= 1 && id < SERVER_ID_BASE) || session.resources.contains(id) || id == sid {
            session.rebind_with_error(sid, Resource::XdgWmBase(base), ProtocolError::InvalidNewId);
            return (session, NextAction::Continue);
        }
        session.resources.bind(sid, Resource::XdgWmBase(base));
        session.resources.bind(id, Resource::XdgPositioner(XdgPositioner {}));
        proof {
            assert forall|i: u32| #[trigger] session@.resources.contains_key(i)
                implies session@.id_ok(i) by {
                if i != sid && i != id {
                    assert(pre.resources.contains_key(i));
                }
            }
        }
        (session, NextAction::Continue)
    }

    /// Destroy the shell-base object.
    pub fn destroy(context: Context<XdgWmBase>) -> (r: (Session, NextAction))
        requires
            context.wf(),
        ensures
            r.0@.wf(),
            r.1 == NextAction::Continue,
            r.0@ == (SessionV {
                events: if is_client_id(context.sender_object_id) {
                    context.session@.events.push(delete_id_msg(context.sender_object_id))
                } else {
                    context.session@.events
                },
                ..context.session@
            }),
    {
        let Context { session, sender_object_id: sid, sender_object: _ } = context;
        let mut session = session;
        session.ack_destroy(sid);
        (session, NextAction::Continue)
    }

    /// Create a shell surface for an existing surface. The shell surface is
    /// the basis for the toplevel and popup roles but not itself a role.
    pub fn get_xdg_surface(context: Context<XdgWmBase>, id: u32, surface: u32) -> (r: (
        Session,
        NextAction,
    ))
        requires
            context.wf(),
        ensures
            r.0@.wf(),
            get_xdg_surface_post(
                context.session@,
                context.sender_object_id,
                context.sender_object,
                id,
                surface,
                r.0@,
                r.1,
            ),
    {
        let Context { session, sender_object_id: sid, sender_object: base } = context;
        let mut session = session;
        let ghost pre = session@;
        if !(id >= 1 && id < SERVER_ID_BASE) || session.resources.contains(id) || id == sid {
            session.rebind_with_error(sid, Resource::XdgWmBase(base), ProtocolError::InvalidNewId);
            return (session, NextAction::Continue);
        }
        let is_surface = match session.resources.get(surface) {
            Some(r0) => match r0 {
                Resource::WlSurface(_) => true,
                _ => false,
            },
            None => false,
        };
        if !is_surface {
            session.rebind_with_error(
                sid,
                Resource::XdgWmBase(base),
                ProtocolError::WrongInterface,
            );
            return (session, NextAction::Continue);
        }
        let mut w = match session.resources.remove(surface) {
            Some(Resource::WlSurface(w)) => w,
            _ => vstd::pervasive::unreached(),
        };
        w.xdg_surface_id = Some(id);
        session.resources.bind(surface, Resource::WlSurface(w));
        session.resources.bind(sid, Resource::XdgWmBase(base));
        session.resources.bind(id, Resource::XdgSurface(XdgSurface { wl_surface_id: surface }));
        proof {
            let bound = pre.resources.insert(sid, Resource::XdgWmBase(base)).insert(
                id,
                Resource::XdgSurface(XdgSurface { wl_surface_id: surface }),
            );
            assert(session@.resources.remove(surface) =~= bound.remove(surface));
            assert forall|i: u32| #[trigger] session@.resources.contains_key(i)
                implies session@.id_ok(i) by {
                if i != sid && i != id {
                    assert(pre.resources.contains_key(i));
                }
            }
        }
        (session, NextAction::Continue)
    }

    /// Answer a ping: record the serial the client responded with.
    pub fn pong(context: Context<XdgWmBase>, serial: u32) -> (r: (Session, NextAction))
        requires
            context.wf(),
        ensures
            r.0@.wf(),
            r.1 == NextAction::Continue,
            rebound_value(
                context.session@,
                r.0@,
                context.sender_object_id,
                Resource::XdgWmBase(XdgWmBase { last_pong_serial: Some(serial) }),
            ),
    {
        let Context { session, sender_object_id: sid, sender_object: _ } = context;
        let mut session = session;
        let ghost pre = session@;
        session.resources.bind(
            sid,
            Resource::XdgWmBase(XdgWmBase { last_pong_serial: Some(serial) }),
        );
        proof {
            lemma_wf_after_bind(pre, session@, sid);
        }
        (session, NextAction::Continue)
    }
}

/// Route one decoded message to the shell base's handler.
pub fn dispatch_request(context: Context<XdgWmBase>, opcode: u16, args: Vec<u8>) -> (r: (
    Session,
    NextAction,
))
    requires
        context.wf(),
    ensures
        r.0@.wf(),
        wm_base_dispatch_post(
            context.session@,
            context.sender_object_id,
            context.sender_object,
            opcode,
            args@,
            r.0@,
            r.1,
        ),
{
    let Context { session, sender_object_id: sid, sender_object: base } = context;
    let mut session = session;
    let mut sig: Vec<ArgKind> = Vec::new();
    match opcode {
        0 => {},
        1 => {
            sig.push(ArgKind::NewId);
            assert(sig@ =~= seq![ArgKind::NewId]);
        },
        2 => {
            sig.push(ArgKind::NewId);
            sig.push(ArgKind::Object);
            assert(sig@ =~= seq![ArgKind::NewId, ArgKind::Object]);
        },
        3 => {
            sig.push(ArgKind::Uint);
            assert(sig@ =~= seq![ArgKind::Uint]);
        },
        _ => {
            session.rebind_with_error(sid, Resource::XdgWmBase(base), ProtocolError::InvalidMethod);
            return (session, NextAction::Continue);
        },
    }
    let vals = match crate::wire::decode_args(&args, &sig) {
        Ok(v) => v,
        Err(_) => {
            session.rebind_with_error(sid, Resource::XdgWmBase(base), ProtocolError::InvalidMethod);
            return (session, NextAction::Continue);
        },
    };
    proof {
        crate::wire::lemma_decode_args_shape(sig@, args@, 0);
    }
    match opcode {
        0 => XdgWmBase::destroy(Context { session, sender_object_id: sid, sender_object: base }),
        1 => {
            let id = crate::wire::arg_new_id(&vals, 0);
            XdgWmBase::create_positioner(
                Context { session, sender_object_id: sid, sender_object: base },
                id,
            )
        },
        2 => {
            let id = crate::wire::arg_new_id(&vals, 0);
            let surface = crate::wire::arg_object(&vals, 1);
            XdgWmBase::get_xdg_surface(
                Context { session, sender_object_id: sid, sender_object: base },
                id,
                surface,
            )
        },
        3 => {
            let serial = crate::wire::arg_uint(&vals, 0);
            XdgWmBase::pong(
                Context { session, sender_object_id: sid, sender_object: base },
                serial,
            )
        },
        _ => vstd::pervasive::unreached(),
    }
}

} // verus!
