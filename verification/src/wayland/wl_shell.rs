//! The deprecated desktop shell singleton: grants surfaces the shell-surface
//! role.

use crate::errors::ProtocolError;
use crate::resource::Resource;
use crate::session::{
    is_client_id, rebind_error_outcome, Context, NextAction, Session, SessionV, SERVER_ID_BASE,
};
use crate::wayland::wl_shell_surface::WlShellSurface;
use crate::wayland::wl_surface::{surface_at, Role, SurfaceV};
use crate::wire::{spec_decode_args, ArgKind, ArgV};
use vstd::prelude::*;

verus! {

/// Protocol errors this interface can raise.
#[derive(Debug, Clone, Copy, PartialEq, Eq, Structural)]
pub enum Error {
    /// The surface already has a different role.
    Role,
}

#[derive(Debug, Clone, PartialEq, Eq, Structural)]
pub struct WlShell {}

/// The argument signature of each shell request, by opcode: only
/// get_shell_surface.
pub open spec fn shell_request_sig(opcode: u16) -> Option<Seq<ArgKind>> {
    if opcode == 0 {
        Some(seq![ArgKind::NewId, ArgKind::Object])
    } else {
        None
    }
}

/// What granting the shell-surface role guarantees. A new-object id outside
/// the client range, already bound, or equal to the sender's is
/// `InvalidNewId`; an unbound or non-surface target is `WrongInterface`; a
/// surface that already plays a different role is `RoleAlreadySet`, with the
/// surface untouched. Otherwise the surface gets the role (a second grant of
/// the same role is a no-op on it) and a shell-surface role object is bound
/// at the new id. All violations are recoverable.
pub open spec fn get_shell_surface_post(
    pre: SessionV,
    sid: u32,
    shell: WlShell,
    id: u32,
    surface: u32,
    post: SessionV,
    act: NextAction,
) -> bool {
    let shell_r = Resource::WlShell(shell);
    &&& act == NextAction::Continue
    &&& if !(is_client_id(id) && !pre.resources.contains_key(id) && id != sid) {
        rebind_error_outcome(pre, post, sid, shell_r, ProtocolError::InvalidNewId)
    } else if !(pre.resources.contains_key(surface) && pre.resources[surface] is WlSurface) {
        rebind_error_outcome(pre, post, sid, shell_r, ProtocolError::WrongInterface)
    } else {
        pre.resources[surface] matches Resource::WlSurface(w0) && ({
            let sv = w0@;
            if sv.role is Some && sv.role != Some(Role::ShellSurface) {
                rebind_error_outcome(pre, post, sid, shell_r, ProtocolError::RoleAlreadySet)
            } else {
                let base = pre.resources.insert(sid, shell_r).insert(
                    id,
                    Resource::WlShellSurface(WlShellSurface { surface_id: surface }),
                );
                &&& surface_at(
                    post.resources,
                    surface,
                    (SurfaceV { role: Some(Role::ShellSurface), ..sv }),
                )
                &&& post.resources.remove(surface) == base.remove(surface)
                &&& post == (SessionV { resources: post.resources, ..pre })
            }
        })
    }
}

/// Everything the shell dispatcher guarantees, by opcode.
pub open spec fn shell_dispatch_post(
    pre: SessionV,
    sid: u32,
    shell: WlShell,
    opcode: u16,
    args: Seq<u8>,
    post: SessionV,
    act: NextAction,
) -> bool {
    match shell_request_sig(opcode) {
        None => act == NextAction::Continue && rebind_error_outcome(
            pre,
            post,
            sid,
            Resource::WlShell(shell),
            ProtocolError::InvalidMethod,
        ),
        Some(sig) => {
            let d = spec_decode_args(sig, args, 0);
            if d is None || d.unwrap().1 != args.len() {
                act == NextAction::Continue && rebind_error_outcome(
                    pre,
                    post,
                    sid,
                    Resource::WlShell(shell),
                    ProtocolError::InvalidMethod,
                )
            } else {
                let vals = d.unwrap().0;
                vals[0] matches ArgV::NewId(id) && (vals[1] matches ArgV::Object(surface)
                    && get_shell_surface_post(pre, sid, shell, id, surface, post, act))
            }
        },
    }
}

impl WlShell {
    /// Create a shell surface for an existing surface, giving that surface
    /// the shell-surface role. Only one role is ever granted to a surface;
    /// granting a different one is a protocol error.
    pub fn get_shell_surface(context: Context<WlShell>, id: u32, surface: u32) -> (r: (
        Session,
        NextAction,
    ))
        requires
            context.wf(),
        ensures
            r.0@.wf(),
            get_shell_surface_post(
                context.session@,
                context.sender_object_id,
                context.sender_object,
                id,
                surface,
                r.0@,
                r.1,
            ),
    {
        let Context { session, sender_object_id: sid, sender_object: shell } = context;
        let mut session = session;
        let ghost pre = session@;
        if !(id >= 1 && id < SERVER_ID_BASE) || session.resources.contains(id) || id == sid {
            session.rebind_with_error(sid, Resource::WlShell(shell), ProtocolError::InvalidNewId);
            return (session, NextAction::Continue);
        }
        let role_lookup: Option<Option<Role>> = match session.resources.get(surface) {
            Some(r0) => match r0 {
                Resource::WlSurface(w) => Some(w.role),
                _ => None,
            },
            None => None,
        };
        let role0 = match role_lookup {
            Some(role0) => role0,
            None => {
                session.rebind_with_error(
                    sid,
                    Resource::WlShell(shell),
                    ProtocolError::WrongInterface,
                );
                return (session, NextAction::Continue);
            },
        };
        let refused = match role0 {
            Some(r0) => r0 != Role::ShellSurface,
            None => false,
        };
        if refused {
            session.rebind_with_error(sid, Resource::WlShell(shell), ProtocolError::RoleAlreadySet);
            return (session, NextAction::Continue);
        }
        let mut w = match session.resources.remove(surface) {
            Some(Resource::WlSurface(w)) => w,
            _ => vstd::pervasive::unreached(),
        };
        match w.give_role(Role::ShellSurface) {
            Ok(()) => {},
            Err(_) => {
                proof {
                    assert(false);
                }
            },
        }
        session.resources.bind(surface, Resource::WlSurface(w));
        session.resources.bind(sid, Resource::WlShell(shell));
        session.resources.bind(
            id,
            Resource::WlShellSurface(WlShellSurface { surface_id: surface }),
        );
        proof {
            let base = pre.resources.insert(sid, Resource::WlShell(shell)).insert(
                id,
                Resource::WlShellSurface(WlShellSurface { surface_id: surface }),
            );
            assert(session@.resources.remove(surface) =~= base.remove(surface));
            assert forall|i: u32| #[trigger] session@.resources.contains_key(i)
                implies session@.id_ok(i) by {
                if i != sid && i != id && i != surface {
                    assert(pre.resources.contains_key(i));
                }
                if i == surface {
                    assert(pre.resources.contains_key(i));
                }
            }
        }
        (session, NextAction::Continue)
    }
}

/// Route one decoded message to the shell's handler.
pub fn dispatch_request(context: Context<WlShell>, opcode: u16, args: Vec<u8>) -> (r: (
    Session,
    NextAction,
))
    requires
        context.wf(),
    ensures
        r.0@.wf(),
        shell_dispatch_post(
            context.session@,
            context.sender_object_id,
            context.sender_object,
            opcode,
            args@,
            r.0@,
            r.1,
        ),
{
    let Context { session, sender_object_id: sid, sender_object: shell } = context;
    let mut session = session;
    if opcode != 0 {
        session.rebind_with_error(sid, Resource::WlShell(shell), ProtocolError::InvalidMethod);
        return (session, NextAction::Continue);
    }
    let mut sig: Vec<ArgKind> = Vec::new();
    sig.push(ArgKind::NewId);
    sig.push(ArgKind::Object);
    proof {
        assert(sig@ =~= seq![ArgKind::NewId, ArgKind::Object]);
    }
    let vals = match crate::wire::decode_args(&args, &sig) {
        Ok(v) => v,
        Err(_) => {
            session.rebind_with_error(sid, Resource::WlShell(shell), ProtocolError::InvalidMethod);
            return (session, NextAction::Continue);
        },
    };
    proof {
        crate::wire::lemma_decode_args_shape(sig@, args@, 0);
    }
    let id = crate::wire::arg_new_id(&vals, 0);
    let surface = crate::wire::arg_object(&vals, 1);
    WlShell::get_shell_surface(
        Context { session, sender_object_id: sid, sender_object: shell },
        id,
        surface,
    )
}

} // verus!
