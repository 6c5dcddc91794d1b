//! A toplevel window role.

use crate::errors::ProtocolError;
use crate::resource::Resource;
use crate::session::{
    is_client_id, rebind_error_outcome, Context, NextAction, Session, SessionV,
};
use crate::wayland::wl_display::delete_id_msg;
use crate::wire::{spec_decode_args, ArgKind};
use vstd::prelude::*;

verus! {

#[derive(Debug, Clone, PartialEq, Eq, Structural)]
pub struct XdgToplevel {}

/// The argument signature of each toplevel request this engine handles, by
/// opcode: only destroy.
pub open spec fn toplevel_request_sig(opcode: u16) -> Option<Seq<ArgKind>> {
    if opcode == 0 {
        Some(Seq::empty())
    } else {
        None
    }
}

/// Everything the toplevel dispatcher guarantees, by opcode.
pub open spec fn toplevel_dispatch_post(
    pre: SessionV,
    sid: u32,
    t0: XdgToplevel,
    opcode: u16,
    args: Seq<u8>,
    post: SessionV,
    act: NextAction,
) -> bool {
    match toplevel_request_sig(opcode) {
        None => act == NextAction::Continue && rebind_error_outcome(
            pre,
            post,
            sid,
            Resource::XdgToplevel(t0),
            ProtocolError::InvalidMethod,
        ),
        Some(sig) => {
            let d = spec_decode_args(sig, args, 0);
            if d is None || d.unwrap().1 != args.len() {
                act == NextAction::Continue && rebind_error_outcome(
                    pre,
                    post,
                    sid,
                    Resource::XdgToplevel(t0),
                    ProtocolError::InvalidMethod,
                )
            } else {
                act == NextAction::Continue && post == (SessionV {
                    events: if is_client_id(sid) {
                        pre.events.push(delete_id_msg(sid))
                    } else {
                        pre.events
                    },
                    ..pre
                })
            }
        },
    }
}

impl XdgToplevel {
    /// The window is gone: destroy the toplevel role object.
    pub fn destroy(context: Context<XdgToplevel>) -> (r: (Session, NextAction))
        requires
            context.wf(),
        ensures
            r.0@.wf(),
            r.1 == NextAction::Continue,
            r.0@ == (SessionV {
                events: if is_client_id(context.sender_object_id) {
                    context.session@.events.push(delete_id_msg(context.sender_object_id))
                } else {
                    context.session@.events
                },
                ..context.session@
            }),
    {
        let Context { session, sender_object_id: sid, sender_object: _ } = context;
        let mut session = session;
        session.ack_destroy(sid);
        (session, NextAction::Continue)
    }

    /// Route one decoded message to this toplevel's handler.
    pub fn handle(context: Context<XdgToplevel>, opcode: u16, args: Vec<u8>) -> (r: (
        Session,
        NextAction,
    ))
        requires
            context.wf(),
        ensures
            r.0@.wf(),
            toplevel_dispatch_post(
                context.session@,
                context.sender_object_id,
                context.sender_object,
                opcode,
                args@,
                r.0@,
                r.1,
            ),
    {
        let Context { session, sender_object_id: sid, sender_object: toplevel } = context;
        let mut session = session;
        if opcode != 0 {
            session.rebind_with_error(
                sid,
                Resource::XdgToplevel(toplevel),
                ProtocolError::InvalidMethod,
            );
            return (session, NextAction::Continue);
        }
        let sig: Vec<ArgKind> = Vec::new();
        match crate::wire::decode_args(&args, &sig) {
            Ok(_) => XdgToplevel::destroy(
                Context { session, sender_object_id: sid, sender_object: toplevel },
            ),
            Err(_) => {
                session.rebind_with_error(
                    sid,
                    Resource::XdgToplevel(toplevel),
                    ProtocolError::InvalidMethod,
                );
                (session, NextAction::Continue)
            },
        }
    }
}

} // verus!
