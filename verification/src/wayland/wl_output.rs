//! A compositor output (one monitor's area of the compositor space).

use crate::errors::ProtocolError;
use crate::resource::Resource;
use crate::session::{
    is_client_id, rebind_error_outcome, Context, NextAction, Session, SessionV,
};
use crate::wayland::wl_display::delete_id_msg;
use crate::wire::{spec_decode_args, ArgKind};
use vstd::prelude::*;

verus! {

#[derive(Debug, Clone, PartialEq, Eq, Structural)]
pub struct WlOutput {}

/// The argument signature of each output request, by opcode: only release.
pub open spec fn output_request_sig(opcode: u16) -> Option<Seq<ArgKind>> {
    if opcode == 0 {
        Some(Seq::empty())
    } else {
        None
    }
}

/// What releasing the output guarantees: its binding is gone and, for a
/// client-range id, a `delete_id` acknowledgement is queued.
pub open spec fn release_post(pre: SessionV, sid: u32, post: SessionV, act: NextAction) -> bool {
    &&& act == NextAction::Continue
    &&& post == (SessionV {
        events: if is_client_id(sid) {
            pre.events.push(delete_id_msg(sid))
        } else {
            pre.events
        },
        ..pre
    })
}

/// Everything the output dispatcher guarantees, by opcode.
pub open spec fn output_dispatch_post(
    pre: SessionV,
    sid: u32,
    output: WlOutput,
    opcode: u16,
    args: Seq<u8>,
    post: SessionV,
    act: NextAction,
) -> bool {
    match output_request_sig(opcode) {
        None => act == NextAction::Continue && rebind_error_outcome(
            pre,
            post,
            sid,
            Resource::WlOutput(output),
            ProtocolError::InvalidMethod,
        ),
        Some(sig) => {
            let d = spec_decode_args(sig, args, 0);
            if d is None || d.unwrap().1 != args.len() {
                act == NextAction::Continue && rebind_error_outcome(
                    pre,
                    post,
                    sid,
                    Resource::WlOutput(output),
                    ProtocolError::InvalidMethod,
                )
            } else {
                release_post(pre, sid, post, act)
            }
        },
    }
}

impl WlOutput {
    /// The client will not use the output object anymore: destroy it.
    pub fn release(context: Context<WlOutput>) -> (r: (Session, NextAction))
        requires
            context.wf(),
        ensures
            r.0@.wf(),
            release_post(context.session@, context.sender_object_id, r.0@, r.1),
    {
        let Context { session, sender_object_id: sid, sender_object: _ } = context;
        let mut session = session;
        session.ack_destroy(sid);
        (session, NextAction::Continue)
    }
}

/// Route one decoded message to the output's handler.
pub fn dispatch_request(context: Context<WlOutput>, opcode: u16, args: Vec<u8>) -> (r: (
    Session,
    NextAction,
))
    requires
        context.wf(),
    ensures
        r.0@.wf(),
        output_dispatch_post(
            context.session@,
            context.sender_object_id,
            context.sender_object,
            opcode,
            args@,
            r.0@,
            r.1,
        ),
{
    let Context { session, sender_object_id: sid, sender_object: output } = context;
    let mut session = session;
    if opcode != 0 {
        session.rebind_with_error(sid, Resource::WlOutput(output), ProtocolError::InvalidMethod);
        return (session, NextAction::Continue);
    }
    let sig: Vec<ArgKind> = Vec::new();
    match crate::wire::decode_args(&args, &sig) {
        Ok(_) => WlOutput::release(
            Context { session, sender_object_id: sid, sender_object: output },
        ),
        Err(_) => {
            session.rebind_with_error(
                sid,
                Resource::WlOutput(output),
                ProtocolError::InvalidMethod,
            );
            (session, NextAction::Continue)
        },
    }
}

} // verus!
