//! A short-lived popup surface role.

use crate::errors::ProtocolError;
use crate::resource::Resource;
use crate::session::{
    is_client_id, lemma_wf_after_bind, rebind_error_outcome, rebound_value, Context, NextAction,
    Session, SessionV,
};
use crate::wayland::wl_display::delete_id_msg;
use crate::wire::{spec_decode_args, ArgKind, ArgV};
use vstd::prelude::*;

verus! {

pub const VERSION: u32 = 2;

/// The seat and serial of the grab, when the popup has taken one.
#[derive(Debug, Clone, PartialEq, Eq, Structural)]
pub struct XdgPopup {
    pub grab_seat: Option<u32>,
    pub grab_serial: Option<u32>,
}

/// The argument signature of each popup request, by opcode: destroy, grab.
pub open spec fn popup_request_sig(opcode: u16) -> Option<Seq<ArgKind>> {
    if opcode == 0 {
        Some(Seq::empty())
    } else if opcode == 1 {
        Some(seq![ArgKind::Object, ArgKind::Uint])
    } else {
        None
    }
}

/// Everything the popup dispatcher guarantees, by opcode.
pub open spec fn popup_dispatch_post(
    pre: SessionV,
    sid: u32,
    p0: XdgPopup,
    opcode: u16,
    args: Seq<u8>,
    post: SessionV,
    act: NextAction,
) -> bool {
    match popup_request_sig(opcode) {
        None => act == NextAction::Continue && rebind_error_outcome(
            pre,
            post,
            sid,
            Resource::XdgPopup(p0),
            ProtocolError::InvalidMethod,
        ),
        Some(sig) => {
            let d = spec_decode_args(sig, args, 0);
            if d is None || d.unwrap().1 != args.len() {
                act == NextAction::Continue && rebind_error_outcome(
                    pre,
                    post,
                    sid,
                    Resource::XdgPopup(p0),
                    ProtocolError::InvalidMethod,
                )
            } else {
                let vals = d.unwrap().0;
                if opcode == 0 {
                    act == NextAction::Continue && post == (SessionV {
                        events: if is_client_id(sid) {
                            pre.events.push(delete_id_msg(sid))
                        } else {
                            pre.events
                        },
                        ..pre
                    })
                } else {
                    act == NextAction::Continue && (vals[0] matches ArgV::Object(seat) && (vals[1]
                        matches ArgV::Uint(serial) && rebound_value(
                        pre,
                        post,
                        sid,
                        Resource::XdgPopup(
                            XdgPopup { grab_seat: Some(seat), grab_serial: Some(serial) },
                        ),
                    )))
                }
            }
        },
    }
}

impl XdgPopup {
    /// The popup is dismissed: destroy it.
    pub fn destroy(context: Context<XdgPopup>) -> (r: (Session, NextAction))
        requires
            context.wf(),
        ensures
            r.0@.wf(),
            r.1 == NextAction::Continue,
            r.0@ == (SessionV {
                events: if is_client_id(context.sender_object_id) {
                    context.session@.events.push(delete_id_msg(context.sender_object_id))
                } else {
                    context.session@.events
                },
                ..context.session@
            }),
    {
        let Context { session, sender_object_id: sid, sender_object: _ } = context;
        let mut session = session;
        session.ack_destroy(sid);
        (session, NextAction::Continue)
    }

    /// Take an explicit grab on the given seat for this popup.
    pub fn grab(&mut self, seat: u32, serial: u32)
        ensures
            *final(self) == (XdgPopup { grab_seat: Some(seat), grab_serial: Some(serial) }),
    {
        self.grab_seat = Some(seat);
        self.grab_serial = Some(serial);
    }

    /// Turn this popup back into a registry resource.
    pub fn into_resource(self) -> (r: Resource)
        ensures
            r == Resource::XdgPopup(self),
    {
        Resource::XdgPopup(self)
    }
}

/// Route one decoded message to the popup's handler.
pub fn dispatch_request(context: Context<XdgPopup>, opcode: u16, args: Vec<u8>) -> (r: (
    Session,
    NextAction,
))
    requires
        context.wf(),
    ensures
        r.0@.wf(),
        popup_dispatch_post(
            context.session@,
            context.sender_object_id,
            context.sender_object,
            opcode,
            args@,
            r.0@,
            r.1,
        ),
{
    let Context { session, sender_object_id: sid, sender_object } = context;
    let mut session = session;
    let mut popup = sender_object;
    let ghost pre = session@;
    let mut sig: Vec<ArgKind> = Vec::new();
    match opcode {
        0 => {},
        1 => {
            sig.push(ArgKind::Object);
            sig.push(ArgKind::Uint);
            assert(sig@ =~= seq![ArgKind::Object, ArgKind::Uint]);
        },
        _ => {
            session.rebind_with_error(sid, popup.into_resource(), ProtocolError::InvalidMethod);
            return (session, NextAction::Continue);
        },
    }
    let vals = match crate::wire::decode_args(&args, &sig) {
        Ok(v) => v,
        Err(_) => {
            session.rebind_with_error(sid, popup.into_resource(), ProtocolError::InvalidMethod);
            return (session, NextAction::Continue);
        },
    };
    proof {
        crate::wire::lemma_decode_args_shape(sig@, args@, 0);
    }
    match opcode {
        0 => XdgPopup::destroy(Context { session, sender_object_id: sid, sender_object: popup }),
        1 => {
            let seat = crate::wire::arg_object(&vals, 0);
            let serial = crate::wire::arg_uint(&vals, 1);
            popup.grab(seat, serial);
            session.resources.bind(sid, popup.into_resource());
            proof {
                lemma_wf_after_bind(pre, session@, sid);
            }
            (session, NextAction::Continue)
        },
        _ => vstd::pervasive::unreached(),
    }
}

} // verus!
