//! A sub-surface role object: a surface embedded into a parent surface.

use crate::errors::ProtocolError;
use crate::resource::Resource;
use crate::session::{
    is_client_id, lemma_wf_after_bind, rebind_error_outcome, rebound_value, Context, NextAction,
    Session, SessionV,
};
use crate::wayland::wl_display::delete_id_msg;
use crate::wire::{spec_decode_args, ArgKind, ArgV};
use vstd::prelude::*;

verus! {

#[derive(Debug, Clone, PartialEq, Eq, Structural)]
pub struct WlSubsurface {
    /// The surface playing the sub-surface role.
    pub surface_id: u32,
    /// The parent surface.
    pub parent_id: u32,
    /// Position of the sub-surface's origin in parent coordinates.
    pub x: i32,
    pub y: i32,
    /// Whether commits are synchronized with the parent's commits.
    pub sync: bool,
}

/// The argument signature of each sub-surface request, by opcode: destroy,
/// set_position, place_above, place_below, set_sync, set_desync.
pub open spec fn subsurface_request_sig(opcode: u16) -> Option<Seq<ArgKind>> {
    if opcode == 0 {
        Some(Seq::empty())
    } else if opcode == 1 {
        Some(seq![ArgKind::Int, ArgKind::Int])
    } else if opcode == 2 {
        Some(seq![ArgKind::Object])
    } else if opcode == 3 {
        Some(seq![ArgKind::Object])
    } else if opcode == 4 {
        Some(Seq::empty())
    } else if opcode == 5 {
        Some(Seq::empty())
    } else {
        None
    }
}

/// Everything the sub-surface dispatcher guarantees, by opcode. Reordering
/// requests (place_above, place_below) validate their sibling and are
/// accepted; the stacking order itself is compositor policy outside the
/// engine.
pub open spec fn subsurface_dispatch_post(
    pre: SessionV,
    sid: u32,
    s0: WlSubsurface,
    opcode: u16,
    args: Seq<u8>,
    post: SessionV,
    act: NextAction,
) -> bool {
    match subsurface_request_sig(opcode) {
        None => act == NextAction::Continue && rebind_error_outcome(
            pre,
            post,
            sid,
            Resource::WlSubsurface(s0),
            ProtocolError::InvalidMethod,
        ),
        Some(sig) => {
            let d = spec_decode_args(sig, args, 0);
            if d is None || d.unwrap().1 != args.len() {
                act == NextAction::Continue && rebind_error_outcome(
                    pre,
                    post,
                    sid,
                    Resource::WlSubsurface(s0),
                    ProtocolError::InvalidMethod,
                )
            } else {
                let vals = d.unwrap().0;
                if opcode == 0 {
                    act == NextAction::Continue && post == (SessionV {
                        events: if is_client_id(sid) {
                            pre.events.push(delete_id_msg(sid))
                        } else {
                            pre.events
                        },
                        ..pre
                    })
                } else if opcode == 1 {
                    act == NextAction::Continue && (vals[0] matches ArgV::Int(x) && (vals[1]
                        matches ArgV::Int(y) && rebound_value(
                        pre,
                        post,
                        sid,
                        Resource::WlSubsurface(WlSubsurface { x, y, ..s0 }),
                    )))
                } else if opcode == 2 || opcode == 3 {
                    vals[0] matches ArgV::Object(sibling) && {
                        if pre.resources.contains_key(sibling) {
                            act == NextAction::Continue && rebound_value(
                                pre,
                                post,
                                sid,
                                Resource::WlSubsurface(s0),
                            )
                        } else {
                            act == NextAction::Continue && rebind_error_outcome(
                                pre,
                                post,
                                sid,
                                Resource::WlSubsurface(s0),
                                ProtocolError::WrongInterface,
                            )
                        }
                    }
                } else if opcode == 4 {
                    act == NextAction::Continue && rebound_value(
                        pre,
                        post,
                        sid,
                        Resource::WlSubsurface(WlSubsurface { sync: true, ..s0 }),
                    )
                } else {
                    act == NextAction::Continue && rebound_value(
                        pre,
                        post,
                        sid,
                        Resource::WlSubsurface(WlSubsurface { sync: false, ..s0 }),
                    )
                }
            }
        },
    }
}

impl WlSubsurface {
    /// Schedule the sub-surface's position relative to its parent.
    pub fn set_position(&mut self, x: i32, y: i32)
        ensures
            *final(self) == (WlSubsurface { x, y, ..*old(self) }),
    {
        self.x = x;
        self.y = y;
    }

    /// Synchronize commits with the parent's commits.
    pub fn set_sync(&mut self)
        ensures
            *final(self) == (WlSubsurface { sync: true, ..*old(self) }),
    {
        self.sync = true;
    }

    /// Apply commits independently of the parent.
    pub fn set_desync(&mut self)
        ensures
            *final(self) == (WlSubsurface { sync: false, ..*old(self) }),
    {
        self.sync = false;
    }

    /// The sub-surface role object is not needed anymore: destroy it.
    pub fn destroy(context: Context<WlSubsurface>) -> (r: (Session, NextAction))
        requires
            context.wf(),
        ensures
            r.0@.wf(),
            r.1 == NextAction::Continue,
            r.0@ == (SessionV {
                events: if is_client_id(context.sender_object_id) {
                    context.session@.events.push(delete_id_msg(context.sender_object_id))
                } else {
                    context.session@.events
                },
                ..context.session@
            }),
    {
        let Context { session, sender_object_id: sid, sender_object: _ } = context;
        let mut session = session;
        session.ack_destroy(sid);
        (session, NextAction::Continue)
    }

    /// Turn this sub-surface back into a registry resource.
    pub fn into_resource(self) -> (r: Resource)
        ensures
            r == Resource::WlSubsurface(self),
    {
        Resource::WlSubsurface(self)
    }
}

/// Route one decoded message to the sub-surface's handler.
pub fn dispatch_request(context: Context<WlSubsurface>, opcode: u16, args: Vec<u8>) -> (r: (
    Session,
    NextAction,
))
    requires
        context.wf(),
    ensures
        r.0@.wf(),
        subsurface_dispatch_post(
            context.session@,
            context.sender_object_id,
            context.sender_object,
            opcode,
            args@,
            r.0@,
            r.1,
        ),
{
    let Context { session, sender_object_id: sid, sender_object } = context;
    let mut session = session;
    let mut sub = sender_object;
    let ghost pre = session@;
    let mut sig: Vec<ArgKind> = Vec::new();
    match opcode {
        0 => {},
        1 => {
            sig.push(ArgKind::Int);
            sig.push(ArgKind::Int);
            assert(sig@ =~= seq![ArgKind::Int, ArgKind::Int]);
        },
        2 => {
            sig.push(ArgKind::Object);
            assert(sig@ =~= seq![ArgKind::Object]);
        },
        3 => {
            sig.push(ArgKind::Object);
            assert(sig@ =~= seq![ArgKind::Object]);
        },
        4 => {},
        5 => {},
        _ => {
            session.rebind_with_error(sid, sub.into_resource(), ProtocolError::InvalidMethod);
            return (session, NextAction::Continue);
        },
    }
    let vals = match crate::wire::decode_args(&args, &sig) {
        Ok(v) => v,
        Err(_) => {
            session.rebind_with_error(sid, sub.into_resource(), ProtocolError::InvalidMethod);
            return (session, NextAction::Continue);
        },
    };
    proof {
        crate::wire::lemma_decode_args_shape(sig@, args@, 0);
    }
    match opcode {
        0 => {
            session.ack_destroy(sid);
            (session, NextAction::Continue)
        },
        1 => {
            let x = crate::wire::arg_int(&vals, 0);
            let y = crate::wire::arg_int(&vals, 1);
            sub.set_position(x, y);
            session.resources.bind(sid, sub.into_resource());
            proof {
                lemma_wf_after_bind(pre, session@, sid);
            }
            (session, NextAction::Continue)
        },
        2 | 3 => {
            let sibling = crate::wire::arg_object(&vals, 0);
            if session.resources.contains(sibling) {
                session.resources.bind(sid, sub.into_resource());
                proof {
                    lemma_wf_after_bind(pre, session@, sid);
                }
                (session, NextAction::Continue)
            } else {
                session.rebind_with_error(sid, sub.into_resource(), ProtocolError::WrongInterface);
                (session, NextAction::Continue)
            }
        },
        4 => {
            sub.set_sync();
            session.resources.bind(sid, sub.into_resource());
            proof {
                lemma_wf_after_bind(pre, session@, sid);
            }
            (session, NextAction::Continue)
        },
        5 => {
            sub.set_desync();
            session.resources.bind(sid, sub.into_resource());
            proof {
                lemma_wf_after_bind(pre, session@, sid);
            }
            (session, NextAction::Continue)
        },
        _ => vstd::pervasive::unreached(),
    }
}

} // verus!
