//! A source of drag-and-drop or selection data offered by a client.

use crate::errors::ProtocolError;
use crate::resource::Resource;
use crate::session::{
    is_client_id, rebind_error_outcome, Context, NextAction, Session, SessionV,
};
use crate::wayland::wl_display::delete_id_msg;
use crate::wire::{spec_decode_args, ArgKind, ArgV};
use vstd::prelude::*;

verus! {

pub const VERSION: u32 = 3;

/// The mime types the source offers, in the order they were offered, and the
/// drag-and-drop actions it supports.
#[derive(Debug, Clone, PartialEq, Eq)]
pub struct WlDataSource {
    pub mime_types: Vec<Vec<u8>>,
    pub dnd_actions: u32,
}

/// The mathematical value of a data source.
pub struct DataSourceV {
    pub mime_types: Seq<Seq<u8>>,
    pub dnd_actions: u32,
}

impl View for WlDataSource {
    type V = DataSourceV;

    open spec fn view(&self) -> DataSourceV {
        DataSourceV {
            mime_types: self.mime_types@.map_values(|v: Vec<u8>| v@),
            dnd_actions: self.dnd_actions,
        }
    }
}

impl WlDataSource {
    /// A fresh source: no mime types offered, no actions set.
    pub fn new() -> (s: WlDataSource)
        ensures
            s@.mime_types == Seq::<Seq<u8>>::empty(),
            s@.dnd_actions == 0,
    {
        let s = WlDataSource { mime_types: Vec::new(), dnd_actions: 0 };
        proof {
            assert(s@.mime_types =~= Seq::<Seq<u8>>::empty());
        }
        s
    }
}

/// The registry binds `id` to a data source whose value is `dv`.
pub open spec fn source_at(m: Map<u32, Resource>, id: u32, dv: DataSourceV) -> bool {
    m.contains_key(id) && (m[id] matches Resource::WlDataSource(d) && d@ == dv)
}

/// The handled session is the incoming one with the sender rebound as a data
/// source of value `dv`; nothing else changed.
pub open spec fn source_rebound_as(
    pre: SessionV,
    post: SessionV,
    sid: u32,
    dv: DataSourceV,
) -> bool {
    &&& source_at(post.resources, sid, dv)
    &&& post.resources.remove(sid) == pre.resources
    &&& post == (SessionV { resources: post.resources, ..pre })
}

/// The argument signature of each data-source request, by opcode: offer,
/// destroy, set_actions.
pub open spec fn source_request_sig(opcode: u16) -> Option<Seq<ArgKind>> {
    if opcode == 0 {
        Some(seq![ArgKind::Str])
    } else if opcode == 1 {
        Some(Seq::empty())
    } else if opcode == 2 {
        Some(seq![ArgKind::Uint])
    } else {
        None
    }
}

/// Everything the data-source dispatcher guarantees, by opcode: offer
/// appends a mime type, destroy drops the binding with a client-range
/// acknowledgement, set_actions replaces the action mask.
pub open spec fn source_dispatch_post(
    pre: SessionV,
    sid: u32,
    d0: DataSourceV,
    opcode: u16,
    args: Seq<u8>,
    src: WlDataSource,
    post: SessionV,
    act: NextAction,
) -> bool {
    match source_request_sig(opcode) {
        None => act == NextAction::Continue && rebind_error_outcome(
            pre,
            post,
            sid,
            Resource::WlDataSource(src),
            ProtocolError::InvalidMethod,
        ),
        Some(sig) => {
            let d = spec_decode_args(sig, args, 0);
            if d is None || d.unwrap().1 != args.len() {
                act == NextAction::Continue && rebind_error_outcome(
                    pre,
                    post,
                    sid,
                    Resource::WlDataSource(src),
                    ProtocolError::InvalidMethod,
                )
            } else {
                let vals = d.unwrap().0;
                if opcode == 0 {
                    act == NextAction::Continue && (vals[0] matches ArgV::Str(mime)
                        && source_rebound_as(
                        pre,
                        post,
                        sid,
                        (DataSourceV { mime_types: d0.mime_types.push(mime), ..d0 }),
                    ))
                } else if opcode == 1 {
                    act == NextAction::Continue && post == (SessionV {
                        events: if is_client_id(sid) {
                            pre.events.push(delete_id_msg(sid))
                        } else {
                            pre.events
                        },
                        ..pre
                    })
                } else {
                    act == NextAction::Continue && (vals[0] matches ArgV::Uint(a)
                        && source_rebound_as(
                        pre,
                        post,
                        sid,
                        (DataSourceV { dnd_actions: a, ..d0 }),
                    ))
                }
            }
        },
    }
}

impl WlDataSource {
    /// Offer one more mime type; the order offers were made in is kept.
    pub fn offer(&mut self, mime_type: Vec<u8>)
        ensures
            final(self)@ == (DataSourceV {
                mime_types: old(self)@.mime_types.push(mime_type@),
                ..old(self)@
            }),
    {
        let ghost m = mime_type@;
        self.mime_types.push(mime_type);
        proof {
            assert(self@.mime_types =~= old(self)@.mime_types.push(m));
        }
    }

    /// Replace the drag-and-drop action mask.
    pub fn set_actions(&mut self, dnd_actions: u32)
        ensures
            final(self)@ == (DataSourceV { dnd_actions, ..old(self)@ }),
    {
        self.dnd_actions = dnd_actions;
    }

    /// The source is not needed anymore: destroy it.
    pub fn destroy(context: Context<WlDataSource>) -> (r: (Session, NextAction))
        requires
            context.wf(),
        ensures
            r.0@.wf(),
            r.1 == NextAction::Continue,
            r.0@ == (SessionV {
                events: if is_client_id(context.sender_object_id) {
                    context.session@.events.push(delete_id_msg(context.sender_object_id))
                } else {
                    context.session@.events
                },
                ..context.session@
            }),
    {
        let Context { session, sender_object_id: sid, sender_object: _ } = context;
        let mut session = session;
        session.ack_destroy(sid);
        (session, NextAction::Continue)
    }

    /// Turn this source back into a registry resource.
    pub fn into_resource(self) -> (r: Resource)
        ensures
            r == Resource::WlDataSource(self),
    {
        Resource::WlDataSource(self)
    }
}

/// Route one decoded message to the data source's handler.
pub fn dispatch_request(context: Context<WlDataSource>, opcode: u16, args: Vec<u8>) -> (r: (
    Session,
    NextAction,
))
    requires
        context.wf(),
    ensures
        r.0@.wf(),
        source_dispatch_post(
            context.session@,
            context.sender_object_id,
            context.sender_object@,
            opcode,
            args@,
            context.sender_object,
            r.0@,
            r.1,
        ),
{
    let Context { session, sender_object_id: sid, sender_object } = context;
    let mut session = session;
    let mut source = sender_object;
    let ghost pre = session@;
    let mut sig: Vec<ArgKind> = Vec::new();
    match opcode {
        0 => {
            sig.push(ArgKind::Str);
            assert(sig@ =~= seq![ArgKind::Str]);
        },
        1 => {},
        2 => {
            sig.push(ArgKind::Uint);
            assert(sig@ =~= seq![ArgKind::Uint]);
        },
        _ => {
            session.rebind_with_error(sid, source.into_resource(), ProtocolError::InvalidMethod);
            return (session, NextAction::Continue);
        },
    }
    let vals = match crate::wire::decode_args(&args, &sig) {
        Ok(v) => v,
        Err(_) => {
            session.rebind_with_error(sid, source.into_resource(), ProtocolError::InvalidMethod);
            return (session, NextAction::Continue);
        },
    };
    proof {
        crate::wire::lemma_decode_args_shape(sig@, args@, 0);
    }
    match opcode {
        0 => {
            let mime = crate::wire::arg_str(&vals, 0);
            source.offer(mime);
            session.resources.bind(sid, source.into_resource());
            proof {
                lemma_source_rebound(pre, session@, sid);
            }
            (session, NextAction::Continue)
        },
        1 => WlDataSource::destroy(
            Context { session, sender_object_id: sid, sender_object: source },
        ),
        2 => {
            let a = crate::wire::arg_uint(&vals, 0);
            source.set_actions(a);
            session.resources.bind(sid, source.into_resource());
            proof {
                lemma_source_rebound(pre, session@, sid);
            }
            (session, NextAction::Continue)
        },
        _ => vstd::pervasive::unreached(),
    }
}

/// Rebinding the sender into a session it was absent from leaves the rest of
/// the registry as it was, and preserves well-formedness.
proof fn lemma_source_rebound(pre: SessionV, post: SessionV, sid: u32)
    requires
        pre.wf(),
        pre.id_ok(sid),
        !pre.resources.contains_key(sid),
        post.resources.contains_key(sid),
        post.resources == pre.resources.insert(sid, post.resources[sid]),
    ensures
        post.resources.remove(sid) == pre.resources,
        post.wf() <== (post.next_server_id == pre.next_server_id),
{
    assert(post.resources.remove(sid) =~= pre.resources);
    if post.next_server_id == pre.next_server_id {
        assert forall|id: u32| #[trigger] post.resources.contains_key(id) implies post.id_ok(id) by {
            if id != sid {
                assert(pre.resources.contains_key(id));
            }
        }
    }
}

} // verus!
