//! Per-connection state: the object registry, the well-known singleton
//! objects, and the outbound event queue.
//!
//! A session is created when a connection is accepted, flows by exclusive
//! ownership through the handling of each message, and is destroyed when the
//! connection closes. The outbound queue is FIFO: events reach the client in
//! the order handlers posted them.

use crate::errors::{spec_error_code, ProtocolError};
use crate::registry::Registry;
use crate::resource::Resource;
use crate::wayland::wl_compositor::WlCompositor;
use crate::wayland::wl_display::{delete_id_msg, error_msg, DeleteId, Error, WlDisplay, DISPLAY_ID};
use crate::wayland::wl_registry::WlRegistry;
use crate::wayland::wl_shm::WlShm;
use crate::xdg_shell::xdg_wm_base::XdgWmBase;
use vstd::prelude::*;

verus! {

/// What the connection driver must do after a message is handled: keep
/// reading, or tear the connection down.
#[derive(Debug, Clone, Copy, PartialEq, Eq, Structural)]
pub enum NextAction {
    Continue,
    Close,
}

/// The first object id the server allocates from. Ids below it belong to
/// the client; ids from it upward are chosen by the server and announced to
/// the client through events.
pub const SERVER_ID_BASE: u32 = 0xFF00_0000;

/// An id a client may bind: nonzero and below the server range.
pub open spec fn is_client_id(id: u32) -> bool {
    1 <= id < SERVER_ID_BASE
}

/// An id the server allocates.
pub open spec fn is_server_id(id: u32) -> bool {
    id >= SERVER_ID_BASE
}

/// The mathematical value of a session.
pub struct SessionV {
    pub resources: Map<u32, Resource>,
    pub events: Seq<Seq<u8>>,
    pub next_server_id: u32,
    pub wl_registry: WlRegistry,
    pub wl_compositor: WlCompositor,
    pub wl_shm: WlShm,
    pub xdg_wm_base: XdgWmBase,
}

impl SessionV {
    /// An id the session may bind: nonzero, and not colliding with a
    /// server-range id that is yet to be allocated.
    pub open spec fn id_ok(self, id: u32) -> bool {
        id != 0 && (id >= SERVER_ID_BASE ==> id < self.next_server_id)
    }

    /// Session well-formedness: the server allocates from within its range,
    /// and every bound id is sound.
    pub open spec fn wf(self) -> bool {
        &&& self.next_server_id >= SERVER_ID_BASE
        &&& forall|id: u32| #[trigger] self.resources.contains_key(id) ==> self.id_ok(id)
    }
}

/// Per-connection aggregate: the object registry, the well-known singleton
/// objects, and the outbound event queue `tx`.
pub struct Session {
    pub resources: Registry,
    pub wl_registry: WlRegistry,
    pub wl_compositor: WlCompositor,
    pub wl_shm: WlShm,
    pub xdg_wm_base: XdgWmBase,
    /// The outbound event queue: fully encoded messages, FIFO.
    pub tx: Vec<Vec<u8>>,
    /// The next id the server will allocate.
    pub next_server_id: u32,
}

impl View for Session {
    type V = SessionV;

    open spec fn view(&self) -> SessionV {
        SessionV {
            resources: self.resources@,
            events: self.tx@.map_values(|v: Vec<u8>| v@),
            next_server_id: self.next_server_id,
            wl_registry: self.wl_registry,
            wl_compositor: self.wl_compositor,
            wl_shm: self.wl_shm,
            xdg_wm_base: self.xdg_wm_base,
        }
    }
}

/// Holds when `post` is `pre` with exactly one `error` event queued, naming
/// the offending object and the violation's code. The human-readable message
/// is diagnostic and left open.
pub open spec fn posted_error(pre: SessionV, post: SessionV, object_id: u32, e: ProtocolError) -> bool {
    exists|msg: Seq<u8>|
        post == (SessionV {
            events: pre.events.push(
                #[trigger] error_msg(object_id, spec_error_code(e), msg),
            ),
            ..pre
        })
}

/// Holds when `post_ev` is `pre_ev` with exactly one `error` event queued,
/// naming the offending object and the violation's code.
pub open spec fn events_error_pushed(
    pre_ev: Seq<Seq<u8>>,
    post_ev: Seq<Seq<u8>>,
    object_id: u32,
    e: ProtocolError,
) -> bool {
    exists|msg: Seq<u8>|
        post_ev == pre_ev.push(#[trigger] error_msg(object_id, spec_error_code(e), msg))
}

/// What destroying object `id` does to a session: the binding is removed
/// immediately; for a client-range id that was bound, a `delete_id`
/// acknowledgement is queued so the client knows the id may be reused.
/// Server-range ids need no acknowledgement.
pub open spec fn spec_destroy(s: SessionV, id: u32) -> SessionV {
    SessionV {
        resources: s.resources.remove(id),
        events: if s.resources.contains_key(id) && is_client_id(id) {
            s.events.push(delete_id_msg(id))
        } else {
            s.events
        },
        ..s
    }
}

/// Law: after binding a fresh id and then destroying it, a lookup finds
/// nothing, and a `delete_id` acknowledgement was queued if and only if the
/// id is in the client range.
pub proof fn lemma_destroy_after_insert(s: SessionV, x: u32, r: Resource)
    requires
        x != 0,
    ensures
        ({
            let bound = SessionV { resources: s.resources.insert(x, r), ..s };
            let after = spec_destroy(bound, x);
            &&& !after.resources.contains_key(x)
            &&& (is_client_id(x) ==> after.events == bound.events.push(delete_id_msg(x)))
            &&& (!is_client_id(x) ==> after.events == bound.events)
        }),
{
    let bound = SessionV { resources: s.resources.insert(x, r), ..s };
    assert(!bound.resources.remove(x).contains_key(x));
}

impl Session {
    /// A fresh session: the reserved display object bound at id 1, no queued
    /// events, the server's id counter at the bottom of its range.
    pub fn new() -> (s: Session)
        ensures
            s@.resources == Map::<u32, Resource>::empty().insert(
                DISPLAY_ID,
                Resource::WlDisplay(WlDisplay {}),
            ),
            s@.events == Seq::<Seq<u8>>::empty(),
            s@.next_server_id == SERVER_ID_BASE,
            s@.wf(),
    {
        let mut resources = Registry::new();
        let _ = resources.insert(DISPLAY_ID, Resource::WlDisplay(WlDisplay {}));
        let s = Session {
            resources,
            wl_registry: WlRegistry {},
            wl_compositor: WlCompositor {},
            wl_shm: WlShm {},
            xdg_wm_base: XdgWmBase { last_pong_serial: None },
            tx: Vec::new(),
            next_server_id: SERVER_ID_BASE,
        };
        proof {
            assert(s@.events =~= Seq::<Seq<u8>>::empty());
        }
        s
    }

    /// Enqueue one fully encoded event. Delivery is FIFO per connection, in
    /// the order handlers called this.
    pub fn send_event(&mut self, bytes: Vec<u8>)
        ensures
            final(self)@ == (SessionV { events: old(self)@.events.push(bytes@), ..old(self)@ }),
    {
        let ghost b = bytes@;
        self.tx.push(bytes);
        proof {
            assert(final(self)@.events =~= old(self)@.events.push(b));
        }
    }

    /// Queue an `error` event describing a protocol violation: the offending
    /// object, the violation's numeric code, and a short description. A
    /// description too long for one message is replaced by an empty one, so
    /// that the event always goes out.
    pub fn post_error(&mut self, object_id: u32, e: ProtocolError)
        ensures
            posted_error(old(self)@, final(self)@, object_id, e),
    {
        let code = e.code();
        let ev = Error {
            sender_object_id: DISPLAY_ID,
            object_id,
            code,
            message: e.text(),
        };
        let mut bytes: Vec<u8> = Vec::new();
        match ev.encode(&mut bytes) {
            Ok(()) => {
                self.send_event(bytes);
                proof {
                    assert(self@ == (SessionV {
                        events: old(self)@.events.push(
                            error_msg(object_id, spec_error_code(e), ev.message@),
                        ),
                        ..old(self)@
                    }));
                }
            },
            Err(_) => {
                let ev2 = Error {
                    sender_object_id: DISPLAY_ID,
                    object_id,
                    code,
                    message: Vec::new(),
                };
                let mut bytes2: Vec<u8> = Vec::new();
                let r = ev2.encode(&mut bytes2);
                proof {
                    crate::wayland::wl_display::lemma_empty_error_fits(object_id, code);
                }
                match r {
                    Ok(()) => {
                        self.send_event(bytes2);
                        proof {
                            assert(self@ == (SessionV {
                                events: old(self)@.events.push(
                                    error_msg(object_id, spec_error_code(e), ev2.message@),
                                ),
                                ..old(self)@
                            }));
                        }
                    },
                    Err(_) => {
                        proof {
                            assert(false);
                        }
                    },
                }
            },
        }
    }

    /// Unbind `id`, returning what was bound. For a client-range id that was
    /// bound, a `delete_id` acknowledgement is queued; the registry entry is
    /// gone either way, and the id must not be rebound by the server before
    /// the client has seen the acknowledgement.
    pub fn destroy_object(&mut self, id: u32) -> (r: Option<Resource>)
        ensures
            final(self)@ == spec_destroy(old(self)@, id),
            match r {
                Some(x) => old(self)@.resources.contains_key(id) && x == old(self)@.resources[id],
                None => !old(self)@.resources.contains_key(id),
            },
            old(self)@.wf() ==> final(self)@.wf(),
    {
        let removed = self.resources.remove(id);
        let was_bound = removed.is_some();
        if was_bound && id >= 1 && id < SERVER_ID_BASE {
            let ev = DeleteId { sender_object_id: DISPLAY_ID, id };
            let mut bytes: Vec<u8> = Vec::new();
            let r = ev.encode(&mut bytes);
            self.send_event(bytes);
        }
        removed
    }

    /// Acknowledge that object `id` was destroyed: client-range ids get a
    /// `delete_id` event, so the client knows the id may be reused;
    /// server-range ids need none.
    pub fn ack_destroy(&mut self, id: u32)
        requires
            old(self)@.id_ok(id),
        ensures
            final(self)@ == (SessionV {
                events: if is_client_id(id) {
                    old(self)@.events.push(delete_id_msg(id))
                } else {
                    old(self)@.events
                },
                ..old(self)@
            }),
    {
        if id < SERVER_ID_BASE {
            let ev = DeleteId { sender_object_id: DISPLAY_ID, id };
            let mut bytes: Vec<u8> = Vec::new();
            let _ = ev.encode(&mut bytes);
            proof {
                assert(bytes@ =~= delete_id_msg(id));
            }
            self.send_event(bytes);
        }
    }

    /// Rebind the sender unchanged and queue one error event naming it: the
    /// recoverable-violation path every dispatcher shares.
    pub fn rebind_with_error(&mut self, sid: u32, r: Resource, e: ProtocolError)
        requires
            old(self)@.wf(),
            old(self)@.id_ok(sid),
        ensures
            rebind_error_outcome(old(self)@, final(self)@, sid, r, e),
            final(self)@.wf(),
    {
        let ghost pre = self@;
        self.post_error(sid, e);
        let ghost mid = self@;
        self.resources.bind(sid, r);
        proof {
            let m = choose|msg: Seq<u8>|
                mid == (SessionV {
                    events: pre.events.push(
                        #[trigger] error_msg(sid, spec_error_code(e), msg),
                    ),
                    ..pre
                });
            assert(self@.events == pre.events.push(error_msg(sid, spec_error_code(e), m)));
            assert forall|id: u32| #[trigger] self@.resources.contains_key(id) implies self@.id_ok(
                id,
            ) by {
                if id != sid {
                    assert(pre.resources.contains_key(id));
                }
            }
        }
    }

    /// Pick a fresh server-range id and advance the counter. Returns nothing
    /// only when the server range is exhausted.
    pub fn allocate_server_id(&mut self) -> (r: Option<u32>)
        requires
            old(self)@.wf(),
        ensures
            match r {
                Some(id) => {
                    &&& old(self)@.next_server_id < u32::MAX
                    &&& id == old(self)@.next_server_id
                    &&& is_server_id(id)
                    &&& !old(self)@.resources.contains_key(id)
                    &&& final(self)@ == (SessionV {
                        next_server_id: (old(self)@.next_server_id + 1) as u32,
                        ..old(self)@
                    })
                    &&& final(self)@.wf()
                },
                None => {
                    &&& old(self)@.next_server_id == u32::MAX
                    &&& final(self)@ == old(self)@
                },
            },
    {
        if self.next_server_id == u32::MAX {
            return None;
        }
        let id = self.next_server_id;
        self.next_server_id = self.next_server_id + 1;
        Some(id)
    }
}

/// The handled session is the incoming one with the sender rebound, its
/// value `r` unchanged, and one `error` event queued naming the sender.
pub open spec fn rebind_error_outcome(
    pre: SessionV,
    post: SessionV,
    sid: u32,
    r: Resource,
    e: ProtocolError,
) -> bool {
    &&& events_error_pushed(pre.events, post.events, sid, e)
    &&& post == (SessionV {
        resources: pre.resources.insert(sid, r),
        events: post.events,
        ..pre
    })
}

/// The handled session is the incoming one with the sender rebound to
/// exactly `r`; nothing else changed.
pub open spec fn rebound_value(pre: SessionV, post: SessionV, sid: u32, r: Resource) -> bool {
    post == (SessionV { resources: pre.resources.insert(sid, r), ..pre })
}

/// Binding ids that are sound for the session keeps it well formed.
pub proof fn lemma_wf_after_bind(pre: SessionV, post: SessionV, sid: u32)
    requires
        pre.wf(),
        pre.id_ok(sid),
        post.next_server_id == pre.next_server_id,
        forall|id: u32| #[trigger] post.resources.contains_key(id) ==> id == sid
            || pre.resources.contains_key(id),
    ensures
        post.wf(),
{
    assert forall|id: u32| #[trigger] post.resources.contains_key(id) implies post.id_ok(id) by {
        if id != sid {
            assert(pre.resources.contains_key(id));
        }
    }
}

/// The unit handed to one handler invocation: the session, with the target
/// object taken out of the registry for the duration of the handling.
pub struct Context<T> {
    pub session: Session,
    pub sender_object_id: u32,
    pub sender_object: T,
}

impl<T> Context<T> {
    /// The context is sound: the session is well formed, the sender's id may
    /// be rebound, and the sender object is out of the registry for the
    /// duration of the handling (dispatch took it out).
    pub open spec fn wf(self) -> bool {
        &&& self.session@.wf()
        &&& self.session@.id_ok(self.sender_object_id)
        &&& !self.session@.resources.contains_key(self.sender_object_id)
    }
}

} // verus!
