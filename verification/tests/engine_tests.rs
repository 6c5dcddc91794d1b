//! Scenario tests for the engine: registry lifecycle, the commit discipline,
//! role assignment, dispatch, and frame callbacks.

use reflex::errors::ProtocolError;
use reflex::resource::{dispatch, InterfaceKind, Resource};
use reflex::session::{NextAction, Session};
use reflex::wayland::wl_buffer::WlBuffer;
use reflex::wayland::wl_surface::{repaint, Role, WlSurface};
use reflex::wire::{decode_args, decode_message, encode_event, Arg, ArgKind};

/// Encode a request's argument bytes (what follows the 8-byte header).
fn req(args: Vec<Arg>) -> Vec<u8> {
    let bytes = encode_event(0, 0, &args).expect("encode");
    bytes[8..].to_vec()
}

/// Decode one queued event into (sender id, opcode, decoded args).
fn event(bytes: &Vec<u8>, kinds: Vec<ArgKind>) -> (u32, u16, Vec<Arg>) {
    let (id, op, _, raw) = decode_message(bytes).expect("event header");
    let args = decode_args(&raw, &kinds).expect("event args");
    (id, op, args)
}

fn error_event(bytes: &Vec<u8>) -> (u32, u32, u32) {
    let (sender, op, args) = event(bytes, vec![ArgKind::Object, ArgKind::Uint, ArgKind::Str]);
    assert_eq!(op, 0, "error event opcode");
    match (&args[0], &args[1]) {
        (Arg::Object(oid), Arg::Uint(code)) => (sender, *oid, *code),
        _ => panic!("malformed error event"),
    }
}

fn delete_id_event(bytes: &Vec<u8>) -> (u32, u32) {
    let (sender, op, args) = event(bytes, vec![ArgKind::Uint]);
    assert_eq!(op, 1, "delete_id event opcode");
    match &args[0] {
        Arg::Uint(id) => (sender, *id),
        _ => panic!("malformed delete_id event"),
    }
}

#[test]
fn session_starts_with_display() {
    let s = Session::new();
    assert!(s.resources.contains(1));
    assert!(!s.resources.contains(2));
    assert!(s.tx.is_empty());
}

#[test]
fn insert_remove_get_and_delete_ack() {
    // Client-range id: after insert then destroy, get finds nothing and a
    // delete_id acknowledgement was queued.
    let mut s = Session::new();
    s.resources
        .insert(7, Resource::WlSurface(WlSurface::new()))
        .expect("insert");
    assert!(s.resources.get(7).is_some());
    let removed = s.destroy_object(7);
    assert!(removed.is_some());
    assert!(s.resources.get(7).is_none());
    assert_eq!(s.tx.len(), 1);
    let (sender, id) = delete_id_event(&s.tx[0]);
    assert_eq!(sender, 1);
    assert_eq!(id, 7);
}

#[test]
fn server_range_destroy_needs_no_ack() {
    let mut s = Session::new();
    s.resources
        .insert(0xFF000000, Resource::WlBuffer(WlBuffer { width: 1, height: 1 }))
        .expect("insert");
    let removed = s.destroy_object(0xFF000000);
    assert!(removed.is_some());
    assert!(s.resources.get(0xFF000000).is_none());
    assert!(s.tx.is_empty());
}

#[test]
fn insert_bound_id_is_refused() {
    let mut s = Session::new();
    s.resources
        .insert(5, Resource::WlBuffer(WlBuffer { width: 1, height: 1 }))
        .expect("first insert");
    let r = s
        .resources
        .insert(5, Resource::WlBuffer(WlBuffer { width: 2, height: 2 }));
    assert_eq!(r.unwrap_err(), ProtocolError::IdInUse);
    // The first binding is untouched.
    match s.resources.get(5) {
        Some(Resource::WlBuffer(b)) => assert_eq!(b.width, 1),
        _ => panic!("binding lost"),
    }
}

#[test]
fn get_typed_checks_the_interface() {
    let mut s = Session::new();
    s.resources
        .insert(5, Resource::WlBuffer(WlBuffer { width: 1, height: 1 }))
        .expect("insert");
    assert!(s.resources.get_typed(5, InterfaceKind::WlBuffer).is_ok());
    let r = s.resources.get_typed(5, InterfaceKind::WlSurface);
    assert_eq!(r.unwrap_err(), ProtocolError::WrongInterface);
    let r = s.resources.get_typed(99, InterfaceKind::WlBuffer);
    assert_eq!(r.unwrap_err(), ProtocolError::WrongInterface);
}

#[test]
fn role_is_permanent() {
    // A different role always fails with RoleAlreadySet; the same role twice
    // succeeds both times.
    let mut surface = WlSurface::new();
    assert!(surface.give_role(Role::ShellSurface).is_ok());
    assert!(surface.give_role(Role::ShellSurface).is_ok());
    let r = surface.give_role(Role::Cursor);
    assert_eq!(r.unwrap_err(), ProtocolError::RoleAlreadySet);
    assert_eq!(surface.role, Some(Role::ShellSurface));
}

#[test]
fn role_via_shell_dispatch() {
    let mut s = Session::new();
    s.resources
        .insert(2, Resource::WlShell(reflex::wayland::wl_shell::WlShell {}))
        .expect("insert shell");
    s.resources
        .insert(3, Resource::WlSurface(WlSurface::new()))
        .expect("insert surface");
    // get_shell_surface(new id 4, surface 3): grants the role.
    let (mut s, act) = dispatch(s, 2, 0, req(vec![Arg::NewId(4), Arg::Object(3)]));
    assert_eq!(act, NextAction::Continue);
    assert!(s.tx.is_empty());
    match s.resources.get(3) {
        Some(Resource::WlSurface(w)) => assert_eq!(w.role, Some(Role::ShellSurface)),
        _ => panic!("surface lost"),
    }
    assert!(matches!(s.resources.get(4), Some(Resource::WlShellSurface(_))));
    // Granting the same role again through a second shell surface works.
    let (s2, act) = dispatch(s, 2, 0, req(vec![Arg::NewId(5), Arg::Object(3)]));
    s = s2;
    assert_eq!(act, NextAction::Continue);
    assert!(s.tx.is_empty());
    // A used new id is refused.
    let (s3, act) = dispatch(s, 2, 0, req(vec![Arg::NewId(4), Arg::Object(3)]));
    s = s3;
    assert_eq!(act, NextAction::Continue);
    assert_eq!(s.tx.len(), 1);
    let (_, oid, code) = error_event(&s.tx[0]);
    assert_eq!(oid, 2);
    assert_eq!(code, ProtocolError::InvalidNewId.code());
}

#[test]
fn attach_then_commit_sets_buffer_and_size() {
    // A 200 by 100 buffer at scale 1, normal transform: the surface size
    // becomes 200 by 100 and the current buffer becomes object 5.
    let mut s = Session::new();
    s.resources
        .insert(5, Resource::WlBuffer(WlBuffer { width: 200, height: 100 }))
        .expect("insert buffer");
    s.resources
        .insert(3, Resource::WlSurface(WlSurface::new()))
        .expect("insert surface");
    let (s, act) = dispatch(s, 3, 1, req(vec![Arg::Object(5), Arg::Int(0), Arg::Int(0)]));
    assert_eq!(act, NextAction::Continue);
    // Before the commit, current state is untouched.
    match s.resources.get(3) {
        Some(Resource::WlSurface(w)) => {
            assert_eq!(w.current.buffer, None);
            assert_eq!(w.pending.buffer, Some(5));
        },
        _ => panic!("surface lost"),
    }
    let (s, act) = dispatch(s, 3, 6, req(vec![]));
    assert_eq!(act, NextAction::Continue);
    assert!(s.tx.is_empty());
    match s.resources.get(3) {
        Some(Resource::WlSurface(w)) => {
            assert_eq!(w.current.buffer, Some(5));
            assert_eq!((w.width, w.height), (200, 100));
            assert!(w.committed);
        },
        _ => panic!("surface lost"),
    }
}

#[test]
fn transform_swaps_axes_and_scale_divides() {
    let mut s = Session::new();
    s.resources
        .insert(5, Resource::WlBuffer(WlBuffer { width: 200, height: 100 }))
        .expect("insert buffer");
    s.resources
        .insert(3, Resource::WlSurface(WlSurface::new()))
        .expect("insert surface");
    let (s, _) = dispatch(s, 3, 1, req(vec![Arg::Object(5), Arg::Int(0), Arg::Int(0)]));
    let (s, _) = dispatch(s, 3, 8, req(vec![Arg::Int(2)]));
    let (s, _) = dispatch(s, 3, 7, req(vec![Arg::Int(1)]));
    let (s, _) = dispatch(s, 3, 6, req(vec![]));
    match s.resources.get(3) {
        Some(Resource::WlSurface(w)) => {
            // 200 by 100 at scale 2 is 100 by 50; a 90 degree transform
            // swaps the axes.
            assert_eq!((w.width, w.height), (50, 100));
        },
        _ => panic!("surface lost"),
    }
}

#[test]
fn unknown_object_closes_the_connection() {
    // A message naming unbound id 42: one error event addressed to the
    // display, and the connection closes.
    let s = Session::new();
    let (s, act) = dispatch(s, 42, 0, Vec::new());
    assert_eq!(act, NextAction::Close);
    assert_eq!(s.tx.len(), 1);
    let (sender, oid, code) = error_event(&s.tx[0]);
    assert_eq!(sender, 1);
    assert_eq!(oid, 42);
    assert_eq!(code, ProtocolError::UnknownObject.code());
}

#[test]
fn invalid_scale_rejected_at_commit() {
    // set_buffer_scale(0) then commit: an InvalidScale error event, and the
    // committed scale stays at its last value.
    let mut s = Session::new();
    s.resources
        .insert(3, Resource::WlSurface(WlSurface::new()))
        .expect("insert surface");
    let (s, act) = dispatch(s, 3, 8, req(vec![Arg::Int(0)]));
    assert_eq!(act, NextAction::Continue);
    assert!(s.tx.is_empty());
    let (s, act) = dispatch(s, 3, 6, req(vec![]));
    assert_eq!(act, NextAction::Continue);
    assert_eq!(s.tx.len(), 1);
    let (_, oid, code) = error_event(&s.tx[0]);
    assert_eq!(oid, 3);
    assert_eq!(code, ProtocolError::InvalidScale.code());
    match s.resources.get(3) {
        Some(Resource::WlSurface(w)) => {
            assert_eq!(w.current.scale, 1);
            assert!(!w.committed);
        },
        _ => panic!("surface lost"),
    }
}

#[test]
fn invalid_transform_rejected_at_commit() {
    let mut s = Session::new();
    s.resources
        .insert(3, Resource::WlSurface(WlSurface::new()))
        .expect("insert surface");
    let (s, _) = dispatch(s, 3, 7, req(vec![Arg::Int(8)]));
    let (s, _) = dispatch(s, 3, 6, req(vec![]));
    assert_eq!(s.tx.len(), 1);
    let (_, oid, code) = error_event(&s.tx[0]);
    assert_eq!(oid, 3);
    assert_eq!(code, ProtocolError::InvalidTransform.code());
}

#[test]
fn two_frames_one_repaint() {
    // Two back-to-back frame requests, then one repaint: exactly two done
    // events in request order, the callback objects removed, no delete_id.
    let mut s = Session::new();
    s.resources
        .insert(3, Resource::WlSurface(WlSurface::new()))
        .expect("insert surface");
    let (s, act) = dispatch(s, 3, 3, req(vec![Arg::NewId(10)]));
    assert_eq!(act, NextAction::Continue);
    let (mut s, act) = dispatch(s, 3, 3, req(vec![Arg::NewId(11)]));
    assert_eq!(act, NextAction::Continue);
    let cb1 = 0xFF000000u32;
    let cb2 = 0xFF000001u32;
    assert!(s.resources.contains(cb1));
    assert!(s.resources.contains(cb2));
    assert!(s.tx.is_empty());
    repaint(&mut s, 3, 777).expect("repaint");
    assert_eq!(s.tx.len(), 2);
    let (sender1, op1, args1) = event(&s.tx[0], vec![ArgKind::Uint]);
    let (sender2, op2, args2) = event(&s.tx[1], vec![ArgKind::Uint]);
    assert_eq!((sender1, op1), (cb1, 0));
    assert_eq!((sender2, op2), (cb2, 0));
    assert_eq!(args1, vec![Arg::Uint(777)]);
    assert_eq!(args2, vec![Arg::Uint(777)]);
    assert!(!s.resources.contains(cb1));
    assert!(!s.resources.contains(cb2));
    match s.resources.get(3) {
        Some(Resource::WlSurface(w)) => assert!(w.frame_callbacks.is_empty()),
        _ => panic!("surface lost"),
    }
    // A second repaint fires nothing further.
    repaint(&mut s, 3, 778).expect("repaint");
    assert_eq!(s.tx.len(), 2);
}

#[test]
fn damage_accumulates_and_commit_clears_pending() {
    let mut s = Session::new();
    s.resources
        .insert(3, Resource::WlSurface(WlSurface::new()))
        .expect("insert surface");
    let (s, _) = dispatch(
        s,
        3,
        2,
        req(vec![Arg::Int(0), Arg::Int(0), Arg::Int(10), Arg::Int(10)]),
    );
    let (s, _) = dispatch(
        s,
        3,
        2,
        req(vec![Arg::Int(5), Arg::Int(5), Arg::Int(1), Arg::Int(2)]),
    );
    let (s, _) = dispatch(s, 3, 6, req(vec![]));
    match s.resources.get(3) {
        Some(Resource::WlSurface(w)) => {
            assert_eq!(w.current.damage.len(), 2);
            assert_eq!(w.current.damage[1].width, 1);
            assert!(w.pending.damage.is_empty());
        },
        _ => panic!("surface lost"),
    }
}

#[test]
fn unknown_opcode_is_recoverable() {
    let mut s = Session::new();
    s.resources
        .insert(3, Resource::WlSurface(WlSurface::new()))
        .expect("insert surface");
    let (s, act) = dispatch(s, 3, 99, Vec::new());
    assert_eq!(act, NextAction::Continue);
    assert_eq!(s.tx.len(), 1);
    let (_, oid, code) = error_event(&s.tx[0]);
    assert_eq!(oid, 3);
    assert_eq!(code, ProtocolError::InvalidMethod.code());
    assert!(s.resources.contains(3));
}

#[test]
fn argument_length_mismatch_is_invalid_method() {
    let mut s = Session::new();
    s.resources
        .insert(3, Resource::WlSurface(WlSurface::new()))
        .expect("insert surface");
    // set_buffer_scale with an extra argument on the wire.
    let (s, act) = dispatch(s, 3, 8, req(vec![Arg::Int(1), Arg::Int(2)]));
    assert_eq!(act, NextAction::Continue);
    assert_eq!(s.tx.len(), 1);
    let (_, _, code) = error_event(&s.tx[0]);
    assert_eq!(code, ProtocolError::InvalidMethod.code());
}

#[test]
fn surface_destroy_acknowledges() {
    let mut s = Session::new();
    s.resources
        .insert(3, Resource::WlSurface(WlSurface::new()))
        .expect("insert surface");
    let (s, act) = dispatch(s, 3, 0, req(vec![]));
    assert_eq!(act, NextAction::Continue);
    assert!(!s.resources.contains(3));
    assert_eq!(s.tx.len(), 1);
    let (_, id) = delete_id_event(&s.tx[0]);
    assert_eq!(id, 3);
}
