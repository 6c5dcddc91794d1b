//! The desktop-shell interfaces: shell base, toplevel, popup, data source,
//! sub-surface, output.

use reflex::errors::ProtocolError;
use reflex::resource::{dispatch, Resource};
use reflex::session::{NextAction, Session};
use reflex::wayland::wl_data_source::WlDataSource;
use reflex::wayland::wl_output::WlOutput;
use reflex::wayland::wl_subsurface::WlSubsurface;
use reflex::wayland::wl_surface::WlSurface;
use reflex::wire::{decode_args, decode_message, encode_event, Arg, ArgKind};
use reflex::xdg_shell::xdg_popup::XdgPopup;
use reflex::xdg_shell::xdg_toplevel::XdgToplevel;
use reflex::xdg_shell::xdg_wm_base::XdgWmBase;

fn req(args: Vec<Arg>) -> Vec<u8> {
    let bytes = encode_event(0, 0, &args).expect("encode");
    bytes[8..].to_vec()
}

fn error_code(bytes: &Vec<u8>) -> u32 {
    let (_, op, _, raw) = decode_message(bytes).expect("event header");
    assert_eq!(op, 0);
    let args = decode_args(&raw, &vec![ArgKind::Object, ArgKind::Uint, ArgKind::Str])
        .expect("error args");
    match &args[1] {
        Arg::Uint(code) => *code,
        _ => panic!("malformed error event"),
    }
}

fn base() -> XdgWmBase {
    XdgWmBase { last_pong_serial: None }
}

#[test]
fn get_xdg_surface_links_both_objects() {
    let mut s = Session::new();
    s.resources.insert(2, Resource::XdgWmBase(base())).expect("insert base");
    s.resources.insert(3, Resource::WlSurface(WlSurface::new())).expect("insert surface");
    let (s, act) = dispatch(s, 2, 2, req(vec![Arg::NewId(4), Arg::Object(3)]));
    assert_eq!(act, NextAction::Continue);
    assert!(s.tx.is_empty());
    match s.resources.get(3) {
        Some(Resource::WlSurface(w)) => assert_eq!(w.xdg_surface_id, Some(4)),
        _ => panic!("surface lost"),
    }
    match s.resources.get(4) {
        Some(Resource::XdgSurface(x)) => assert_eq!(x.wl_surface_id, 3),
        _ => panic!("xdg surface missing"),
    }
}

#[test]
fn get_xdg_surface_unknown_surface() {
    let mut s = Session::new();
    s.resources.insert(2, Resource::XdgWmBase(base())).expect("insert base");
    let (s, act) = dispatch(s, 2, 2, req(vec![Arg::NewId(4), Arg::Object(9)]));
    assert_eq!(act, NextAction::Continue);
    assert_eq!(s.tx.len(), 1);
    assert_eq!(error_code(&s.tx[0]), ProtocolError::WrongInterface.code());
    assert!(!s.resources.contains(4));
}

#[test]
fn create_positioner_validates_the_new_id() {
    let mut s = Session::new();
    s.resources.insert(2, Resource::XdgWmBase(base())).expect("insert base");
    // Server-range new id from a client is refused.
    let (s, _) = dispatch(s, 2, 1, req(vec![Arg::NewId(0xFF000005)]));
    assert_eq!(s.tx.len(), 1);
    assert_eq!(error_code(&s.tx[0]), ProtocolError::InvalidNewId.code());
    // A proper one is bound.
    let (s, _) = dispatch(s, 2, 1, req(vec![Arg::NewId(6)]));
    assert!(matches!(s.resources.get(6), Some(Resource::XdgPositioner(_))));
}

#[test]
fn pong_records_the_serial() {
    let mut s = Session::new();
    s.resources.insert(2, Resource::XdgWmBase(base())).expect("insert base");
    let (s, act) = dispatch(s, 2, 3, req(vec![Arg::Uint(123)]));
    assert_eq!(act, NextAction::Continue);
    match s.resources.get(2) {
        Some(Resource::XdgWmBase(b)) => assert_eq!(b.last_pong_serial, Some(123)),
        _ => panic!("base lost"),
    }
}

#[test]
fn toplevel_destroy_via_handle() {
    let mut s = Session::new();
    s.resources.insert(8, Resource::XdgToplevel(XdgToplevel {})).expect("insert");
    let (s, act) = dispatch(s, 8, 0, Vec::new());
    assert_eq!(act, NextAction::Continue);
    assert!(!s.resources.contains(8));
    assert_eq!(s.tx.len(), 1);
}

#[test]
fn popup_grab_records_seat_and_serial() {
    let mut s = Session::new();
    s.resources
        .insert(9, Resource::XdgPopup(XdgPopup { grab_seat: None, grab_serial: None }))
        .expect("insert");
    let (s, _) = dispatch(s, 9, 1, req(vec![Arg::Object(4), Arg::Uint(55)]));
    match s.resources.get(9) {
        Some(Resource::XdgPopup(p)) => {
            assert_eq!(p.grab_seat, Some(4));
            assert_eq!(p.grab_serial, Some(55));
        },
        _ => panic!("popup lost"),
    }
}

#[test]
fn data_source_offer_keeps_order() {
    let mut s = Session::new();
    s.resources
        .insert(4, Resource::WlDataSource(WlDataSource::new()))
        .expect("insert");
    let (s, _) = dispatch(s, 4, 0, req(vec![Arg::Str(b"text/plain".to_vec())]));
    let (s, _) = dispatch(s, 4, 0, req(vec![Arg::Str(b"text/html".to_vec())]));
    let (s, _) = dispatch(s, 4, 2, req(vec![Arg::Uint(3)]));
    match s.resources.get(4) {
        Some(Resource::WlDataSource(d)) => {
            assert_eq!(d.mime_types.len(), 2);
            assert_eq!(d.mime_types[0], b"text/plain".to_vec());
            assert_eq!(d.mime_types[1], b"text/html".to_vec());
            assert_eq!(d.dnd_actions, 3);
        },
        _ => panic!("source lost"),
    }
}

#[test]
fn data_source_destroy_acknowledges() {
    let mut s = Session::new();
    s.resources
        .insert(4, Resource::WlDataSource(WlDataSource::new()))
        .expect("insert");
    let (s, act) = dispatch(s, 4, 1, Vec::new());
    assert_eq!(act, NextAction::Continue);
    assert!(!s.resources.contains(4));
    assert_eq!(s.tx.len(), 1);
}

#[test]
fn subsurface_position_and_sync() {
    let sub = WlSubsurface { surface_id: 3, parent_id: 2, x: 0, y: 0, sync: true };
    let mut s = Session::new();
    s.resources.insert(6, Resource::WlSubsurface(sub)).expect("insert");
    let (s, _) = dispatch(s, 6, 1, req(vec![Arg::Int(-4), Arg::Int(9)]));
    let (s, _) = dispatch(s, 6, 5, Vec::new());
    match s.resources.get(6) {
        Some(Resource::WlSubsurface(ss)) => {
            assert_eq!((ss.x, ss.y), (-4, 9));
            assert!(!ss.sync);
        },
        _ => panic!("subsurface lost"),
    }
}

#[test]
fn subsurface_place_above_checks_sibling() {
    let sub = WlSubsurface { surface_id: 3, parent_id: 2, x: 0, y: 0, sync: true };
    let mut s = Session::new();
    s.resources.insert(6, Resource::WlSubsurface(sub)).expect("insert");
    let (s, _) = dispatch(s, 6, 2, req(vec![Arg::Object(77)]));
    assert_eq!(s.tx.len(), 1);
    assert_eq!(error_code(&s.tx[0]), ProtocolError::WrongInterface.code());
    // The display (id 1) exists, so it passes the existence check.
    let (s, _) = dispatch(s, 6, 2, req(vec![Arg::Object(1)]));
    assert_eq!(s.tx.len(), 1);
}

#[test]
fn output_release_destroys() {
    let mut s = Session::new();
    s.resources.insert(5, Resource::WlOutput(WlOutput {})).expect("insert");
    let (s, act) = dispatch(s, 5, 0, Vec::new());
    assert_eq!(act, NextAction::Continue);
    assert!(!s.resources.contains(5));
    assert_eq!(s.tx.len(), 1);
}
