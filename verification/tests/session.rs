use wmcore::client::Client;
use wmcore::client::Tag;
use wmcore::tagset::Geometry;
use wmcore::tagset::Layout;
use wmcore::tagset::TagSet;
use wmcore::wm::classify;
use wmcore::wm::register_event_mask;
use wmcore::wm::Event;
use wmcore::wm::EventKind;
use wmcore::wm::Phase;
use wmcore::wm::Reaction;
use wmcore::wm::StepOutcome;
use wmcore::wm::Wm;
use wmcore::wm::WmError;

struct Monocle;

impl Layout for Monocle {
    fn arrange(&self, clients: &Vec<&Client>, screen: &Geometry) -> Vec<Geometry> {
        clients.iter().map(|_| *screen).collect()
    }
}

fn running_wm() -> Wm<Monocle> {
    let roots = vec![99u32];
    let mut wm: Wm<Monocle> = Wm::new(&roots, 0).unwrap();
    wm.add_tagset(TagSet::new(vec![Tag::Foo], Monocle));
    wm.register(true).unwrap();
    wm
}

#[test]
fn screen_selection_picks_the_indexed_root() {
    let roots = vec![10u32, 20u32, 30u32];
    let wm: Wm<Monocle> = Wm::new(&roots, 1).unwrap();
    assert_eq!(wm.root, 20);
    assert!(matches!(wm.phase, Phase::Unregistered));
}

#[test]
fn screen_selection_fails_out_of_range() {
    let roots = vec![10u32];
    assert!(matches!(Wm::<Monocle>::new(&roots, 1), Err(WmError::CouldNotAcquireScreen)));
    assert!(matches!(Wm::<Monocle>::new(&roots, -1), Err(WmError::CouldNotAcquireScreen)));
}

#[test]
fn atom_batch_succeeds_in_request_order() {
    let wm = running_wm();
    let names = vec!["_NET_WM_NAME".to_string(), "_NET_WM_WINDOW_TYPE".to_string()];
    let replies = vec![Some(71u32), Some(72u32)];
    let atoms = wm.get_atoms(&names, &replies).unwrap();
    assert_eq!(atoms, vec![71, 72]);
}

#[test]
fn atom_batch_fails_naming_the_first_unresolvable_name() {
    let wm = running_wm();
    let names = vec!["_NET_WM_NAME".to_string(), "_NET_WM_WINDOW_TYPE".to_string()];

    let r = wm.get_atoms(&names, &vec![None, Some(72u32)]);
    match r {
        Err(WmError::CouldNotRegisterAtom(name)) => assert_eq!(name, "_NET_WM_NAME"),
        _ => panic!("a missing reply must fail the whole batch"),
    }

    let r = wm.get_atoms(&names, &vec![Some(71u32), None]);
    match r {
        Err(WmError::CouldNotRegisterAtom(name)) => assert_eq!(name, "_NET_WM_WINDOW_TYPE"),
        _ => panic!("a missing reply must fail the whole batch"),
    }
}

#[test]
fn empty_atom_batch_succeeds_with_no_atoms() {
    let wm = running_wm();
    let atoms = wm.get_atoms(&Vec::new(), &Vec::new()).unwrap();
    assert!(atoms.is_empty());
}

#[test]
fn rejected_registration_halts_with_privilege_conflict() {
    let roots = vec![99u32];
    let mut wm: Wm<Monocle> = Wm::new(&roots, 0).unwrap();
    let r = wm.register(false);
    assert!(matches!(r, Err(WmError::OtherWmRunning)));
    assert!(matches!(wm.phase, Phase::Halted));
}

#[test]
fn accepted_registration_starts_the_session() {
    let roots = vec![99u32];
    let mut wm: Wm<Monocle> = Wm::new(&roots, 0).unwrap();
    assert!(wm.register(true).is_ok());
    assert!(matches!(wm.phase, Phase::Running));
}

#[test]
fn registration_asks_for_the_five_event_groups() {
    assert_eq!(register_event_mask(), 0x1 | 0x4 | 0x80000 | 0x100000 | 0x400000);
}

#[test]
fn event_codes_classify_into_the_closed_set() {
    assert!(matches!(classify(2), EventKind::KeyStateChange));
    assert!(matches!(classify(4), EventKind::ButtonPress));
    assert!(matches!(classify(16), EventKind::WindowCreated));
    assert!(matches!(classify(17), EventKind::WindowDestroyed));
    assert!(matches!(classify(20), EventKind::MapRequest));
    assert!(matches!(classify(23), EventKind::ConfigureRequest));
    assert!(matches!(classify(28), EventKind::PropertyChange));
    assert!(matches!(classify(5), EventKind::Unrecognized));
    assert!(matches!(classify(255), EventKind::Unrecognized));
}

#[test]
fn broken_connection_stops_the_loop() {
    let mut wm = running_wm();
    let r = wm.step(false, Some(Event::MapRequest { window: 1 }));
    assert!(matches!(r, StepOutcome::Stop(WmError::ConnectionInterrupted)));
    assert!(matches!(wm.phase, Phase::Halted));
}

#[test]
fn ended_event_stream_stops_the_loop() {
    let mut wm = running_wm();
    let r = wm.step(true, None);
    assert!(matches!(r, StepOutcome::Stop(WmError::IOError)));
    assert!(matches!(wm.phase, Phase::Halted));
}

#[test]
fn events_route_to_their_reactions() {
    let mut wm = running_wm();
    let r = wm.handle(&Event::KeyStateChange { xkb_type: 1, keycode: 38 });
    assert!(matches!(r, Reaction::ReportKey { xkb_type: 1, keycode: 38 }));
    let r = wm.handle(&Event::ButtonPress { button: 3, root_x: 10, root_y: 20 });
    assert!(matches!(r, Reaction::ReportButton { button: 3, root_x: 10, root_y: 20 }));
    let r = wm.handle(&Event::PropertyChange { window: 7, atom: 41 });
    assert!(matches!(r, Reaction::ReportProperty { window: 7, atom: 41 }));
    let r = wm.handle(&Event::WindowCreated { parent: 99, window: 7, x: 0, y: 0 });
    assert!(matches!(r, Reaction::ReportCreation { parent: 99, window: 7, x: 0, y: 0 }));
    let r = wm.handle(&Event::ConfigureRequest { window: 7 });
    assert!(matches!(r, Reaction::Arrange { window: 7 }));
    let r = wm.handle(&Event::MapRequest { window: 7 });
    assert!(matches!(r, Reaction::MapAndArrange { window: 7 }));
    let r = wm.handle(&Event::Unrecognized { code: 200 });
    assert!(matches!(r, Reaction::ReportUnrecognized { code: 200 }));
}

#[test]
fn destroy_notification_evicts_client_and_focus_entry() {
    let mut wm = running_wm();
    wm.clients.add(Client::new(7, Some(0), vec![Tag::Foo]).unwrap());
    wm.clients.add(Client::new(8, Some(0), vec![Tag::Foo]).unwrap());
    wm.tagsets[0].push_focus(8);
    wm.tagsets[0].push_focus(7);

    let r = wm.step(true, Some(Event::WindowDestroyed { window: 7 }));
    assert!(matches!(r, StepOutcome::Continue(Reaction::ReportDestruction { window: 7 })));
    assert!(matches!(wm.phase, Phase::Running));
    assert_eq!(wm.clients.len(), 1);
    assert!(wm.clients.get_client_by_window(7).is_none());
    assert_eq!(wm.tagsets[0].focused, vec![8]);
}

#[test]
fn destroy_notification_for_unknown_window_changes_nothing() {
    let mut wm = running_wm();
    wm.clients.add(Client::new(7, Some(0), vec![Tag::Foo]).unwrap());
    wm.tagsets[0].push_focus(7);

    let r = wm.step(true, Some(Event::WindowDestroyed { window: 42 }));
    assert!(matches!(r, StepOutcome::Continue(Reaction::ReportDestruction { window: 42 })));
    assert_eq!(wm.clients.len(), 1);
    assert!(wm.clients.get_client_by_window(7).is_some());
    assert_eq!(wm.tagsets[0].focused, vec![7]);
}

#[test]
fn stale_destroy_notification_keeps_older_focus_entries() {
    let mut wm = running_wm();
    wm.tagsets[0].push_focus(5);
    wm.tagsets[0].push_focus(6);
    // window 5 is not the most recent focus: its entry must survive
    let _ = wm.step(true, Some(Event::WindowDestroyed { window: 5 }));
    assert_eq!(wm.tagsets[0].focused, vec![5, 6]);
}

#[test]
fn diagnostics_name_the_fatal_condition() {
    assert_eq!(
        WmError::CouldNotConnect("display not set".to_string()).message(),
        "Could not connect: display not set"
    );
    assert_eq!(WmError::CouldNotAcquireScreen.message(), "Could not acquire screen.");
    assert_eq!(
        WmError::CouldNotRegisterAtom("_NET_WM_NAME".to_string()).message(),
        "Could not register atom. _NET_WM_NAME"
    );
    assert_eq!(WmError::OtherWmRunning.message(), "Another WM is running.");
    assert_eq!(WmError::ConnectionInterrupted.message(), "Connection interrupted.");
    assert_eq!(WmError::IOError.message(), "IO error occurred.");
}
