use niri::dbus::remote_desktop::calls::{call_niri, CallOutcome, FdoError};
use niri::dbus::remote_desktop::clipboard::{clipboard_type, Clipboard};
use niri::dbus::remote_desktop::messages::{
    CastCursorMode, ClipboardType, CursorMode, MonitorInfo, NiriToRemoteDesktop,
    RemoteDesktopToNiri, StreamInfo,
};
use niri::dbus::remote_desktop::monitor::Monitor;
use niri::dbus::remote_desktop::options::{
    get_bool, get_string, get_string_vec, get_u32, string_array, Item, Options, Value,
};
use niri::dbus::remote_desktop::paths::{
    clipboard_path, monitor_path, object_path, session_path, PATH,
};
use niri::dbus::remote_desktop::registry::{ObjectAction, Registry};
use niri::dbus::remote_desktop::service::RemoteDesktop;
use niri::dbus::remote_desktop::session::Session;
use niri::dbus::remote_desktop::{BUS_NAME, VERSION};

fn options(entries: Vec<(&str, Value)>) -> Options {
    let mut options = Options::new();
    for (key, value) in entries {
        options.insert(key, value);
    }
    options
}

fn peer(name: &str) -> Option<String> {
    Some(name.to_owned())
}

fn session() -> Session {
    Session::new(4, ":1.7".to_owned(), false, true, false, true, true)
}

fn info(id: u64, name: &str, owner: Option<u64>) -> MonitorInfo {
    MonitorInfo {
        id,
        name: name.to_owned(),
        owner,
    }
}

fn failed(error: FdoError) -> String {
    match error {
        FdoError::Failed(text) => text,
        other => panic!("unexpected error: {other:?}"),
    }
}

fn denied(error: FdoError) -> String {
    match error {
        FdoError::AccessDenied(text) => text,
        other => panic!("unexpected error: {other:?}"),
    }
}

fn unsupported(error: FdoError) -> String {
    match error {
        FdoError::NotSupported(text) => text,
        other => panic!("unexpected error: {other:?}"),
    }
}

fn invalid(error: FdoError) -> String {
    match error {
        FdoError::InvalidArgs(text) => text,
        other => panic!("unexpected error: {other:?}"),
    }
}

const NOT_THE_OWNER: &str = "only the peer that created this session may use it";

#[test]
fn paths_of_objects() {
    assert_eq!(PATH, "/org/freedesktop/RemoteDesktop1");
    assert_eq!(BUS_NAME, "org.freedesktop.RemoteDesktop");
    assert_eq!(
        session_path(12),
        "/org/freedesktop/RemoteDesktop1/Session/u12"
    );
    assert_eq!(
        monitor_path(1, u64::MAX),
        "/org/freedesktop/RemoteDesktop1/Session/u1/Monitor/u18446744073709551615"
    );
    assert_eq!(
        clipboard_path(0),
        "/org/freedesktop/RemoteDesktop1/Session/u0/Clipboard"
    );
}

#[test]
fn object_paths_are_checked() {
    for good in ["/", "/a", "/a/b_C/9"] {
        assert_eq!(object_path(good.to_owned()).as_deref(), Some(good));
    }
    for bad in ["", "a", "/a/", "//", "/a//b", "/a-b", "/\u{e9}", "/a b"] {
        assert_eq!(object_path(bad.to_owned()), None, "{bad}");
    }
}

#[test]
fn options_are_read_by_their_type() {
    let options = options(vec![
        ("bool", Value::Bool(true)),
        ("u32", Value::U32(7)),
        ("str", Value::Str("text".to_owned())),
        ("strings", string_array(vec!["a".to_owned(), "b".to_owned()])),
        ("mixed", Value::Array(vec![Item::Str("a".to_owned()), Item::Other])),
        ("empty", Value::Array(vec![])),
        ("other", Value::Other),
    ]);
    assert_eq!(get_bool(&options, "bool"), Some(true));
    assert_eq!(get_bool(&options, "u32"), None);
    assert_eq!(get_bool(&options, "none"), None);
    assert_eq!(get_u32(&options, "u32"), Some(7));
    assert_eq!(get_u32(&options, "bool"), None);
    assert_eq!(get_string(&options, "str").as_deref(), Some("text"));
    assert_eq!(get_string(&options, "strings"), None);
    assert_eq!(
        get_string_vec(&options, "strings"),
        Some(vec!["a".to_owned(), "b".to_owned()])
    );
    assert_eq!(get_string_vec(&options, "mixed"), None);
    assert_eq!(get_string_vec(&options, "empty"), Some(vec![]));
    assert_eq!(get_string_vec(&options, "str"), None);
    assert_eq!(get_string_vec(&options, "other"), None);
}

#[test]
fn the_last_value_of_an_option_counts() {
    let options = options(vec![("a", Value::U32(1)), ("a", Value::U32(2))]);
    assert_eq!(get_u32(&options, "a"), Some(2));
}

#[test]
fn numbers_on_the_bus() {
    assert_eq!(ClipboardType::Clipboard.to_dbus(), 1);
    assert_eq!(ClipboardType::Primary.to_dbus(), 2);
    assert_eq!(ClipboardType::default(), ClipboardType::Clipboard);
    assert_eq!(CursorMode::from_dbus(2), Some(CursorMode::Embedded));
    assert_eq!(CursorMode::Metadata.to_dbus(), 3);
    assert_eq!(
        CastCursorMode::from(CursorMode::Embedded),
        CastCursorMode::Embedded
    );
}

#[test]
fn calls_end_in_one_of_four_ways() {
    assert_eq!(call_niri(CallOutcome::Answered(Ok(5))).unwrap(), 5);
    assert_eq!(
        failed(call_niri::<u32>(CallOutcome::Answered(Err("no".to_owned()))).unwrap_err()),
        "no"
    );
    assert_eq!(
        failed(call_niri::<u32>(CallOutcome::NotSent).unwrap_err()),
        "internal error"
    );
    assert_eq!(
        failed(call_niri::<u32>(CallOutcome::Dropped).unwrap_err()),
        "internal error"
    );
}

#[test]
fn sessions_are_created_step_by_step() {
    let mut service = RemoteDesktop::new(true, false);
    let mut registry = Registry::new();
    let none = Options::new();
    assert_eq!(
        failed(service.create_session(None, &none, &none, 1).unwrap_err()),
        "message has no sender"
    );

    let (pending, message) = service
        .create_session(
            peer(":1.7"),
            &options(vec![
                ("persistent", Value::Bool(true)),
                ("takes-control", Value::Bool(true)),
            ]),
            &options(vec![("disable-animations", Value::Bool(true))]),
            9,
        )
        .unwrap();
    assert!(matches!(
        message,
        RemoteDesktopToNiri::CreateSession {
            id: 1,
            persistent: true,
            takes_control: true,
            disable_animations: true,
            reply: 9,
        }
    ));

    let new = service
        .session_answered(
            &pending,
            CallOutcome::Answered(Ok(vec![info(3, "a", None), info(4, "b", Some(1))])),
        )
        .unwrap();
    assert_eq!(new.path, session_path(1));
    assert_eq!(new.session.owner, ":1.7");
    assert!(new.session.has_control);
    assert!(new.session.enable_input);
    assert!(!new.session.enable_clipboard);

    service.manager_added(&pending, Ok(())).unwrap();
    let (path, actions) = service
        .session_added(&mut registry, pending, &new.monitors, Ok(true))
        .unwrap();
    assert_eq!(path, session_path(1));
    assert_eq!(registry.owner(1).as_deref(), Some(":1.7"));
    let added: Vec<_> = actions
        .iter()
        .map(|action| match action {
            ObjectAction::AddMonitor { path, monitor } => (path.clone(), monitor.is_owned()),
            other => panic!("unexpected action: {other:?}"),
        })
        .collect();
    assert_eq!(
        added,
        vec![(monitor_path(1, 3), false), (monitor_path(1, 4), true)]
    );
}

#[test]
fn sessions_that_fail_are_destroyed_again() {
    let mut service = RemoteDesktop::new(true, true);
    let mut registry = Registry::default();
    let none = Options::new();
    let (pending, message) = service.create_session(peer("a"), &none, &none, 9).unwrap();
    assert!(matches!(
        message,
        RemoteDesktopToNiri::CreateSession {
            persistent: false,
            takes_control: false,
            disable_animations: false,
            ..
        }
    ));
    assert_eq!(
        failed(
            service
                .session_answered(&pending, CallOutcome::Dropped)
                .unwrap_err()
        ),
        "internal error"
    );
    let refusal = service
        .manager_added(&pending, Err("Taken".to_owned()))
        .unwrap_err();
    assert_eq!(
        failed(refusal.error),
        "error creating session object manager: Taken"
    );
    assert!(matches!(
        refusal.message,
        Some(RemoteDesktopToNiri::DestroySession {
            id: 1,
            remove: false
        })
    ));
    let refusal = service
        .session_added(&mut registry, pending, &vec![], Err("Bad".to_owned()))
        .unwrap_err();
    assert_eq!(failed(refusal.error), "error creating session object: Bad");
    assert!(refusal.message.is_some());

    let (pending, _) = service.create_session(peer("a"), &none, &none, 9).unwrap();
    assert_eq!(pending.id, 2);
    let refusal = service
        .session_added(&mut registry, pending, &vec![], Ok(false))
        .unwrap_err();
    assert_eq!(failed(refusal.error), "session path already exists");
    assert!(refusal.message.is_none());
    assert_eq!(registry.owner(2), None);
}

#[test]
fn the_service_tells_what_it_can() {
    let service = RemoteDesktop::new(false, false);
    assert_eq!(get_bool(&service.capabilities(), "persistence"), Some(true));
    assert_eq!(service.version(), 1);
    assert_eq!(VERSION, 1);
    assert_eq!(session().version(), 1);
}

#[test]
fn only_the_creator_may_use_a_session() {
    let mut session = session();
    let none = Options::new();
    for sender in [None, peer(":1.8")] {
        assert_eq!(
            denied(session.destroy(&sender, &none).unwrap_err()),
            NOT_THE_OWNER
        );
        assert_eq!(
            denied(session.connect_to_eis(&sender, Ok(1), 1).unwrap_err()),
            NOT_THE_OWNER
        );
        assert_eq!(
            denied(session.create_virtual_monitor(&sender, &none, 1).unwrap_err()),
            NOT_THE_OWNER
        );
        assert_eq!(
            denied(session.enable_clipboard(&sender, 1).unwrap_err()),
            NOT_THE_OWNER
        );
    }
    assert!(!session.destroyed);
}

#[test]
fn a_session_is_destroyed_once() {
    let mut session = session();
    let remove = options(vec![("remove", Value::Bool(true))]);
    assert!(matches!(
        session.destroy(&peer(":1.7"), &remove).unwrap(),
        Some(RemoteDesktopToNiri::DestroySession {
            id: 4,
            remove: true
        })
    ));
    assert!(session.destroy(&peer(":1.7"), &remove).unwrap().is_none());
}

#[test]
fn features_have_to_be_enabled() {
    let mut off = session();
    off.enable_input = false;
    off.enable_clipboard = false;
    let owner = peer(":1.7");
    assert_eq!(
        unsupported(off.check_eis(&owner).unwrap_err()),
        "input emulation is not enabled; add enable-input to the remote-desktop config section"
    );
    assert!(off.connect_to_eis(&owner, Ok(1), 1).is_err());
    assert_eq!(
        unsupported(off.enable_clipboard(&owner, 1).unwrap_err()),
        "clipboard integration is not enabled; add enable-clipboard to the remote-desktop config section"
    );
}

#[test]
fn connecting_to_eis() {
    let session = session();
    let owner = peer(":1.7");
    assert!(session.check_eis(&owner).is_ok());
    assert!(matches!(
        session.connect_to_eis(&owner, Ok(6), 2).unwrap(),
        RemoteDesktopToNiri::ConnectToEis {
            session: 4,
            socket: 6,
            reply: 2
        }
    ));
    assert_eq!(
        failed(
            session
                .connect_to_eis(&owner, Err("EMFILE".to_owned()), 2)
                .unwrap_err()
        ),
        "error creating socket pair: EMFILE"
    );
}

#[test]
fn creating_a_monitor() {
    let mut session = session();
    let owner = peer(":1.7");
    let persistent = options(vec![
        ("persistent", Value::Bool(true)),
        ("name", Value::Str("desk".to_owned())),
    ]);
    assert_eq!(
        invalid(
            session
                .create_virtual_monitor(&owner, &persistent, 2)
                .unwrap_err()
        ),
        "persistent monitors require a persistent session"
    );
    session.persistent = true;
    match session.create_virtual_monitor(&owner, &persistent, 2).unwrap() {
        RemoteDesktopToNiri::CreateVirtualMonitor {
            session,
            name,
            persistent,
            reply,
        } => {
            assert_eq!(session, 4);
            assert_eq!(name.as_deref(), Some("desk"));
            assert!(persistent);
            assert_eq!(reply, 2);
        }
        other => panic!("unexpected message: {other:?}"),
    }
    let new = session
        .monitor_created(CallOutcome::Answered(Ok(info(8, "desk", Some(4)))))
        .unwrap();
    assert_eq!(new.path, monitor_path(4, 8));
    assert!(new.monitor.is_owned());
    assert_eq!(
        failed(session.monitor_created(CallOutcome::NotSent).unwrap_err()),
        "internal error"
    );
}

#[test]
fn enabling_the_clipboard() {
    let session = session();
    assert!(matches!(
        session.enable_clipboard(&peer(":1.7"), 3).unwrap(),
        RemoteDesktopToNiri::EnableClipboard {
            session: 4,
            reply: 3
        }
    ));
    let new = session
        .clipboard_enabled(CallOutcome::Answered(Ok(())))
        .unwrap();
    assert_eq!(new.path, clipboard_path(4));
    assert_eq!(new.clipboard.owner, ":1.7");
    assert_eq!(
        failed(
            session
                .clipboard_enabled(CallOutcome::Answered(Err("no such session".to_owned())))
                .unwrap_err()
        ),
        "no such session"
    );
    assert_eq!(session.clipboard_added(Ok(false)).unwrap(), clipboard_path(4));
    let (message, error) = session.clipboard_added(Err("Bad".to_owned())).unwrap_err();
    assert!(matches!(
        message,
        RemoteDesktopToNiri::DisableClipboard { session: 4 }
    ));
    assert_eq!(failed(error), "error creating clipboard object: Bad");
}

#[test]
fn options_and_attributes_of_a_session() {
    let mut session = session();
    assert_eq!(
        get_bool(&session.options(), "disable-animations"),
        Some(false)
    );
    assert!(session.set_options(&Options::new()).is_none());
    let wrong = options(vec![("disable-animations", Value::U32(1))]);
    assert!(session.set_options(&wrong).is_none());
    let on = options(vec![("disable-animations", Value::Bool(true))]);
    assert!(matches!(
        session.set_options(&on),
        Some(RemoteDesktopToNiri::SetDisableAnimations {
            id: 4,
            value: true
        })
    ));
    assert_eq!(
        get_bool(&session.options(), "disable-animations"),
        Some(true)
    );
    assert_eq!(get_bool(&session.attributes(), "has-control"), Some(true));
    session.set_has_control(false);
    assert_eq!(get_bool(&session.attributes(), "has-control"), Some(false));
}

#[test]
fn monitors_belong_to_one_session() {
    let own = Monitor::new(4, info(8, "desk", Some(4)));
    let other = Monitor::new(5, info(8, "desk", Some(4)));
    let free = Monitor::new(4, info(9, "outside", None));
    assert!(matches!(
        own.remove(2).unwrap(),
        RemoteDesktopToNiri::RemoveVirtualMonitor {
            session: 4,
            monitor: 8,
            reply: 2
        }
    ));
    assert_eq!(
        denied(other.remove(2).unwrap_err()),
        "this monitor belongs to another session"
    );
    assert!(free.remove(2).is_err());
    assert_eq!(get_bool(&own.attributes(), "owned"), Some(true));
    assert_eq!(get_bool(&other.attributes(), "owned"), Some(false));
    assert_eq!(
        get_string(&free.attributes(), "name").as_deref(),
        Some("outside")
    );
    assert_eq!(own.version(), 1);
    assert_eq!(own.cursor_modes(), vec![1, 2, 3]);
}

#[test]
fn opening_and_closing_a_stream() {
    let monitor = Monitor::new(4, info(8, "desk", Some(4)));
    let mode = |value| options(vec![("cursor-mode", Value::U32(value))]);
    for (options, expected) in [
        (Options::new(), CursorMode::Metadata),
        (mode(1), CursorMode::Hidden),
        (mode(2), CursorMode::Embedded),
        (mode(3), CursorMode::Metadata),
    ] {
        match monitor.open_pipe_wire_stream(&options, 2).unwrap() {
            RemoteDesktopToNiri::OpenPipeWireStream {
                session: 4,
                monitor: 8,
                cursor_mode,
                reply: 2,
            } => assert_eq!(cursor_mode, expected),
            other => panic!("unexpected message: {other:?}"),
        }
    }
    assert_eq!(
        invalid(monitor.open_pipe_wire_stream(&mode(10), 2).unwrap_err()),
        "bad cursor mode: 10"
    );
    let (id, found) = monitor
        .stream_opened(CallOutcome::Answered(Ok(StreamInfo {
            stream_id: "u3".to_owned(),
            node_id: 42,
            serial: 77,
        })))
        .unwrap();
    assert_eq!(id, "u3");
    assert_eq!(get_u32(&found, "node-id"), Some(42));
    assert!(matches!(found.get("serial"), Some(Value::U64(77))));
    assert_eq!(
        failed(
            monitor
                .stream_opened(CallOutcome::Answered(Err("no such monitor".to_owned())))
                .unwrap_err()
        ),
        "no such monitor"
    );
    assert!(matches!(
        monitor.close_pipe_wire_stream("u3".to_owned(), 5),
        RemoteDesktopToNiri::ClosePipeWireStream { session: 4, monitor: 8, stream_id, reply: 5 }
            if stream_id == "u3"
    ));
}

#[test]
fn clipboard_methods() {
    let clipboard = Clipboard::new(4, ":1.7".to_owned());
    let owner = peer(":1.7");
    let stranger = peer(":1.8");
    let none = Options::new();
    assert_eq!(denied(clipboard.destroy(&stranger).unwrap_err()), NOT_THE_OWNER);
    assert!(clipboard.set_selection(&stranger, &none, 1).is_err());
    assert!(clipboard.selection_write(&stranger, 1, 1).is_err());
    assert!(clipboard.selection_write_done(&stranger, 1, true).is_err());
    assert!(clipboard
        .selection_read(&stranger, String::new(), &none, 1)
        .is_err());

    assert!(matches!(
        clipboard.destroy(&owner).unwrap(),
        RemoteDesktopToNiri::DisableClipboard { session: 4 }
    ));
    let offer = options(vec![
        ("clipboard-type", Value::U32(2)),
        ("mime-types", string_array(vec!["text/plain".to_owned()])),
    ]);
    match clipboard.set_selection(&owner, &offer, 6).unwrap() {
        RemoteDesktopToNiri::SetSelection {
            session: 4,
            ty,
            mime_types,
            reply: 6,
        } => {
            assert_eq!(ty, ClipboardType::Primary);
            assert_eq!(mime_types, vec!["text/plain".to_owned()]);
        }
        other => panic!("unexpected message: {other:?}"),
    }
    match clipboard.set_selection(&owner, &none, 6).unwrap() {
        RemoteDesktopToNiri::SetSelection { ty, mime_types, .. } => {
            assert_eq!(ty, ClipboardType::Clipboard);
            assert!(mime_types.is_empty());
        }
        other => panic!("unexpected message: {other:?}"),
    }
    let bad = options(vec![("clipboard-type", Value::U32(3))]);
    assert_eq!(
        invalid(clipboard.set_selection(&owner, &bad, 6).unwrap_err()),
        "bad clipboard type: 3"
    );
    assert!(matches!(
        clipboard.selection_write(&owner, 11, 6).unwrap(),
        RemoteDesktopToNiri::SelectionWrite {
            session: 4,
            serial: 11,
            reply: 6
        }
    ));
    assert!(matches!(
        clipboard.selection_write_done(&owner, 11, false).unwrap(),
        RemoteDesktopToNiri::SelectionWriteDone {
            session: 4,
            serial: 11,
            success: false
        }
    ));
    match clipboard
        .selection_read(&owner, "text/html".to_owned(), &offer, 6)
        .unwrap()
    {
        RemoteDesktopToNiri::SelectionRead { ty, mime_type, .. } => {
            assert_eq!(ty, ClipboardType::Primary);
            assert_eq!(mime_type, "text/html");
        }
        other => panic!("unexpected message: {other:?}"),
    }
    assert!(clipboard
        .selection_read(&owner, String::new(), &bad, 6)
        .is_err());
    assert_eq!(clipboard.supported_types(), vec![1, 2]);
    assert_eq!(clipboard.version(), 1);
    assert_eq!(clipboard_type(&none).unwrap(), ClipboardType::Clipboard);
}

#[test]
fn monitors_come_and_go_under_every_session() {
    let mut registry = Registry::new();
    registry.add_session(2, "b".to_owned());
    registry.add_session(1, "a".to_owned());
    let actions =
        registry.handle_niri_event(NiriToRemoteDesktop::MonitorAdded(info(7, "x", Some(2))));
    let added: Vec<_> = actions
        .iter()
        .map(|action| match action {
            ObjectAction::AddMonitor { path, monitor } => (path.clone(), monitor.is_owned()),
            other => panic!("unexpected action: {other:?}"),
        })
        .collect();
    assert_eq!(
        added,
        vec![(monitor_path(1, 7), false), (monitor_path(2, 7), true)]
    );
    assert_eq!(registry.monitors.len(), 1);

    let actions = registry.handle_niri_event(NiriToRemoteDesktop::MonitorRemoved(7));
    assert_eq!(actions.len(), 4);
    assert!(
        matches!(&actions[0], ObjectAction::EmitMonitorRemoved { path } if *path == monitor_path(1, 7))
    );
    assert!(
        matches!(&actions[1], ObjectAction::RemoveMonitor { path } if *path == monitor_path(1, 7))
    );
    assert!(
        matches!(&actions[3], ObjectAction::RemoveMonitor { path } if *path == monitor_path(2, 7))
    );
    assert!(registry.monitors.is_empty());
}

#[test]
fn destroyed_sessions_leave_the_bus() {
    let mut registry = Registry::new();
    registry.add_session(1, "a".to_owned());
    registry.handle_niri_event(NiriToRemoteDesktop::MonitorAdded(info(7, "x", None)));
    let actions = registry.handle_niri_event(NiriToRemoteDesktop::SessionDestroyed(1));
    assert_eq!(actions.len(), 6);
    assert!(matches!(
        &actions[0],
        ObjectAction::EmitDestroyed { path, destination: Some(owner) }
            if *path == session_path(1) && owner == "a"
    ));
    assert!(
        matches!(&actions[1], ObjectAction::RemoveMonitor { path } if *path == monitor_path(1, 7))
    );
    assert!(
        matches!(&actions[2], ObjectAction::RemoveClipboard { path } if *path == clipboard_path(1))
    );
    assert!(
        matches!(&actions[3], ObjectAction::RemoveSession { path } if *path == session_path(1))
    );
    assert!(
        matches!(&actions[4], ObjectAction::RemoveObjectManager { path } if *path == session_path(1))
    );
    assert!(matches!(
        actions[5],
        ObjectAction::ForgetSession { session: 1 }
    ));
    assert!(registry.owner(1).is_some());
    registry.forget_session(1);
    assert_eq!(registry.owner(1), None);
    let actions = registry.handle_niri_event(NiriToRemoteDesktop::SessionDestroyed(1));
    assert!(matches!(
        &actions[0],
        ObjectAction::EmitDestroyed {
            destination: None,
            ..
        }
    ));
}

#[test]
fn a_peer_that_leaves_takes_its_sessions_along() {
    let mut registry = Registry::new();
    registry.add_session(3, "a".to_owned());
    registry.add_session(1, "a".to_owned());
    registry.add_session(2, "b".to_owned());
    assert_eq!(registry.sessions_of(&"a".to_owned()), vec![1, 3]);
    assert!(registry.sessions_of(&"c".to_owned()).is_empty());
    let (message, actions) = registry.peer_gone(3);
    assert!(matches!(
        message,
        RemoteDesktopToNiri::DestroySession {
            id: 3,
            remove: false
        }
    ));
    assert_eq!(actions.len(), 4);
}

#[test]
fn control_and_selection_signals() {
    let mut registry = Registry::new();
    registry.add_session(1, "a".to_owned());
    let actions = registry.handle_niri_event(NiriToRemoteDesktop::SessionControlChanged {
        session: 1,
        has_control: false,
    });
    assert!(matches!(
        &actions[0],
        ObjectAction::ChangeControl { path, has_control: false } if *path == session_path(1)
    ));

    let changed = |session| NiriToRemoteDesktop::SelectionOwnerChanged {
        session,
        ty: ClipboardType::Primary,
        mime_types: vec!["text/plain".to_owned()],
        session_is_owner: true,
    };
    let actions = registry.handle_niri_event(changed(1));
    match &actions[0] {
        ObjectAction::EmitSelectionOwnerChanged {
            path,
            destination,
            options,
        } => {
            assert_eq!(*path, clipboard_path(1));
            assert_eq!(destination, "a");
            assert_eq!(get_u32(options, "clipboard-type"), Some(2));
            assert_eq!(get_bool(options, "session-is-owner"), Some(true));
            assert_eq!(
                get_string_vec(options, "mime-types"),
                Some(vec!["text/plain".to_owned()])
            );
        }
        other => panic!("unexpected action: {other:?}"),
    }
    assert!(registry.handle_niri_event(changed(9)).is_empty());

    let transfer = |session| NiriToRemoteDesktop::SelectionTransfer {
        session,
        ty: ClipboardType::Clipboard,
        mime_type: "text/plain".to_owned(),
        serial: 5,
    };
    let actions = registry.handle_niri_event(transfer(1));
    match &actions[0] {
        ObjectAction::EmitSelectionTransfer {
            path,
            destination,
            mime_type,
            serial,
            options,
        } => {
            assert_eq!(*path, clipboard_path(1));
            assert_eq!(destination, "a");
            assert_eq!(mime_type, "text/plain");
            assert_eq!(*serial, 5);
            assert_eq!(get_u32(options, "clipboard-type"), Some(1));
        }
        other => panic!("unexpected action: {other:?}"),
    }
    assert!(registry.handle_niri_event(transfer(9)).is_empty());
}
