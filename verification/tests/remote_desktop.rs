use std::collections::HashMap;

use niri::dbus::remote_desktop::messages::{
    ClipboardType, CursorMode, MonitorInfo, NiriToRemoteDesktop, RemoteDesktopToNiri, StreamInfo,
};
use niri::niri::{Niri, State};
use niri::remote_desktop::actions::{Action, Reply};
use niri::remote_desktop::clipboard::SelectionTarget;
use niri::remote_desktop::monitors::{resized_mode, CustomMode};
use niri::remote_desktop::selections::SelectionReadError;
use niri::remote_desktop::{ConfiguredMode, RefreshRate};

/// A virtual output of the compositor.
#[derive(Debug, Clone, PartialEq)]
struct VirtualOutput {
    name: String,
    width: u16,
    height: u16,
    refresh: u32,
}

/// A compositor that does what it is asked to do.
struct Fixture {
    state: State,
    outputs: Vec<VirtualOutput>,
    notices: Vec<NiriToRemoteDesktop>,
    replies: Vec<(u64, Reply)>,
    dropped: Vec<u64>,
    disconnected: Vec<u64>,
    removed_sources: Vec<u64>,
    closed: Vec<u64>,
    blocking: Vec<u64>,
    /// What was written into each file descriptor.
    files: HashMap<u64, String>,
    clipboard: Option<(u64, Vec<String>)>,
    primary: Option<(u64, Vec<String>)>,
    timers: Vec<(u64, u32, u64)>,
    modes: Vec<(String, CustomMode)>,
    next_session: u64,
    next_handle: u64,
    next_reply: u64,
    fail_casts: bool,
    fail_eis: bool,
    fail_timers: bool,
    fail_removals: bool,
    pipe: Option<SelectionReadError>,
}

impl Fixture {
    /// A compositor with the API turned on.
    fn enabled() -> Self {
        let mut f = Self::disabled();
        f.state.niri.remote_desktop.to_dbus = true;
        f.state.niri.remote_desktop.default_mode = Some(ConfiguredMode {
            width: 1280,
            height: 720,
            refresh: Some(RefreshRate::Hertz(60)),
        });
        f
    }

    fn disabled() -> Self {
        Fixture {
            state: State { niri: Niri::new() },
            outputs: Vec::new(),
            notices: Vec::new(),
            replies: Vec::new(),
            dropped: Vec::new(),
            disconnected: Vec::new(),
            removed_sources: Vec::new(),
            closed: Vec::new(),
            blocking: Vec::new(),
            files: HashMap::new(),
            clipboard: None,
            primary: None,
            timers: Vec::new(),
            modes: Vec::new(),
            next_session: 1,
            next_handle: 1000,
            next_reply: 1,
            fail_casts: false,
            fail_eis: false,
            fail_timers: false,
            fail_removals: false,
            pipe: None,
        }
    }

    fn handle(&mut self) -> u64 {
        self.next_handle += 1;
        self.next_handle
    }

    fn reply(&mut self) -> u64 {
        self.next_reply += 1;
        self.next_reply
    }

    fn create_virtual_output(&mut self, width: u16, height: u16, refresh: u32, name: Option<String>) -> String {
        let name = name.unwrap_or_else(|| format!("HEADLESS-{}", self.outputs.len() + 1));
        self.outputs.push(VirtualOutput {
            name: name.clone(),
            width,
            height,
            refresh,
        });
        name
    }

    fn output_names(&self) -> Vec<String> {
        self.outputs.iter().map(|o| o.name.clone()).collect()
    }

    fn has_output(&self, name: &str) -> bool {
        self.outputs.iter().any(|o| o.name == name)
    }

    fn send(&mut self, msg: RemoteDesktopToNiri) {
        let actions = self.state.on_remote_desktop_msg(msg);
        self.run(actions);
    }

    fn run(&mut self, actions: Vec<Action>) {
        for action in actions {
            let more = self.perform(action);
            self.run(more);
        }
    }

    fn perform(&mut self, action: Action) -> Vec<Action> {
        match action {
            Action::Notify(notice) => self.notices.push(notice),
            Action::Reply { to, reply } => self.replies.push((to, reply)),
            Action::DropReply { to } => self.dropped.push(to),
            Action::DisconnectCast { stream } => self.disconnected.push(stream),
            Action::RemoveSource { token } => self.removed_sources.push(token),
            Action::CloseFd { fd } => self.closed.push(fd),
            Action::ClearFdFlags { fd } => self.blocking.push(fd),
            Action::ClearSelection { target } => *self.selection(target) = None,
            Action::SetSelection {
                target,
                mime_types,
                session,
            } => *self.selection(target) = Some((session, mime_types)),
            Action::RemoveVirtualOutput { name } => self.outputs.retain(|o| o.name != name),
            Action::ListVirtualOutputs { reply } => {
                let outputs = self.output_names();
                return self.state.session_created(&outputs, reply);
            }
            Action::CreateVirtualOutput {
                session,
                persistent,
                width,
                height,
                refresh,
                name,
                reply,
            } => {
                let taken = name.as_ref().is_some_and(|name| self.has_output(name));
                let result = if taken {
                    Err("the name is taken".to_owned())
                } else {
                    Ok(self.create_virtual_output(width, height, refresh, name))
                };
                return self
                    .state
                    .virtual_output_created(session, persistent, result, reply);
            }
            Action::RemoveOwnedOutput {
                monitor,
                name,
                reply,
            } => {
                let result = if self.fail_removals {
                    Err("busy".to_owned())
                } else {
                    self.outputs.retain(|o| o.name != name);
                    Ok(())
                };
                return self.state.virtual_output_removed(monitor, result, reply);
            }
            Action::FindOutput {
                session,
                monitor,
                cursor_mode,
                name,
                reply,
            } => {
                let output = self
                    .outputs
                    .iter()
                    .position(|o| o.name == name)
                    .map(|index| index as u64);
                return self
                    .state
                    .stream_output_found(session, monitor, cursor_mode, output, reply);
            }
            Action::StartCast {
                session,
                monitor,
                cast_session_id,
                cast_stream_id,
                reply,
                ..
            } => {
                let result = if self.fail_casts {
                    Err("no PipeWire".to_owned())
                } else {
                    Ok(self.handle())
                };
                return self.state.cast_started(
                    session,
                    monitor,
                    cast_session_id,
                    cast_stream_id,
                    result,
                    reply,
                );
            }
            Action::ConnectEis { session, reply, .. } => {
                let result = if self.fail_eis {
                    Err("no socket".to_owned())
                } else {
                    Ok(self.handle())
                };
                return self.state.eis_connected(session, result, reply);
            }
            Action::ReadSelection { reply, .. } => {
                let result = match self.pipe.take() {
                    Some(error) => Err(error),
                    None => Ok(self.handle()),
                };
                return self.state.selection_read(result, reply);
            }
            Action::StartTransferTimer {
                session,
                ty,
                mime_type,
                fd,
                serial,
                seconds,
            } => {
                let timeout = if self.fail_timers {
                    None
                } else {
                    self.timers.push((session, serial, seconds));
                    Some(self.handle())
                };
                return self
                    .state
                    .transfer_timer_started(session, ty, mime_type, fd, serial, timeout);
            }
            Action::ResizeOutput {
                name,
                width,
                height,
            } => {
                let current = self
                    .outputs
                    .iter()
                    .find(|o| o.name == name)
                    .map(|o| o.refresh as i32 * 1000);
                self.modes.push((name, resized_mode(width, height, current)));
            }
        }
        Vec::new()
    }

    fn selection(&mut self, target: SelectionTarget) -> &mut Option<(u64, Vec<String>)> {
        match target {
            SelectionTarget::Clipboard => &mut self.clipboard,
            SelectionTarget::Primary => &mut self.primary,
        }
    }

    fn answer(&mut self, to: u64) -> Reply {
        let index = self
            .replies
            .iter()
            .position(|(reply, _)| *reply == to)
            .expect("the call should be answered");
        self.replies.remove(index).1
    }

    fn done(&mut self, to: u64) -> Result<(), String> {
        match self.answer(to) {
            Reply::Done(result) => result,
            other => panic!("unexpected answer: {other:?}"),
        }
    }

    fn fd(&mut self, to: u64) -> Result<u64, String> {
        match self.answer(to) {
            Reply::Fd(result) => result,
            other => panic!("unexpected answer: {other:?}"),
        }
    }

    fn stream(&mut self, to: u64) -> Result<StreamInfo, String> {
        match self.answer(to) {
            Reply::Stream(result) => result,
            other => panic!("unexpected answer: {other:?}"),
        }
    }

    fn new_session(
        &mut self,
        persistent: bool,
        takes_control: bool,
        disable_animations: bool,
    ) -> (u64, Vec<MonitorInfo>) {
        let id = self.next_session;
        self.next_session += 1;
        let reply = self.reply();
        self.send(RemoteDesktopToNiri::CreateSession {
            id,
            persistent,
            takes_control,
            disable_animations,
            reply,
        });
        match self.answer(reply) {
            Reply::Monitors(result) => (id, result.unwrap()),
            other => panic!("unexpected answer: {other:?}"),
        }
    }

    fn create_session(&mut self, persistent: bool) -> u64 {
        self.new_session(persistent, true, false).0
    }

    fn monitor(
        &mut self,
        session: u64,
        name: Option<&str>,
        persistent: bool,
    ) -> Result<MonitorInfo, String> {
        let reply = self.reply();
        self.send(RemoteDesktopToNiri::CreateVirtualMonitor {
            session,
            name: name.map(ToOwned::to_owned),
            persistent,
            reply,
        });
        match self.answer(reply) {
            Reply::Monitor(result) => result,
            other => panic!("unexpected answer: {other:?}"),
        }
    }

    fn create_monitor(&mut self, session: u64, name: Option<&str>) -> Result<u64, String> {
        self.monitor(session, name, false).map(|info| info.id)
    }

    fn remove_monitor(&mut self, session: u64, monitor: u64) -> Result<(), String> {
        let reply = self.reply();
        self.send(RemoteDesktopToNiri::RemoveVirtualMonitor {
            session,
            monitor,
            reply,
        });
        self.done(reply)
    }

    fn destroy_session(&mut self, id: u64, remove: bool) {
        self.send(RemoteDesktopToNiri::DestroySession { id, remove });
    }

    fn open_stream(&mut self, session: u64, monitor: u64) -> u64 {
        let reply = self.reply();
        self.send(RemoteDesktopToNiri::OpenPipeWireStream {
            session,
            monitor,
            cursor_mode: CursorMode::Embedded,
            reply,
        });
        reply
    }

    fn close_stream(&mut self, session: u64, monitor: u64, stream_id: &str) -> Result<(), String> {
        let reply = self.reply();
        self.send(RemoteDesktopToNiri::ClosePipeWireStream {
            session,
            monitor,
            stream_id: stream_id.to_owned(),
            reply,
        });
        self.done(reply)
    }

    fn enable_clipboard(&mut self, session: u64) -> Result<(), String> {
        let reply = self.reply();
        self.send(RemoteDesktopToNiri::EnableClipboard { session, reply });
        self.done(reply)
    }

    fn set_selection(
        &mut self,
        session: u64,
        ty: ClipboardType,
        mime_types: &[&str],
    ) -> Result<(), String> {
        let reply = self.reply();
        self.send(RemoteDesktopToNiri::SetSelection {
            session,
            ty,
            mime_types: mime_types.iter().map(|m| (*m).to_owned()).collect(),
            reply,
        });
        self.done(reply)
    }

    fn selection_write(&mut self, session: u64, serial: u32) -> Result<u64, String> {
        let reply = self.reply();
        self.send(RemoteDesktopToNiri::SelectionWrite {
            session,
            serial,
            reply,
        });
        self.fd(reply)
    }

    fn send_selection(&mut self, session: u64, ty: ClipboardType, mime_type: &str, fd: u64) {
        let actions =
            self.state
                .remote_desktop_send_selection(session, ty, mime_type.to_owned(), fd);
        self.run(actions);
    }

    fn transfer_serial(&mut self) -> u32 {
        let mut serial = None;
        for msg in self.notices.drain(..) {
            if let NiriToRemoteDesktop::SelectionTransfer { serial: n, .. } = msg {
                serial = Some(n);
            }
        }
        serial.expect("a SelectionTransfer should have been emitted")
    }
}

#[test]
fn create_and_remove_virtual_monitor() {
    let mut f = Fixture::enabled();
    let session = f.create_session(false);

    let monitor = f.create_monitor(session, Some("Virtual-1")).unwrap();
    assert!(f.has_output("Virtual-1"));

    // The monitor comes up at the configured default mode.
    let output = f
        .outputs
        .iter()
        .find(|o| o.name == "Virtual-1")
        .unwrap()
        .clone();
    assert_eq!(output.width, 1280);
    assert_eq!(output.height, 720);

    f.remove_monitor(session, monitor).unwrap();
    assert!(!f.has_output("Virtual-1"));
}

#[test]
fn another_session_cannot_remove_a_monitor() {
    let mut f = Fixture::enabled();
    let owner = f.create_session(false);
    let monitor = f.create_monitor(owner, Some("Virtual-1")).unwrap();

    // takes_control terminates the first session, so make the second one non-controlling.
    let (other, _) = f.new_session(false, false, false);

    assert!(f.remove_monitor(other, monitor).is_err());
    assert!(f.has_output("Virtual-1"));
}

#[test]
fn destroying_a_session_removes_its_monitors() {
    let mut f = Fixture::enabled();
    let session = f.create_session(false);
    f.create_monitor(session, Some("Virtual-1")).unwrap();

    f.destroy_session(session, false);

    assert!(!f.has_output("Virtual-1"));
}

#[test]
fn a_persistent_session_keeps_its_monitors() {
    let mut f = Fixture::enabled();
    let session = f.create_session(true);

    f.monitor(session, Some("Virtual-1"), true).unwrap();

    f.destroy_session(session, false);
    assert!(f.has_output("Virtual-1"));

    // ...unless the peer asks for it to go.
    let session = f.create_session(true);
    f.monitor(session, Some("Virtual-2"), true).unwrap();

    f.destroy_session(session, true);
    assert!(!f.has_output("Virtual-2"));
}

#[test]
fn taking_control_terminates_the_previous_session() {
    let mut f = Fixture::enabled();
    let first = f.create_session(false);
    let second = f.create_session(false);

    assert_eq!(f.state.niri.remote_desktop.controlling, Some(second));
    assert!(!f.state.niri.remote_desktop.sessions.contains_key(&first));

    let mut destroyed = false;
    for msg in f.notices.drain(..) {
        if matches!(msg, NiriToRemoteDesktop::SessionDestroyed(id) if id == first) {
            destroyed = true;
        }
    }
    assert!(destroyed, "the first session should get a Destroyed signal");
}

#[test]
fn monitors_created_outside_the_api_are_exposed_without_an_owner() {
    let mut f = Fixture::enabled();
    let session = f.create_session(false);

    let name = f.create_virtual_output(800, 600, 60, Some("sunshine".to_owned()));

    let outputs = f.output_names();
    let mut actions = Vec::new();
    f.state
        .refresh_remote_desktop_monitors(&outputs, &mut actions);
    f.run(actions);

    let monitor = f
        .state
        .niri
        .remote_desktop
        .monitors
        .iter()
        .find(|m| m.output_name == name)
        .expect("the virtual output should show up as a monitor");
    assert_eq!(monitor.owner, None);
    let monitor_id = monitor.id;

    // Not ours, so we can't remove it through the API.
    assert!(f.remove_monitor(session, monitor_id).is_err());
}

#[test]
fn disable_animations_option() {
    let mut f = Fixture::enabled();
    let session = f.create_session(false);

    assert!(!f.state.niri.clock.should_complete_instantly());

    f.send(RemoteDesktopToNiri::SetDisableAnimations {
        id: session,
        value: true,
    });
    assert!(f.state.niri.clock.should_complete_instantly());

    f.destroy_session(session, false);
    assert!(!f.state.niri.clock.should_complete_instantly());
}

#[test]
fn remote_clipboard_transfer() {
    let mut f = Fixture::enabled();
    let session = f.create_session(false);

    f.enable_clipboard(session).unwrap();

    // The remote service offers text.
    f.set_selection(
        session,
        ClipboardType::Clipboard,
        &["text/plain;charset=utf-8"],
    )
    .unwrap();
    assert_eq!(
        f.clipboard,
        Some((session, vec!["text/plain;charset=utf-8".to_owned()]))
    );

    // A Wayland client reading the selection parks its fd and asks the service for the data.
    let client = 7;
    f.send_selection(
        session,
        ClipboardType::Clipboard,
        "text/plain;charset=utf-8",
        client,
    );
    assert_eq!(f.blocking, vec![client]);

    let mut serial = None;
    for msg in f.notices.drain(..) {
        if let NiriToRemoteDesktop::SelectionTransfer {
            session: s,
            ty,
            mime_type,
            serial: n,
        } = msg
        {
            assert_eq!(s, session);
            assert_eq!(ty, ClipboardType::Clipboard);
            assert_eq!(mime_type, "text/plain;charset=utf-8");
            serial = Some(n);
        }
    }
    let serial = serial.expect("a SelectionTransfer should have been emitted");

    // The service answers with SelectionWrite and gets the client's fd back.
    let fd = f.selection_write(session, serial).unwrap();
    assert_eq!(fd, client);

    // Asking twice must not hand out the same fd again.
    assert!(f.selection_write(session, serial).is_err());

    // Writing to it must reach the "client".
    f.files.entry(fd).or_default().push_str("hello from the remote");
    assert_eq!(f.files[&client], "hello from the remote");

    f.send(RemoteDesktopToNiri::SelectionWriteDone {
        session,
        serial,
        success: true,
    });

    // The transfer is finished, so the serial is no longer known.
    assert!(f.selection_write(session, serial).is_err());
}

#[test]
fn a_wayland_selection_notifies_the_service() {
    let mut f = Fixture::enabled();
    let session = f.create_session(false);

    f.enable_clipboard(session).unwrap();
    f.notices.clear();

    let actions = f
        .state
        .remote_desktop_new_selection(SelectionTarget::Primary, None);
    f.run(actions);

    let mut saw = false;
    for msg in f.notices.drain(..) {
        if let NiriToRemoteDesktop::SelectionOwnerChanged {
            session: s,
            ty,
            session_is_owner,
            ..
        } = msg
        {
            assert_eq!(s, session);
            assert_eq!(ty, ClipboardType::Primary);
            assert!(!session_is_owner);
            saw = true;
        }
    }
    assert!(saw, "a SelectionOwnerChanged should have been emitted");
}

#[test]
fn the_second_session_sees_the_monitors_of_the_first() {
    let mut f = Fixture::enabled();
    let (first, monitors) = f.new_session(false, false, false);
    assert!(monitors.is_empty());
    let monitor = f.create_monitor(first, Some("Virtual-1")).unwrap();

    let (_, monitors) = f.new_session(false, false, false);
    assert_eq!(monitors.len(), 1);
    assert_eq!(monitors[0].id, monitor);
    assert_eq!(monitors[0].name, "Virtual-1");
    assert_eq!(monitors[0].owner, Some(first));
}

#[test]
fn a_new_session_learns_of_outputs_that_came_and_went() {
    let mut f = Fixture::enabled();
    f.create_virtual_output(800, 600, 60, Some("a".to_owned()));
    f.create_virtual_output(800, 600, 60, Some("b".to_owned()));
    let (_, monitors) = f.new_session(false, false, false);
    assert_eq!(
        monitors.iter().map(|m| (m.id, m.name.as_str())).collect::<Vec<_>>(),
        vec![(1, "a"), (2, "b")]
    );

    f.outputs.remove(0);
    f.create_virtual_output(800, 600, 60, Some("c".to_owned()));
    f.notices.clear();
    let (_, monitors) = f.new_session(false, false, false);
    assert_eq!(
        monitors.iter().map(|m| (m.id, m.name.as_str())).collect::<Vec<_>>(),
        vec![(2, "b"), (3, "c")]
    );
    assert!(matches!(f.notices[0], NiriToRemoteDesktop::MonitorRemoved(1)));
    assert!(matches!(&f.notices[1], NiriToRemoteDesktop::MonitorAdded(info) if info.id == 3));
    assert_eq!(f.notices.len(), 2);
}

#[test]
fn a_second_refresh_tells_nothing() {
    let mut f = Fixture::enabled();
    f.create_virtual_output(800, 600, 60, Some("a".to_owned()));
    let outputs = f.output_names();
    let mut actions = Vec::new();
    f.state.refresh_remote_desktop_monitors(&outputs, &mut actions);
    assert_eq!(actions.len(), 1);
    let mut actions = Vec::new();
    f.state.refresh_remote_desktop_monitors(&outputs, &mut actions);
    assert!(actions.is_empty());
    assert_eq!(f.state.niri.remote_desktop.monitors.len(), 1);
}

#[test]
fn an_output_has_one_monitor_after_a_refresh() {
    let mut f = Fixture::enabled();
    let session = f.create_session(false);
    f.create_monitor(session, Some("a")).unwrap();
    let names = |f: &Fixture| -> Vec<String> {
        let monitors = &f.state.niri.remote_desktop.monitors;
        monitors.iter().map(|monitor| monitor.output_name.clone()).collect()
    };

    // Even an output that is listed twice is exposed once.
    let outputs: Vec<String> = ["b", "a", "b"].iter().map(|name| name.to_string()).collect();
    let mut actions = Vec::new();
    f.state.refresh_remote_desktop_monitors(&outputs, &mut actions);
    assert_eq!(actions.len(), 1);
    assert_eq!(names(&f), vec!["a".to_owned(), "b".to_owned()]);
    let monitors = &f.state.niri.remote_desktop.monitors;
    assert_eq!((monitors[0].id, monitors[0].owner), (1, Some(session)));
    assert_eq!((monitors[1].id, monitors[1].owner), (2, None));
    assert!(!monitors[1].persistent);
}

#[test]
fn without_the_service_nothing_is_exposed_or_told() {
    let mut f = Fixture::disabled();
    f.create_virtual_output(800, 600, 60, Some("a".to_owned()));
    let (session, monitors) = f.new_session(false, true, false);
    assert!(monitors.is_empty());
    f.create_monitor(session, Some("b")).unwrap();
    let actions = f
        .state
        .remote_desktop_new_selection(SelectionTarget::Clipboard, Some(vec!["text/plain".to_owned()]));
    assert!(actions.is_empty());
    assert!(f.notices.is_empty());
}

#[test]
fn monitors_outlive_a_persistent_session() {
    let mut f = Fixture::enabled();
    let session = f.create_session(true);
    f.monitor(session, Some("a"), true).unwrap();
    f.monitor(session, Some("b"), false).unwrap();
    f.notices.clear();

    // Whether a monitor was itself made persistent makes no difference.
    f.destroy_session(session, false);
    assert_eq!(f.output_names(), vec!["a".to_owned(), "b".to_owned()]);
    let monitors = &f.state.niri.remote_desktop.monitors;
    assert_eq!(monitors.len(), 2);
    assert_eq!((monitors[0].id, monitors[0].owner), (1, None));
    assert_eq!((monitors[1].id, monitors[1].owner), (2, None));
    assert!(monitors[0].persistent);
    assert!(!monitors[1].persistent);
    let removed = |notice: &NiriToRemoteDesktop| {
        matches!(notice, NiriToRemoteDesktop::MonitorRemoved(_))
    };
    assert!(!f.notices.iter().any(removed));

    // Nobody can remove them through the API anymore.
    let session = f.create_session(true);
    assert_eq!(
        f.remove_monitor(session, 1),
        Err("this monitor belongs to another session".to_owned())
    );
}

#[test]
fn monitor_errors() {
    let mut f = Fixture::enabled();
    assert_eq!(
        f.create_monitor(9, None),
        Err("no such session".to_owned())
    );
    let session = f.create_session(false);
    assert_eq!(
        f.remove_monitor(session, 9),
        Err("no such monitor".to_owned())
    );
    let monitor = f.create_monitor(session, Some("a")).unwrap();
    assert_eq!(
        f.create_monitor(session, Some("a")),
        Err("the name is taken".to_owned())
    );
    f.fail_removals = true;
    assert_eq!(f.remove_monitor(session, monitor), Err("busy".to_owned()));
    assert!(f.has_output("a"));
}

#[test]
fn modes_of_new_monitors() {
    let mut f = Fixture::enabled();
    let session = f.create_session(false);
    let mut made = |f: &mut Fixture, mode: Option<ConfiguredMode>| {
        f.state.niri.remote_desktop.default_mode = mode;
        f.create_monitor(session, None).unwrap();
        let output = f.outputs.last().unwrap();
        (output.width, output.height, output.refresh)
    };
    let mode = |refresh| {
        Some(ConfiguredMode {
            width: 640,
            height: 480,
            refresh,
        })
    };
    assert_eq!(made(&mut f, None), (1920, 1080, 60));
    assert_eq!(made(&mut f, mode(None)), (640, 480, 60));
    assert_eq!(made(&mut f, mode(Some(RefreshRate::Hertz(144)))), (640, 480, 144));
    assert_eq!(made(&mut f, mode(Some(RefreshRate::Hertz(0)))), (640, 480, 1));
    assert_eq!(made(&mut f, mode(Some(RefreshRate::Hertz(-5)))), (640, 480, 1));
    assert_eq!(made(&mut f, mode(Some(RefreshRate::Hertz(1001)))), (640, 480, 1000));
    assert_eq!(made(&mut f, mode(Some(RefreshRate::NotANumber))), (640, 480, 0));
}

#[test]
fn streams_open_answer_and_close() {
    let mut f = Fixture::enabled();
    let session = f.create_session(false);
    let monitor = f.create_monitor(session, Some("a")).unwrap();

    let call = f.open_stream(session, monitor);
    assert!(f.replies.is_empty());
    assert_eq!(f.state.niri.casting.casts.len(), 1);

    let actions = f.state.on_remote_desktop_node_id(1, 42, Some(77));
    f.run(actions);
    let info = f.stream(call).unwrap();
    assert_eq!(info.stream_id, "u1");
    assert_eq!(info.node_id, 42);
    assert_eq!(info.serial, 77);

    // The call is answered only once.
    assert!(f.state.on_remote_desktop_node_id(1, 43, None).is_empty());

    let running = f.state.niri.casting.casts[0].stream;
    f.close_stream(session, monitor, "u1").unwrap();
    assert_eq!(f.disconnected, vec![running]);
    assert!(f.state.niri.casting.casts.is_empty());
    assert_eq!(
        f.close_stream(session, monitor, "u1"),
        Err("no such stream".to_owned())
    );
}

#[test]
fn streams_are_found_by_their_number() {
    let mut f = Fixture::enabled();
    let first = f.create_session(false);
    let (second, _) = f.new_session(false, false, false);
    let monitor = f.create_monitor(first, Some("a")).unwrap();
    f.open_stream(first, monitor);
    let call = f.open_stream(second, monitor);

    let actions = f.state.on_remote_desktop_node_id(2, 42, Some(77));
    assert_eq!(actions.len(), 1);
    f.run(actions);
    assert_eq!(f.stream(call).unwrap().stream_id, "u2");
    let sessions = &f.state.niri.remote_desktop.sessions;
    assert!(sessions[&first].streams[0].pending_reply.is_some());
    assert!(sessions[&second].streams[0].pending_reply.is_none());

    // Exactly the controlling session has control.
    assert_eq!(f.state.niri.remote_desktop.controlling, Some(first));
    assert!(sessions[&first].has_control);
    assert!(!sessions[&second].has_control);
}

#[test]
fn a_node_without_a_serial_reports_zero() {
    let mut f = Fixture::enabled();
    let session = f.create_session(false);
    let monitor = f.create_monitor(session, Some("a")).unwrap();
    let call = f.open_stream(session, monitor);
    let actions = f.state.on_remote_desktop_node_id(1, 42, None);
    f.run(actions);
    assert_eq!(f.stream(call).unwrap().serial, 0);
    assert!(f.state.on_remote_desktop_node_id(9, 42, None).is_empty());
}

#[test]
fn stream_errors() {
    let mut f = Fixture::enabled();
    let session = f.create_session(false);
    let call = f.open_stream(session, 5);
    assert_eq!(f.stream(call).unwrap_err(), "no such monitor");

    let monitor = f.create_monitor(session, Some("a")).unwrap();
    let call = f.open_stream(99, monitor);
    assert_eq!(f.stream(call).unwrap_err(), "no such session");

    f.outputs.clear();
    let call = f.open_stream(session, monitor);
    assert_eq!(
        f.stream(call).unwrap_err(),
        "the monitor's output is not connected"
    );

    f.create_virtual_output(1, 1, 60, Some("a".to_owned()));
    f.fail_casts = true;
    let call = f.open_stream(session, monitor);
    assert_eq!(
        f.stream(call).unwrap_err(),
        "error starting the stream: no PipeWire"
    );

    f.fail_casts = false;
    let call = f.open_stream(session, monitor);
    assert_eq!(
        f.close_stream(99, monitor, "u2"),
        Err("no such session".to_owned())
    );
    assert_eq!(
        f.close_stream(session, 99, "u2"),
        Err("no such stream".to_owned())
    );
    f.close_stream(session, monitor, "u2").unwrap();
    assert_eq!(f.stream(call).unwrap_err(), "the stream was closed");
}

#[test]
fn destroying_a_session_stops_its_streams() {
    let mut f = Fixture::enabled();
    let (other, _) = f.new_session(false, false, false);
    let (session, _) = f.new_session(false, false, false);
    let monitor = f.create_monitor(session, Some("a")).unwrap();
    f.open_stream(other, monitor);
    let call = f.open_stream(session, monitor);
    f.open_stream(session, monitor);
    let casts: Vec<u64> = f.state.niri.casting.casts.iter().map(|c| c.stream).collect();
    assert_eq!(casts.len(), 3);

    f.destroy_session(session, false);
    assert_eq!(f.disconnected, vec![casts[1], casts[2]]);
    assert_eq!(f.state.niri.casting.casts.len(), 1);
    assert_eq!(f.state.niri.casting.casts[0].stream, casts[0]);
    assert_eq!(f.dropped, vec![call, call + 1]);
}

#[test]
fn stopping_a_cast_moves_the_last_one_up() {
    let mut niri = Niri::new();
    for (session_id, stream) in [(1, 10), (2, 20), (1, 11), (3, 30)] {
        niri.casting
            .casts
            .push(niri::niri::Cast { session_id, stream });
    }
    let mut actions = Vec::new();
    niri.stop_remote_desktop_cast(1, &mut actions);
    let streams: Vec<u64> = actions
        .iter()
        .map(|action| match action {
            Action::DisconnectCast { stream } => *stream,
            other => panic!("unexpected action: {other:?}"),
        })
        .collect();
    assert_eq!(streams, vec![11, 10]);
    let left: Vec<u64> = niri.casting.casts.iter().map(|c| c.stream).collect();
    assert_eq!(left, vec![30, 20]);
}

#[test]
fn consumers_resize_owned_monitors() {
    let mut f = Fixture::enabled();
    let session = f.create_session(false);
    let monitor = f.create_monitor(session, Some("a")).unwrap();
    f.open_stream(session, monitor);
    let resize = |f: &mut Fixture, stream, width, height| {
        let actions = f.state.on_remote_desktop_resize_target(stream, width, height);
        f.run(actions);
    };
    resize(&mut f, 1, 2560, 1440);
    assert_eq!(
        f.modes,
        vec![(
            "a".to_owned(),
            CustomMode {
                width: 2560,
                height: 1440,
                refresh: 60_000
            }
        )]
    );
    f.modes.clear();

    // Sizes that no mode can have, and streams that nobody opened, change nothing.
    resize(&mut f, 1, 65536, 1440);
    resize(&mut f, 1, 2560, 65536);
    resize(&mut f, 2, 2560, 1440);
    assert!(f.modes.is_empty());
}

#[test]
fn consumers_do_not_resize_monitors_without_an_owner() {
    let mut f = Fixture::enabled();
    f.create_virtual_output(800, 600, 60, Some("sunshine".to_owned()));
    let (session, monitors) = f.new_session(false, true, false);
    let call = f.open_stream(session, monitors[0].id);
    let actions = f.state.on_remote_desktop_node_id(1, 1, None);
    f.run(actions);
    assert!(f.stream(call).is_ok());
    assert!(f.state.on_remote_desktop_resize_target(1, 640, 480).is_empty());
}

#[test]
fn an_output_without_a_mode_gets_sixty_hertz() {
    assert_eq!(resized_mode(1, 2, None).refresh, 60_000);
    assert_eq!(resized_mode(1, 2, Some(75_000)).refresh, 75_000);
}

#[test]
fn a_new_eis_connection_replaces_the_old() {
    let mut f = Fixture::enabled();
    let session = f.create_session(false);
    let connect = |f: &mut Fixture, session| {
        let reply = f.reply();
        f.send(RemoteDesktopToNiri::ConnectToEis {
            session,
            socket: 5,
            reply,
        });
        f.done(reply)
    };
    connect(&mut f, session).unwrap();
    let first = f.state.niri.remote_desktop.sessions[&session]
        .eis
        .unwrap()
        .token;
    connect(&mut f, session).unwrap();
    assert_eq!(f.removed_sources, vec![first]);

    f.fail_eis = true;
    assert_eq!(
        connect(&mut f, session),
        Err("error setting up the EIS connection: no socket".to_owned())
    );
    assert!(f.state.niri.remote_desktop.sessions[&session].eis.is_none());

    assert_eq!(connect(&mut f, 99), Err("no such session".to_owned()));
    assert_eq!(f.closed, vec![5]);
}

#[test]
fn destroying_a_session_gives_everything_up() {
    let mut f = Fixture::enabled();
    let session = f.create_session(false);
    f.enable_clipboard(session).unwrap();
    f.set_selection(session, ClipboardType::Clipboard, &["a"]).unwrap();
    f.set_selection(session, ClipboardType::Primary, &["b"]).unwrap();
    f.send_selection(session, ClipboardType::Clipboard, "a", 7);
    let token = f.state.niri.remote_desktop.sessions[&session]
        .clipboard
        .as_ref()
        .unwrap()
        .pending[&1]
        .timeout
        .unwrap();

    f.destroy_session(session, false);
    assert_eq!(f.clipboard, None);
    assert_eq!(f.primary, None);
    assert_eq!(f.removed_sources, vec![token]);
    assert_eq!(f.closed, vec![7]);
    assert_eq!(f.state.niri.remote_desktop.controlling, None);

    // Destroying it again does nothing.
    let notices = f.notices.len();
    f.destroy_session(session, true);
    assert_eq!(f.notices.len(), notices);
}

#[test]
fn clipboard_errors() {
    let mut f = Fixture::enabled();
    assert_eq!(f.enable_clipboard(9), Err("no such session".to_owned()));
    let session = f.create_session(false);
    let off = "clipboard integration is not enabled for this session".to_owned();
    assert_eq!(
        f.set_selection(9, ClipboardType::Primary, &["a"]),
        Err("no such session".to_owned())
    );
    assert_eq!(
        f.set_selection(session, ClipboardType::Primary, &["a"]),
        Err(off.clone())
    );
    assert_eq!(f.selection_write(session, 1), Err(off));
    f.enable_clipboard(session).unwrap();
    assert_eq!(
        f.selection_write(session, 1),
        Err("no transfer with this serial".to_owned())
    );
    f.send_selection(session, ClipboardType::Primary, "a", 7);
    let serial = f.transfer_serial();
    assert_eq!(f.selection_write(session, serial), Ok(7));
    assert_eq!(
        f.selection_write(session, serial),
        Err("the transfer fd was already taken".to_owned())
    );
}

#[test]
fn offering_nothing_gives_the_selection_up() {
    let mut f = Fixture::enabled();
    let session = f.create_session(false);
    f.enable_clipboard(session).unwrap();
    f.set_selection(session, ClipboardType::Primary, &["a", "b"]).unwrap();
    assert_eq!(
        f.primary,
        Some((session, vec!["a".to_owned(), "b".to_owned()]))
    );
    assert!(f.state.niri.remote_desktop.sessions[&session]
        .clipboard
        .as_ref()
        .unwrap()
        .owns(ClipboardType::Primary));
    f.set_selection(session, ClipboardType::Primary, &[]).unwrap();
    assert_eq!(f.primary, None);
    assert!(!f.state.niri.remote_desktop.sessions[&session]
        .clipboard
        .as_ref()
        .unwrap()
        .owns(ClipboardType::Primary));
}

#[test]
fn disabling_the_clipboard_clears_it() {
    let mut f = Fixture::enabled();
    let session = f.create_session(false);
    f.enable_clipboard(session).unwrap();
    f.set_selection(session, ClipboardType::Clipboard, &["a"]).unwrap();
    f.send_selection(session, ClipboardType::Clipboard, "a", 7);
    f.send_selection(session, ClipboardType::Clipboard, "a", 8);
    f.send(RemoteDesktopToNiri::DisableClipboard { session });
    assert_eq!(f.clipboard, None);
    assert_eq!(f.closed, vec![7, 8]);
    assert_eq!(f.removed_sources.len(), 2);
    assert!(f.state.niri.remote_desktop.sessions[&session].clipboard.is_none());
}

#[test]
fn enabling_the_clipboard_again_starts_afresh() {
    let mut f = Fixture::enabled();
    let session = f.create_session(false);
    f.enable_clipboard(session).unwrap();
    f.send_selection(session, ClipboardType::Clipboard, "a", 7);
    f.enable_clipboard(session).unwrap();
    assert_eq!(f.closed, vec![7]);
    assert!(f.removed_sources.is_empty());
    f.send_selection(session, ClipboardType::Clipboard, "a", 8);
    assert_eq!(f.transfer_serial(), 1);
}

#[test]
fn transfers_time_out() {
    let mut f = Fixture::enabled();
    let session = f.create_session(false);
    f.enable_clipboard(session).unwrap();
    f.send_selection(session, ClipboardType::Clipboard, "a", 7);
    let serial = f.transfer_serial();
    assert_eq!(f.timers, vec![(session, serial, 30)]);

    let actions = f.state.transfer_timed_out(session, serial);
    f.run(actions);
    assert_eq!(f.closed, vec![7]);
    assert!(f.removed_sources.is_empty());
    assert!(f.selection_write(session, serial).is_err());
    assert!(f.state.transfer_timed_out(session, serial).is_empty());
    assert!(f.state.transfer_timed_out(99, serial).is_empty());
}

#[test]
fn a_transfer_without_a_timer_is_parked_all_the_same() {
    let mut f = Fixture::enabled();
    let session = f.create_session(false);
    f.enable_clipboard(session).unwrap();
    f.fail_timers = true;
    f.send_selection(session, ClipboardType::Clipboard, "a", 7);
    let serial = f.transfer_serial();
    f.send(RemoteDesktopToNiri::SelectionWriteDone {
        session,
        serial,
        success: false,
    });
    assert!(f.removed_sources.is_empty());
    assert_eq!(f.closed, vec![7]);
}

#[test]
fn reading_a_selection_of_no_session_closes_the_fd() {
    let mut f = Fixture::enabled();
    f.send_selection(9, ClipboardType::Clipboard, "a", 7);
    assert_eq!(f.blocking, vec![7]);
    assert_eq!(f.closed, vec![7]);
    assert!(f.notices.is_empty());
}

#[test]
fn serials_skip_zero() {
    let mut clipboard = niri::remote_desktop::clipboard::SessionClipboard::default();
    assert_eq!(clipboard.next_serial(), 1);
    assert_eq!(clipboard.next_serial(), 2);
    clipboard.next_serial = u32::MAX;
    assert_eq!(clipboard.next_serial(), 1);
}

#[test]
fn reading_a_wayland_selection() {
    let mut f = Fixture::enabled();
    let session = f.create_session(false);
    let read = |f: &mut Fixture, session| {
        let reply = f.reply();
        f.send(RemoteDesktopToNiri::SelectionRead {
            session,
            ty: ClipboardType::Primary,
            mime_type: "text/plain".to_owned(),
            reply,
        });
        f.fd(reply)
    };
    assert!(read(&mut f, session).is_ok());
    assert_eq!(read(&mut f, 9), Err("no such session".to_owned()));
    f.pipe = Some(SelectionReadError::Pipe("too many".to_owned()));
    assert_eq!(
        read(&mut f, session),
        Err("error creating a pipe: too many".to_owned())
    );
    f.pipe = Some(SelectionReadError::Request("no selection".to_owned()));
    assert_eq!(
        read(&mut f, session),
        Err("error reading the selection: no selection".to_owned())
    );
}

#[test]
fn every_clipboard_hears_of_a_new_owner() {
    let mut f = Fixture::enabled();
    let (a, _) = f.new_session(false, false, false);
    let (_, _) = f.new_session(false, false, false);
    let (c, _) = f.new_session(false, false, false);
    f.enable_clipboard(a).unwrap();
    f.enable_clipboard(c).unwrap();
    f.set_selection(c, ClipboardType::Clipboard, &["x"]).unwrap();
    f.notices.clear();
    let actions = f.state.remote_desktop_new_selection(
        SelectionTarget::Clipboard,
        Some(vec!["text/plain".to_owned()]),
    );
    f.run(actions);
    let told: Vec<_> = f
        .notices
        .iter()
        .map(|notice| match notice {
            NiriToRemoteDesktop::SelectionOwnerChanged {
                session,
                ty,
                mime_types,
                session_is_owner,
            } => (*session, *ty, mime_types.clone(), *session_is_owner),
            other => panic!("unexpected notice: {other:?}"),
        })
        .collect();
    let types = vec!["text/plain".to_owned()];
    assert_eq!(
        told,
        vec![
            (a, ClipboardType::Clipboard, types.clone(), false),
            (c, ClipboardType::Clipboard, types, true),
        ]
    );
}

#[test]
fn animations_stay_off_if_the_config_says_so() {
    let mut f = Fixture::enabled();
    f.state.niri.animations_off = true;
    let (session, _) = f.new_session(false, false, true);
    assert!(f.state.niri.clock.should_complete_instantly());
    f.destroy_session(session, false);
    assert!(f.state.niri.clock.should_complete_instantly());
}

#[test]
fn one_session_with_animations_off_is_enough() {
    let mut f = Fixture::enabled();
    let (a, _) = f.new_session(false, false, true);
    let (b, _) = f.new_session(false, false, true);
    f.send(RemoteDesktopToNiri::SetDisableAnimations { id: a, value: false });
    assert!(f.state.niri.clock.should_complete_instantly());
    f.send(RemoteDesktopToNiri::SetDisableAnimations { id: b, value: false });
    assert!(!f.state.niri.clock.should_complete_instantly());
    f.send(RemoteDesktopToNiri::SetDisableAnimations { id: 99, value: true });
    assert!(!f.state.niri.clock.should_complete_instantly());
}
