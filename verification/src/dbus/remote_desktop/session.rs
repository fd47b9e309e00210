//! `org.freedesktop.RemoteDesktop1.Session`.

use vstd::prelude::*;
use vstd::string::*;

use super::calls::{
    CallOutcome, ErrorView, FdoError, call_niri, check_sender, not_the_owner, sent_by,
};
use super::clipboard::{Clipboard, ClipboardObjectView};
use super::messages::{
    FdHandle, MonitorInfo, RemoteDesktopToNiri, ReplyHandle, RequestView,
};
use super::monitor::{Monitor, MonitorObjectView};
use super::options::{Options, Value, ValueView, bool_of, get_bool, get_string, string_of};
use super::paths::{clipboard_path, monitor_path, path_of_clipboard, path_of_monitor};
use super::VERSION;
use crate::utils::lists::view_of;
use crate::utils::text::join;
use crate::utils::RemoteDesktopSessionId;

verus! {

/// A session, as the peer that created it sees it.
#[derive(Debug)]
pub struct Session {
    pub id: RemoteDesktopSessionId,
    /// The unique name of the peer that created the session.
    pub owner: String,
    pub persistent: bool,
    pub has_control: bool,
    pub disable_animations: bool,
    pub destroyed: bool,
    pub enable_input: bool,
    pub enable_clipboard: bool,
}

/// What a `Session` holds.
pub struct SessionObjectView {
    pub id: RemoteDesktopSessionId,
    pub owner: Seq<char>,
    pub persistent: bool,
    pub has_control: bool,
    pub disable_animations: bool,
    pub destroyed: bool,
    pub enable_input: bool,
    pub enable_clipboard: bool,
}

impl View for Session {
    type V = SessionObjectView;

    open spec fn view(&self) -> SessionObjectView {
        SessionObjectView {
            id: self.id,
            owner: self.owner@,
            persistent: self.persistent,
            has_control: self.has_control,
            disable_animations: self.disable_animations,
            destroyed: self.destroyed,
            enable_input: self.enable_input,
            enable_clipboard: self.enable_clipboard,
        }
    }
}

/// An option that is off unless it is on.
pub open spec fn is_on(options: Map<Seq<char>, ValueView>, key: Seq<char>) -> bool {
    bool_of(options, key) == Some(true)
}

/// Reads an option that is off unless it is on.
pub fn flag(options: &Options, key: &str) -> (on: bool)
    ensures
        on == is_on(options@, key@),
{
    match get_bool(options, key) {
        Some(value) => value,
        None => false,
    }
}

/// The error for a session without input emulation.
pub open spec fn no_input() -> ErrorView {
    ErrorView::NotSupported(
        "input emulation is not enabled; add enable-input to the remote-desktop config section"@,
    )
}

/// The error for a session without clipboard integration.
pub open spec fn no_clipboard() -> ErrorView {
    ErrorView::NotSupported(
        "clipboard integration is not enabled; add enable-clipboard to the remote-desktop config section"@,
    )
}

/// The error for a monitor that would outlive a session that does not.
pub open spec fn not_persistent() -> ErrorView {
    ErrorView::InvalidArgs("persistent monitors require a persistent session"@)
}

/// An object to put on the bus.
#[derive(Debug)]
pub struct NewMonitor {
    pub path: String,
    pub monitor: Monitor,
}

/// A clipboard object to put on the bus.
#[derive(Debug)]
pub struct NewClipboard {
    pub path: String,
    pub clipboard: Clipboard,
}

impl Session {
    /// A session that was just created.
    pub fn new(
        id: RemoteDesktopSessionId,
        owner: String,
        persistent: bool,
        has_control: bool,
        disable_animations: bool,
        enable_input: bool,
        enable_clipboard: bool,
    ) -> (session: Self)
        ensures
            session@ == (SessionObjectView {
                id,
                owner: owner@,
                persistent,
                has_control,
                disable_animations,
                destroyed: false,
                enable_input,
                enable_clipboard,
            }),
    {
        Session {
            id,
            owner,
            persistent,
            has_control,
            disable_animations,
            destroyed: false,
            enable_input,
            enable_clipboard,
        }
    }

    /// Notes whether the session has control.
    pub fn set_has_control(&mut self, value: bool)
        ensures
            final(self)@ == (SessionObjectView { has_control: value, ..old(self)@ }),
    {
        self.has_control = value;
    }

    /// Destroys the session. Of a session that is destroyed already nothing is left to do.
    ///
    /// Destroying a session this way emits no signal: the objects are torn down without waiting for
    /// the compositor.
    pub fn destroy(&mut self, sender: &Option<String>, options: &Options) -> (result: Result<
        Option<RemoteDesktopToNiri>,
        FdoError,
    >)
        ensures
            if sent_by(*sender, old(self)@.owner) {
                &&& final(self)@ == (SessionObjectView { destroyed: true, ..old(self)@ })
                &&& result matches Ok(message)
                &&& view_of(message) == if old(self)@.destroyed {
                    None
                } else {
                    Some(
                        RequestView::DestroySession {
                            id: old(self)@.id,
                            remove: is_on(options@, "remove"@),
                        },
                    )
                }
            } else {
                &&& final(self)@ == old(self)@
                &&& result matches Err(error)
                &&& error@ == not_the_owner()
            },
    {
        match check_sender(sender, &self.owner) {
            Ok(_) => {},
            Err(error) => {
                return Err(error);
            },
        }
        if self.destroyed {
            return Ok(None);
        }
        self.destroyed = true;
        let remove = flag(options, "remove");
        Ok(Some(RemoteDesktopToNiri::DestroySession { id: self.id, remove }))
    }

    /// Whether the sender may have an EIS connection.
    pub fn check_eis(&self, sender: &Option<String>) -> (result: Result<(), FdoError>)
        ensures
            match result {
                Ok(_) => sent_by(*sender, self@.owner) && self@.enable_input,
                Err(error) => if sent_by(*sender, self@.owner) {
                    !self@.enable_input && error@ == no_input()
                } else {
                    error@ == not_the_owner()
                },
            },
    {
        match check_sender(sender, &self.owner) {
            Ok(_) => {},
            Err(error) => {
                return Err(error);
            },
        }
        if !self.enable_input {
            return Err(
                FdoError::NotSupported(
                    "input emulation is not enabled; add enable-input to the remote-desktop config section".to_owned(),
                ),
            );
        }
        Ok(())
    }

    /// Asks for an EIS connection over our end of a socket pair, for a sender that may have one.
    pub fn connect_to_eis(
        &self,
        sender: &Option<String>,
        socket: Result<FdHandle, String>,
        reply: ReplyHandle,
    ) -> (result: Result<RemoteDesktopToNiri, FdoError>)
        ensures
            if !sent_by(*sender, self@.owner) {
                result matches Err(error) && error@ == not_the_owner()
            } else if !self@.enable_input {
                result matches Err(error) && error@ == no_input()
            } else {
                match socket {
                    Ok(socket) => result matches Ok(message) && message@ == (
                    RequestView::ConnectToEis { session: self@.id, socket, reply }),
                    Err(reason) => result matches Err(error) && error@ == ErrorView::Failed(
                        "error creating socket pair: "@ + reason@,
                    ),
                }
            },
    {
        match self.check_eis(sender) {
            Ok(_) => {},
            Err(error) => {
                return Err(error);
            },
        }
        match socket {
            Ok(socket) => Ok(RemoteDesktopToNiri::ConnectToEis { session: self.id, socket, reply }),
            Err(reason) => Err(
                FdoError::Failed(join("error creating socket pair: ", reason.as_str())),
            ),
        }
    }

    /// Asks for a virtual monitor.
    pub fn create_virtual_monitor(
        &self,
        sender: &Option<String>,
        options: &Options,
        reply: ReplyHandle,
    ) -> (result: Result<RemoteDesktopToNiri, FdoError>)
        ensures
            if !sent_by(*sender, self@.owner) {
                result matches Err(error) && error@ == not_the_owner()
            } else if is_on(options@, "persistent"@) && !self@.persistent {
                result matches Err(error) && error@ == not_persistent()
            } else {
                result matches Ok(message) && message@ == (RequestView::CreateVirtualMonitor {
                    session: self@.id,
                    name: string_of(options@, "name"@),
                    persistent: is_on(options@, "persistent"@),
                    reply,
                })
            },
    {
        match check_sender(sender, &self.owner) {
            Ok(_) => {},
            Err(error) => {
                return Err(error);
            },
        }
        let persistent = flag(options, "persistent");
        if persistent && !self.persistent {
            return Err(
                FdoError::InvalidArgs(
                    "persistent monitors require a persistent session".to_owned(),
                ),
            );
        }
        let name = get_string(options, "name");
        Ok(
            RemoteDesktopToNiri::CreateVirtualMonitor { session: self.id, name, persistent, reply },
        )
    }

    /// Reads the answer to a call for a virtual monitor.
    ///
    /// The compositor tells every other session; this one gets its object here, so the path is live
    /// by the time the method returns.
    pub fn monitor_created(&self, outcome: CallOutcome<MonitorInfo>) -> (result: Result<
        NewMonitor,
        FdoError,
    >)
        ensures
            match outcome {
                CallOutcome::Answered(Ok(info)) => result matches Ok(new) && new.path@
                    == path_of_monitor(self@.id, info@.id) && new.monitor@ == (MonitorObjectView {
                    session: self@.id,
                    info: info@,
                }),
                CallOutcome::Answered(Err(error)) => result matches Err(e) && e@
                    == ErrorView::Failed(error@),
                _ => result matches Err(e) && e@ == ErrorView::Failed("internal error"@),
            },
    {
        match call_niri(outcome) {
            Ok(info) => Ok(
                NewMonitor {
                    path: monitor_path(self.id, info.id),
                    monitor: Monitor::new(self.id, info),
                },
            ),
            Err(error) => Err(error),
        }
    }

    /// Asks for clipboard integration.
    pub fn enable_clipboard(&self, sender: &Option<String>, reply: ReplyHandle) -> (result: Result<
        RemoteDesktopToNiri,
        FdoError,
    >)
        ensures
            if !sent_by(*sender, self@.owner) {
                result matches Err(error) && error@ == not_the_owner()
            } else if !self@.enable_clipboard {
                result matches Err(error) && error@ == no_clipboard()
            } else {
                result matches Ok(message) && message@ == (RequestView::EnableClipboard {
                    session: self@.id,
                    reply,
                })
            },
    {
        match check_sender(sender, &self.owner) {
            Ok(_) => {},
            Err(error) => {
                return Err(error);
            },
        }
        if !self.enable_clipboard {
            return Err(
                FdoError::NotSupported(
                    "clipboard integration is not enabled; add enable-clipboard to the remote-desktop config section".to_owned(),
                ),
            );
        }
        Ok(RemoteDesktopToNiri::EnableClipboard { session: self.id, reply })
    }

    /// Reads the answer to a call for clipboard integration.
    pub fn clipboard_enabled(&self, outcome: CallOutcome<()>) -> (result: Result<
        NewClipboard,
        FdoError,
    >)
        ensures
            match outcome {
                CallOutcome::Answered(Ok(_)) => result matches Ok(new) && new.path@
                    == path_of_clipboard(self@.id) && new.clipboard@ == (ClipboardObjectView {
                    session: self@.id,
                    owner: self@.owner,
                }),
                CallOutcome::Answered(Err(error)) => result matches Err(e) && e@
                    == ErrorView::Failed(error@),
                _ => result matches Err(e) && e@ == ErrorView::Failed("internal error"@),
            },
    {
        match call_niri(outcome) {
            Ok(_) => Ok(
                NewClipboard {
                    path: clipboard_path(self.id),
                    clipboard: Clipboard::new(self.id, self.owner.clone()),
                },
            ),
            Err(error) => Err(error),
        }
    }

    /// Called with what came of putting the clipboard object on the bus. Where that failed, clipboard
    /// integration is turned off again.
    pub fn clipboard_added(&self, added: Result<bool, String>) -> (result: Result<
        String,
        (RemoteDesktopToNiri, FdoError),
    >)
        ensures
            match added {
                Ok(_) => result matches Ok(path) && path@ == path_of_clipboard(self@.id),
                Err(reason) => result matches Err(refusal) && refusal.0@ == (
                RequestView::DisableClipboard { session: self@.id }) && refusal.1@
                    == ErrorView::Failed("error creating clipboard object: "@ + reason@),
            },
    {
        match added {
            Ok(_) => Ok(clipboard_path(self.id)),
            Err(reason) => Err(
                (
                    RemoteDesktopToNiri::DisableClipboard { session: self.id },
                    FdoError::Failed(join("error creating clipboard object: ", reason.as_str())),
                ),
            ),
        }
    }

    /// The options of the session.
    pub fn options(&self) -> (options: Options)
        ensures
            options@ == Map::empty().insert(
                "disable-animations"@,
                ValueView::Bool(self@.disable_animations),
            ),
    {
        let mut options = Options::new();
        options.insert("disable-animations", Value::Bool(self.disable_animations));
        options
    }

    /// Changes the options of the session. Those that are not named stay.
    pub fn set_options(&mut self, options: &Options) -> (message: Option<RemoteDesktopToNiri>)
        ensures
            match bool_of(options@, "disable-animations"@) {
                Some(value) => {
                    &&& final(self)@ == (SessionObjectView {
                        disable_animations: value,
                        ..old(self)@
                    })
                    &&& message matches Some(message)
                    &&& message@ == (RequestView::SetDisableAnimations { id: old(self)@.id, value })
                },
                None => final(self)@ == old(self)@ && message is None,
            },
    {
        if let Some(value) = get_bool(options, "disable-animations") {
            self.disable_animations = value;
            return Some(RemoteDesktopToNiri::SetDisableAnimations { id: self.id, value });
        }
        None
    }

    /// What the peer is told about the session.
    pub fn attributes(&self) -> (attributes: Options)
        ensures
            attributes@ == Map::empty().insert("has-control"@, ValueView::Bool(self@.has_control)),
    {
        let mut attributes = Options::new();
        attributes.insert("has-control", Value::Bool(self.has_control));
        attributes
    }

    /// The version of the interface.
    pub fn version(&self) -> (version: u32)
        ensures
            version == VERSION,
    {
        VERSION
    }
}

/// What is set as an option is what is read back.
pub proof fn options_read_back(value: bool)
    ensures
        bool_of(
            Map::empty().insert("disable-animations"@, ValueView::Bool(value)),
            "disable-animations"@,
        ) == Some(value),
{
}

} // verus!
