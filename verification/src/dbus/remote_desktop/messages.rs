//! What the D-Bus side and the compositor say to each other.

use vstd::prelude::*;

use crate::utils::lists::views;
use crate::utils::{RemoteDesktopMonitorId, RemoteDesktopSessionId};

verus! {

/// Identifies the D-Bus call that waits for an answer.
pub type ReplyHandle = u64;

/// Identifies an open file descriptor.
pub type FdHandle = u64;

/// Clipboard selection that a `RemoteDesktop1.Clipboard` method or signal refers to.
#[derive(Debug, Clone, Copy, PartialEq, Eq, Structural, Hash)]
pub enum ClipboardType {
    Clipboard,
    Primary,
}

impl ClipboardType {
    /// The number that stands for this selection on the bus.
    pub open spec fn code(self) -> u32 {
        match self {
            ClipboardType::Clipboard => 1,
            ClipboardType::Primary => 2,
        }
    }

    /// The selection that a number stands for on the bus, if it stands for any.
    pub fn from_dbus(value: u32) -> (ty: Option<Self>)
        ensures
            ty matches Some(ty) ==> ty.code() == value,
            ty is None ==> forall|other: Self| #[trigger] other.code() != value,
    {
        match value {
            1 => Some(ClipboardType::Clipboard),
            2 => Some(ClipboardType::Primary),
            _ => None,
        }
    }

    /// The number that stands for this selection on the bus.
    pub fn to_dbus(self) -> (value: u32)
        ensures
            value == self.code(),
    {
        match self {
            ClipboardType::Clipboard => 1,
            ClipboardType::Primary => 2,
        }
    }
}

impl Default for ClipboardType {
    fn default() -> (ty: Self)
        ensures
            ty == ClipboardType::Clipboard,
    {
        ClipboardType::Clipboard
    }
}

/// How the cursor is drawn into a monitor's PipeWire stream.
///
/// Note that these values are shifted by one compared to the ones in
/// `org.gnome.Mutter.ScreenCast`.
#[derive(Debug, Clone, Copy, PartialEq, Eq, Structural)]
pub enum CursorMode {
    Hidden,
    Embedded,
    Metadata,
}

impl CursorMode {
    /// The number that stands for this mode on the bus.
    pub open spec fn code(self) -> u32 {
        match self {
            CursorMode::Hidden => 1,
            CursorMode::Embedded => 2,
            CursorMode::Metadata => 3,
        }
    }

    /// The mode that a number stands for on the bus, if it stands for any.
    pub fn from_dbus(value: u32) -> (mode: Option<Self>)
        ensures
            mode matches Some(mode) ==> mode.code() == value,
            mode is None ==> forall|other: Self| #[trigger] other.code() != value,
    {
        match value {
            1 => Some(CursorMode::Hidden),
            2 => Some(CursorMode::Embedded),
            3 => Some(CursorMode::Metadata),
            _ => None,
        }
    }

    /// The number that stands for this mode on the bus.
    pub fn to_dbus(self) -> (value: u32)
        ensures
            value == self.code(),
    {
        match self {
            CursorMode::Hidden => 1,
            CursorMode::Embedded => 2,
            CursorMode::Metadata => 3,
        }
    }
}

impl Default for CursorMode {
    fn default() -> (mode: Self)
        ensures
            mode == CursorMode::Metadata,
    {
        CursorMode::Metadata
    }
}

/// No two selections share a number on the bus, and no two cursor modes do.
pub proof fn bus_numbers_are_distinct(a: ClipboardType, b: ClipboardType, c: CursorMode, d: CursorMode)
    ensures
        a.code() == b.code() ==> a == b,
        c.code() == d.code() ==> c == d,
{
}

/// How the cursor is drawn, as the screen cast code of the compositor names it.
#[derive(Debug, Clone, Copy, PartialEq, Eq, Structural)]
pub enum CastCursorMode {
    Hidden,
    Embedded,
    Metadata,
}

impl CastCursorMode {
    /// The number that `org.gnome.Mutter.ScreenCast` gives to this mode.
    pub open spec fn code(self) -> u32 {
        match self {
            CastCursorMode::Hidden => 0,
            CastCursorMode::Embedded => 1,
            CastCursorMode::Metadata => 2,
        }
    }
}

impl From<CursorMode> for CastCursorMode {
    fn from(mode: CursorMode) -> (cast_mode: Self) {
        match mode {
            CursorMode::Hidden => CastCursorMode::Hidden,
            CursorMode::Embedded => CastCursorMode::Embedded,
            CursorMode::Metadata => CastCursorMode::Metadata,
        }
    }
}

impl vstd::std_specs::convert::FromSpecImpl<CursorMode> for CastCursorMode {
    open spec fn obeys_from_spec() -> bool {
        true
    }

    open spec fn from_spec(mode: CursorMode) -> Self {
        match mode {
            CursorMode::Hidden => CastCursorMode::Hidden,
            CursorMode::Embedded => CastCursorMode::Embedded,
            CursorMode::Metadata => CastCursorMode::Metadata,
        }
    }
}

/// The numbers of the cursor modes are shifted by one against the screen cast ones.
pub proof fn cursor_modes_are_shifted_by_one(mode: CursorMode)
    ensures
        mode.code() == <CastCursorMode as vstd::std_specs::convert::FromSpec<CursorMode>>::from_spec(
            mode,
        ).code() + 1,
{
}

/// Everything the D-Bus side needs to know about one virtual monitor.
#[derive(Debug)]
pub struct MonitorInfo {
    pub id: RemoteDesktopMonitorId,
    /// Output connector name, e.g. `HEADLESS-1`.
    pub name: String,
    /// Session that created it, if any. Monitors made outside this API have no owner.
    pub owner: Option<RemoteDesktopSessionId>,
}

/// What a `MonitorInfo` says.
pub struct MonitorInfoView {
    pub id: RemoteDesktopMonitorId,
    pub name: Seq<char>,
    pub owner: Option<RemoteDesktopSessionId>,
}

impl View for MonitorInfo {
    type V = MonitorInfoView;

    open spec fn view(&self) -> MonitorInfoView {
        MonitorInfoView { id: self.id, name: self.name@, owner: self.owner }
    }
}

impl Clone for MonitorInfo {
    fn clone(&self) -> (info: Self)
        ensures
            info == *self,
    {
        MonitorInfo { id: self.id, name: self.name.clone(), owner: self.owner }
    }
}

/// Result of `Monitor.OpenPipeWireStream`.
#[derive(Debug)]
pub struct StreamInfo {
    pub stream_id: String,
    pub node_id: u32,
    pub serial: u64,
}

/// What a `StreamInfo` says.
pub struct StreamInfoView {
    pub stream_id: Seq<char>,
    pub node_id: u32,
    pub serial: u64,
}

impl View for StreamInfo {
    type V = StreamInfoView;

    open spec fn view(&self) -> StreamInfoView {
        StreamInfoView { stream_id: self.stream_id@, node_id: self.node_id, serial: self.serial }
    }
}

/// Messages from the D-Bus side into the compositor.
#[derive(Debug)]
pub enum RemoteDesktopToNiri {
    CreateSession {
        id: RemoteDesktopSessionId,
        persistent: bool,
        takes_control: bool,
        disable_animations: bool,
        /// Wants the monitors that already exist, so the new session can expose them right away.
        reply: ReplyHandle,
    },
    DestroySession {
        id: RemoteDesktopSessionId,
        /// Also drop persistent state (monitors) belonging to the session.
        remove: bool,
    },
    SetDisableAnimations { id: RemoteDesktopSessionId, value: bool },
    CreateVirtualMonitor {
        session: RemoteDesktopSessionId,
        name: Option<String>,
        persistent: bool,
        reply: ReplyHandle,
    },
    RemoveVirtualMonitor {
        session: RemoteDesktopSessionId,
        monitor: RemoteDesktopMonitorId,
        reply: ReplyHandle,
    },
    OpenPipeWireStream {
        session: RemoteDesktopSessionId,
        monitor: RemoteDesktopMonitorId,
        cursor_mode: CursorMode,
        reply: ReplyHandle,
    },
    ClosePipeWireStream {
        session: RemoteDesktopSessionId,
        monitor: RemoteDesktopMonitorId,
        stream_id: String,
        reply: ReplyHandle,
    },
    ConnectToEis { session: RemoteDesktopSessionId, socket: FdHandle, reply: ReplyHandle },
    EnableClipboard { session: RemoteDesktopSessionId, reply: ReplyHandle },
    DisableClipboard { session: RemoteDesktopSessionId },
    SetSelection {
        session: RemoteDesktopSessionId,
        ty: ClipboardType,
        mime_types: Vec<String>,
        reply: ReplyHandle,
    },
    SelectionRead {
        session: RemoteDesktopSessionId,
        ty: ClipboardType,
        mime_type: String,
        reply: ReplyHandle,
    },
    SelectionWrite { session: RemoteDesktopSessionId, serial: u32, reply: ReplyHandle },
    SelectionWriteDone { session: RemoteDesktopSessionId, serial: u32, success: bool },
}

/// What a `RemoteDesktopToNiri` says.
pub enum RequestView {
    CreateSession {
        id: RemoteDesktopSessionId,
        persistent: bool,
        takes_control: bool,
        disable_animations: bool,
        reply: ReplyHandle,
    },
    DestroySession { id: RemoteDesktopSessionId, remove: bool },
    SetDisableAnimations { id: RemoteDesktopSessionId, value: bool },
    CreateVirtualMonitor {
        session: RemoteDesktopSessionId,
        name: Option<Seq<char>>,
        persistent: bool,
        reply: ReplyHandle,
    },
    RemoveVirtualMonitor {
        session: RemoteDesktopSessionId,
        monitor: RemoteDesktopMonitorId,
        reply: ReplyHandle,
    },
    OpenPipeWireStream {
        session: RemoteDesktopSessionId,
        monitor: RemoteDesktopMonitorId,
        cursor_mode: CursorMode,
        reply: ReplyHandle,
    },
    ClosePipeWireStream {
        session: RemoteDesktopSessionId,
        monitor: RemoteDesktopMonitorId,
        stream_id: Seq<char>,
        reply: ReplyHandle,
    },
    ConnectToEis { session: RemoteDesktopSessionId, socket: FdHandle, reply: ReplyHandle },
    EnableClipboard { session: RemoteDesktopSessionId, reply: ReplyHandle },
    DisableClipboard { session: RemoteDesktopSessionId },
    SetSelection {
        session: RemoteDesktopSessionId,
        ty: ClipboardType,
        mime_types: Seq<Seq<char>>,
        reply: ReplyHandle,
    },
    SelectionRead {
        session: RemoteDesktopSessionId,
        ty: ClipboardType,
        mime_type: Seq<char>,
        reply: ReplyHandle,
    },
    SelectionWrite { session: RemoteDesktopSessionId, serial: u32, reply: ReplyHandle },
    SelectionWriteDone { session: RemoteDesktopSessionId, serial: u32, success: bool },
}

impl View for RemoteDesktopToNiri {
    type V = RequestView;

    open spec fn view(&self) -> RequestView {
        match *self {
            RemoteDesktopToNiri::CreateSession {
                id,
                persistent,
                takes_control,
                disable_animations,
                reply,
            } => RequestView::CreateSession {
                id,
                persistent,
                takes_control,
                disable_animations,
                reply,
            },
            RemoteDesktopToNiri::DestroySession { id, remove } => RequestView::DestroySession {
                id,
                remove,
            },
            RemoteDesktopToNiri::SetDisableAnimations { id, value } => {
                RequestView::SetDisableAnimations { id, value }
            },
            RemoteDesktopToNiri::CreateVirtualMonitor { session, name, persistent, reply } => {
                RequestView::CreateVirtualMonitor {
                    session,
                    name: crate::utils::lists::view_of(name),
                    persistent,
                    reply,
                }
            },
            RemoteDesktopToNiri::RemoveVirtualMonitor { session, monitor, reply } => {
                RequestView::RemoveVirtualMonitor { session, monitor, reply }
            },
            RemoteDesktopToNiri::OpenPipeWireStream { session, monitor, cursor_mode, reply } => {
                RequestView::OpenPipeWireStream { session, monitor, cursor_mode, reply }
            },
            RemoteDesktopToNiri::ClosePipeWireStream { session, monitor, stream_id, reply } => {
                RequestView::ClosePipeWireStream { session, monitor, stream_id: stream_id@, reply }
            },
            RemoteDesktopToNiri::ConnectToEis { session, socket, reply } => {
                RequestView::ConnectToEis { session, socket, reply }
            },
            RemoteDesktopToNiri::EnableClipboard { session, reply } => {
                RequestView::EnableClipboard { session, reply }
            },
            RemoteDesktopToNiri::DisableClipboard { session } => {
                RequestView::DisableClipboard { session }
            },
            RemoteDesktopToNiri::SetSelection { session, ty, mime_types, reply } => {
                RequestView::SetSelection { session, ty, mime_types: views(mime_types@), reply }
            },
            RemoteDesktopToNiri::SelectionRead { session, ty, mime_type, reply } => {
                RequestView::SelectionRead { session, ty, mime_type: mime_type@, reply }
            },
            RemoteDesktopToNiri::SelectionWrite { session, serial, reply } => {
                RequestView::SelectionWrite { session, serial, reply }
            },
            RemoteDesktopToNiri::SelectionWriteDone { session, serial, success } => {
                RequestView::SelectionWriteDone { session, serial, success }
            },
        }
    }
}

/// Messages from the compositor back to the D-Bus side.
#[derive(Debug)]
pub enum NiriToRemoteDesktop {
    MonitorAdded(MonitorInfo),
    MonitorRemoved(RemoteDesktopMonitorId),
    SessionControlChanged { session: RemoteDesktopSessionId, has_control: bool },
    /// The session went away for a reason other than `Session.Destroy()`.
    SessionDestroyed(RemoteDesktopSessionId),
    SelectionOwnerChanged {
        session: RemoteDesktopSessionId,
        ty: ClipboardType,
        mime_types: Vec<String>,
        session_is_owner: bool,
    },
    SelectionTransfer {
        session: RemoteDesktopSessionId,
        ty: ClipboardType,
        mime_type: String,
        serial: u32,
    },
}

/// What a `NiriToRemoteDesktop` says.
pub enum NoticeView {
    MonitorAdded(MonitorInfoView),
    MonitorRemoved(RemoteDesktopMonitorId),
    SessionControlChanged { session: RemoteDesktopSessionId, has_control: bool },
    SessionDestroyed(RemoteDesktopSessionId),
    SelectionOwnerChanged {
        session: RemoteDesktopSessionId,
        ty: ClipboardType,
        mime_types: Seq<Seq<char>>,
        session_is_owner: bool,
    },
    SelectionTransfer {
        session: RemoteDesktopSessionId,
        ty: ClipboardType,
        mime_type: Seq<char>,
        serial: u32,
    },
}

impl View for NiriToRemoteDesktop {
    type V = NoticeView;

    open spec fn view(&self) -> NoticeView {
        match *self {
            NiriToRemoteDesktop::MonitorAdded(info) => NoticeView::MonitorAdded(info@),
            NiriToRemoteDesktop::MonitorRemoved(monitor) => NoticeView::MonitorRemoved(monitor),
            NiriToRemoteDesktop::SessionControlChanged { session, has_control } => {
                NoticeView::SessionControlChanged { session, has_control }
            },
            NiriToRemoteDesktop::SessionDestroyed(session) => NoticeView::SessionDestroyed(session),
            NiriToRemoteDesktop::SelectionOwnerChanged {
                session,
                ty,
                mime_types,
                session_is_owner,
            } => NoticeView::SelectionOwnerChanged {
                session,
                ty,
                mime_types: views(mime_types@),
                session_is_owner,
            },
            NiriToRemoteDesktop::SelectionTransfer { session, ty, mime_type, serial } => {
                NoticeView::SelectionTransfer { session, ty, mime_type: mime_type@, serial }
            },
        }
    }
}

} // verus!
