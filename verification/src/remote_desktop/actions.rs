//! What the compositor is asked to do in answer to a message or an event.
//!
//! The functions of this crate decide; they never touch a socket, an output or the event loop.
//! Each of them returns the list of things to do, in order. Where a decision needs the outcome of
//! one of them, the action says everything that the follow-up function wants back.

use vstd::prelude::*;

use super::clipboard::SelectionTarget;
use crate::dbus::remote_desktop::messages::{
    CastCursorMode, ClipboardType, CursorMode, FdHandle, MonitorInfo, MonitorInfoView,
    NiriToRemoteDesktop, NoticeView, ReplyHandle, StreamInfo, StreamInfoView,
};
use crate::utils::lists::{view_of, views};
use crate::utils::{CastSessionId, CastStreamId, RemoteDesktopMonitorId, RemoteDesktopSessionId};

verus! {

/// Identifies a source that was inserted into the event loop.
pub type SourceToken = u64;

/// Identifies an output of the compositor.
pub type OutputHandle = u64;

/// Identifies a running PipeWire stream.
pub type PipeWireStream = u64;

/// The answer to a D-Bus call.
#[derive(Debug)]
pub enum Reply {
    Monitors(Result<Vec<MonitorInfo>, String>),
    Monitor(Result<MonitorInfo, String>),
    Done(Result<(), String>),
    Stream(Result<StreamInfo, String>),
    Fd(Result<FdHandle, String>),
}

/// What a `Reply` says.
pub enum ReplyView {
    Monitors(Result<Seq<MonitorInfoView>, Seq<char>>),
    Monitor(Result<MonitorInfoView, Seq<char>>),
    Done(Result<(), Seq<char>>),
    Stream(Result<StreamInfoView, Seq<char>>),
    Fd(Result<FdHandle, Seq<char>>),
}

impl View for Reply {
    type V = ReplyView;

    open spec fn view(&self) -> ReplyView {
        match *self {
            Reply::Monitors(Ok(monitors)) => ReplyView::Monitors(Ok(views(monitors@))),
            Reply::Monitors(Err(error)) => ReplyView::Monitors(Err(error@)),
            Reply::Monitor(Ok(monitor)) => ReplyView::Monitor(Ok(monitor@)),
            Reply::Monitor(Err(error)) => ReplyView::Monitor(Err(error@)),
            Reply::Done(Ok(done)) => ReplyView::Done(Ok(done)),
            Reply::Done(Err(error)) => ReplyView::Done(Err(error@)),
            Reply::Stream(Ok(stream)) => ReplyView::Stream(Ok(stream@)),
            Reply::Stream(Err(error)) => ReplyView::Stream(Err(error@)),
            Reply::Fd(Ok(fd)) => ReplyView::Fd(Ok(fd)),
            Reply::Fd(Err(error)) => ReplyView::Fd(Err(error@)),
        }
    }
}

/// One thing for the compositor to do.
#[allow(inconsistent_fields)]
#[derive(Debug)]
pub enum Action {
    /// Send a message to the D-Bus side.
    Notify(NiriToRemoteDesktop),
    /// Answer a D-Bus call.
    Reply { to: ReplyHandle, reply: Reply },
    /// Let go of a D-Bus call without an answer.
    DropReply { to: ReplyHandle },
    /// Disconnect a PipeWire stream.
    DisconnectCast { stream: PipeWireStream },
    /// Take a source out of the event loop.
    RemoveSource { token: SourceToken },
    /// Close a file descriptor.
    CloseFd { fd: FdHandle },
    /// Clear the flags of a file descriptor, so that writes to it block.
    ClearFdFlags { fd: FdHandle },
    /// Leave a selection without an owner.
    ClearSelection { target: SelectionTarget },
    /// Make a session the owner of a selection.
    SetSelection {
        target: SelectionTarget,
        mime_types: Vec<String>,
        session: RemoteDesktopSessionId,
    },
    /// Remove a virtual output, whatever comes of it.
    RemoveVirtualOutput { name: String },
    /// List the virtual outputs, and call `State::session_created`.
    ListVirtualOutputs { reply: ReplyHandle },
    /// Create a virtual output, and call `State::virtual_output_created`.
    CreateVirtualOutput {
        session: RemoteDesktopSessionId,
        persistent: bool,
        width: u16,
        height: u16,
        refresh: u32,
        name: Option<String>,
        reply: ReplyHandle,
    },
    /// Remove a virtual output, and call `State::virtual_output_removed`.
    RemoveOwnedOutput { monitor: RemoteDesktopMonitorId, name: String, reply: ReplyHandle },
    /// Look an output up by its name, and call `State::stream_output_found`.
    FindOutput {
        session: RemoteDesktopSessionId,
        monitor: RemoteDesktopMonitorId,
        cursor_mode: CursorMode,
        name: String,
        reply: ReplyHandle,
    },
    /// Start to cast an output, and call `State::cast_started`.
    StartCast {
        session: RemoteDesktopSessionId,
        monitor: RemoteDesktopMonitorId,
        cast_session_id: CastSessionId,
        cast_stream_id: CastStreamId,
        output: OutputHandle,
        cursor_mode: CastCursorMode,
        reply: ReplyHandle,
    },
    /// Set up an EIS server on a socket, and call `State::eis_connected`.
    ConnectEis { session: RemoteDesktopSessionId, socket: FdHandle, reply: ReplyHandle },
    /// Ask the owner of a selection to write into a new pipe, and call `State::selection_read`.
    ReadSelection { target: SelectionTarget, mime_type: String, reply: ReplyHandle },
    /// Start a timer that calls `State::transfer_timed_out`, and call
    /// `State::transfer_timer_started`.
    StartTransferTimer {
        session: RemoteDesktopSessionId,
        ty: ClipboardType,
        mime_type: String,
        fd: FdHandle,
        serial: u32,
        seconds: u64,
    },
    /// Look the current mode of an output up, call `resized_mode`, and apply what it gives.
    ResizeOutput { name: String, width: u16, height: u16 },
}

/// What an `Action` says.
#[allow(inconsistent_fields)]
pub enum ActionView {
    Notify(NoticeView),
    Reply { to: ReplyHandle, reply: ReplyView },
    DropReply { to: ReplyHandle },
    DisconnectCast { stream: PipeWireStream },
    RemoveSource { token: SourceToken },
    CloseFd { fd: FdHandle },
    ClearFdFlags { fd: FdHandle },
    ClearSelection { target: SelectionTarget },
    SetSelection {
        target: SelectionTarget,
        mime_types: Seq<Seq<char>>,
        session: RemoteDesktopSessionId,
    },
    RemoveVirtualOutput { name: Seq<char> },
    ListVirtualOutputs { reply: ReplyHandle },
    CreateVirtualOutput {
        session: RemoteDesktopSessionId,
        persistent: bool,
        width: u16,
        height: u16,
        refresh: u32,
        name: Option<Seq<char>>,
        reply: ReplyHandle,
    },
    RemoveOwnedOutput { monitor: RemoteDesktopMonitorId, name: Seq<char>, reply: ReplyHandle },
    FindOutput {
        session: RemoteDesktopSessionId,
        monitor: RemoteDesktopMonitorId,
        cursor_mode: CursorMode,
        name: Seq<char>,
        reply: ReplyHandle,
    },
    StartCast {
        session: RemoteDesktopSessionId,
        monitor: RemoteDesktopMonitorId,
        cast_session_id: CastSessionId,
        cast_stream_id: CastStreamId,
        output: OutputHandle,
        cursor_mode: CastCursorMode,
        reply: ReplyHandle,
    },
    ConnectEis { session: RemoteDesktopSessionId, socket: FdHandle, reply: ReplyHandle },
    ReadSelection { target: SelectionTarget, mime_type: Seq<char>, reply: ReplyHandle },
    StartTransferTimer {
        session: RemoteDesktopSessionId,
        ty: ClipboardType,
        mime_type: Seq<char>,
        fd: FdHandle,
        serial: u32,
        seconds: u64,
    },
    ResizeOutput { name: Seq<char>, width: u16, height: u16 },
}

impl View for Action {
    type V = ActionView;

    open spec fn view(&self) -> ActionView {
        match *self {
            Action::Notify(notice) => ActionView::Notify(notice@),
            Action::Reply { to, reply } => ActionView::Reply { to, reply: reply@ },
            Action::DropReply { to } => ActionView::DropReply { to },
            Action::DisconnectCast { stream } => ActionView::DisconnectCast { stream },
            Action::RemoveSource { token } => ActionView::RemoveSource { token },
            Action::CloseFd { fd } => ActionView::CloseFd { fd },
            Action::ClearFdFlags { fd } => ActionView::ClearFdFlags { fd },
            Action::ClearSelection { target } => ActionView::ClearSelection { target },
            Action::SetSelection { target, mime_types, session } => ActionView::SetSelection {
                target,
                mime_types: views(mime_types@),
                session,
            },
            Action::RemoveVirtualOutput { name } => ActionView::RemoveVirtualOutput { name: name@ },
            Action::ListVirtualOutputs { reply } => ActionView::ListVirtualOutputs { reply },
            Action::CreateVirtualOutput {
                session,
                persistent,
                width,
                height,
                refresh,
                name,
                reply,
            } => ActionView::CreateVirtualOutput {
                session,
                persistent,
                width,
                height,
                refresh,
                name: view_of(name),
                reply,
            },
            Action::RemoveOwnedOutput { monitor, name, reply } => ActionView::RemoveOwnedOutput {
                monitor,
                name: name@,
                reply,
            },
            Action::FindOutput { session, monitor, cursor_mode, name, reply } => {
                ActionView::FindOutput { session, monitor, cursor_mode, name: name@, reply }
            },
            Action::StartCast {
                session,
                monitor,
                cast_session_id,
                cast_stream_id,
                output,
                cursor_mode,
                reply,
            } => ActionView::StartCast {
                session,
                monitor,
                cast_session_id,
                cast_stream_id,
                output,
                cursor_mode,
                reply,
            },
            Action::ConnectEis { session, socket, reply } => ActionView::ConnectEis {
                session,
                socket,
                reply,
            },
            Action::ReadSelection { target, mime_type, reply } => ActionView::ReadSelection {
                target,
                mime_type: mime_type@,
                reply,
            },
            Action::StartTransferTimer { session, ty, mime_type, fd, serial, seconds } => {
                ActionView::StartTransferTimer {
                    session,
                    ty,
                    mime_type: mime_type@,
                    fd,
                    serial,
                    seconds,
                }
            },
            Action::ResizeOutput { name, width, height } => ActionView::ResizeOutput {
                name: name@,
                width,
                height,
            },
        }
    }
}

} // verus!
