//! `org.freedesktop.RemoteDesktop1.Monitor`.

use vstd::prelude::*;
use vstd::string::*;

use super::calls::{CallOutcome, ErrorView, FdoError, call_niri};
use super::messages::{
    CursorMode, MonitorInfo, MonitorInfoView, RemoteDesktopToNiri, ReplyHandle, RequestView,
    StreamInfo,
};
use super::options::{Options, Value, ValueView, get_u32, u32_of};
use super::VERSION;
use crate::utils::lists::holds;
use crate::utils::text::{decimal, decimal_text, join};
use crate::utils::RemoteDesktopSessionId;

verus! {

/// A monitor as one session sees it.
#[derive(Debug)]
pub struct Monitor {
    /// Session this object belongs to. The same monitor is exposed under every session.
    pub session: RemoteDesktopSessionId,
    pub info: MonitorInfo,
}

/// What a `Monitor` holds.
pub struct MonitorObjectView {
    pub session: RemoteDesktopSessionId,
    pub info: MonitorInfoView,
}

impl View for Monitor {
    type V = MonitorObjectView;

    open spec fn view(&self) -> MonitorObjectView {
        MonitorObjectView { session: self.session, info: self.info@ }
    }
}

impl MonitorObjectView {
    /// Whether the session that looks at the monitor created it.
    pub open spec fn owned(self) -> bool {
        self.info.owner == Some(self.session)
    }
}

/// The cursor mode that the options ask for. Without one it is the default.
pub open spec fn asked_cursor_mode(options: Map<Seq<char>, ValueView>) -> Option<CursorMode> {
    match u32_of(options, "cursor-mode"@) {
        Some(1) => Some(CursorMode::Hidden),
        Some(2) => Some(CursorMode::Embedded),
        Some(3) => Some(CursorMode::Metadata),
        Some(_) => None,
        None => Some(CursorMode::Metadata),
    }
}

impl Monitor {
    /// A monitor as one session sees it.
    pub fn new(session: RemoteDesktopSessionId, info: MonitorInfo) -> (monitor: Self)
        ensures
            monitor@ == (MonitorObjectView { session, info: info@ }),
    {
        Monitor { session, info }
    }

    /// Whether the session that looks at the monitor created it.
    pub fn is_owned(&self) -> (owned: bool)
        ensures
            owned == self@.owned(),
    {
        holds(self.info.owner, self.session)
    }

    /// Asks for the monitor to be removed.
    ///
    /// The compositor answers with a notice that the monitor is gone, which drops the objects under
    /// every session.
    pub fn remove(&self, reply: ReplyHandle) -> (result: Result<RemoteDesktopToNiri, FdoError>)
        ensures
            match result {
                Ok(message) => self@.owned() && message@ == (RequestView::RemoveVirtualMonitor {
                    session: self@.session,
                    monitor: self@.info.id,
                    reply,
                }),
                Err(error) => !self@.owned() && error@ == ErrorView::AccessDenied(
                    "this monitor belongs to another session"@,
                ),
            },
    {
        if !self.is_owned() {
            return Err(
                FdoError::AccessDenied("this monitor belongs to another session".to_owned()),
            );
        }
        Ok(
            RemoteDesktopToNiri::RemoveVirtualMonitor {
                session: self.session,
                monitor: self.info.id,
                reply,
            },
        )
    }

    /// The cursor modes that a stream can have.
    pub fn cursor_modes(&self) -> (modes: Vec<u32>)
        ensures
            modes@ == seq![
                CursorMode::Hidden.code(),
                CursorMode::Embedded.code(),
                CursorMode::Metadata.code(),
            ],
    {
        let mut modes: Vec<u32> = Vec::new();
        modes.push(CursorMode::Hidden.to_dbus());
        modes.push(CursorMode::Embedded.to_dbus());
        modes.push(CursorMode::Metadata.to_dbus());
        assert(modes@ =~= seq![
            CursorMode::Hidden.code(),
            CursorMode::Embedded.code(),
            CursorMode::Metadata.code(),
        ]);
        modes
    }

    /// Asks for a stream of the monitor's contents.
    pub fn open_pipe_wire_stream(&self, options: &Options, reply: ReplyHandle) -> (result: Result<
        RemoteDesktopToNiri,
        FdoError,
    >)
        ensures
            match (asked_cursor_mode(options@), result) {
                (Some(cursor_mode), Ok(message)) => message@ == (RequestView::OpenPipeWireStream {
                    session: self@.session,
                    monitor: self@.info.id,
                    cursor_mode,
                    reply,
                }),
                (None, Err(error)) => u32_of(options@, "cursor-mode"@) matches Some(value)
                    && error@ == ErrorView::InvalidArgs(
                    "bad cursor mode: "@ + decimal(value as nat),
                ),
                _ => false,
            },
    {
        let cursor_mode = match get_u32(options, "cursor-mode") {
            Some(value) => match CursorMode::from_dbus(value) {
                Some(mode) => mode,
                None => {
                    assert(CursorMode::Hidden.code() != value);
                    assert(CursorMode::Embedded.code() != value);
                    assert(CursorMode::Metadata.code() != value);
                    let number = decimal_text(value as u64);
                    return Err(FdoError::InvalidArgs(join("bad cursor mode: ", number.as_str())));
                },
            },
            None => CursorMode::default(),
        };
        Ok(
            RemoteDesktopToNiri::OpenPipeWireStream {
                session: self.session,
                monitor: self.info.id,
                cursor_mode,
                reply,
            },
        )
    }

    /// Reads the answer to a call for a stream: the stream's id, and where its node is found.
    pub fn stream_opened(&self, outcome: CallOutcome<StreamInfo>) -> (result: Result<
        (String, Options),
        FdoError,
    >)
        ensures
            match outcome {
                CallOutcome::Answered(Ok(stream)) => result matches Ok(opened) && opened.0@
                    == stream@.stream_id && opened.1@ == Map::empty().insert(
                    "node-id"@,
                    ValueView::U32(stream@.node_id),
                ).insert("serial"@, ValueView::U64(stream@.serial)),
                CallOutcome::Answered(Err(error)) => result matches Err(e) && e@
                    == ErrorView::Failed(error@),
                _ => result matches Err(e) && e@ == ErrorView::Failed("internal error"@),
            },
    {
        match call_niri(outcome) {
            Ok(stream) => {
                let mut info = Options::new();
                info.insert("node-id", Value::U32(stream.node_id));
                info.insert("serial", Value::U64(stream.serial));
                Ok((stream.stream_id, info))
            },
            Err(error) => Err(error),
        }
    }

    /// Asks for a stream to be closed.
    pub fn close_pipe_wire_stream(&self, id: String, reply: ReplyHandle) -> (message:
        RemoteDesktopToNiri)
        ensures
            message@ == (RequestView::ClosePipeWireStream {
                session: self@.session,
                monitor: self@.info.id,
                stream_id: id@,
                reply,
            }),
    {
        RemoteDesktopToNiri::ClosePipeWireStream {
            session: self.session,
            monitor: self.info.id,
            stream_id: id,
            reply,
        }
    }

    /// What the session is told about the monitor.
    pub fn attributes(&self) -> (attributes: Options)
        ensures
            attributes@ == Map::empty().insert("owned"@, ValueView::Bool(self@.owned())).insert(
                "name"@,
                ValueView::Str(self@.info.name),
            ),
    {
        let mut attributes = Options::new();
        attributes.insert("owned", Value::Bool(self.is_owned()));
        attributes.insert("name", Value::Str(self.info.name.clone()));
        attributes
    }

    /// The version of the interface.
    pub fn version(&self) -> (version: u32)
        ensures
            version == VERSION,
    {
        VERSION
    }
}

} // verus!
