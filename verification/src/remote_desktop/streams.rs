//! PipeWire streams of virtual monitors, and EIS connections.

use vstd::prelude::*;
use vstd::string::*;

use super::actions::{Action, ActionView, OutputHandle, PipeWireStream, Reply, ReplyView, SourceToken};
use super::capabilities::Capabilities;
use super::laws::{
    messages_keep_valid, new_stream_numbers_are_unused, new_streams_keep_valid,
    session_changes_keep_valid, streams_are_answered_once, unused,
};
use super::{EisConnection, Session, SessionView, Stream, StreamView};
use crate::dbus::remote_desktop::messages::{
    CastCursorMode, CursorMode, FdHandle, ReplyHandle, RequestView, StreamInfo, StreamInfoView,
};
use crate::niri::{Cast, Niri, NiriView, State, casts_left, casts_stopped, stream_at};
use crate::utils::lists::{
    first_index, group_map_views, group_views, lemma_first_index, lemma_is_first, lemma_take_push,
    views,
};
use crate::utils::order::{ids_in, ids_of};
use crate::utils::text::{decimal, decimal_text, join};
use crate::utils::{CastSessionId, CastStreamId, RemoteDesktopMonitorId, RemoteDesktopSessionId};

verus! {

/// The answer to a call that opens a stream and fails.
pub open spec fn stream_refused(reply: ReplyHandle, error: Seq<char>) -> Seq<ActionView> {
    seq![ActionView::Reply { to: reply, reply: ReplyView::Stream(Err(error)) }]
}

/// The answer to a call that gives nothing back.
pub open spec fn answered(reply: ReplyHandle, result: Result<(), Seq<char>>) -> ActionView {
    ActionView::Reply { to: reply, reply: ReplyView::Done(result) }
}

/// The id that is handed out over D-Bus for a stream.
pub open spec fn stream_name(cast_stream_id: CastStreamId) -> Seq<char> {
    "u"@ + decimal(cast_stream_id as nat)
}

/// Whether a stream has the given id and shows the given monitor.
pub open spec fn is_stream(
    id: Seq<char>,
    monitor: RemoteDesktopMonitorId,
) -> spec_fn(StreamView) -> bool {
    |stream: StreamView| stream.id == id && stream.monitor == monitor
}

impl NiriView {
    /// What asking for a stream does.
    pub open spec fn stream_request(
        self,
        session: RemoteDesktopSessionId,
        monitor: RemoteDesktopMonitorId,
        cursor_mode: CursorMode,
        reply: ReplyHandle,
    ) -> Seq<ActionView> {
        match self.remote_desktop.monitor_index(monitor) {
            Some(index) => seq![
                ActionView::FindOutput {
                    session,
                    monitor,
                    cursor_mode,
                    name: self.remote_desktop.monitors[index].output_name,
                    reply,
                },
            ],
            None => stream_refused(reply, "no such monitor"@),
        }
    }

    /// Whether a cast is about to start.
    pub open spec fn starts_cast(
        self,
        session: RemoteDesktopSessionId,
        output: Option<OutputHandle>,
    ) -> bool {
        output is Some && self.remote_desktop.sessions.contains_key(session)
    }

    /// The stream that is opened once its cast runs.
    pub open spec fn new_stream(
        monitor: RemoteDesktopMonitorId,
        cast_session_id: CastSessionId,
        cast_stream_id: CastStreamId,
        reply: ReplyHandle,
    ) -> StreamView {
        StreamView {
            id: stream_name(cast_stream_id),
            monitor,
            cast_session_id,
            cast_stream_id,
            pending_reply: Some(reply),
        }
    }

    /// The compositor with a running cast, and with its stream.
    pub open spec fn stream_added(
        self,
        session: RemoteDesktopSessionId,
        stream: StreamView,
        running: PipeWireStream,
    ) -> NiriView {
        let record = self.remote_desktop.sessions[session];
        NiriView {
            casts: self.casts.push(Cast { session_id: stream.cast_session_id, stream: running }),
            ..self.with_sessions(
                self.remote_desktop.sessions.insert(
                    session,
                    SessionView { streams: record.streams.push(stream), ..record },
                ),
            )
        }
    }

    /// The compositor once the call that opened a stream was answered.
    pub open spec fn stream_answered(
        self,
        session: RemoteDesktopSessionId,
        index: int,
    ) -> NiriView {
        let record = self.remote_desktop.sessions[session];
        self.with_sessions(
            self.remote_desktop.sessions.insert(
                session,
                SessionView {
                    streams: record.streams.update(
                        index,
                        StreamView { pending_reply: None, ..record.streams[index] },
                    ),
                    ..record
                },
            ),
        )
    }

    /// The compositor without a stream.
    pub open spec fn stream_removed(
        self,
        session: RemoteDesktopSessionId,
        index: int,
    ) -> NiriView {
        let record = self.remote_desktop.sessions[session];
        let stream = record.streams[index];
        NiriView {
            casts: casts_left(self.casts, stream.cast_session_id, self.casts.len()),
            ..self.with_sessions(
                self.remote_desktop.sessions.insert(
                    session,
                    SessionView { streams: record.streams.remove(index), ..record },
                ),
            )
        }
    }

    /// The compositor once a stream was closed, where it was open.
    pub open spec fn stream_closed(
        self,
        session: RemoteDesktopSessionId,
        monitor: RemoteDesktopMonitorId,
        stream_id: Seq<char>,
    ) -> NiriView {
        let streams = self.remote_desktop.sessions[session].streams;
        match first_index(streams, is_stream(stream_id, monitor)) {
            Some(index) if self.remote_desktop.sessions.contains_key(session) => {
                self.stream_removed(session, index)
            },
            _ => self,
        }
    }

    /// What closing a stream does.
    pub open spec fn stream_closing(
        self,
        session: RemoteDesktopSessionId,
        monitor: RemoteDesktopMonitorId,
        stream_id: Seq<char>,
        reply: ReplyHandle,
    ) -> Seq<ActionView> {
        let streams = self.remote_desktop.sessions[session].streams;
        if !self.remote_desktop.sessions.contains_key(session) {
            seq![answered(reply, Err("no such session"@))]
        } else {
            match first_index(streams, is_stream(stream_id, monitor)) {
                None => seq![answered(reply, Err("no such stream"@))],
                Some(index) => (match streams[index].pending_reply {
                    Some(to) => stream_refused(to, "the stream was closed"@),
                    None => Seq::empty(),
                }) + casts_stopped(self.casts, streams[index].cast_session_id) + seq![
                    answered(reply, Ok(())),
                ],
            }
        }
    }

    /// What asking for an EIS connection does.
    pub open spec fn eis_request(
        self,
        session: RemoteDesktopSessionId,
        socket: FdHandle,
        reply: ReplyHandle,
    ) -> Seq<ActionView> {
        if self.remote_desktop.sessions.contains_key(session) {
            self.remote_desktop.sessions[session].eis_removed().push(
                ActionView::ConnectEis { session, socket, reply },
            )
        } else {
            seq![ActionView::CloseFd { fd: socket }, answered(reply, Err("no such session"@))]
        }
    }

    /// The compositor without the EIS connection of a session.
    pub open spec fn eis_dropped(self, session: RemoteDesktopSessionId) -> NiriView {
        let record = self.remote_desktop.sessions[session];
        if self.remote_desktop.sessions.contains_key(session) {
            self.with_sessions(
                self.remote_desktop.sessions.insert(session, SessionView { eis: None, ..record }),
            )
        } else {
            self
        }
    }
}

/// Whether a stream has the given cast stream number.
pub open spec fn casts(stream_id: CastStreamId) -> spec_fn(StreamView) -> bool {
    |stream: StreamView| stream.cast_stream_id == stream_id
}

impl NiriView {
    /// Where the first stream with the given cast stream number stands in some sessions.
    pub open spec fn first_stream(
        self,
        sessions: Seq<RemoteDesktopSessionId>,
        stream_id: CastStreamId,
    ) -> Option<(RemoteDesktopSessionId, int)>
        decreases sessions.len(),
    {
        if sessions.len() == 0 {
            None
        } else {
            match self.first_stream(sessions.drop_last(), stream_id) {
                Some(found) => Some(found),
                None => match first_index(
                    self.remote_desktop.sessions[sessions.last()].streams,
                    casts(stream_id),
                ) {
                    Some(index) => Some((sessions.last(), index)),
                    None => None,
                },
            }
        }
    }

    /// Where the stream with the given cast stream number stands: the first one, in the order of
    /// the session numbers.
    pub open spec fn stream_place(self, stream_id: CastStreamId) -> Option<
        (RemoteDesktopSessionId, int),
    > {
        self.first_stream(ids_of(self.remote_desktop.sessions.dom()), stream_id)
    }

    /// Whether any stream with the given cast stream number is the one that is found.
    pub open spec fn tells_apart(self, stream_id: CastStreamId) -> bool {
        forall|session: u64, index: int| #[trigger]
            stream_at(self, session, index) && self.stream(session, index).cast_stream_id
                == stream_id ==> self.stream_place(stream_id) == Some((session, index))
    }

    /// The compositor once the node of a stream is known.
    pub open spec fn node_known(self, stream_id: CastStreamId) -> NiriView {
        match self.stream_place(stream_id) {
            Some((session, index)) => self.stream_answered(session, index),
            None => self,
        }
    }

    /// What it does that the node of a stream is known: the call that opened the stream is
    /// answered, if it waits.
    pub open spec fn node_answer(
        self,
        stream_id: CastStreamId,
        node_id: u32,
        serial: Option<u64>,
    ) -> Seq<ActionView> {
        match self.stream_place(stream_id) {
            Some((session, index)) => match self.stream(session, index).pending_reply {
                Some(to) => seq![
                    ActionView::Reply {
                        to,
                        reply: ReplyView::Stream(
                            Ok(
                                StreamInfoView {
                                    stream_id: self.stream(session, index).id,
                                    node_id,
                                    serial: match serial {
                                        Some(serial) => serial,
                                        None => 0,
                                    },
                                },
                            ),
                        ),
                    },
                ],
                None => Seq::empty(),
            },
            None => Seq::empty(),
        }
    }

    /// What it does that a consumer of a stream asks for a size.
    pub open spec fn stream_resize_request(
        self,
        stream_id: CastStreamId,
        width: u32,
        height: u32,
    ) -> Seq<ActionView> {
        match self.stream_place(stream_id) {
            Some((session, index)) => self.resize_request(
                self.stream(session, index).monitor,
                width,
                height,
            ),
            None => Seq::empty(),
        }
    }
}

/// A stream that is found is there and has the number, and if none is found, none has it.
proof fn lemma_first_stream(
    niri: NiriView,
    sessions: Seq<RemoteDesktopSessionId>,
    stream_id: CastStreamId,
)
    ensures
        match niri.first_stream(sessions, stream_id) {
            Some((session, index)) => sessions.contains(session) && 0 <= index
                < niri.remote_desktop.sessions[session].streams.len() && niri.stream(
                session,
                index,
            ).cast_stream_id == stream_id,
            None => forall|session: u64, index: int|
                #![trigger stream_at(niri, session, index)]
                sessions.contains(session) && stream_at(niri, session, index) ==> niri.stream(
                    session,
                    index,
                ).cast_stream_id != stream_id,
        },
    decreases sessions.len(),
{
    if sessions.len() > 0 {
        let rest = sessions.drop_last();
        let last = sessions.last();
        let streams = niri.remote_desktop.sessions[last].streams;
        lemma_first_stream(niri, rest, stream_id);
        lemma_first_index(streams, casts(stream_id));
        assert(sessions[sessions.len() - 1] == last);
        match niri.first_stream(rest, stream_id) {
            Some((session, index)) => {
                let i = choose|i: int| 0 <= i < rest.len() && rest[i] == session;
                assert(sessions[i] == session);
            },
            None => {
                match first_index(streams, casts(stream_id)) {
                    Some(index) => {
                        assert(casts(stream_id)(streams[index]));
                    },
                    None => {
                        assert forall|session: u64, index: int|
                            #![trigger stream_at(niri, session, index)]
                            sessions.contains(session) && stream_at(
                                niri,
                                session,
                                index,
                            ) implies niri.stream(session, index).cast_stream_id != stream_id by {
                            let i = choose|i: int| 0 <= i < sessions.len() && sessions[i] == session;
                            if i < rest.len() {
                                assert(rest[i] == session);
                            } else {
                                assert(!casts(stream_id)(streams[index]));
                            }
                        }
                    },
                }
            },
        }
    }
}

/// Every stream is found by its number.
pub proof fn streams_are_found_by_their_number(
    niri: NiriView,
    sessions: Seq<RemoteDesktopSessionId>,
    session: RemoteDesktopSessionId,
    index: int,
)
    requires
        niri.valid_streams(),
        sessions.to_set() == niri.remote_desktop.sessions.dom(),
        stream_at(niri, session, index),
    ensures
        niri.first_stream(sessions, niri.stream(session, index).cast_stream_id) == Some(
            (session, index),
        ),
{
    let stream_id = niri.stream(session, index).cast_stream_id;
    lemma_first_stream(niri, sessions, stream_id);
    assert(sessions.to_set().contains(session));
    match niri.first_stream(sessions, stream_id) {
        Some((found, place)) => {
            assert(sessions.to_set().contains(found));
            assert(stream_at(niri, found, place));
        },
        None => {},
    }
}

/// Taking a stream out of the list.
proof fn lemma_views_remove_stream(streams: Seq<Stream>, index: int)
    requires
        0 <= index < streams.len(),
    ensures
        views(streams.remove(index)) == views(streams).remove(index),
{
    assert(views(streams.remove(index)) =~= views(streams).remove(index));
}

impl Niri {
    /// Where the stream with the given cast stream number stands.
    pub fn find_stream(&self, stream_id: CastStreamId) -> (found: Option<
        (RemoteDesktopSessionId, usize),
    >)
        ensures
            match found {
                Some((session, index)) => self@.stream_place(stream_id) == Some(
                    (session, index as int),
                ) && stream_at(self@, session, index as int),
                None => self@.stream_place(stream_id) is None,
            },
            self@.valid_streams() ==> self@.tells_apart(stream_id),
    {
        broadcast use group_map_views;

        let ids = ids_in(&self.remote_desktop.sessions);
        let ghost sessions = self@.remote_desktop.sessions;
        proof {
            assert(sessions.dom() =~= self.remote_desktop.sessions@.dom());
            if self@.valid_streams() {
                assert forall|session: u64, index: int| #[trigger]
                    stream_at(self@, session, index) && self@.stream(
                        session,
                        index,
                    ).cast_stream_id == stream_id implies self@.stream_place(stream_id) == Some(
                    (session, index),
                ) by {
                    streams_are_found_by_their_number(self@, ids@, session, index);
                }
            }
        }
        for i in 0..ids.len()
            invariant
                ids@ == ids_of(sessions.dom()),
                ids@.to_set() == sessions.dom(),
                sessions == self@.remote_desktop.sessions,
                self@.first_stream(ids@.take(i as int), stream_id) is None,
                self@.valid_streams() ==> self@.tells_apart(stream_id),
        {
            let id: u64 = ids[i];
            proof {
                lemma_take_push(ids@, i as int);
                assert(ids@.take(i + 1).drop_last() =~= ids@.take(i as int));
                assert(ids@.to_set().contains(id));
            }
            if let Some(session) = self.remote_desktop.sessions.get(&id) {
                assert(sessions[id] == session@);
                match session.find_cast(stream_id) {
                    Some(index) => {
                        assert(self@.first_stream(ids@.take(i + 1), stream_id) == Some(
                            (id, index as int),
                        ));
                        proof {
                            lemma_first_kept(self@, ids@, i + 1, stream_id);
                        }
                        assert(stream_at(self@, id, index as int));
                        return Some((id, index));
                    },
                    None => {},
                }
            }
        }
        assert(ids@.take(ids.len() as int) =~= ids@);
        None
    }
}

/// What is found in the first sessions is found in all of them.
proof fn lemma_first_kept(
    niri: NiriView,
    sessions: Seq<RemoteDesktopSessionId>,
    count: int,
    stream_id: CastStreamId,
)
    requires
        0 <= count <= sessions.len(),
        niri.first_stream(sessions.take(count), stream_id) is Some,
    ensures
        niri.first_stream(sessions, stream_id) == niri.first_stream(
            sessions.take(count),
            stream_id,
        ),
    decreases sessions.len(),
{
    if count < sessions.len() {
        let rest = sessions.drop_last();
        assert(rest.take(count) =~= sessions.take(count));
        lemma_first_kept(niri, rest, count, stream_id);
    } else {
        assert(sessions.take(count) =~= sessions);
    }
}

impl Session {
    /// Where the stream with the given cast stream number stands.
    fn find_cast(&self, stream_id: CastStreamId) -> (found: Option<usize>)
        ensures
            match found {
                Some(index) => first_index(self@.streams, casts(stream_id)) == Some(index as int)
                    && index < self.streams.len(),
                None => first_index(self@.streams, casts(stream_id)) is None,
            },
    {
        let ghost streams = self@.streams;
        for i in 0..self.streams.len()
            invariant
                streams == self@.streams,
                forall|j: int| 0 <= j < i ==> !casts(stream_id)(#[trigger] streams[j]),
        {
            assert(streams[i as int] == self.streams@[i as int]@);
            if self.streams[i].cast_stream_id == stream_id {
                proof {
                    lemma_is_first(streams, casts(stream_id), i as int);
                }
                return Some(i);
            }
        }
        proof {
            lemma_first_index(streams, casts(stream_id));
        }
        None
    }

    /// Where the stream with the given id that shows the given monitor stands.
    pub fn find_stream(&self, id: &String, monitor: RemoteDesktopMonitorId) -> (found: Option<usize>)
        ensures
            match found {
                Some(index) => first_index(self@.streams, is_stream(id@, monitor)) == Some(
                    index as int,
                ) && index < self.streams.len(),
                None => first_index(self@.streams, is_stream(id@, monitor)) is None,
            },
    {
        let ghost streams = self@.streams;
        let ghost wanted = is_stream(id@, monitor);
        for i in 0..self.streams.len()
            invariant
                streams == self@.streams,
                wanted == is_stream(id@, monitor),
                forall|j: int| 0 <= j < i ==> !wanted(#[trigger] streams[j]),
        {
            assert(streams[i as int] == self.streams@[i as int]@);
            if self.streams[i].id == *id && self.streams[i].monitor == monitor {
                proof {
                    lemma_is_first(streams, wanted, i as int);
                }
                return Some(i);
            }
        }
        proof {
            lemma_first_index(streams, wanted);
        }
        None
    }
}

impl State {
    /// Asks for the output of a monitor, to open a stream of it.
    pub fn open_remote_desktop_stream(
        &mut self,
        session: RemoteDesktopSessionId,
        monitor: RemoteDesktopMonitorId,
        cursor_mode: CursorMode,
        reply: ReplyHandle,
    ) -> (actions: Vec<Action>)
        ensures
            final(self)@ == old(self)@,
            views(actions@) == old(self)@.stream_request(session, monitor, cursor_mode, reply),
    {
        broadcast use group_views;

        let mut actions: Vec<Action> = Vec::new();
        match self.niri.remote_desktop.monitor(monitor) {
            None => {
                let error = "no such monitor".to_owned();
                actions.push(Action::Reply { to: reply, reply: Reply::Stream(Err(error)) });
            },
            Some(index) => {
                let record = &self.niri.remote_desktop.monitors[index];
                assert(record@ == self@.remote_desktop.monitors[index as int]);
                let name = record.output_name.clone();
                actions.push(Action::FindOutput { session, monitor, cursor_mode, name, reply });
            },
        }
        assert(views(actions@) =~= old(self)@.stream_request(
            session,
            monitor,
            cursor_mode,
            reply,
        ));
        actions
    }

    /// Called with the output of a monitor that a stream was asked for, if it is connected.
    pub fn stream_output_found(
        &mut self,
        session: RemoteDesktopSessionId,
        monitor: RemoteDesktopMonitorId,
        cursor_mode: CursorMode,
        output: Option<OutputHandle>,
        reply: ReplyHandle,
    ) -> (actions: Vec<Action>)
        requires
            old(self)@.starts_cast(session, output) ==> old(
                self,
            ).niri.cast_session_ids.can_supply(1) && old(self).niri.cast_stream_ids.can_supply(1),
        ensures
            match output {
                None => {
                    &&& final(self)@ == old(self)@
                    &&& views(actions@) == stream_refused(
                        reply,
                        "the monitor's output is not connected"@,
                    )
                },
                Some(output) => if old(self)@.remote_desktop.sessions.contains_key(session) {
                    &&& final(self)@ == (NiriView {
                        next_cast_session: (old(self)@.next_cast_session + 1) as u64,
                        next_cast_stream: (old(self)@.next_cast_stream + 1) as u64,
                        ..old(self)@
                    })
                    &&& views(actions@) == seq![
                        ActionView::StartCast {
                            session,
                            monitor,
                            cast_session_id: old(self)@.next_cast_session,
                            cast_stream_id: old(self)@.next_cast_stream,
                            output,
                            cursor_mode: <CastCursorMode as vstd::std_specs::convert::FromSpec<
                                CursorMode,
                            >>::from_spec(cursor_mode),
                            reply,
                        },
                    ]
                } else {
                    &&& final(self)@ == old(self)@
                    &&& views(actions@) == stream_refused(reply, "no such session"@)
                },
            },
            old(self)@.valid() ==> final(self)@.valid() && (old(self)@.starts_cast(session, output)
                ==> unused(
                final(self)@,
                old(self)@.next_cast_session,
                old(self)@.next_cast_stream,
            )),
    {
        broadcast use {group_views, group_map_views};

        proof {
            if self@.valid() && self@.starts_cast(session, output) {
                new_stream_numbers_are_unused(self@);
            }
        }
        let mut actions: Vec<Action> = Vec::new();
        match output {
            None => {
                let error = "the monitor's output is not connected".to_owned();
                actions.push(Action::Reply { to: reply, reply: Reply::Stream(Err(error)) });
                assert(views(actions@) =~= stream_refused(reply, error@));
            },
            Some(output) => {
                if !self.niri.remote_desktop.sessions.contains_key(&session) {
                    let error = "no such session".to_owned();
                    actions.push(Action::Reply { to: reply, reply: Reply::Stream(Err(error)) });
                    assert(views(actions@) =~= stream_refused(reply, error@));
                } else {
                    let cast_session_id: u64 = self.niri.cast_session_ids.next();
                    let cast_stream_id: u64 = self.niri.cast_stream_ids.next();
                    let action = Action::StartCast {
                        session,
                        monitor,
                        cast_session_id,
                        cast_stream_id,
                        output,
                        cursor_mode: CastCursorMode::from(cursor_mode),
                        reply,
                    };
                    actions.push(action);
                    assert(views(actions@) =~= seq![action@]);
                }
            },
        }
        actions
    }

    /// Called with the running cast of a stream, or with the reason why it did not start.
    ///
    /// The call that opened the stream is answered when its node id becomes known.
    pub fn cast_started(
        &mut self,
        session: RemoteDesktopSessionId,
        monitor: RemoteDesktopMonitorId,
        cast_session_id: CastSessionId,
        cast_stream_id: CastStreamId,
        result: Result<PipeWireStream, String>,
        reply: ReplyHandle,
    ) -> (actions: Vec<Action>)
        requires
            result is Ok ==> old(self)@.remote_desktop.sessions.contains_key(session),
        ensures
            match result {
                Ok(running) => {
                    &&& final(self)@ == old(self)@.stream_added(
                        session,
                        NiriView::new_stream(monitor, cast_session_id, cast_stream_id, reply),
                        running,
                    )
                    &&& actions@.len() == 0
                },
                Err(error) => {
                    &&& final(self)@ == old(self)@
                    &&& views(actions@) == stream_refused(
                        reply,
                        "error starting the stream: "@ + error@,
                    )
                },
            },
            old(self)@.valid() && unused(old(self)@, cast_session_id, cast_stream_id)
                ==> final(self)@.valid(),
    {
        broadcast use {group_views, group_map_views};

        let ghost before = self@;
        proof {
            if before.valid() && unused(before, cast_session_id, cast_stream_id) && result is Ok {
                new_streams_keep_valid(
                    before,
                    session,
                    monitor,
                    cast_session_id,
                    cast_stream_id,
                    result->Ok_0,
                    reply,
                );
            }
        }
        let mut actions: Vec<Action> = Vec::new();
        match result {
            Ok(running) => {
                self.niri.casting.casts.push(Cast { session_id: cast_session_id, stream: running });
                let number = decimal_text(cast_stream_id);
                let stream = Stream {
                    id: join("u", number.as_str()),
                    monitor,
                    cast_session_id,
                    cast_stream_id,
                    pending_reply: Some(reply),
                };
                if let Some(mut record) = self.niri.remote_desktop.sessions.remove(&session) {
                    record.streams.push(stream);
                    self.niri.remote_desktop.sessions.insert(session, record);
                }
                assert(self@.remote_desktop.sessions =~= before.stream_added(
                    session,
                    stream@,
                    running,
                ).remote_desktop.sessions);
            },
            Err(error) => {
                let error = join("error starting the stream: ", error.as_str());
                actions.push(Action::Reply { to: reply, reply: Reply::Stream(Err(error)) });
                assert(views(actions@) =~= stream_refused(reply, error@));
            },
        }
        actions
    }

    /// Closes a stream.
    pub fn close_remote_desktop_stream(
        &mut self,
        session: RemoteDesktopSessionId,
        monitor: RemoteDesktopMonitorId,
        stream_id: &String,
        reply: ReplyHandle,
    ) -> (actions: Vec<Action>)
        ensures
            final(self)@ == old(self)@.stream_closed(session, monitor, stream_id@),
            views(actions@) == old(self)@.stream_closing(session, monitor, stream_id@, reply),
            old(self)@.valid() ==> final(self)@.valid(),
    {
        broadcast use {group_views, group_map_views};

        let ghost before = self@;
        proof {
            if before.valid() {
                messages_keep_valid(
                    before,
                    RequestView::ClosePipeWireStream {
                        session,
                        monitor,
                        stream_id: stream_id@,
                        reply,
                    },
                );
            }
        }
        let mut actions: Vec<Action> = Vec::new();
        let Some(mut record) = self.niri.remote_desktop.sessions.remove(&session) else {
            let error = "no such session".to_owned();
            actions.push(Action::Reply { to: reply, reply: Reply::Done(Err(error)) });
            assert(views(actions@) =~= seq![answered(reply, Err("no such session"@))]);
            assert(self@ =~= before);
            return actions;
        };
        assert(record@ == before.remote_desktop.sessions[session]);
        let ghost held = record@;
        match record.find_stream(stream_id, monitor) {
            None => {
                self.niri.remote_desktop.sessions.insert(session, record);
                let error = "no such stream".to_owned();
                actions.push(Action::Reply { to: reply, reply: Reply::Done(Err(error)) });
                assert(views(actions@) =~= seq![answered(reply, Err("no such stream"@))]);
                assert(self@ =~= before);
            },
            Some(index) => {
                proof {
                    lemma_views_remove_stream(record.streams@, index as int);
                }
                let stream = record.streams.remove(index);
                assert(stream@ == held.streams[index as int]);
                self.niri.remote_desktop.sessions.insert(session, record);
                if let Some(to) = stream.pending_reply {
                    let error = "the stream was closed".to_owned();
                    actions.push(Action::Reply { to, reply: Reply::Stream(Err(error)) });
                }
                let ghost refused = match stream@.pending_reply {
                    Some(to) => stream_refused(to, "the stream was closed"@),
                    None => Seq::empty(),
                };
                assert(views(actions@) =~= refused);
                self.niri.stop_remote_desktop_cast(stream.cast_session_id, &mut actions);
                actions.push(Action::Reply { to: reply, reply: Reply::Done(Ok(())) });
                assert(self@ =~= before.stream_removed(session, index as int));
                assert(views(actions@) =~= refused + casts_stopped(
                    before.casts,
                    stream@.cast_session_id,
                ) + seq![answered(reply, Ok(()))]);
            },
        }
        actions
    }

    /// Called when the PipeWire node id of a remote desktop stream becomes known.
    pub fn on_remote_desktop_node_id(
        &mut self,
        stream_id: CastStreamId,
        node_id: u32,
        serial: Option<u64>,
    ) -> (actions: Vec<Action>)
        ensures
            final(self)@ == old(self)@.node_known(stream_id),
            views(actions@) == old(self)@.node_answer(stream_id, node_id, serial),
            old(self)@.valid_streams() ==> old(self)@.tells_apart(stream_id),
            old(self)@.valid() ==> final(self)@.valid(),
    {
        broadcast use {group_views, group_map_views};

        let ghost before = self@;
        let mut actions: Vec<Action> = Vec::new();
        let Some((id, index)) = self.niri.find_stream(stream_id) else {
            return actions;
        };
        proof {
            if before.valid() {
                streams_are_answered_once(before, id, index as int);
            }
        }
        if let Some(mut session) = self.niri.remote_desktop.sessions.remove(&id) {
            let ghost held = session@;
            assert(held == before.remote_desktop.sessions[id]);
            assert(held.streams[index as int] == session.streams@[index as int]@);
            let pending = session.streams[index].pending_reply;
            if let Some(to) = pending {
                let info = StreamInfo {
                    stream_id: session.streams[index].id.clone(),
                    node_id,
                    serial: match serial {
                        Some(serial) => serial,
                        None => 0,
                    },
                };
                actions.push(Action::Reply { to, reply: Reply::Stream(Ok(info)) });
            }
            session.streams[index].pending_reply = None;
            assert(session@.streams =~= held.streams.update(
                index as int,
                StreamView { pending_reply: None, ..held.streams[index as int] },
            ));
            self.niri.remote_desktop.sessions.insert(id, session);
        }
        proof {
            assert(self@ =~= before.stream_answered(id, index as int));
            assert(views(actions@) =~= before.node_answer(stream_id, node_id, serial));
        }
        actions
    }

    /// Called when a consumer negotiates a size different from the monitor's current one.
    pub fn on_remote_desktop_resize_target(
        &mut self,
        stream_id: CastStreamId,
        width: u32,
        height: u32,
    ) -> (actions: Vec<Action>)
        ensures
            final(self)@ == old(self)@,
            views(actions@) == old(self)@.stream_resize_request(stream_id, width, height),
            old(self)@.valid_streams() ==> old(self)@.tells_apart(stream_id),
    {
        broadcast use {group_views, group_map_views};

        let ghost before = self@;
        let mut actions: Vec<Action> = Vec::new();
        let Some((id, index)) = self.niri.find_stream(stream_id) else {
            return actions;
        };
        assert(stream_at(before, id, index as int));
        let Some(session) = self.niri.remote_desktop.sessions.get(&id) else {
            return actions;
        };
        assert(session@ == before.remote_desktop.sessions[id]);
        assert(session@.streams[index as int] == session.streams@[index as int]@);
        let monitor: u64 = session.streams[index].monitor;
        assert(monitor == before.stream(id, index as int).monitor);
        if let Some(place) = self.niri.remote_desktop.monitor(monitor) {
            let record = &self.niri.remote_desktop.monitors[place];
            assert(record@ == before.remote_desktop.monitors[place as int]);
            if record.owner.is_some() && width <= u16::MAX as u32 && height <= u16::MAX as u32 {
                let name = record.output_name.clone();
                actions.push(
                    Action::ResizeOutput { name, width: width as u16, height: height as u16 },
                );
            }
        }
        assert(views(actions@) =~= before.resize_request(monitor, width, height));
        actions
    }

    /// Takes an EIS connection down and asks for a new one. There is one per session; a new one
    /// replaces the old.
    pub fn connect_remote_desktop_eis(
        &mut self,
        session: RemoteDesktopSessionId,
        socket: FdHandle,
        reply: ReplyHandle,
    ) -> (actions: Vec<Action>)
        ensures
            final(self)@ == old(self)@.eis_dropped(session),
            views(actions@) == old(self)@.eis_request(session, socket, reply),
            old(self)@.valid() ==> final(self)@.valid(),
    {
        broadcast use {group_views, group_map_views};

        let ghost before = self@;
        proof {
            if before.valid() {
                messages_keep_valid(before, RequestView::ConnectToEis { session, socket, reply });
            }
        }
        let mut actions: Vec<Action> = Vec::new();
        if let Some(mut record) = self.niri.remote_desktop.sessions.remove(&session) {
            assert(record@ == before.remote_desktop.sessions[session]);
            if let Some(eis) = record.eis {
                actions.push(Action::RemoveSource { token: eis.token });
            }
            assert(views(actions@) =~= before.remote_desktop.sessions[session].eis_removed());
            record.eis = None;
            self.niri.remote_desktop.sessions.insert(session, record);
            actions.push(Action::ConnectEis { session, socket, reply });
            assert(self@ =~= before.eis_dropped(session));
        } else {
            actions.push(Action::CloseFd { fd: socket });
            let error = "no such session".to_owned();
            actions.push(Action::Reply { to: reply, reply: Reply::Done(Err(error)) });
            assert(self@ =~= before);
            assert(views(actions@) =~= seq![
                ActionView::CloseFd { fd: socket },
                answered(reply, Err("no such session"@)),
            ]);
        }
        actions
    }

    /// Called with the event source of a new EIS connection, or with the reason why there is none.
    pub fn eis_connected(
        &mut self,
        session: RemoteDesktopSessionId,
        result: Result<SourceToken, String>,
        reply: ReplyHandle,
    ) -> (actions: Vec<Action>)
        ensures
            match result {
                Ok(token) => {
                    &&& final(self)@ == (NiriView {
                        remote_desktop: old(self)@.remote_desktop.with_session(
                            session,
                            SessionView {
                                eis: Some(EisConnection { token, bound: Capabilities::none() }),
                                ..old(self)@.remote_desktop.sessions[session]
                            },
                        ),
                        ..old(self)@
                    })
                    &&& views(actions@) == seq![answered(reply, Ok(()))]
                },
                Err(error) => {
                    &&& final(self)@ == old(self)@
                    &&& views(actions@) == seq![
                        answered(reply, Err("error setting up the EIS connection: "@ + error@)),
                    ]
                },
            },
            old(self)@.valid() ==> final(self)@.valid(),
    {
        broadcast use group_views;

        proof {
            let sessions = self@.remote_desktop.sessions;
            if self@.valid() && sessions.contains_key(session) && result is Ok {
                let eis = EisConnection { token: result->Ok_0, bound: Capabilities::none() };
                session_changes_keep_valid(
                    self@,
                    session,
                    SessionView { eis: Some(eis), ..sessions[session] },
                );
            }
        }
        let mut actions: Vec<Action> = Vec::new();
        match result {
            Ok(token) => {
                let eis = EisConnection { token, bound: Capabilities::empty() };
                self.niri.remote_desktop.set_eis(session, eis);
                actions.push(Action::Reply { to: reply, reply: Reply::Done(Ok(())) });
                assert(views(actions@) =~= seq![answered(reply, Ok(()))]);
            },
            Err(error) => {
                let error = join("error setting up the EIS connection: ", error.as_str());
                actions.push(Action::Reply { to: reply, reply: Reply::Done(Err(error)) });
                assert(views(actions@) =~= seq![answered(reply, Err(error@))]);
            },
        }
        actions
    }
}

} // verus!
