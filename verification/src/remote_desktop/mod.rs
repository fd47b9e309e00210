//! Compositor side of the `org.freedesktop.RemoteDesktop1` API.
//!
//! The D-Bus interfaces are described in [`crate::dbus::remote_desktop`]; this module holds the
//! sessions, monitors and streams behind them, and decides what every message does.

pub mod actions;
pub mod capabilities;
pub mod clipboard;
pub mod clipboard_laws;
pub mod device_laws;
pub mod eis;
pub mod input;
pub mod input_laws;
pub mod laws;
pub mod monitor_laws;
pub mod monitors;
pub mod order_laws;
pub mod requests;
pub mod selections;
pub mod session_laws;
pub mod sessions;
pub mod streams;
pub mod view_laws;

use std::collections::BTreeMap;
use vstd::prelude::*;

use self::actions::{Action, ActionView, SourceToken};
use self::capabilities::Capabilities;
use self::clipboard::{ClipboardView, SessionClipboard};
use crate::dbus::remote_desktop::messages::{
    MonitorInfo, MonitorInfoView, NiriToRemoteDesktop, NoticeView, ReplyHandle,
};
use crate::utils::lists::{
    first_index, group_map_views, lemma_first_index, lemma_is_first, lemma_take_push, map_views,
    view_of, views,
};
use crate::utils::order::ids_in;
use crate::utils::{CastSessionId, CastStreamId, RemoteDesktopMonitorId, RemoteDesktopSessionId};

verus! {

/// Handle to a live EIS connection, so the session can tear it down.
#[derive(Debug, Clone, Copy, PartialEq, Eq, Structural)]
pub struct EisConnection {
    pub token: SourceToken,
    /// Capabilities the client had bound.
    ///
    /// A persistent session keeps these so the same devices come back on reconnect.
    pub bound: Capabilities,
}

/// One remote desktop session.
#[derive(Debug)]
pub struct Session {
    pub persistent: bool,
    pub has_control: bool,
    pub disable_animations: bool,
    /// Live EIS connection, if the service called `ConnectToEIS` and hasn't disconnected.
    pub eis: Option<EisConnection>,
    /// Capabilities the service bound last time, kept across reconnects for persistent sessions.
    pub eis_bound: Capabilities,
    pub clipboard: Option<SessionClipboard>,
    pub streams: Vec<Stream>,
}

/// What a `Session` holds.
#[verifier::ext_equal]
pub struct SessionView {
    pub persistent: bool,
    pub has_control: bool,
    pub disable_animations: bool,
    pub eis: Option<EisConnection>,
    pub eis_bound: Capabilities,
    pub clipboard: Option<ClipboardView>,
    pub streams: Seq<StreamView>,
}

impl View for Session {
    type V = SessionView;

    open spec fn view(&self) -> SessionView {
        SessionView {
            persistent: self.persistent,
            has_control: self.has_control,
            disable_animations: self.disable_animations,
            eis: self.eis,
            eis_bound: self.eis_bound,
            clipboard: view_of(self.clipboard),
            streams: views(self.streams@),
        }
    }
}

impl SessionView {
    /// A session that was just created.
    pub open spec fn fresh(persistent: bool, has_control: bool, disable_animations: bool) -> Self {
        SessionView {
            persistent,
            has_control,
            disable_animations,
            eis: None,
            eis_bound: Capabilities::none(),
            clipboard: None,
            streams: Seq::empty(),
        }
    }

    /// What letting go of a session does, without any tearing down.
    pub open spec fn dropped(self) -> Seq<ActionView> {
        (match self.clipboard {
            Some(clipboard) => clipboard.dropped(),
            None => Seq::empty(),
        }) + streams_dropped(self.streams)
    }
}

/// A virtual monitor, which is always backed by a virtual output.
#[derive(Debug)]
pub struct Monitor {
    pub id: RemoteDesktopMonitorId,
    pub output_name: String,
    /// Session that created it. Virtual outputs made outside this API have no owner.
    pub owner: Option<RemoteDesktopSessionId>,
    pub persistent: bool,
}

/// What a `Monitor` holds.
pub struct MonitorView {
    pub id: RemoteDesktopMonitorId,
    pub output_name: Seq<char>,
    pub owner: Option<RemoteDesktopSessionId>,
    pub persistent: bool,
}

impl View for Monitor {
    type V = MonitorView;

    open spec fn view(&self) -> MonitorView {
        MonitorView {
            id: self.id,
            output_name: self.output_name@,
            owner: self.owner,
            persistent: self.persistent,
        }
    }
}

impl MonitorView {
    /// What the D-Bus side is told about a monitor.
    pub open spec fn info(self) -> MonitorInfoView {
        MonitorInfoView { id: self.id, name: self.output_name, owner: self.owner }
    }
}

impl Monitor {
    /// What the D-Bus side is told about a monitor.
    pub fn info(&self) -> (info: MonitorInfo)
        ensures
            info@ == self@.info(),
    {
        MonitorInfo { id: self.id, name: self.output_name.clone(), owner: self.owner }
    }
}

/// What the D-Bus side is told about some monitors.
pub open spec fn infos(monitors: Seq<MonitorView>) -> Seq<MonitorInfoView> {
    monitors.map_values(|monitor: MonitorView| monitor.info())
}

/// A PipeWire stream of a virtual monitor.
#[derive(Debug)]
pub struct Stream {
    /// The id handed out over D-Bus.
    pub id: String,
    pub monitor: RemoteDesktopMonitorId,
    pub cast_session_id: CastSessionId,
    pub cast_stream_id: CastStreamId,
    /// The `OpenPipeWireStream` call waiting for the node id.
    pub pending_reply: Option<ReplyHandle>,
}

/// What a `Stream` holds.
pub struct StreamView {
    pub id: Seq<char>,
    pub monitor: RemoteDesktopMonitorId,
    pub cast_session_id: CastSessionId,
    pub cast_stream_id: CastStreamId,
    pub pending_reply: Option<ReplyHandle>,
}

impl View for Stream {
    type V = StreamView;

    open spec fn view(&self) -> StreamView {
        StreamView {
            id: self.id@,
            monitor: self.monitor,
            cast_session_id: self.cast_session_id,
            cast_stream_id: self.cast_stream_id,
            pending_reply: self.pending_reply,
        }
    }
}

impl StreamView {
    /// What letting go of a stream does: a call that still waits gets no answer.
    pub open spec fn dropped(self) -> Seq<ActionView> {
        match self.pending_reply {
            Some(to) => seq![ActionView::DropReply { to }],
            None => Seq::empty(),
        }
    }
}

impl Stream {
    /// Lets go of a stream.
    pub fn discard(&self, actions: &mut Vec<Action>)
        ensures
            views(final(actions)@) == views(old(actions)@) + self@.dropped(),
    {
        broadcast use crate::utils::lists::group_views;

        if let Some(to) = self.pending_reply {
            actions.push(Action::DropReply { to });
        }
        assert(views(actions@) =~= views(old(actions)@) + self@.dropped());
    }
}

/// What letting go of some streams does.
pub open spec fn streams_dropped(streams: Seq<StreamView>) -> Seq<ActionView>
    decreases streams.len(),
{
    if streams.len() == 0 {
        Seq::empty()
    } else {
        streams_dropped(streams.drop_last()) + streams.last().dropped()
    }
}

impl Session {
    /// Lets go of a session.
    pub fn discard(self, actions: &mut Vec<Action>)
        ensures
            views(final(actions)@) == views(old(actions)@) + self@.dropped(),
    {
        let ghost start = views(actions@);
        let ghost clipboard = match self@.clipboard {
            Some(clipboard) => clipboard.dropped(),
            None => Seq::empty(),
        };
        let Session { clipboard: own, streams, .. } = self;
        if let Some(own) = own {
            own.discard(actions);
        }
        assert(views(actions@) =~= start + clipboard);
        for i in 0..streams.len()
            invariant
                views(actions@) == start + clipboard + streams_dropped(
                    views(streams@).take(i as int),
                ),
        {
            proof {
                lemma_take_push(views(streams@), i as int);
                assert(views(streams@).take(i + 1).drop_last() =~= views(streams@).take(i as int));
            }
            streams[i].discard(actions);
            assert(views(actions@) =~= start + clipboard + streams_dropped(
                views(streams@).take(i + 1),
            ));
        }
        assert(views(streams@).take(streams.len() as int) =~= views(streams@));
        assert(views(actions@) =~= start + self@.dropped());
    }
}

/// A refresh rate, as it is configured.
#[derive(Debug, Clone, Copy, PartialEq, Eq, Structural)]
pub enum RefreshRate {
    /// A number, rounded to whole hertz.
    Hertz(i64),
    NotANumber,
}

/// The mode of a virtual monitor, as it is configured.
#[derive(Debug, Clone, Copy, PartialEq, Eq, Structural)]
pub struct ConfiguredMode {
    pub width: u16,
    pub height: u16,
    pub refresh: Option<RefreshRate>,
}

/// Everything that the compositor knows about remote desktop sessions.
#[derive(Debug)]
pub struct RemoteDesktopState {
    /// Set once the D-Bus service starts.
    pub to_dbus: bool,
    pub sessions: BTreeMap<RemoteDesktopSessionId, Session>,
    pub monitors: Vec<Monitor>,
    pub controlling: Option<RemoteDesktopSessionId>,
    /// Mode new virtual monitors start with, from the config.
    pub default_mode: Option<ConfiguredMode>,
    /// Capabilities that persistent sessions had bound when they ended. They wait here for the
    /// client of a persistent session that has none of its own, such as the next session of a peer
    /// that left the bus and came back.
    pub eis_left: Capabilities,
}

/// What a `RemoteDesktopState` holds.
#[verifier::ext_equal]
pub struct RemoteDesktopView {
    pub to_dbus: bool,
    pub sessions: Map<RemoteDesktopSessionId, SessionView>,
    pub monitors: Seq<MonitorView>,
    pub controlling: Option<RemoteDesktopSessionId>,
    pub default_mode: Option<ConfiguredMode>,
    pub eis_left: Capabilities,
}

impl View for RemoteDesktopState {
    type V = RemoteDesktopView;

    open spec fn view(&self) -> RemoteDesktopView {
        RemoteDesktopView {
            to_dbus: self.to_dbus,
            sessions: map_views(self.sessions@),
            monitors: views(self.monitors@),
            controlling: self.controlling,
            default_mode: self.default_mode,
            eis_left: self.eis_left,
        }
    }
}

/// Telling the D-Bus side something, where it listens.
pub open spec fn told(to_dbus: bool, notice: NoticeView) -> Seq<ActionView> {
    if to_dbus {
        seq![ActionView::Notify(notice)]
    } else {
        Seq::empty()
    }
}

impl RemoteDesktopView {
    /// Telling the D-Bus side something, where it listens.
    pub open spec fn notice(self, notice: NoticeView) -> Seq<ActionView> {
        told(self.to_dbus, notice)
    }

    /// True if any session asked for animations to be disabled.
    pub open spec fn animations_disabled(self) -> bool {
        exists|id: RemoteDesktopSessionId| #[trigger]
            self.sessions.contains_key(id) && self.sessions[id].disable_animations
    }

    /// Changing one session, where it exists.
    pub open spec fn with_session(
        self,
        id: RemoteDesktopSessionId,
        session: SessionView,
    ) -> RemoteDesktopView {
        RemoteDesktopView {
            sessions: if self.sessions.contains_key(id) {
                self.sessions.insert(id, session)
            } else {
                self.sessions
            },
            ..self
        }
    }

    /// The first monitor with the given id.
    pub open spec fn monitor_index(self, id: RemoteDesktopMonitorId) -> Option<int> {
        first_index(self.monitors, numbered(id))
    }
}

/// Whether a monitor has the given number.
pub open spec fn numbered(id: RemoteDesktopMonitorId) -> spec_fn(MonitorView) -> bool {
    |monitor: MonitorView| monitor.id == id
}

impl RemoteDesktopState {
    /// The state before anything happened.
    pub fn new() -> (state: Self)
        ensures
            state@ == (RemoteDesktopView {
                to_dbus: false,
                sessions: Map::empty(),
                monitors: Seq::empty(),
                controlling: None,
                default_mode: None,
                eis_left: Capabilities::none(),
            }),
    {
        let state = RemoteDesktopState {
            to_dbus: false,
            sessions: BTreeMap::new(),
            monitors: Vec::new(),
            controlling: None,
            default_mode: None,
            eis_left: Capabilities::empty(),
        };
        assert(state@.sessions =~= Map::<RemoteDesktopSessionId, SessionView>::empty());
        assert(state@.monitors =~= Seq::<MonitorView>::empty());
        state
    }

    /// Whether the D-Bus service runs.
    pub fn is_enabled(&self) -> (enabled: bool)
        ensures
            enabled == self@.to_dbus,
    {
        self.to_dbus
    }

    /// Tells the D-Bus side something, where it listens.
    pub fn notify(&self, notice: NiriToRemoteDesktop, actions: &mut Vec<Action>)
        ensures
            views(final(actions)@) == views(old(actions)@) + self@.notice(notice@),
    {
        broadcast use crate::utils::lists::group_views;

        if self.to_dbus {
            actions.push(Action::Notify(notice));
        }
        assert(views(actions@) =~= views(old(actions)@) + self@.notice(notice@));
    }

    /// True if any session asked for animations to be disabled.
    pub fn animations_disabled(&self) -> (disabled: bool)
        ensures
            disabled == self@.animations_disabled(),
    {
        broadcast use group_map_views;

        let ids = ids_in(&self.sessions);
        for i in 0..ids.len()
            invariant
                ids@.to_set() == self.sessions@.dom(),
                forall|j: int|
                    0 <= j < i ==> !self@.sessions[#[trigger] ids@[j]].disable_animations,
        {
            assert(ids@.to_set().contains(ids@[i as int]));
            if let Some(session) = self.sessions.get(&ids[i]) {
                if session.disable_animations {
                    assert(self@.sessions.contains_key(ids@[i as int]));
                    return true;
                }
            }
        }
        proof {
            assert forall|id: RemoteDesktopSessionId| #[trigger]
                self@.sessions.contains_key(id) implies !self@.sessions[id].disable_animations by {
                assert(ids@.to_set().contains(id));
                let j = choose|j: int| 0 <= j < ids@.len() && ids@[j] == id;
                assert(!self@.sessions[ids@[j]].disable_animations);
            }
        }
        false
    }

    /// Keeps the EIS connection of a session.
    pub fn set_eis(&mut self, session: RemoteDesktopSessionId, eis: EisConnection)
        ensures
            final(self)@ == old(self)@.with_session(
                session,
                SessionView { eis: Some(eis), ..old(self)@.sessions[session] },
            ),
    {
        broadcast use group_map_views;

        let ghost before = self@;
        if let Some(mut record) = self.sessions.remove(&session) {
            record.eis = Some(eis);
            self.sessions.insert(session, record);
        }
        assert(self@.sessions =~= before.with_session(
            session,
            SessionView { eis: Some(eis), ..before.sessions[session] },
        ).sessions);
    }

    /// Keeps the capabilities that a session's client has bound.
    pub fn set_eis_bound(&mut self, session: RemoteDesktopSessionId, bound: Capabilities)
        ensures
            final(self)@ == old(self)@.with_session(
                session,
                old(self)@.sessions[session].with_eis_bound(bound),
            ),
    {
        broadcast use group_map_views;

        let ghost before = self@;
        if let Some(mut record) = self.sessions.remove(&session) {
            record.eis_bound = bound;
            if let Some(eis) = record.eis {
                record.eis = Some(EisConnection { token: eis.token, bound });
            }
            self.sessions.insert(session, record);
        }
        assert(self@.sessions =~= before.with_session(
            session,
            before.sessions[session].with_eis_bound(bound),
        ).sessions);
    }

    /// Forgets the EIS connection after the client went away.
    ///
    /// A persistent session keeps the bound capabilities so the same devices come back on
    /// reconnect.
    pub fn take_eis(&mut self, session: RemoteDesktopSessionId, bound: Capabilities) -> (eis: Option<
        EisConnection,
    >)
        ensures
            final(self)@ == old(self)@.with_session(
                session,
                old(self)@.sessions[session].without_eis(bound),
            ),
            eis == if old(self)@.sessions.contains_key(session) {
                old(self)@.sessions[session].eis
            } else {
                None
            },
    {
        broadcast use group_map_views;

        let ghost before = self@;
        let mut eis = None;
        if let Some(mut record) = self.sessions.remove(&session) {
            if record.persistent {
                record.eis_bound = bound;
            } else {
                record.eis_bound = Capabilities::empty();
            }
            eis = record.eis;
            record.eis = None;
            self.sessions.insert(session, record);
        }
        assert(self@.sessions =~= before.with_session(
            session,
            before.sessions[session].without_eis(bound),
        ).sessions);
        eis
    }

    /// Where the first monitor with the given id stands.
    pub fn monitor(&self, id: RemoteDesktopMonitorId) -> (found: Option<usize>)
        ensures
            match found {
                Some(index) => self@.monitor_index(id) == Some(index as int) && index
                    < self.monitors.len(),
                None => self@.monitor_index(id) is None,
            },
    {
        let ghost monitors = views(self.monitors@);
        for i in 0..self.monitors.len()
            invariant
                monitors == views(self.monitors@),
                forall|j: int| 0 <= j < i ==> !numbered(id)(#[trigger] monitors[j]),
        {
            assert(monitors[i as int] == self.monitors@[i as int]@);
            if self.monitors[i].id == id {
                proof {
                    lemma_is_first(monitors, numbered(id), i as int);
                }
                return Some(i);
            }
        }
        proof {
            lemma_first_index(monitors, numbered(id));
        }
        None
    }
}

impl SessionView {
    /// A session whose client has bound some capabilities.
    pub open spec fn with_eis_bound(self, bound: Capabilities) -> SessionView {
        SessionView {
            eis_bound: bound,
            eis: match self.eis {
                Some(eis) => Some(EisConnection { token: eis.token, bound }),
                None => None,
            },
            ..self
        }
    }

    /// A session whose client went away.
    pub open spec fn without_eis(self, bound: Capabilities) -> SessionView {
        SessionView {
            eis_bound: if self.persistent {
                bound
            } else {
                Capabilities::none()
            },
            eis: None,
            ..self
        }
    }
}

impl Default for RemoteDesktopState {
    fn default() -> (state: Self)
        ensures
            state@ == (RemoteDesktopView {
                to_dbus: false,
                sessions: Map::empty(),
                monitors: Seq::empty(),
                controlling: None,
                default_mode: None,
                eis_left: Capabilities::none(),
            }),
    {
        RemoteDesktopState::new()
    }
}

} // verus!
