//! Which objects are on the bus, and what happens to them.

use std::collections::BTreeMap;
use vstd::prelude::*;
use vstd::string::*;

use super::messages::{
    ClipboardType, MonitorInfo, MonitorInfoView, NiriToRemoteDesktop, NoticeView,
    RemoteDesktopToNiri, RequestView,
};
use super::monitor::{Monitor, MonitorObjectView};
use super::options::{Options, Value, ValueView, array_of, string_array};
use super::paths::{
    clipboard_path, monitor_path, path_of_clipboard, path_of_monitor, path_of_session, session_path,
};
use crate::utils::lists::{
    group_map_views, group_views, lemma_filter_empty, lemma_filter_push, lemma_take_push, map_views,
    view_of, views,
};
use crate::utils::order::{ids_in, ids_of};
use crate::utils::{RemoteDesktopMonitorId, RemoteDesktopSessionId};

verus! {

/// One thing to do on the bus.
#[allow(inconsistent_fields)]
#[derive(Debug)]
pub enum ObjectAction {
    /// Put a monitor object on the bus.
    AddMonitor { path: String, monitor: Monitor },
    /// Emit `Removed` on a monitor object.
    EmitMonitorRemoved { path: String },
    RemoveMonitor { path: String },
    /// Change whether a session object has control, and emit that its attributes changed.
    ChangeControl { path: String, has_control: bool },
    /// Emit `Destroyed` on a session object, to the given peer only if there is one.
    EmitDestroyed { path: String, destination: Option<String> },
    RemoveClipboard { path: String },
    RemoveSession { path: String },
    RemoveObjectManager { path: String },
    /// Call `Registry::forget_session`.
    ForgetSession { session: RemoteDesktopSessionId },
    /// Emit `SelectionOwnerChanged` on a clipboard object, to the given peer only.
    EmitSelectionOwnerChanged { path: String, destination: String, options: Options },
    /// Emit `SelectionTransfer` on a clipboard object, to the given peer only.
    EmitSelectionTransfer {
        path: String,
        destination: String,
        mime_type: String,
        serial: u32,
        options: Options,
    },
}

/// What an `ObjectAction` says.
#[allow(inconsistent_fields)]
pub enum ObjectActionView {
    AddMonitor { path: Seq<char>, monitor: MonitorObjectView },
    EmitMonitorRemoved { path: Seq<char> },
    RemoveMonitor { path: Seq<char> },
    ChangeControl { path: Seq<char>, has_control: bool },
    EmitDestroyed { path: Seq<char>, destination: Option<Seq<char>> },
    RemoveClipboard { path: Seq<char> },
    RemoveSession { path: Seq<char> },
    RemoveObjectManager { path: Seq<char> },
    ForgetSession { session: RemoteDesktopSessionId },
    EmitSelectionOwnerChanged {
        path: Seq<char>,
        destination: Seq<char>,
        options: Map<Seq<char>, ValueView>,
    },
    EmitSelectionTransfer {
        path: Seq<char>,
        destination: Seq<char>,
        mime_type: Seq<char>,
        serial: u32,
        options: Map<Seq<char>, ValueView>,
    },
}

impl View for ObjectAction {
    type V = ObjectActionView;

    open spec fn view(&self) -> ObjectActionView {
        match *self {
            ObjectAction::AddMonitor { path, monitor } => ObjectActionView::AddMonitor {
                path: path@,
                monitor: monitor@,
            },
            ObjectAction::EmitMonitorRemoved { path } => ObjectActionView::EmitMonitorRemoved {
                path: path@,
            },
            ObjectAction::RemoveMonitor { path } => ObjectActionView::RemoveMonitor { path: path@ },
            ObjectAction::ChangeControl { path, has_control } => ObjectActionView::ChangeControl {
                path: path@,
                has_control,
            },
            ObjectAction::EmitDestroyed { path, destination } => ObjectActionView::EmitDestroyed {
                path: path@,
                destination: view_of(destination),
            },
            ObjectAction::RemoveClipboard { path } => ObjectActionView::RemoveClipboard {
                path: path@,
            },
            ObjectAction::RemoveSession { path } => ObjectActionView::RemoveSession { path: path@ },
            ObjectAction::RemoveObjectManager { path } => ObjectActionView::RemoveObjectManager {
                path: path@,
            },
            ObjectAction::ForgetSession { session } => ObjectActionView::ForgetSession { session },
            ObjectAction::EmitSelectionOwnerChanged { path, destination, options } => {
                ObjectActionView::EmitSelectionOwnerChanged {
                    path: path@,
                    destination: destination@,
                    options: options@,
                }
            },
            ObjectAction::EmitSelectionTransfer {
                path,
                destination,
                mime_type,
                serial,
                options,
            } => ObjectActionView::EmitSelectionTransfer {
                path: path@,
                destination: destination@,
                mime_type: mime_type@,
                serial,
                options: options@,
            },
        }
    }
}

/// Object bookkeeping of the service.
#[derive(Debug)]
pub struct Registry {
    /// Live sessions and the unique name of the peer that created each one.
    pub sessions: BTreeMap<RemoteDesktopSessionId, String>,
    /// Live monitors. Each one has an object under every session.
    pub monitors: Vec<MonitorInfo>,
}

/// What a `Registry` holds.
#[verifier::ext_equal]
pub struct RegistryView {
    pub sessions: Map<RemoteDesktopSessionId, Seq<char>>,
    pub monitors: Seq<MonitorInfoView>,
}

impl View for Registry {
    type V = RegistryView;

    open spec fn view(&self) -> RegistryView {
        RegistryView { sessions: map_views(self.sessions@), monitors: views(self.monitors@) }
    }
}

/// The object of a monitor under a session.
pub open spec fn monitor_added(
    session: RemoteDesktopSessionId,
    info: MonitorInfoView,
) -> ObjectActionView {
    ObjectActionView::AddMonitor {
        path: path_of_monitor(session, info.id),
        monitor: MonitorObjectView { session, info },
    }
}

/// The objects of a monitor under some sessions.
pub open spec fn monitor_exposed(
    sessions: Seq<RemoteDesktopSessionId>,
    info: MonitorInfoView,
) -> Seq<ObjectActionView> {
    sessions.map_values(|session: RemoteDesktopSessionId| monitor_added(session, info))
}

/// The objects of some monitors under a session.
pub open spec fn monitors_exposed(
    session: RemoteDesktopSessionId,
    infos: Seq<MonitorInfoView>,
) -> Seq<ObjectActionView> {
    infos.map_values(|info: MonitorInfoView| monitor_added(session, info))
}

/// Taking the objects of a monitor off the bus under some sessions, each with a signal before.
pub open spec fn monitor_withdrawn(
    sessions: Seq<RemoteDesktopSessionId>,
    monitor: RemoteDesktopMonitorId,
) -> Seq<ObjectActionView>
    decreases sessions.len(),
{
    if sessions.len() == 0 {
        Seq::empty()
    } else {
        let path = path_of_monitor(sessions.last(), monitor);
        monitor_withdrawn(sessions.drop_last(), monitor) + seq![
            ObjectActionView::EmitMonitorRemoved { path },
            ObjectActionView::RemoveMonitor { path },
        ]
    }
}

/// Whether a monitor has another number.
pub open spec fn not_numbered(id: RemoteDesktopMonitorId) -> spec_fn(MonitorInfoView) -> bool {
    |info: MonitorInfoView| info.id != id
}

impl RegistryView {
    /// Taking every object of a session off the bus.
    pub open spec fn session_withdrawn(self, session: RemoteDesktopSessionId) -> Seq<
        ObjectActionView,
    > {
        self.monitors.map_values(
            |info: MonitorInfoView|
                ObjectActionView::RemoveMonitor { path: path_of_monitor(session, info.id) },
        ) + seq![
            ObjectActionView::RemoveClipboard { path: path_of_clipboard(session) },
            ObjectActionView::RemoveSession { path: path_of_session(session) },
            ObjectActionView::RemoveObjectManager { path: path_of_session(session) },
            ObjectActionView::ForgetSession { session },
        ]
    }

    /// The peer that created a session, if the session is known.
    pub open spec fn owner(self, session: RemoteDesktopSessionId) -> Option<Seq<char>> {
        if self.sessions.contains_key(session) {
            Some(self.sessions[session])
        } else {
            None
        }
    }

    /// The registry once the compositor told something.
    pub open spec fn after_notice(self, notice: NoticeView) -> RegistryView {
        match notice {
            NoticeView::MonitorAdded(info) => RegistryView {
                monitors: self.monitors.push(info),
                ..self
            },
            NoticeView::MonitorRemoved(monitor) => RegistryView {
                monitors: self.monitors.filter(not_numbered(monitor)),
                ..self
            },
            _ => self,
        }
    }

    /// What the compositor's notices do on the bus.
    pub open spec fn notice_actions(self, notice: NoticeView) -> Seq<ObjectActionView> {
        let sessions = ids_of(self.sessions.dom());
        match notice {
            NoticeView::MonitorAdded(info) => monitor_exposed(sessions, info),
            NoticeView::MonitorRemoved(monitor) => monitor_withdrawn(sessions, monitor),
            NoticeView::SessionControlChanged { session, has_control } => seq![
                ObjectActionView::ChangeControl { path: path_of_session(session), has_control },
            ],
            NoticeView::SessionDestroyed(session) => seq![
                ObjectActionView::EmitDestroyed {
                    path: path_of_session(session),
                    destination: self.owner(session),
                },
            ] + self.session_withdrawn(session),
            NoticeView::SelectionOwnerChanged { session, ty, mime_types, session_is_owner } => {
                match self.owner(session) {
                    Some(destination) => seq![
                        ObjectActionView::EmitSelectionOwnerChanged {
                            path: path_of_clipboard(session),
                            destination,
                            options: Map::empty().insert(
                                "mime-types"@,
                                array_of(mime_types),
                            ).insert("clipboard-type"@, ValueView::U32(ty.code())).insert(
                                "session-is-owner"@,
                                ValueView::Bool(session_is_owner),
                            ),
                        },
                    ],
                    None => Seq::empty(),
                }
            },
            NoticeView::SelectionTransfer { session, ty, mime_type, serial } => {
                match self.owner(session) {
                    Some(destination) => seq![
                        ObjectActionView::EmitSelectionTransfer {
                            path: path_of_clipboard(session),
                            destination,
                            mime_type,
                            serial,
                            options: Map::empty().insert(
                                "clipboard-type"@,
                                ValueView::U32(ty.code()),
                            ),
                        },
                    ],
                    None => Seq::empty(),
                }
            },
        }
    }
}

/// The sessions of a list that a peer created.
pub open spec fn created_by(
    registry: RegistryView,
    sessions: Seq<RemoteDesktopSessionId>,
    peer: Seq<char>,
) -> Seq<RemoteDesktopSessionId>
    decreases sessions.len(),
{
    if sessions.len() == 0 {
        Seq::empty()
    } else if registry.sessions[sessions.last()] == peer {
        created_by(registry, sessions.drop_last(), peer).push(sessions.last())
    } else {
        created_by(registry, sessions.drop_last(), peer)
    }
}

impl Registry {
    /// Nothing is on the bus.
    pub fn new() -> (registry: Self)
        ensures
            registry@ == (RegistryView { sessions: Map::empty(), monitors: Seq::empty() }),
    {
        let registry = Registry { sessions: BTreeMap::new(), monitors: Vec::new() };
        assert(registry@.sessions =~= Map::<RemoteDesktopSessionId, Seq<char>>::empty());
        assert(registry@.monitors =~= Seq::<MonitorInfoView>::empty());
        registry
    }

    /// Notes a session and the peer that created it.
    pub fn add_session(&mut self, session: RemoteDesktopSessionId, owner: String)
        ensures
            final(self)@ == (RegistryView {
                sessions: old(self)@.sessions.insert(session, owner@),
                ..old(self)@
            }),
    {
        broadcast use group_map_views;

        self.sessions.insert(session, owner);
    }

    /// Forgets a session.
    pub fn forget_session(&mut self, session: RemoteDesktopSessionId)
        ensures
            final(self)@ == (RegistryView {
                sessions: old(self)@.sessions.remove(session),
                ..old(self)@
            }),
    {
        broadcast use group_map_views;

        self.sessions.remove(&session);
        assert(self@.sessions =~= old(self)@.sessions.remove(session));
    }

    /// The peer that created a session, if the session is known.
    pub fn owner(&self, session: RemoteDesktopSessionId) -> (owner: Option<String>)
        ensures
            view_of(owner) == self@.owner(session),
    {
        broadcast use group_map_views;

        match self.sessions.get(&session) {
            Some(owner) => Some(owner.clone()),
            None => None,
        }
    }

    /// The sessions that are known, those with smaller numbers first.
    fn session_ids(&self) -> (ids: Vec<RemoteDesktopSessionId>)
        ensures
            ids@ == ids_of(self@.sessions.dom()),
            ids@.to_set() == self@.sessions.dom(),
    {
        assert(self@.sessions.dom() =~= self.sessions@.dom());
        ids_in(&self.sessions)
    }

    /// What takes every object of a session off the bus.
    pub fn remove_session_objects(&self, session: RemoteDesktopSessionId) -> (actions: Vec<
        ObjectAction,
    >)
        ensures
            views(actions@) == self@.session_withdrawn(session),
    {
        broadcast use group_views;

        let mut actions: Vec<ObjectAction> = Vec::new();
        let ghost removal = |info: MonitorInfoView|
            ObjectActionView::RemoveMonitor { path: path_of_monitor(session, info.id) };
        for i in 0..self.monitors.len()
            invariant
                actions.len() == i,
                forall|j: int|
                    0 <= j < i ==> #[trigger] actions@[j]@ == (ObjectActionView::RemoveMonitor {
                        path: path_of_monitor(session, self@.monitors[j].id),
                    }),
        {
            actions.push(
                ObjectAction::RemoveMonitor { path: monitor_path(session, self.monitors[i].id) },
            );
        }
        assert(views(actions@) =~= self@.monitors.map_values(removal));
        actions.push(ObjectAction::RemoveClipboard { path: clipboard_path(session) });
        actions.push(ObjectAction::RemoveSession { path: session_path(session) });
        actions.push(ObjectAction::RemoveObjectManager { path: session_path(session) });
        actions.push(ObjectAction::ForgetSession { session });
        assert(views(actions@) =~= self@.session_withdrawn(session));
        actions
    }

    /// The sessions that a peer created, which go when the peer leaves the bus.
    pub fn sessions_of(&self, peer: &String) -> (gone: Vec<RemoteDesktopSessionId>)
        ensures
            gone@ == created_by(self@, ids_of(self@.sessions.dom()), peer@),
    {
        broadcast use group_map_views;

        let ids = self.session_ids();
        let mut gone: Vec<RemoteDesktopSessionId> = Vec::new();
        for i in 0..ids.len()
            invariant
                ids@.to_set() == self@.sessions.dom(),
                gone@ == created_by(self@, ids@.take(i as int), peer@),
        {
            proof {
                lemma_take_push(ids@, i as int);
                assert(ids@.take(i + 1).drop_last() =~= ids@.take(i as int));
                assert(ids@.to_set().contains(ids@[i as int]));
                assert(self@.sessions.contains_key(ids@[i as int]));
            }
            if let Some(owner) = self.sessions.get(&ids[i]) {
                if *owner == *peer {
                    gone.push(ids[i]);
                }
            }
        }
        assert(ids@.take(ids.len() as int) =~= ids@);
        gone
    }

    /// What is done about a session whose peer left the bus.
    ///
    /// The compositor decides what that means: the monitors and the bound input capabilities of a
    /// persistent session stay, a transient one is torn down with all that it has. Either way the
    /// D-Bus objects go, and with them the session: what stays is for the session that the peer
    /// creates when it comes back.
    pub fn peer_gone(&self, session: RemoteDesktopSessionId) -> (result: (
        RemoteDesktopToNiri,
        Vec<ObjectAction>,
    ))
        ensures
            result.0@ == (RequestView::DestroySession { id: session, remove: false }),
            views(result.1@) == self@.session_withdrawn(session),
    {
        (
            RemoteDesktopToNiri::DestroySession { id: session, remove: false },
            self.remove_session_objects(session),
        )
    }

    /// Exposes a monitor under every session.
    fn expose(&self, info: &MonitorInfo) -> (actions: Vec<ObjectAction>)
        ensures
            views(actions@) == monitor_exposed(ids_of(self@.sessions.dom()), info@),
    {
        let ids = self.session_ids();
        let mut actions: Vec<ObjectAction> = Vec::new();
        for i in 0..ids.len()
            invariant
                actions.len() == i,
                forall|j: int|
                    0 <= j < i ==> #[trigger] actions@[j]@ == monitor_added(ids@[j], info@),
        {
            actions.push(add_monitor_object(ids[i], info));
        }
        assert(views(actions@) =~= monitor_exposed(ids@, info@));
        actions
    }

    /// Takes a monitor off the bus under every session.
    fn withdraw(&self, monitor: RemoteDesktopMonitorId) -> (actions: Vec<ObjectAction>)
        ensures
            views(actions@) == monitor_withdrawn(ids_of(self@.sessions.dom()), monitor),
    {
        broadcast use group_views;

        let ids = self.session_ids();
        let mut actions: Vec<ObjectAction> = Vec::new();
        for i in 0..ids.len()
            invariant
                views(actions@) == monitor_withdrawn(ids@.take(i as int), monitor),
        {
            proof {
                lemma_take_push(ids@, i as int);
                assert(ids@.take(i + 1).drop_last() =~= ids@.take(i as int));
            }
            actions.push(ObjectAction::EmitMonitorRemoved { path: monitor_path(ids[i], monitor) });
            actions.push(ObjectAction::RemoveMonitor { path: monitor_path(ids[i], monitor) });
            assert(views(actions@) =~= monitor_withdrawn(ids@.take(i + 1), monitor));
        }
        assert(ids@.take(ids.len() as int) =~= ids@);
        actions
    }

    /// Forgets a monitor.
    fn forget_monitor(&mut self, monitor: RemoteDesktopMonitorId)
        ensures
            final(self)@ == (RegistryView {
                monitors: old(self)@.monitors.filter(not_numbered(monitor)),
                ..old(self)@
            }),
    {
        let ghost before = self@;
        let ghost all = before.monitors;
        let ghost keep = not_numbered(monitor);
        let ghost mut seen: int = 0;
        let mut i: usize = 0;
        proof {
            lemma_filter_empty(keep);
            assert(all.take(0) =~= Seq::<MonitorInfoView>::empty());
            assert(all.skip(0) =~= all);
            assert(Seq::<MonitorInfoView>::empty() + all =~= all);
        }
        while i < self.monitors.len()
            invariant
                before == old(self)@,
                all == before.monitors,
                keep == not_numbered(monitor),
                0 <= seen <= all.len(),
                i == all.take(seen).filter(keep).len(),
                i + all.len() - seen == self.monitors.len(),
                self@ == (RegistryView {
                    monitors: all.take(seen).filter(keep) + all.skip(seen),
                    ..before
                }),
            decreases all.len() - seen,
        {
            let ghost left = all.take(seen).filter(keep);
            proof {
                lemma_take_push(all, seen);
                lemma_filter_push(all.take(seen), all[seen], keep);
                assert(all.skip(seen) =~= seq![all[seen]] + all.skip(seen + 1));
                assert(self@.monitors[i as int] == all[seen]);
                assert(self.monitors@[i as int]@ == all[seen]);
            }
            if self.monitors[i].id == monitor {
                let ghost held = self.monitors@;
                self.monitors.remove(i);
                assert(self@.monitors =~= views(held).remove(i as int));
                assert(self@.monitors =~= left + all.skip(seen + 1));
            } else {
                assert(self@.monitors =~= left.push(all[seen]) + all.skip(seen + 1));
                i = i + 1;
            }
            proof {
                seen = seen + 1;
            }
        }
        assert(all.take(seen) =~= all);
        assert(all.filter(keep) + all.skip(seen) =~= all.filter(keep));
    }

    /// Takes a notice of the compositor.
    pub fn handle_niri_event(&mut self, notice: NiriToRemoteDesktop) -> (actions: Vec<ObjectAction>)
        ensures
            final(self)@ == old(self)@.after_notice(notice@),
            views(actions@) == old(self)@.notice_actions(notice@),
    {
        broadcast use group_views;

        let ghost before = self@;
        let mut actions: Vec<ObjectAction> = Vec::new();
        match notice {
            NiriToRemoteDesktop::MonitorAdded(info) => {
                actions = self.expose(&info);
                self.monitors.push(info);
            },
            NiriToRemoteDesktop::MonitorRemoved(monitor) => {
                actions = self.withdraw(monitor);
                self.forget_monitor(monitor);
            },
            NiriToRemoteDesktop::SessionControlChanged { session, has_control } => {
                actions.push(
                    ObjectAction::ChangeControl { path: session_path(session), has_control },
                );
                assert(views(actions@) =~= before.notice_actions(notice@));
            },
            NiriToRemoteDesktop::SessionDestroyed(session) => {
                actions.push(
                    ObjectAction::EmitDestroyed {
                        path: session_path(session),
                        destination: self.owner(session),
                    },
                );
                let mut rest = self.remove_session_objects(session);
                actions.append(&mut rest);
                assert(views(actions@) =~= before.notice_actions(notice@));
            },
            NiriToRemoteDesktop::SelectionOwnerChanged {
                session,
                ty,
                mime_types,
                session_is_owner,
            } => {
                if let Some(destination) = self.owner(session) {
                    let mut options = Options::new();
                    options.insert("mime-types", string_array(mime_types));
                    options.insert("clipboard-type", Value::U32(ty.to_dbus()));
                    options.insert("session-is-owner", Value::Bool(session_is_owner));
                    actions.push(
                        ObjectAction::EmitSelectionOwnerChanged {
                            path: clipboard_path(session),
                            destination,
                            options,
                        },
                    );
                }
                assert(views(actions@) =~= before.notice_actions(notice@));
            },
            NiriToRemoteDesktop::SelectionTransfer { session, ty, mime_type, serial } => {
                if let Some(destination) = self.owner(session) {
                    let mut options = Options::new();
                    options.insert("clipboard-type", Value::U32(ty.to_dbus()));
                    actions.push(
                        ObjectAction::EmitSelectionTransfer {
                            path: clipboard_path(session),
                            destination,
                            mime_type,
                            serial,
                            options,
                        },
                    );
                }
                assert(views(actions@) =~= before.notice_actions(notice@));
            },
        }
        actions
    }
}

impl Default for Registry {
    fn default() -> (registry: Self)
        ensures
            registry@ == (RegistryView { sessions: Map::empty(), monitors: Seq::empty() }),
    {
        Registry::new()
    }
}

/// The object of a monitor under a session.
pub fn add_monitor_object(session: RemoteDesktopSessionId, info: &MonitorInfo) -> (action:
    ObjectAction)
    ensures
        action@ == monitor_added(session, info@),
{
    ObjectAction::AddMonitor {
        path: monitor_path(session, info.id),
        monitor: Monitor::new(session, info.clone()),
    }
}

/// A peer that leaves the bus takes exactly the sessions with it that it created.
pub proof fn peers_take_their_sessions(
    registry: RegistryView,
    sessions: Seq<RemoteDesktopSessionId>,
    peer: Seq<char>,
    session: RemoteDesktopSessionId,
)
    ensures
        created_by(registry, sessions, peer).contains(session) == (sessions.contains(session)
            && registry.sessions[session] == peer),
    decreases sessions.len(),
{
    if sessions.len() > 0 {
        let rest = sessions.drop_last();
        peers_take_their_sessions(registry, rest, peer, session);
        let before = created_by(registry, rest, peer);
        let all = created_by(registry, sessions, peer);
        if before.contains(session) {
            let i = choose|i: int| 0 <= i < before.len() && before[i] == session;
            assert(all[i] == session);
        }
        if rest.contains(session) {
            let i = choose|i: int| 0 <= i < rest.len() && rest[i] == session;
            assert(sessions[i] == session);
        }
        if sessions.contains(session) && !rest.contains(session) {
            let i = choose|i: int| 0 <= i < sessions.len() && sessions[i] == session;
            if i < rest.len() {
                assert(rest[i] == session);
            }
            if registry.sessions[session] == peer {
                assert(all[all.len() - 1] == session);
            }
        }
        if all.contains(session) && !before.contains(session) {
            let i = choose|i: int| 0 <= i < all.len() && all[i] == session;
            if i < before.len() {
                assert(before[i] == session);
            }
            assert(sessions[sessions.len() - 1] == session);
        }
    }
}

/// A new monitor gets an object under every session, and under no other.
pub proof fn monitors_are_exposed_to_every_session(
    sessions: Seq<RemoteDesktopSessionId>,
    info: MonitorInfoView,
    session: RemoteDesktopSessionId,
)
    ensures
        monitor_exposed(sessions, info).contains(monitor_added(session, info)) == sessions.contains(
            session,
        ),
{
    let all = monitor_exposed(sessions, info);
    if sessions.contains(session) {
        let i = choose|i: int| 0 <= i < sessions.len() && sessions[i] == session;
        assert(all[i] == monitor_added(session, info));
    }
    if all.contains(monitor_added(session, info)) {
        let i = choose|i: int| 0 <= i < all.len() && all[i] == monitor_added(session, info);
        assert(all[i] == monitor_added(sessions[i], info));
        assert(sessions[i] == session);
    }
}

/// Selection signals go to the peer that created the session and to nobody else; a session that is
/// not known gets none.
pub proof fn selection_signals_reach_the_owner(
    registry: RegistryView,
    session: RemoteDesktopSessionId,
    ty: ClipboardType,
    mime_type: Seq<char>,
    serial: u32,
)
    ensures
        ({
            let notice = NoticeView::SelectionTransfer { session, ty, mime_type, serial };
            match registry.owner(session) {
                Some(owner) => registry.notice_actions(notice).len() == 1 && (
                registry.notice_actions(notice)[0] matches ObjectActionView::EmitSelectionTransfer {
                    destination,
                    ..
                } && destination == owner),
                None => registry.notice_actions(notice).len() == 0,
            }
        }),
{
}

} // verus!
