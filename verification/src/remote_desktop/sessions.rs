//! Creating and destroying sessions.

use vstd::prelude::*;

use super::actions::{Action, ActionView, Reply, ReplyView};
use super::capabilities::Capabilities;
use super::laws::{adding_keeps_valid, destroying_keeps_valid, refreshing_keeps_valid};
use super::{
    Monitor, MonitorView, RemoteDesktopState, RemoteDesktopView, Session, SessionView, Stream,
    StreamView, infos, told,
};
use crate::dbus::remote_desktop::messages::{
    MonitorInfo, NiriToRemoteDesktop, NoticeView, ReplyHandle,
};
use crate::niri::{Cast, Niri, NiriView, State, casts_left, casts_stopped};
use crate::utils::lists::{
    contains_text, group_map_views, group_views, holds, lemma_add_five, lemma_filter_push,
    lemma_take_push, views,
};
use crate::utils::RemoteDesktopSessionId;

verus! {

/// What stopping some streams leaves of the casts, and what it does.
pub open spec fn streams_stopped(casts: Seq<Cast>, streams: Seq<StreamView>) -> (
    Seq<Cast>,
    Seq<ActionView>,
)
    decreases streams.len(),
{
    if streams.len() == 0 {
        (casts, Seq::empty())
    } else {
        let (left, actions) = streams_stopped(casts, streams.drop_last());
        let stream = streams.last();
        (
            casts_left(left, stream.cast_session_id, left.len()),
            actions + casts_stopped(left, stream.cast_session_id) + stream.dropped(),
        )
    }
}

/// Whether a monitor goes with the session that is destroyed.
pub open spec fn goes_with(
    session: RemoteDesktopSessionId,
    drop_monitors: bool,
) -> spec_fn(MonitorView) -> bool {
    |monitor: MonitorView| monitor.owner == Some(session) && drop_monitors
}

/// Whether a monitor outlives the session that is destroyed.
pub open spec fn outlives(
    session: RemoteDesktopSessionId,
    drop_monitors: bool,
) -> spec_fn(MonitorView) -> bool {
    |monitor: MonitorView| !goes_with(session, drop_monitors)(monitor)
}

/// A monitor that no longer belongs to the session that is destroyed.
pub open spec fn disowned(session: RemoteDesktopSessionId) -> spec_fn(MonitorView) -> MonitorView {
    |monitor: MonitorView|
        if monitor.owner == Some(session) {
            MonitorView { owner: None, ..monitor }
        } else {
            monitor
        }
}

/// The monitors that stay when a session is destroyed. Its own lose their owner, so nobody can
/// remove them through this API anymore.
pub open spec fn monitors_left(
    monitors: Seq<MonitorView>,
    session: RemoteDesktopSessionId,
    drop_monitors: bool,
) -> Seq<MonitorView> {
    monitors.filter(outlives(session, drop_monitors)).map_values(disowned(session))
}

/// What removing the monitors that go with a session does.
pub open spec fn monitors_removed(
    to_dbus: bool,
    monitors: Seq<MonitorView>,
    session: RemoteDesktopSessionId,
    drop_monitors: bool,
) -> Seq<ActionView>
    decreases monitors.len(),
{
    if monitors.len() == 0 {
        Seq::empty()
    } else {
        let monitor = monitors.last();
        monitors_removed(to_dbus, monitors.drop_last(), session, drop_monitors) + (if goes_with(
            session,
            drop_monitors,
        )(monitor) {
            seq![ActionView::RemoveVirtualOutput { name: monitor.output_name }] + told(
                to_dbus,
                NoticeView::MonitorRemoved(monitor.id),
            )
        } else {
            Seq::empty()
        })
    }
}

impl SessionView {
    /// What taking the EIS connection of a session down does.
    pub open spec fn eis_removed(self) -> Seq<ActionView> {
        match self.eis {
            Some(eis) => seq![ActionView::RemoveSource { token: eis.token }],
            None => Seq::empty(),
        }
    }

    /// What clearing the clipboard of a session does.
    pub open spec fn clipboard_cleared(self) -> Seq<ActionView> {
        match self.clipboard {
            Some(clipboard) => clipboard.cleared(),
            None => Seq::empty(),
        }
    }
}

impl NiriView {
    /// The compositor after a session was destroyed.
    ///
    /// A persistent session's monitors and bound capabilities outlive it unless the peer asked to
    /// remove them.
    pub open spec fn session_destroyed(self, id: RemoteDesktopSessionId, remove: bool) -> NiriView {
        let desktop = self.remote_desktop;
        if desktop.sessions.contains_key(id) {
            let session = desktop.sessions[id];
            NiriView {
                casts: streams_stopped(self.casts, session.streams).0,
                remote_desktop: RemoteDesktopView {
                    sessions: desktop.sessions.remove(id),
                    controlling: if desktop.controlling == Some(id) {
                        None
                    } else {
                        desktop.controlling
                    },
                    monitors: monitors_left(desktop.monitors, id, remove || !session.persistent),
                    eis_left: if session.persistent && !remove {
                        desktop.eis_left.or(session.eis_bound)
                    } else {
                        desktop.eis_left
                    },
                    ..desktop
                },
                ..self
            }.animations_refreshed()
        } else {
            self
        }
    }

    /// What destroying a session does.
    pub open spec fn destruction(
        self,
        id: RemoteDesktopSessionId,
        remove: bool,
        notify: bool,
    ) -> Seq<ActionView> {
        let desktop = self.remote_desktop;
        if desktop.sessions.contains_key(id) {
            let session = desktop.sessions[id];
            streams_stopped(self.casts, session.streams).1 + session.eis_removed()
                + session.clipboard_cleared() + monitors_removed(
                desktop.to_dbus,
                desktop.monitors,
                id,
                remove || !session.persistent,
            ) + (if notify {
                desktop.notice(NoticeView::SessionDestroyed(id))
            } else {
                Seq::empty()
            })
        } else {
            Seq::empty()
        }
    }
}

impl Niri {
    /// Stops some streams.
    pub fn stop_streams(&mut self, streams: &Vec<Stream>, actions: &mut Vec<Action>)
        ensures
            final(self)@ == (NiriView {
                casts: streams_stopped(old(self)@.casts, views(streams@)).0,
                ..old(self)@
            }),
            views(final(actions)@) == views(old(actions)@) + streams_stopped(
                old(self)@.casts,
                views(streams@),
            ).1,
    {
        let ghost before = self@;
        let ghost start = views(actions@);
        let ghost all = views(streams@);
        for i in 0..streams.len()
            invariant
                before == old(self)@,
                all == views(streams@),
                self@ == (NiriView {
                    casts: streams_stopped(before.casts, all.take(i as int)).0,
                    ..before
                }),
                views(actions@) == start + streams_stopped(before.casts, all.take(i as int)).1,
        {
            proof {
                lemma_take_push(all, i as int);
                assert(all.take(i + 1).drop_last() =~= all.take(i as int));
            }
            self.stop_remote_desktop_cast(streams[i].cast_session_id, actions);
            streams[i].discard(actions);
            assert(views(actions@) =~= start + streams_stopped(before.casts, all.take(i + 1)).1);
        }
        assert(all.take(streams.len() as int) =~= all);
    }
}

/// Taking a monitor out of the list.
proof fn lemma_views_remove(monitors: Seq<Monitor>, index: int)
    requires
        0 <= index < monitors.len(),
    ensures
        views(monitors.remove(index)) == views(monitors).remove(index),
{
    assert(views(monitors.remove(index)) =~= views(monitors).remove(index));
}

proof fn lemma_monitors_left_push(
    monitors: Seq<MonitorView>,
    monitor: MonitorView,
    session: RemoteDesktopSessionId,
    drop_monitors: bool,
)
    ensures
        monitors_left(monitors.push(monitor), session, drop_monitors) == if goes_with(
            session,
            drop_monitors,
        )(monitor) {
            monitors_left(monitors, session, drop_monitors)
        } else {
            monitors_left(monitors, session, drop_monitors).push(disowned(session)(monitor))
        },
{
    lemma_filter_push(monitors, monitor, outlives(session, drop_monitors));
    let kept = monitors.filter(outlives(session, drop_monitors));
    assert(kept.push(monitor).map_values(disowned(session)) =~= kept.map_values(
        disowned(session),
    ).push(disowned(session)(monitor)));
}

proof fn lemma_monitors_left_empty(session: RemoteDesktopSessionId, drop_monitors: bool)
    ensures
        monitors_left(Seq::empty(), session, drop_monitors) == Seq::<MonitorView>::empty(),
{
    crate::utils::lists::lemma_filter_empty(outlives(session, drop_monitors));
    assert(monitors_left(Seq::empty(), session, drop_monitors) =~= Seq::<MonitorView>::empty());
}

impl RemoteDesktopState {
    /// Removes the monitors of a session, or disowns them if they are not to be dropped.
    pub fn remove_session_monitors(
        &mut self,
        session: RemoteDesktopSessionId,
        drop_monitors: bool,
        actions: &mut Vec<Action>,
    )
        ensures
            final(self)@ == (RemoteDesktopView {
                monitors: monitors_left(old(self)@.monitors, session, drop_monitors),
                ..old(self)@
            }),
            views(final(actions)@) == views(old(actions)@) + monitors_removed(
                old(self)@.to_dbus,
                old(self)@.monitors,
                session,
                drop_monitors,
            ),
    {
        broadcast use group_views;

        let ghost before = self@;
        let ghost start = views(actions@);
        let ghost all = before.monitors;
        let ghost mut seen: int = 0;
        let mut i: usize = 0;
        proof {
            lemma_monitors_left_empty(session, drop_monitors);
            assert(all.take(0) =~= Seq::<MonitorView>::empty());
            assert(all.skip(0) =~= all);
            assert(Seq::<MonitorView>::empty() + all =~= all);
        }
        while i < self.monitors.len()
            invariant
                before == old(self)@,
                all == before.monitors,
                0 <= seen <= all.len(),
                i == monitors_left(all.take(seen), session, drop_monitors).len(),
                i + all.len() - seen == self.monitors.len(),
                self@ == (RemoteDesktopView {
                    monitors: monitors_left(all.take(seen), session, drop_monitors) + all.skip(
                        seen,
                    ),
                    ..before
                }),
                views(actions@) == start + monitors_removed(
                    before.to_dbus,
                    all.take(seen),
                    session,
                    drop_monitors,
                ),
            decreases all.len() - seen,
        {
            let ghost left = monitors_left(all.take(seen), session, drop_monitors);
            proof {
                lemma_take_push(all, seen);
                lemma_monitors_left_push(all.take(seen), all[seen], session, drop_monitors);
                assert(all.take(seen + 1).drop_last() =~= all.take(seen));
                assert(all.skip(seen) =~= seq![all[seen]] + all.skip(seen + 1));
                assert(self@.monitors[i as int] == all[seen]);
                assert(self.monitors@[i as int]@ == all[seen]);
            }
            let owned = holds(self.monitors[i].owner, session);
            if owned && drop_monitors {
                proof {
                    lemma_views_remove(self.monitors@, i as int);
                }
                let ghost sent = views(actions@);
                let monitor = self.monitors.remove(i);
                assert(monitor@ == all[seen]);
                actions.push(Action::RemoveVirtualOutput { name: monitor.output_name });
                self.notify(NiriToRemoteDesktop::MonitorRemoved(monitor.id), actions);
                assert(self@.monitors =~= left + all.skip(seen + 1));
                assert(views(actions@) =~= sent + (seq![
                    ActionView::RemoveVirtualOutput { name: all[seen].output_name },
                ] + before.notice(NoticeView::MonitorRemoved(all[seen].id))));
            } else {
                let ghost held = self.monitors@;
                if owned {
                    self.monitors[i].owner = None;
                }
                assert(self@.monitors =~= views(held).update(
                    i as int,
                    disowned(session)(all[seen]),
                ));
                i = i + 1;
                assert(self@.monitors =~= left.push(disowned(session)(all[seen])) + all.skip(
                    seen + 1,
                ));
            }
            assert(views(actions@) =~= start + monitors_removed(
                before.to_dbus,
                all.take(seen + 1),
                session,
                drop_monitors,
            ));
            proof {
                seen = seen + 1;
            }
        }
        assert(all.take(seen) =~= all);
        assert(monitors_left(all, session, drop_monitors) + all.skip(seen) =~= monitors_left(
            all,
            session,
            drop_monitors,
        ));
    }
}

impl State {
    /// Destroys a session, if it exists.
    #[verifier::spinoff_prover]
    #[verifier::rlimit(50)]
    pub fn destroy_remote_desktop_session(
        &mut self,
        id: RemoteDesktopSessionId,
        remove: bool,
        notify: bool,
        actions: &mut Vec<Action>,
    )
        ensures
            final(self)@ == old(self)@.session_destroyed(id, remove),
            views(final(actions)@) == views(old(actions)@) + old(self)@.destruction(
                id,
                remove,
                notify,
            ),
            old(self)@.valid() ==> final(self)@.valid(),
    {
        broadcast use {group_views, group_map_views};

        let ghost before = self@;
        let ghost start = views(actions@);
        let Some(mut session) = self.niri.remote_desktop.sessions.remove(&id) else {
            assert(self@ =~= before);
            assert(views(actions@) =~= start + before.destruction(id, remove, notify));
            return;
        };
        let ghost held = session@;
        assert(held == before.remote_desktop.sessions[id]);

        if holds(self.niri.remote_desktop.controlling, id) {
            self.niri.remote_desktop.controlling = None;
        }

        self.niri.stop_streams(&session.streams, actions);
        let ghost stopped = streams_stopped(before.casts, held.streams);

        if let Some(eis) = session.eis {
            actions.push(Action::RemoveSource { token: eis.token });
        }
        assert(views(actions@) =~= start + stopped.1 + held.eis_removed());

        session.clear_remote_desktop_selections(actions);

        // A persistent session's monitors and bound capabilities outlive it unless the peer asked to
        // remove them.
        let drop_monitors = remove || !session.persistent;
        if !drop_monitors {
            let left = self.niri.remote_desktop.eis_left;
            self.niri.remote_desktop.eis_left = left.union(session.eis_bound);
        }
        self.niri.remote_desktop.remove_session_monitors(id, drop_monitors, actions);
        let ghost removed = monitors_removed(
            before.remote_desktop.to_dbus,
            before.remote_desktop.monitors,
            id,
            drop_monitors,
        );

        if notify {
            self.niri.remote_desktop.notify(NiriToRemoteDesktop::SessionDestroyed(id), actions);
        }

        proof {
            let destroyed = if notify {
                before.remote_desktop.notice(NoticeView::SessionDestroyed(id))
            } else {
                Seq::empty()
            };
            assert(views(actions@) =~= start + stopped.1 + held.eis_removed()
                + held.clipboard_cleared() + removed + destroyed);
            lemma_add_five(
                start,
                stopped.1,
                held.eis_removed(),
                held.clipboard_cleared(),
                removed,
                destroyed,
            );
        }

        self.refresh_remote_desktop_animations();
        assert(self@ == before.session_destroyed(id, remove));
        assert(before.valid() ==> self@.valid()) by {
            if before.valid() {
                destroying_keeps_valid(before, id, remove);
            }
        }
    }
}

/// Whether a monitor stands for one of the given outputs.
pub open spec fn backed_by(outputs: Seq<Seq<char>>) -> spec_fn(MonitorView) -> bool {
    |monitor: MonitorView| outputs.contains(monitor.output_name)
}

/// Whether a monitor stands for none of the given outputs.
pub open spec fn not_backed_by(outputs: Seq<Seq<char>>) -> spec_fn(MonitorView) -> bool {
    |monitor: MonitorView| !outputs.contains(monitor.output_name)
}

/// Whether some monitor stands for an output.
pub open spec fn named(monitors: Seq<MonitorView>, output: Seq<char>) -> bool {
    exists|i: int| 0 <= i < monitors.len() && #[trigger] monitors[i].output_name == output
}

/// The monitors, and behind them one without an owner for each output that had none, with the
/// numbers from `next` on.
pub open spec fn exposed(
    monitors: Seq<MonitorView>,
    outputs: Seq<Seq<char>>,
    next: u64,
) -> Seq<MonitorView>
    decreases outputs.len(),
{
    if outputs.len() == 0 {
        monitors
    } else {
        let before = exposed(monitors, outputs.drop_last(), next);
        if named(before, outputs.last()) {
            before
        } else {
            before.push(
                MonitorView {
                    id: (next + before.len() - monitors.len()) as u64,
                    output_name: outputs.last(),
                    owner: None,
                    persistent: false,
                },
            )
        }
    }
}

/// Telling the D-Bus side that some monitors are gone.
pub open spec fn told_removed(monitors: Seq<MonitorView>) -> Seq<ActionView> {
    monitors.map_values(
        |monitor: MonitorView| ActionView::Notify(NoticeView::MonitorRemoved(monitor.id)),
    )
}

/// Telling the D-Bus side that some monitors are new.
pub open spec fn told_added(monitors: Seq<MonitorView>) -> Seq<ActionView> {
    monitors.map_values(
        |monitor: MonitorView| ActionView::Notify(NoticeView::MonitorAdded(monitor.info())),
    )
}

impl NiriView {
    /// The compositor once the monitors stand for exactly the given virtual outputs.
    pub open spec fn monitors_refreshed(self, outputs: Seq<Seq<char>>) -> NiriView {
        if self.remote_desktop.to_dbus {
            let kept = self.remote_desktop.monitors.filter(backed_by(outputs));
            let monitors = exposed(kept, outputs, self.next_monitor);
            NiriView {
                remote_desktop: RemoteDesktopView { monitors, ..self.remote_desktop },
                next_monitor: (self.next_monitor + monitors.len() - kept.len()) as u64,
                ..self
            }
        } else {
            self
        }
    }

    /// What making the monitors stand for the given virtual outputs does.
    pub open spec fn monitor_changes(self, outputs: Seq<Seq<char>>) -> Seq<ActionView> {
        if self.remote_desktop.to_dbus {
            let kept = self.remote_desktop.monitors.filter(backed_by(outputs));
            told_removed(self.remote_desktop.monitors.filter(not_backed_by(outputs))) + told_added(
                exposed(kept, outputs, self.next_monitor).skip(kept.len() as int),
            )
        } else {
            Seq::empty()
        }
    }
}

/// How many monitors are added at most, and that those before stay.
pub proof fn lemma_exposed(monitors: Seq<MonitorView>, outputs: Seq<Seq<char>>, next: u64)
    ensures
        monitors.len() <= exposed(monitors, outputs, next).len() <= monitors.len() + outputs.len(),
        exposed(monitors, outputs, next).take(monitors.len() as int) == monitors,
    decreases outputs.len(),
{
    if outputs.len() == 0 {
        assert(monitors.take(monitors.len() as int) =~= monitors);
    } else {
        let before = exposed(monitors, outputs.drop_last(), next);
        lemma_exposed(monitors, outputs.drop_last(), next);
        assert(exposed(monitors, outputs, next).take(monitors.len() as int) =~= before.take(
            monitors.len() as int,
        ));
    }
}

impl RemoteDesktopState {
    /// Whether some monitor stands for an output.
    pub fn has_monitor(&self, output: &String) -> (found: bool)
        ensures
            found == named(self@.monitors, output@),
    {
        for i in 0..self.monitors.len()
            invariant
                forall|j: int| 0 <= j < i ==> #[trigger] self@.monitors[j].output_name != output@,
        {
            if self.monitors[i].output_name == *output {
                assert(self@.monitors[i as int].output_name == output@);
                return true;
            }
        }
        false
    }

    /// Removes the monitors that stand for none of the given outputs.
    pub fn forget_monitors(&mut self, outputs: &Vec<String>, actions: &mut Vec<Action>)
        requires
            old(self)@.to_dbus,
        ensures
            final(self)@ == (RemoteDesktopView {
                monitors: old(self)@.monitors.filter(backed_by(views(outputs@))),
                ..old(self)@
            }),
            views(final(actions)@) == views(old(actions)@) + told_removed(
                old(self)@.monitors.filter(not_backed_by(views(outputs@))),
            ),
    {
        broadcast use group_views;

        let ghost before = self@;
        let ghost start = views(actions@);
        let ghost all = before.monitors;
        let ghost keep = backed_by(views(outputs@));
        let ghost gone = not_backed_by(views(outputs@));
        let ghost mut seen: int = 0;
        let mut i: usize = 0;
        proof {
            crate::utils::lists::lemma_filter_empty(keep);
            crate::utils::lists::lemma_filter_empty(gone);
            assert(all.take(0) =~= Seq::<MonitorView>::empty());
            assert(all.skip(0) =~= all);
            assert(Seq::<MonitorView>::empty() + all =~= all);
            assert(told_removed(Seq::empty()) =~= Seq::<ActionView>::empty());
        }
        while i < self.monitors.len()
            invariant
                before == old(self)@,
                before.to_dbus,
                all == before.monitors,
                keep == backed_by(views(outputs@)),
                gone == not_backed_by(views(outputs@)),
                0 <= seen <= all.len(),
                i == all.take(seen).filter(keep).len(),
                i + all.len() - seen == self.monitors.len(),
                self@ == (RemoteDesktopView {
                    monitors: all.take(seen).filter(keep) + all.skip(seen),
                    ..before
                }),
                views(actions@) == start + told_removed(all.take(seen).filter(gone)),
            decreases all.len() - seen,
        {
            let ghost left = all.take(seen).filter(keep);
            let ghost lost = all.take(seen).filter(gone);
            proof {
                lemma_take_push(all, seen);
                lemma_filter_push(all.take(seen), all[seen], keep);
                lemma_filter_push(all.take(seen), all[seen], gone);
                assert(all.skip(seen) =~= seq![all[seen]] + all.skip(seen + 1));
                assert(self@.monitors[i as int] == all[seen]);
                assert(self.monitors@[i as int]@ == all[seen]);
            }
            if contains_text(outputs, &self.monitors[i].output_name) {
                assert(self@.monitors =~= left.push(all[seen]) + all.skip(seen + 1));
                i = i + 1;
            } else {
                proof {
                    lemma_views_remove(self.monitors@, i as int);
                }
                let monitor = self.monitors.remove(i);
                self.notify(NiriToRemoteDesktop::MonitorRemoved(monitor.id), actions);
                assert(self@.monitors =~= left + all.skip(seen + 1));
                assert(views(actions@) =~= start + told_removed(lost.push(all[seen])));
            }
            proof {
                seen = seen + 1;
            }
        }
        assert(all.take(seen) =~= all);
        assert(all.filter(keep) + all.skip(seen) =~= all.filter(keep));
    }
}

impl State {
    /// Keeps the monitor list in sync with the virtual outputs that actually exist.
    ///
    /// Virtual outputs created outside this API are exposed too, without an owner, so a session can
    /// capture them but not remove or resize them.
    pub fn refresh_remote_desktop_monitors(
        &mut self,
        virtual_outputs: &Vec<String>,
        actions: &mut Vec<Action>,
    )
        requires
            old(self)@.remote_desktop.to_dbus ==> old(self).niri.monitor_ids.can_supply(
                virtual_outputs.len() as int,
            ),
        ensures
            final(self)@ == old(self)@.monitors_refreshed(views(virtual_outputs@)),
            views(final(actions)@) == views(old(actions)@) + old(self)@.monitor_changes(
                views(virtual_outputs@),
            ),
            old(self)@.valid() ==> final(self)@.valid(),
    {
        broadcast use group_views;

        let ghost before = self@;
        proof {
            if before.valid() {
                refreshing_keeps_valid(before, views(virtual_outputs@));
            }
        }
        let ghost start = views(actions@);
        if !self.niri.remote_desktop.is_enabled() {
            assert(views(actions@) =~= start + before.monitor_changes(views(virtual_outputs@)));
            return;
        }

        self.niri.remote_desktop.forget_monitors(virtual_outputs, actions);

        let ghost outputs = views(virtual_outputs@);
        let ghost kept = before.remote_desktop.monitors.filter(backed_by(outputs));
        let ghost told = views(actions@);
        let ghost next = before.next_monitor;
        proof {
            assert(outputs.take(0) =~= Seq::<Seq<char>>::empty());
            assert(kept.skip(kept.len() as int) =~= Seq::<MonitorView>::empty());
            assert(told_added(Seq::empty()) =~= Seq::<ActionView>::empty());
            assert(told + Seq::<ActionView>::empty() =~= told);
        }
        for i in 0..virtual_outputs.len()
            invariant
                before == old(self)@,
                before.remote_desktop.to_dbus,
                next == before.next_monitor,
                next + virtual_outputs.len() <= u64::MAX,
                outputs == views(virtual_outputs@),
                self@ == (NiriView {
                    remote_desktop: RemoteDesktopView {
                        monitors: exposed(kept, outputs.take(i as int), next),
                        ..before.remote_desktop
                    },
                    next_monitor: (next + exposed(kept, outputs.take(i as int), next).len()
                        - kept.len()) as u64,
                    ..before
                }),
                views(actions@) == told + told_added(
                    exposed(kept, outputs.take(i as int), next).skip(kept.len() as int),
                ),
        {
            let ghost monitors = exposed(kept, outputs.take(i as int), next);
            proof {
                lemma_exposed(kept, outputs.take(i as int), next);
                lemma_take_push(outputs, i as int);
                assert(outputs.take(i + 1).drop_last() =~= outputs.take(i as int));
            }
            if !self.niri.remote_desktop.has_monitor(&virtual_outputs[i]) {
                let monitor = Monitor {
                    id: self.niri.monitor_ids.next(),
                    output_name: virtual_outputs[i].clone(),
                    owner: None,
                    persistent: false,
                };
                let info = monitor.info();
                let ghost added = monitor@;
                self.niri.remote_desktop.monitors.push(monitor);
                self.niri.remote_desktop.notify(NiriToRemoteDesktop::MonitorAdded(info), actions);
                proof {
                    assert(exposed(kept, outputs.take(i + 1), next) == monitors.push(added));
                    assert(monitors.push(added).skip(kept.len() as int) =~= monitors.skip(
                        kept.len() as int,
                    ).push(added));
                    assert(views(actions@) =~= told + told_added(
                        monitors.skip(kept.len() as int).push(added),
                    ));
                }
            }
        }
        proof {
            assert(outputs.take(virtual_outputs.len() as int) =~= outputs);
            assert(views(actions@) =~= start + before.monitor_changes(outputs));
        }
    }
}

impl NiriView {
    /// The compositor with no session in control: the one that was is destroyed.
    pub open spec fn control_released(self) -> NiriView {
        match self.remote_desktop.controlling {
            Some(previous) => NiriView {
                remote_desktop: RemoteDesktopView { controlling: None, ..self.remote_desktop },
                ..self
            }.session_destroyed(previous, false),
            None => self,
        }
    }

    /// What leaving no session in control does. The session that was in control is told.
    pub open spec fn control_release(self) -> Seq<ActionView> {
        match self.remote_desktop.controlling {
            Some(previous) => self.destruction(previous, false, true),
            None => Seq::empty(),
        }
    }

    /// The compositor with a new session.
    ///
    /// Only one session may have control at a time: one that takes control terminates the one that
    /// had it.
    pub open spec fn session_added(
        self,
        id: RemoteDesktopSessionId,
        persistent: bool,
        takes_control: bool,
        disable_animations: bool,
    ) -> NiriView {
        let niri = if takes_control {
            self.control_released()
        } else {
            self
        };
        NiriView {
            remote_desktop: RemoteDesktopView {
                controlling: if takes_control {
                    Some(id)
                } else {
                    niri.remote_desktop.controlling
                },
                sessions: niri.remote_desktop.sessions.insert(
                    id,
                    SessionView::fresh(persistent, takes_control, disable_animations),
                ),
                ..niri.remote_desktop
            },
            ..niri
        }
    }

    /// What adding a session does. Where a session with its number was left, that one is let go.
    pub open spec fn session_addition(
        self,
        id: RemoteDesktopSessionId,
        takes_control: bool,
        reply: ReplyHandle,
    ) -> Seq<ActionView> {
        let niri = if takes_control {
            self.control_released()
        } else {
            self
        };
        (if takes_control {
            self.control_release()
        } else {
            Seq::empty()
        }) + (if niri.remote_desktop.sessions.contains_key(id) {
            niri.remote_desktop.sessions[id].dropped()
        } else {
            Seq::empty()
        }) + seq![ActionView::ListVirtualOutputs { reply }]
    }
}

/// What is told about all monitors.
fn all_infos(monitors: &Vec<Monitor>) -> (result: Vec<MonitorInfo>)
    ensures
        views(result@) == infos(views(monitors@)),
{
    broadcast use group_views;

    let mut result: Vec<MonitorInfo> = Vec::new();
    for i in 0..monitors.len()
        invariant
            result.len() == i,
            forall|j: int| 0 <= j < i ==> #[trigger] result@[j]@ == monitors@[j]@.info(),
    {
        result.push(monitors[i].info());
    }
    assert(views(result@) =~= infos(views(monitors@)));
    result
}

impl State {
    /// Destroys the session in control, if there is one.
    fn release_control(&mut self, actions: &mut Vec<Action>)
        ensures
            final(self)@ == old(self)@.control_released(),
            views(final(actions)@) == views(old(actions)@) + old(self)@.control_release(),
    {
        let ghost before = self@;
        let ghost start = views(actions@);
        match self.niri.remote_desktop.controlling {
            Some(previous) => {
                self.niri.remote_desktop.controlling = None;
                self.destroy_remote_desktop_session(previous, false, true, actions);
                assert(self@ =~= before.control_released());
                assert(views(actions@) =~= start + before.control_release());
            },
            None => {
                assert(views(actions@) =~= start + before.control_release());
            },
        }
    }

    /// Creates a session, and destroys the one in control if the new one takes control.
    pub fn create_remote_desktop_session(
        &mut self,
        id: RemoteDesktopSessionId,
        persistent: bool,
        takes_control: bool,
        disable_animations: bool,
        reply: ReplyHandle,
        actions: &mut Vec<Action>,
    )
        ensures
            final(self)@ == old(self)@.session_added(
                id,
                persistent,
                takes_control,
                disable_animations,
            ),
            views(final(actions)@) == views(old(actions)@) + old(self)@.session_addition(
                id,
                takes_control,
                reply,
            ),
            old(self)@.valid() && (takes_control || old(self)@.remote_desktop.controlling != Some(
                id,
            )) ==> final(self)@.valid(),
    {
        broadcast use {group_views, group_map_views};

        let ghost before = self@;
        proof {
            if before.valid() && (takes_control || before.remote_desktop.controlling != Some(id)) {
                adding_keeps_valid(before, id, persistent, takes_control, disable_animations);
            }
        }
        let ghost start = views(actions@);
        if takes_control {
            self.release_control(actions);
            self.niri.remote_desktop.controlling = Some(id);
        }
        let ghost released = if takes_control {
            before.control_release()
        } else {
            Seq::empty()
        };
        assert(views(actions@) =~= start + released);

        let session = Session {
            persistent,
            has_control: takes_control,
            disable_animations,
            eis: None,
            eis_bound: Capabilities::empty(),
            clipboard: None,
            streams: Vec::new(),
        };
        assert(session@ =~= SessionView::fresh(persistent, takes_control, disable_animations));
        if let Some(replaced) = self.niri.remote_desktop.sessions.insert(id, session) {
            replaced.discard(actions);
        }
        actions.push(Action::ListVirtualOutputs { reply });
        assert(self@ =~= before.session_added(id, persistent, takes_control, disable_animations));
        assert(views(actions@) =~= start + before.session_addition(id, takes_control, reply));
    }

    /// Called with the virtual outputs that exist once a session was created.
    pub fn session_created(&mut self, virtual_outputs: &Vec<String>, reply: ReplyHandle) -> (actions:
        Vec<Action>)
        requires
            old(self)@.remote_desktop.to_dbus ==> old(self).niri.monitor_ids.can_supply(
                virtual_outputs.len() as int,
            ),
        ensures
            final(self)@ == old(self)@.monitors_refreshed(
                views(virtual_outputs@),
            ).animations_refreshed(),
            views(actions@) == old(self)@.monitor_changes(views(virtual_outputs@)).push(
                ActionView::Reply {
                    to: reply,
                    reply: ReplyView::Monitors(Ok(infos(final(self)@.remote_desktop.monitors))),
                },
            ),
            old(self)@.valid() ==> final(self)@.valid(),
    {
        broadcast use group_views;

        let mut actions: Vec<Action> = Vec::new();
        self.refresh_remote_desktop_monitors(virtual_outputs, &mut actions);
        self.refresh_remote_desktop_animations();
        let monitors = all_infos(&self.niri.remote_desktop.monitors);
        assert(views(actions@) =~= old(self)@.monitor_changes(views(virtual_outputs@)));
        actions.push(Action::Reply { to: reply, reply: Reply::Monitors(Ok(monitors)) });
        actions
    }
}

} // verus!
