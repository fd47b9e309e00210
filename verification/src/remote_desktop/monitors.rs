//! Creating, removing and resizing virtual monitors.

use vstd::prelude::*;
use vstd::string::*;

use super::actions::{Action, ActionView, Reply, ReplyView};
use super::laws::{new_monitors_keep_valid, removed_monitors_are_gone};
use super::{
    ConfiguredMode, Monitor, MonitorView, RefreshRate, RemoteDesktopState, RemoteDesktopView,
};
use crate::dbus::remote_desktop::messages::{NiriToRemoteDesktop, NoticeView, ReplyHandle};
use crate::niri::{NiriView, State};
use crate::utils::lists::{
    group_views, holds, lemma_filter_empty, lemma_filter_push, lemma_take_push, view_of, views,
};
use crate::utils::{RemoteDesktopMonitorId, RemoteDesktopSessionId};

verus! {

/// The width, height and refresh rate that new virtual monitors start with. A rate that is not a
/// number comes out as zero; any other is between 1 and 1000 hertz.
pub open spec fn starting_mode(default_mode: Option<ConfiguredMode>) -> (u16, u16, u32) {
    match default_mode {
        Some(mode) => (
            mode.width,
            mode.height,
            match mode.refresh {
                Some(RefreshRate::Hertz(refresh)) => if refresh < 1 {
                    1
                } else if refresh > 1000 {
                    1000
                } else {
                    refresh as u32
                },
                Some(RefreshRate::NotANumber) => 0,
                None => 60,
            },
        ),
        None => (1920, 1080, 60),
    }
}

/// The width, height and refresh rate that a new virtual monitor starts with.
pub fn new_monitor_mode(default_mode: Option<ConfiguredMode>) -> (mode: (u16, u16, u32))
    ensures
        mode == starting_mode(default_mode),
{
    let mode = match default_mode {
        Some(mode) => mode,
        None => ConfiguredMode {
            width: 1920,
            height: 1080,
            refresh: Some(RefreshRate::Hertz(60)),
        },
    };
    let refresh: u32 = match mode.refresh {
        Some(RefreshRate::Hertz(refresh)) => if refresh < 1 {
            1
        } else if refresh > 1000 {
            1000
        } else {
            refresh as u32
        },
        Some(RefreshRate::NotANumber) => 0,
        None => 60,
    };
    (mode.width, mode.height, refresh)
}

/// Whether a monitor has another number.
pub open spec fn other_than(id: RemoteDesktopMonitorId) -> spec_fn(MonitorView) -> bool {
    |monitor: MonitorView| monitor.id != id
}

/// The mode that an output is given when its stream asks for a size.
#[derive(Debug, Clone, Copy, PartialEq, Eq, Structural)]
pub struct CustomMode {
    pub width: u16,
    pub height: u16,
    /// Refresh rate in millihertz.
    pub refresh: i32,
}

/// The mode for an output whose stream asks for a size.
///
/// It keeps the output's refresh rate, in millihertz; an output without a mode gets 60 Hz.
pub fn resized_mode(width: u16, height: u16, current_refresh: Option<i32>) -> (mode: CustomMode)
    ensures
        mode.width == width,
        mode.height == height,
        mode.refresh == match current_refresh {
            Some(refresh) => refresh,
            None => 60_000,
        },
{
    let refresh: i32 = match current_refresh {
        Some(refresh) => refresh,
        None => 60_000,
    };
    CustomMode { width, height, refresh }
}

impl NiriView {
    /// What asking for a monitor does.
    pub open spec fn monitor_request(
        self,
        session: RemoteDesktopSessionId,
        name: Option<Seq<char>>,
        persistent: bool,
        reply: ReplyHandle,
    ) -> Seq<ActionView> {
        if self.remote_desktop.sessions.contains_key(session) {
            let (width, height, refresh) = starting_mode(self.remote_desktop.default_mode);
            seq![
                ActionView::CreateVirtualOutput {
                    session,
                    persistent,
                    width,
                    height,
                    refresh,
                    name,
                    reply,
                },
            ]
        } else {
            seq![
                ActionView::Reply {
                    to: reply,
                    reply: ReplyView::Monitor(Err("no such session"@)),
                },
            ]
        }
    }

    /// The monitor that is made for a new virtual output.
    pub open spec fn new_monitor(
        self,
        session: RemoteDesktopSessionId,
        persistent: bool,
        output: Seq<char>,
    ) -> MonitorView {
        MonitorView {
            id: self.next_monitor,
            output_name: output,
            owner: Some(session),
            persistent,
        }
    }

    /// The compositor with a monitor for a new virtual output.
    pub open spec fn monitor_added(self, monitor: MonitorView) -> NiriView {
        NiriView {
            remote_desktop: RemoteDesktopView {
                monitors: self.remote_desktop.monitors.push(monitor),
                ..self.remote_desktop
            },
            next_monitor: (self.next_monitor + 1) as u64,
            ..self
        }
    }

    /// What asking for a monitor to go does. Only its owner may remove it.
    pub open spec fn monitor_removal_request(
        self,
        session: RemoteDesktopSessionId,
        monitor: RemoteDesktopMonitorId,
        reply: ReplyHandle,
    ) -> Seq<ActionView> {
        match self.remote_desktop.monitor_index(monitor) {
            None => seq![
                ActionView::Reply {
                    to: reply,
                    reply: ReplyView::Done(Err("no such monitor"@)),
                },
            ],
            Some(index) => if self.remote_desktop.monitors[index].owner == Some(session) {
                seq![
                    ActionView::RemoveOwnedOutput {
                        monitor,
                        name: self.remote_desktop.monitors[index].output_name,
                        reply,
                    },
                ]
            } else {
                seq![
                    ActionView::Reply {
                        to: reply,
                        reply: ReplyView::Done(Err("this monitor belongs to another session"@)),
                    },
                ]
            },
        }
    }

    /// The compositor without a monitor.
    pub open spec fn monitor_dropped(self, monitor: RemoteDesktopMonitorId) -> NiriView {
        NiriView {
            remote_desktop: RemoteDesktopView {
                monitors: self.remote_desktop.monitors.filter(other_than(monitor)),
                ..self.remote_desktop
            },
            ..self
        }
    }

    /// What it does that a consumer of a monitor's stream asks for a size.
    ///
    /// Monitors that belong to no session keep their size, and so does one that is asked for a size
    /// that no mode can have.
    pub open spec fn resize_request(
        self,
        monitor: RemoteDesktopMonitorId,
        width: u32,
        height: u32,
    ) -> Seq<ActionView> {
        match self.remote_desktop.monitor_index(monitor) {
            Some(index) if self.remote_desktop.monitors[index].owner is Some && width <= u16::MAX
                && height <= u16::MAX => seq![
                ActionView::ResizeOutput {
                    name: self.remote_desktop.monitors[index].output_name,
                    width: width as u16,
                    height: height as u16,
                },
            ],
            _ => Seq::empty(),
        }
    }
}

impl RemoteDesktopState {
    /// Removes the monitor with the given number.
    pub fn drop_monitor(&mut self, monitor: RemoteDesktopMonitorId)
        ensures
            final(self)@ == (RemoteDesktopView {
                monitors: old(self)@.monitors.filter(other_than(monitor)),
                ..old(self)@
            }),
    {
        let ghost before = self@;
        let ghost all = before.monitors;
        let ghost keep = other_than(monitor);
        let ghost mut seen: int = 0;
        let mut i: usize = 0;
        proof {
            lemma_filter_empty(keep);
            assert(all.take(0) =~= Seq::<MonitorView>::empty());
            assert(all.skip(0) =~= all);
            assert(Seq::<MonitorView>::empty() + all =~= all);
        }
        while i < self.monitors.len()
            invariant
                before == old(self)@,
                all == before.monitors,
                keep == other_than(monitor),
                0 <= seen <= all.len(),
                i == all.take(seen).filter(keep).len(),
                i + all.len() - seen == self.monitors.len(),
                self@ == (RemoteDesktopView {
                    monitors: all.take(seen).filter(keep) + all.skip(seen),
                    ..before
                }),
            decreases all.len() - seen,
        {
            let ghost left = all.take(seen).filter(keep);
            proof {
                lemma_take_push(all, seen);
                lemma_filter_push(all.take(seen), all[seen], keep);
                assert(all.skip(seen) =~= seq![all[seen]] + all.skip(seen + 1));
                assert(self@.monitors[i as int] == all[seen]);
                assert(self.monitors@[i as int]@ == all[seen]);
            }
            if self.monitors[i].id != monitor {
                assert(self@.monitors =~= left.push(all[seen]) + all.skip(seen + 1));
                i = i + 1;
            } else {
                let ghost held = self.monitors@;
                self.monitors.remove(i);
                assert(self@.monitors =~= views(held).remove(i as int));
                assert(self@.monitors =~= left + all.skip(seen + 1));
            }
            proof {
                seen = seen + 1;
            }
        }
        assert(all.take(seen) =~= all);
        assert(all.filter(keep) + all.skip(seen) =~= all.filter(keep));
    }
}

impl State {
    /// Asks for a virtual output for a new monitor.
    pub fn create_remote_desktop_monitor(
        &mut self,
        session: RemoteDesktopSessionId,
        name: Option<String>,
        persistent: bool,
        reply: ReplyHandle,
    ) -> (actions: Vec<Action>)
        ensures
            final(self)@ == old(self)@,
            views(actions@) == old(self)@.monitor_request(
                session,
                view_of(name),
                persistent,
                reply,
            ),
    {
        broadcast use {group_views, crate::utils::lists::group_map_views};

        let mut actions: Vec<Action> = Vec::new();
        if !self.niri.remote_desktop.sessions.contains_key(&session) {
            let error = "no such session".to_owned();
            actions.push(Action::Reply { to: reply, reply: Reply::Monitor(Err(error)) });
        } else {
            let (width, height, refresh) = new_monitor_mode(self.niri.remote_desktop.default_mode);
            actions.push(
                Action::CreateVirtualOutput {
                    session,
                    persistent,
                    width,
                    height,
                    refresh,
                    name,
                    reply,
                },
            );
        }
        assert(views(actions@) =~= old(self)@.monitor_request(
            session,
            view_of(name),
            persistent,
            reply,
        ));
        actions
    }

    /// Called with the name of a virtual output that was created for a session, or with the reason
    /// why there is none.
    ///
    /// The creating session gets its object from the D-Bus method itself; the notice tells the
    /// others.
    pub fn virtual_output_created(
        &mut self,
        session: RemoteDesktopSessionId,
        persistent: bool,
        result: Result<String, String>,
        reply: ReplyHandle,
    ) -> (actions: Vec<Action>)
        requires
            result is Ok ==> old(self).niri.monitor_ids.can_supply(1),
        ensures
            match result {
                Ok(output) => {
                    let monitor = old(self)@.new_monitor(session, persistent, output@);
                    &&& final(self)@ == old(self)@.monitor_added(monitor)
                    &&& views(actions@) == old(self)@.remote_desktop.notice(
                        NoticeView::MonitorAdded(monitor.info()),
                    ).push(
                        ActionView::Reply {
                            to: reply,
                            reply: ReplyView::Monitor(Ok(monitor.info())),
                        },
                    )
                },
                Err(error) => {
                    &&& final(self)@ == old(self)@
                    &&& views(actions@) == seq![
                        ActionView::Reply {
                            to: reply,
                            reply: ReplyView::Monitor(Err(error@)),
                        },
                    ]
                },
            },
            old(self)@.valid() ==> final(self)@.valid(),
    {
        broadcast use group_views;

        let ghost before = self@;
        proof {
            if before.valid() && result is Ok {
                new_monitors_keep_valid(before, session, persistent, (result->Ok_0)@);
            }
        }
        let mut actions: Vec<Action> = Vec::new();
        match result {
            Ok(output_name) => {
                let monitor = Monitor {
                    id: self.niri.monitor_ids.next(),
                    output_name,
                    owner: Some(session),
                    persistent,
                };
                let info = monitor.info();
                let copy = info.clone();
                self.niri.remote_desktop.monitors.push(monitor);
                self.niri.remote_desktop.notify(
                    NiriToRemoteDesktop::MonitorAdded(info),
                    &mut actions,
                );
                assert(views(actions@) =~= before.remote_desktop.notice(
                    NoticeView::MonitorAdded(info@),
                ));
                actions.push(Action::Reply { to: reply, reply: Reply::Monitor(Ok(copy)) });
            },
            Err(error) => {
                actions.push(Action::Reply { to: reply, reply: Reply::Monitor(Err(error)) });
                assert(views(actions@) =~= seq![
                    ActionView::Reply { to: reply, reply: ReplyView::Monitor(Err(error@)) },
                ]);
            },
        }
        actions
    }

    /// Asks for the output of a monitor to be removed, for the session that owns it.
    pub fn remove_remote_desktop_monitor(
        &mut self,
        session: RemoteDesktopSessionId,
        monitor: RemoteDesktopMonitorId,
        reply: ReplyHandle,
    ) -> (actions: Vec<Action>)
        ensures
            final(self)@ == old(self)@,
            views(actions@) == old(self)@.monitor_removal_request(session, monitor, reply),
    {
        broadcast use group_views;

        let mut actions: Vec<Action> = Vec::new();
        match self.niri.remote_desktop.monitor(monitor) {
            None => {
                let error = "no such monitor".to_owned();
                actions.push(Action::Reply { to: reply, reply: Reply::Done(Err(error)) });
            },
            Some(index) => {
                let record = &self.niri.remote_desktop.monitors[index];
                assert(record@ == self@.remote_desktop.monitors[index as int]);
                if holds(record.owner, session) {
                    let name = record.output_name.clone();
                    actions.push(Action::RemoveOwnedOutput { monitor, name, reply });
                } else {
                    let error = "this monitor belongs to another session".to_owned();
                    actions.push(Action::Reply { to: reply, reply: Reply::Done(Err(error)) });
                }
            },
        }
        assert(views(actions@) =~= old(self)@.monitor_removal_request(session, monitor, reply));
        actions
    }

    /// Called with what came of removing the output of a monitor.
    pub fn virtual_output_removed(
        &mut self,
        monitor: RemoteDesktopMonitorId,
        result: Result<(), String>,
        reply: ReplyHandle,
    ) -> (actions: Vec<Action>)
        ensures
            match result {
                Ok(_) => {
                    &&& final(self)@ == old(self)@.monitor_dropped(monitor)
                    &&& views(actions@) == old(self)@.remote_desktop.notice(
                        NoticeView::MonitorRemoved(monitor),
                    ).push(ActionView::Reply { to: reply, reply: ReplyView::Done(Ok(())) })
                },
                Err(error) => {
                    &&& final(self)@ == old(self)@
                    &&& views(actions@) == seq![
                        ActionView::Reply { to: reply, reply: ReplyView::Done(Err(error@)) },
                    ]
                },
            },
            old(self)@.valid() ==> final(self)@.valid(),
    {
        broadcast use group_views;

        let ghost before = self@;
        proof {
            if before.valid() {
                removed_monitors_are_gone(before, monitor);
            }
        }
        let mut actions: Vec<Action> = Vec::new();
        match result {
            Ok(_) => {
                self.niri.remote_desktop.drop_monitor(monitor);
                self.niri.remote_desktop.notify(
                    NiriToRemoteDesktop::MonitorRemoved(monitor),
                    &mut actions,
                );
                assert(views(actions@) =~= before.remote_desktop.notice(
                    NoticeView::MonitorRemoved(monitor),
                ));
                actions.push(Action::Reply { to: reply, reply: Reply::Done(Ok(())) });
            },
            Err(error) => {
                actions.push(Action::Reply { to: reply, reply: Reply::Done(Err(error)) });
                assert(views(actions@) =~= seq![
                    ActionView::Reply { to: reply, reply: ReplyView::Done(Err(error@)) },
                ]);
            },
        }
        actions
    }
}

} // verus!
