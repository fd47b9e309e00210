//! How often things are done, and in what order.

use vstd::prelude::*;

use super::actions::{Action, ActionView};
use super::capabilities::Capabilities;
use super::clipboard::{
    ClipboardView, PendingTransfer, SelectionTarget, SessionClipboard, transfers_closed,
    transfers_ended,
};
use super::device_laws::loses;
use super::eis::{
    BoundDevice, DeviceKind, EisActionView, EisConnectionState, EisView, device_made, devices_made,
    devices_removed, free_of, touched_by, unbound,
};
use super::input::{Axis, EiDevice, tuple_axis};
use super::session_laws::{cleared_clipboards_give_everything_up, counted, gives_up};
use super::sessions::{exposed, monitors_left, monitors_removed, named, streams_stopped};
use super::{
    Monitor, MonitorView, RemoteDesktopState, RemoteDesktopView, Session, SessionView, StreamView,
    streams_dropped,
};
use crate::dbus::remote_desktop::messages::{ClipboardType, CursorMode, MonitorInfo, NoticeView};
use crate::niri::{
    Cast, NiriView, casts_left, casts_stopped, of_another, stopping_leaves_the_other_casts,
};
use crate::utils::geometry::Rectangle;
use crate::utils::lists::{
    lemma_filter_empty, lemma_filter_push, lemma_new_of, new_of, only_added, views,
};
use crate::utils::order::{ids_are_listed, ids_of, serials_of};
use crate::utils::{CastSessionId, RemoteDesktopMonitorId, RemoteDesktopSessionId};

verus! {

/// Of the items of a list, each is either kept or left out.
proof fn lemma_parts<T>(items: Seq<T>, keep: spec_fn(T) -> bool, drop: spec_fn(T) -> bool)
    requires
        forall|item: T| #[trigger] keep(item) == !drop(item),
    ensures
        items.filter(keep).len() + items.filter(drop).len() == items.len(),
    decreases items.len(),
{
    if items.len() == 0 {
        assert(items =~= Seq::<T>::empty());
        lemma_filter_empty(keep);
        lemma_filter_empty(drop);
    } else {
        let rest = items.drop_last();
        assert(rest.push(items.last()) =~= items);
        lemma_parts(rest, keep, drop);
        lemma_filter_push(rest, items.last(), keep);
        lemma_filter_push(rest, items.last(), drop);
    }
}

/// Whether a cast belongs to a cast session.
pub open spec fn of_cast_session(session_id: CastSessionId) -> spec_fn(Cast) -> bool {
    |cast: Cast| cast.session_id == session_id
}

/// Stopping a cast session disconnects each of its casts once, the last one first.
pub proof fn casts_are_disconnected_last_first(
    casts: Seq<Cast>,
    session_id: CastSessionId,
    k: int,
)
    ensures
        ({
            let own = casts.filter(of_cast_session(session_id));
            let done = casts_stopped(casts, session_id);
            &&& done.len() == own.len()
            &&& 0 <= k < own.len() ==> done[k] == (ActionView::DisconnectCast {
                stream: own[own.len() - 1 - k].stream,
            })
        }),
    decreases casts.len(),
{
    let own = of_cast_session(session_id);
    if casts.len() == 0 {
        assert(casts =~= Seq::<Cast>::empty());
        lemma_filter_empty(own);
    } else {
        let rest = casts.drop_last();
        assert(rest.push(casts.last()) =~= casts);
        lemma_filter_push(rest, casts.last(), own);
        casts_are_disconnected_last_first(
            rest,
            session_id,
            if own(casts.last()) {
                k - 1
            } else {
                k
            },
        );
    }
}

/// Stopping a cast session disconnects as many casts as it takes out.
pub proof fn each_cast_stays_or_is_disconnected(casts: Seq<Cast>, session_id: CastSessionId)
    ensures
        casts_left(casts, session_id, casts.len()).len() + casts_stopped(casts, session_id).len()
            == casts.len(),
{
    broadcast use vstd::seq_lib::group_to_multiset_ensures;

    casts_are_disconnected_last_first(casts, session_id, 0);
    stopping_leaves_the_other_casts(casts, session_id);
    lemma_parts(casts, of_cast_session(session_id), of_another(session_id));
    let left = casts_left(casts, session_id, casts.len());
    let kept = casts.filter(of_another(session_id));
    assert(left.to_multiset().len() == left.len());
    assert(kept.to_multiset().len() == kept.len());
}

proof fn lemma_none_leaves(casts: Seq<Cast>, session_id: CastSessionId, from: nat)
    requires
        forall|j: int| 0 <= j < from ==> (#[trigger] casts[j]).session_id != session_id,
    ensures
        casts_left(casts, session_id, from) == casts,
    decreases from,
{
    if from > 0 && from <= casts.len() {
        assert(casts[from - 1].session_id != session_id);
        lemma_none_leaves(casts, session_id, (from - 1) as nat);
    }
}

proof fn lemma_one_leaves(casts: Seq<Cast>, session_id: CastSessionId, from: nat, index: int)
    requires
        0 <= index < from <= casts.len(),
        forall|j: int|
            0 <= j < from ==> ((#[trigger] casts[j]).session_id == session_id) == (j == index),
    ensures
        casts_left(casts, session_id, from) == casts.update(index, casts.last()).drop_last(),
    decreases from,
{
    if from - 1 == index {
        assert(casts[from - 1].session_id == session_id);
        let left = casts.update(index, casts.last()).drop_last();
        assert forall|j: int| 0 <= j < index implies (#[trigger] left[j]).session_id
            != session_id by {
            assert(left[j] == casts[j]);
        }
        lemma_none_leaves(left, session_id, index as nat);
    } else {
        assert(casts[from - 1].session_id != session_id);
        lemma_one_leaves(casts, session_id, (from - 1) as nat, index);
    }
}

/// Where one cast is taken out, the last one takes its place, and every other one keeps its own.
pub proof fn the_last_cast_takes_the_free_place(
    casts: Seq<Cast>,
    session_id: CastSessionId,
    index: int,
)
    requires
        0 <= index < casts.len(),
        forall|j: int|
            0 <= j < casts.len() ==> ((#[trigger] casts[j]).session_id == session_id) == (j
                == index),
    ensures
        casts_left(casts, session_id, casts.len()) == casts.update(index, casts.last()).drop_last(),
{
    lemma_one_leaves(casts, session_id, casts.len(), index);
}

/// Whether a call waits for a stream.
pub open spec fn waited_for() -> spec_fn(StreamView) -> bool {
    |stream: StreamView| stream.pending_reply is Some
}

/// Stopping one stream disconnects its casts, and then lets go of the call that waits for it.
pub proof fn streams_are_stopped_before_their_calls_go(casts: Seq<Cast>, stream: StreamView)
    ensures
        streams_stopped(casts, seq![stream]).0 == casts_left(
            casts,
            stream.cast_session_id,
            casts.len(),
        ),
        streams_stopped(casts, seq![stream]).1 == casts_stopped(casts, stream.cast_session_id) + (
        match stream.pending_reply {
            Some(to) => seq![ActionView::DropReply { to }],
            None => Seq::empty(),
        }),
{
    let none = seq![stream].drop_last();
    assert(none.len() == 0);
    assert(streams_stopped(casts, none) == (casts, Seq::<ActionView>::empty()));
    let stopped = casts_stopped(casts, stream.cast_session_id);
    assert(Seq::<ActionView>::empty() + stopped =~= stopped);
}

/// Streams are stopped one after the other: those that come first are done with before the others.
pub proof fn streams_are_stopped_in_order(
    casts: Seq<Cast>,
    first: Seq<StreamView>,
    second: Seq<StreamView>,
)
    ensures
        ({
            let (left, actions) = streams_stopped(casts, first);
            let both = streams_stopped(casts, first + second);
            &&& both.0 == streams_stopped(left, second).0
            &&& both.1 == actions + streams_stopped(left, second).1
        }),
    decreases second.len(),
{
    let (left, actions) = streams_stopped(casts, first);
    if second.len() == 0 {
        assert(first + second =~= first);
        assert(actions + Seq::<ActionView>::empty() =~= actions);
    } else {
        let rest = second.drop_last();
        streams_are_stopped_in_order(casts, first, rest);
        assert((first + second).drop_last() =~= first + rest);
        assert((first + second).last() == second.last());
        assert(streams_stopped(casts, first + second).1 =~= actions + streams_stopped(
            left,
            second,
        ).1);
    }
}

/// Stopping some streams disconnects each cast that it takes out once, and lets go of each call that
/// waits once.
pub proof fn streams_are_stopped_once(casts: Seq<Cast>, streams: Seq<StreamView>)
    ensures
        streams_stopped(casts, streams).0.len() + streams_stopped(casts, streams).1.len()
            == casts.len() + streams.filter(waited_for()).len(),
    decreases streams.len(),
{
    if streams.len() == 0 {
        assert(streams =~= Seq::<StreamView>::empty());
        lemma_filter_empty(waited_for());
    } else {
        let rest = streams.drop_last();
        assert(rest.push(streams.last()) =~= streams);
        streams_are_stopped_once(casts, rest);
        lemma_filter_push(rest, streams.last(), waited_for());
        each_cast_stays_or_is_disconnected(
            streams_stopped(casts, rest).0,
            streams.last().cast_session_id,
        );
    }
}

/// Letting go of some streams lets go of each call that waits once, in the order of the streams.
pub proof fn calls_are_let_go_in_order(streams: Seq<StreamView>, k: int)
    ensures
        ({
            let waiting = streams.filter(waited_for());
            &&& streams_dropped(streams).len() == waiting.len()
            &&& 0 <= k < waiting.len() ==> (
            streams_dropped(streams)[k] matches ActionView::DropReply { to }
                && waiting[k].pending_reply == Some(to))
        }),
    decreases streams.len(),
{
    if streams.len() == 0 {
        assert(streams =~= Seq::<StreamView>::empty());
        lemma_filter_empty(waited_for());
    } else {
        let rest = streams.drop_last();
        assert(rest.push(streams.last()) =~= streams);
        calls_are_let_go_in_order(rest, k);
        lemma_filter_push(rest, streams.last(), waited_for());
    }
}

/// Whether a monitor belongs to a session.
pub open spec fn owned_by(session: RemoteDesktopSessionId) -> spec_fn(MonitorView) -> bool {
    |monitor: MonitorView| monitor.owner == Some(session)
}

/// Whether a monitor does not belong to a session.
pub open spec fn not_owned_by(session: RemoteDesktopSessionId) -> spec_fn(MonitorView) -> bool {
    |monitor: MonitorView| monitor.owner != Some(session)
}

/// The monitors that go with a session go one after the other, in their order: the output of each is
/// removed once, and where somebody listens, the D-Bus side hears of that one next.
pub proof fn monitors_go_in_order(
    to_dbus: bool,
    monitors: Seq<MonitorView>,
    session: RemoteDesktopSessionId,
    k: int,
)
    ensures
        ({
            let own = monitors.filter(owned_by(session));
            let done = monitors_removed(to_dbus, monitors, session, true);
            &&& to_dbus ==> done.len() == 2 * own.len()
            &&& to_dbus && 0 <= k < own.len() ==> {
                &&& done[2 * k] == (ActionView::RemoveVirtualOutput { name: own[k].output_name })
                &&& done[2 * k + 1] == ActionView::Notify(NoticeView::MonitorRemoved(own[k].id))
            }
            &&& !to_dbus ==> done.len() == own.len()
            &&& !to_dbus && 0 <= k < own.len() ==> done[k] == (ActionView::RemoveVirtualOutput {
                name: own[k].output_name,
            })
        }),
        monitors_removed(to_dbus, monitors, session, false).len() == 0,
    decreases monitors.len(),
{
    let own = owned_by(session);
    if monitors.len() == 0 {
        assert(monitors =~= Seq::<MonitorView>::empty());
        lemma_filter_empty(own);
    } else {
        let rest = monitors.drop_last();
        assert(rest.push(monitors.last()) =~= monitors);
        monitors_go_in_order(to_dbus, rest, session, k);
        lemma_filter_push(rest, monitors.last(), own);
    }
}

proof fn lemma_outlives(monitors: Seq<MonitorView>, session: RemoteDesktopSessionId)
    ensures
        monitors.filter(super::sessions::outlives(session, true)) == monitors.filter(
            not_owned_by(session),
        ),
        monitors.filter(super::sessions::outlives(session, false)) == monitors,
    decreases monitors.len(),
{
    let all = super::sessions::outlives(session, false);
    let others = super::sessions::outlives(session, true);
    if monitors.len() == 0 {
        assert(monitors =~= Seq::<MonitorView>::empty());
        lemma_filter_empty(all);
        lemma_filter_empty(others);
        lemma_filter_empty(not_owned_by(session));
    } else {
        let rest = monitors.drop_last();
        assert(rest.push(monitors.last()) =~= monitors);
        lemma_outlives(rest, session);
        lemma_filter_push(rest, monitors.last(), all);
        lemma_filter_push(rest, monitors.last(), others);
        lemma_filter_push(rest, monitors.last(), not_owned_by(session));
    }
}

/// The monitors that a session leaves stay in their order, as they are but for the owner.
pub proof fn monitors_stay_in_order(
    monitors: Seq<MonitorView>,
    session: RemoteDesktopSessionId,
    k: int,
)
    ensures
        ({
            let others = monitors.filter(not_owned_by(session));
            let left = monitors_left(monitors, session, true);
            &&& left.len() == others.len()
            &&& 0 <= k < others.len() ==> left[k] == others[k]
        }),
        ({
            let left = monitors_left(monitors, session, false);
            &&& left.len() == monitors.len()
            &&& 0 <= k < monitors.len() && monitors[k].owner == Some(session) ==> left[k] == (
            MonitorView { owner: None, ..monitors[k] })
            &&& 0 <= k < monitors.len() && monitors[k].owner != Some(session) ==> left[k]
                == monitors[k]
        }),
{
    lemma_outlives(monitors, session);
    let others = monitors.filter(not_owned_by(session));
    if 0 <= k < others.len() {
        assert(others.contains(others[k]));
        crate::utils::lists::lemma_filter_contains(monitors, not_owned_by(session), others[k]);
    }
}

/// Whether a transfer has an fd that nobody took.
pub open spec fn has_fd(pending: Map<u32, PendingTransfer>) -> spec_fn(u32) -> bool {
    |serial: u32| pending[serial].fd is Some
}

/// Whether a timer runs for a transfer.
pub open spec fn has_timer(pending: Map<u32, PendingTransfer>) -> spec_fn(u32) -> bool {
    |serial: u32| pending[serial].timeout is Some
}

/// Ending some transfers stops each timer once and closes each fd once; letting go of them closes
/// each fd once.
pub proof fn transfers_end_once(pending: Map<u32, PendingTransfer>, serials: Seq<u32>)
    ensures
        transfers_ended(pending, serials).len() == serials.filter(has_fd(pending)).len()
            + serials.filter(has_timer(pending)).len(),
        transfers_closed(pending, serials).len() == serials.filter(has_fd(pending)).len(),
    decreases serials.len(),
{
    if serials.len() == 0 {
        assert(serials =~= Seq::<u32>::empty());
        lemma_filter_empty(has_fd(pending));
        lemma_filter_empty(has_timer(pending));
    } else {
        let rest = serials.drop_last();
        assert(rest.push(serials.last()) =~= serials);
        transfers_end_once(pending, rest);
        lemma_filter_push(rest, serials.last(), has_fd(pending));
        lemma_filter_push(rest, serials.last(), has_timer(pending));
    }
}

/// Transfers end one after the other: those that come first are done with before the others.
pub proof fn transfers_end_in_order(
    pending: Map<u32, PendingTransfer>,
    first: Seq<u32>,
    second: Seq<u32>,
)
    ensures
        transfers_ended(pending, first + second) == transfers_ended(pending, first)
            + transfers_ended(pending, second),
        transfers_closed(pending, first + second) == transfers_closed(pending, first)
            + transfers_closed(pending, second),
    decreases second.len(),
{
    if second.len() == 0 {
        assert(first + second =~= first);
        assert(transfers_ended(pending, first) + Seq::<ActionView>::empty() =~= transfers_ended(
            pending,
            first,
        ));
        assert(transfers_closed(pending, first) + Seq::<ActionView>::empty() =~= transfers_closed(
            pending,
            first,
        ));
    } else {
        let rest = second.drop_last();
        transfers_end_in_order(pending, first, rest);
        assert((first + second).drop_last() =~= first + rest);
        assert((first + second).last() == second.last());
        assert(transfers_ended(pending, first + second) =~= transfers_ended(pending, first)
            + transfers_ended(pending, second));
        assert(transfers_closed(pending, first + second) =~= transfers_closed(pending, first)
            + transfers_closed(pending, second));
    }
}

/// Clearing a clipboard gives up each selection that it offers once, the clipboard before the primary
/// selection, and then ends the transfers.
pub proof fn selections_are_given_up_first(clipboard: ClipboardView, i: int)
    ensures
        ({
            let first = clipboard.offered.contains_key(ClipboardType::Clipboard);
            let second = clipboard.offered.contains_key(ClipboardType::Primary);
            let serials = serials_of(clipboard.pending.dom());
            let done = clipboard.cleared();
            let offered: int = if first && second {
                2
            } else if first || second {
                1
            } else {
                0
            };
            &&& done.len() == offered + serials.filter(has_fd(clipboard.pending)).len()
                + serials.filter(has_timer(clipboard.pending)).len()
            &&& 0 <= i < done.len() ==> (done[i] is ClearSelection <==> i < offered)
            &&& first ==> done[0] == (ActionView::ClearSelection {
                target: SelectionTarget::Clipboard,
            })
            &&& second ==> done[offered - 1] == (ActionView::ClearSelection {
                target: SelectionTarget::Primary,
            })
            &&& done.skip(offered) == transfers_ended(clipboard.pending, serials)
        }),
        clipboard.dropped().len() == serials_of(clipboard.pending.dom()).filter(
            has_fd(clipboard.pending),
        ).len(),
{
    let first = clipboard.offered.contains_key(ClipboardType::Clipboard);
    let second = clipboard.offered.contains_key(ClipboardType::Primary);
    let serials = serials_of(clipboard.pending.dom());
    let offered: int = if first && second {
        2
    } else if first || second {
        1
    } else {
        0
    };
    let done = clipboard.cleared();
    assert(clipboard.offered_types().len() == offered);
    transfers_end_once(clipboard.pending, serials);
    assert(done.skip(offered) =~= transfers_ended(clipboard.pending, serials));
    if offered <= i < done.len() {
        lemma_no_selection(clipboard.pending, serials, i - offered);
        assert(done[i] == done.skip(offered)[i - offered]);
    }
}

proof fn lemma_no_selection(pending: Map<u32, PendingTransfer>, serials: Seq<u32>, i: int)
    requires
        0 <= i < transfers_ended(pending, serials).len(),
    ensures
        !(transfers_ended(pending, serials)[i] is ClearSelection),
    decreases serials.len(),
{
    if serials.len() > 0 && i < transfers_ended(pending, serials.drop_last()).len() {
        lemma_no_selection(pending, serials.drop_last(), i);
    }
}

/// A session ends in this order, and each thing is done once: its streams are stopped, the source of
/// its EIS connection is removed, its clipboard is cleared, its monitors go, and last the D-Bus side
/// hears of it.
pub proof fn sessions_end_in_order(
    niri: NiriView,
    id: RemoteDesktopSessionId,
    remove: bool,
    notify: bool,
)
    requires
        niri.remote_desktop.sessions.contains_key(id),
    ensures
        ({
            let desktop = niri.remote_desktop;
            let session = desktop.sessions[id];
            let after = niri.session_destroyed(id, remove);
            let done = niri.destruction(id, remove, notify);
            let streams: int = niri.casts.len() - after.casts.len() + session.streams.filter(
                waited_for(),
            ).len();
            let source: int = if session.eis is Some {
                1
            } else {
                0
            };
            let cleared: int = match session.clipboard {
                Some(clipboard) => clipboard.cleared().len() as int,
                None => 0,
            };
            let monitors: int = (desktop.monitors.len() - after.remote_desktop.monitors.len()) * (
            if desktop.to_dbus {
                2int
            } else {
                1int
            });
            let heard: int = if notify && desktop.to_dbus {
                1
            } else {
                0
            };
            &&& done.len() == streams + source + cleared + monitors + heard
            &&& done.take(streams) == streams_stopped(niri.casts, session.streams).1
            &&& session.eis matches Some(eis) ==> done[streams] == (ActionView::RemoveSource {
                token: eis.token,
            })
            &&& session.clipboard matches Some(clipboard) ==> done.skip(streams + source).take(
                cleared,
            ) == clipboard.cleared()
            &&& done.skip(streams + source + cleared).take(monitors) == monitors_removed(
                desktop.to_dbus,
                desktop.monitors,
                id,
                remove || !session.persistent,
            )
            &&& heard == 1 ==> done.last() == ActionView::Notify(NoticeView::SessionDestroyed(id))
        }),
{
    let desktop = niri.remote_desktop;
    let session = desktop.sessions[id];
    let after = niri.session_destroyed(id, remove);
    let done = niri.destruction(id, remove, notify);
    let drop_monitors = remove || !session.persistent;
    let stopped = streams_stopped(niri.casts, session.streams);
    let eis = session.eis_removed();
    let cleared = session.clipboard_cleared();
    let removed = monitors_removed(desktop.to_dbus, desktop.monitors, id, drop_monitors);
    streams_are_stopped_once(niri.casts, session.streams);
    monitors_go_in_order(desktop.to_dbus, desktop.monitors, id, 0);
    monitors_stay_in_order(desktop.monitors, id, 0);
    lemma_parts(desktop.monitors, owned_by(id), not_owned_by(id));
    assert(after.casts == stopped.0);
    let streams: int = stopped.1.len() as int;
    let source: int = eis.len() as int;
    let clipboard: int = cleared.len() as int;
    let monitors: int = removed.len() as int;
    assert(done.take(streams) =~= stopped.1);
    assert(done.skip(streams + source).take(clipboard) =~= cleared);
    assert(done.skip(streams + source + clipboard).take(monitors) =~= removed);
}

/// A refresh tells of the monitors that are gone first, in their order, and then of those that are
/// new, in theirs; the monitors that exist stay in their order in front of the new ones.
pub proof fn refreshes_tell_of_the_gone_first(niri: NiriView, outputs: Seq<Seq<char>>, k: int)
    requires
        niri.remote_desktop.to_dbus,
    ensures
        ({
            let before = niri.remote_desktop.monitors;
            let kept = before.filter(|monitor: MonitorView| outputs.contains(monitor.output_name));
            let gone = before.filter(|monitor: MonitorView| !outputs.contains(monitor.output_name));
            let after = niri.monitors_refreshed(outputs).remote_desktop.monitors;
            let done = niri.monitor_changes(outputs);
            &&& kept.len() + gone.len() == before.len()
            &&& kept.len() <= after.len()
            &&& after.take(kept.len() as int) == kept
            &&& done.len() == gone.len() + after.len() - kept.len()
            &&& 0 <= k < gone.len() ==> done[k] == ActionView::Notify(
                NoticeView::MonitorRemoved(gone[k].id),
            )
            &&& gone.len() <= k < done.len() ==> {
                let monitor = after[k - gone.len() + kept.len()];
                &&& done[k] matches ActionView::Notify(NoticeView::MonitorAdded(info))
                &&& info.id == monitor.id
                &&& info.name == monitor.output_name
                &&& info.owner == monitor.owner
            }
        }),
{
    let before = niri.remote_desktop.monitors;
    let keep = |monitor: MonitorView| outputs.contains(monitor.output_name);
    let drop = |monitor: MonitorView| !outputs.contains(monitor.output_name);
    assert(super::sessions::backed_by(outputs) =~= keep);
    assert(super::sessions::not_backed_by(outputs) =~= drop);
    lemma_parts(before, keep, drop);
    super::sessions::lemma_exposed(before.filter(keep), outputs, niri.next_monitor);
}

/// Outputs that no monitor stands for, and that are named once, get their monitors in their order.
pub proof fn new_outputs_get_monitors_in_order(
    monitors: Seq<MonitorView>,
    outputs: Seq<Seq<char>>,
    next: u64,
    k: int,
)
    requires
        forall|i: int, j: int|
            0 <= i < j < outputs.len() ==> #[trigger] outputs[i] != #[trigger] outputs[j],
        forall|i: int, j: int|
            0 <= i < monitors.len() && 0 <= j < outputs.len() ==> (
            #[trigger] monitors[i]).output_name != #[trigger] outputs[j],
    ensures
        exposed(monitors, outputs, next).len() == monitors.len() + outputs.len(),
        0 <= k < outputs.len() ==> exposed(monitors, outputs, next)[monitors.len()
            + k].output_name == outputs[k],
    decreases outputs.len(),
{
    if outputs.len() > 0 {
        let rest = outputs.drop_last();
        let before = exposed(monitors, rest, next);
        new_outputs_get_monitors_in_order(monitors, rest, next, k);
        super::sessions::lemma_exposed(monitors, rest, next);
        assert forall|i: int| 0 <= i < before.len() implies (#[trigger] before[i]).output_name
            != outputs.last() by {
            new_outputs_get_monitors_in_order(monitors, rest, next, i - monitors.len());
            assert(outputs[outputs.len() - 1] == outputs.last());
            if i < monitors.len() {
                assert(before.take(monitors.len() as int)[i] == monitors[i]);
            } else {
                assert(outputs[i - monitors.len()] == rest[i - monitors.len()]);
            }
        }
        assert(!named(before, outputs.last()));
    }
}

/// The session that is told of a new owner.
pub open spec fn told_session(action: ActionView) -> RemoteDesktopSessionId {
    match action {
        ActionView::Notify(NoticeView::SelectionOwnerChanged { session, .. }) => session,
        _ => 0,
    }
}

proof fn lemma_told_in_order(
    desktop: RemoteDesktopView,
    sessions: Seq<RemoteDesktopSessionId>,
    ty: ClipboardType,
    mime_types: Seq<Seq<char>>,
)
    requires
        forall|i: int, j: int|
            0 <= i < j < sessions.len() ==> #[trigger] sessions[i] < #[trigger] sessions[j],
    ensures
        ({
            let done = desktop.owner_changes(sessions, ty, mime_types);
            &&& forall|i: int|
                0 <= i < done.len() ==> sessions.contains(told_session(#[trigger] done[i]))
            &&& forall|i: int, j: int|
                0 <= i < j < done.len() ==> told_session(#[trigger] done[i]) < told_session(
                    #[trigger] done[j],
                )
        }),
    decreases sessions.len(),
{
    if sessions.len() > 0 {
        let rest = sessions.drop_last();
        let before = desktop.owner_changes(rest, ty, mime_types);
        let done = desktop.owner_changes(sessions, ty, mime_types);
        lemma_told_in_order(desktop, rest, ty, mime_types);
        assert(sessions[sessions.len() - 1] == sessions.last());
        assert forall|i: int| 0 <= i < before.len() implies told_session(#[trigger] done[i])
            < sessions.last() && sessions.contains(told_session(done[i])) by {
            assert(done[i] == before[i]);
            assert(rest.contains(told_session(before[i])));
            let k = choose|k: int| 0 <= k < rest.len() && rest[k] == told_session(before[i]);
            assert(sessions[k] == rest[k]);
        }
        assert forall|i: int, j: int| 0 <= i < j < done.len() implies told_session(
            #[trigger] done[i],
        ) < told_session(#[trigger] done[j]) by {
            if j < before.len() {
                assert(done[i] == before[i] && done[j] == before[j]);
            }
        }
    }
}

/// Each session hears of a new owner once at most, those with a smaller number first.
pub proof fn new_owners_are_told_once(
    niri: NiriView,
    ty: ClipboardType,
    mime_types: Seq<Seq<char>>,
    i: int,
    j: int,
)
    requires
        niri.remote_desktop.sessions.dom().finite(),
    ensures
        ({
            let done = niri.remote_desktop.owner_changes(
                ids_of(niri.remote_desktop.sessions.dom()),
                ty,
                mime_types,
            );
            0 <= i < j < done.len() ==> told_session(done[i]) < told_session(done[j])
        }),
{
    ids_are_listed(niri.remote_desktop.sessions.dom());
    lemma_told_in_order(
        niri.remote_desktop,
        ids_of(niri.remote_desktop.sessions.dom()),
        ty,
        mime_types,
    );
}

/// Where a kind of device stands in the order in which devices are made.
pub open spec fn place_of(kind: DeviceKind) -> int {
    match kind {
        DeviceKind::Pointer => 0,
        DeviceKind::AbsolutePointer => 1,
        DeviceKind::Keyboard => 2,
        DeviceKind::Touchscreen => 3,
    }
}

/// The kind of the device that is made.
pub open spec fn made_kind(action: EisActionView) -> DeviceKind {
    match action {
        EisActionView::AddDevice { kind, .. } => kind,
        _ => DeviceKind::Pointer,
    }
}

proof fn lemma_made_in_order(
    devices: Seq<BoundDevice>,
    asked: Capabilities,
    geometries: Seq<Option<Rectangle>>,
)
    ensures
        ({
            let made = devices_made(devices, asked, geometries);
            &&& forall|i: int| 0 <= i < made.len() ==> (#[trigger] made[i]) is AddDevice
            &&& forall|i: int, j: int|
                0 <= i < j < made.len() ==> place_of(made_kind(#[trigger] made[i])) < place_of(
                    made_kind(#[trigger] made[j]),
                )
        }),
{
    let first = device_made(DeviceKind::Pointer, devices, asked, geometries);
    let second = device_made(DeviceKind::AbsolutePointer, devices, asked, geometries);
    let third = device_made(DeviceKind::Keyboard, devices, asked, geometries);
    let fourth = device_made(DeviceKind::Touchscreen, devices, asked, geometries);
    let made = devices_made(devices, asked, geometries);
    assert(first.len() <= 1 && second.len() <= 1 && third.len() <= 1 && fourth.len() <= 1);
    assert(made =~= first + second + third + fourth);
}

proof fn lemma_lost(devices: Seq<BoundDevice>, bound: Capabilities, asked: Capabilities)
    ensures
        devices.filter(touched_by(unbound(bound, asked))) == devices.filter(
            |device: BoundDevice| loses(device, bound, asked),
        ),
        devices.filter(free_of(unbound(bound, asked))) == devices.filter(
            |device: BoundDevice| !loses(device, bound, asked),
        ),
{
    assert forall|device: BoundDevice| #[trigger]
        touched_by(unbound(bound, asked))(device) == loses(device, bound, asked) by {
        super::device_laws::lemma_loses(device, bound, asked);
    }
    assert forall|device: BoundDevice| #[trigger]
        free_of(unbound(bound, asked))(device) == !loses(device, bound, asked) by {
        super::device_laws::lemma_loses(device, bound, asked);
    }
    assert(touched_by(unbound(bound, asked)) =~= |device: BoundDevice|
        loses(device, bound, asked));
    assert(free_of(unbound(bound, asked)) =~= |device: BoundDevice|
        !loses(device, bound, asked));
}

/// Asking for capabilities removes each device that has to go once, in their order, and then makes at
/// most one device of each kind: the pointer, the absolute pointer, the keyboard and the touchscreen,
/// in this order. The devices that stay keep their order.
pub proof fn devices_go_before_others_are_made(
    connection: EisView,
    asked: Capabilities,
    geometries: Seq<Option<Rectangle>>,
    i: int,
    j: int,
)
    requires
        connection.seat,
    ensures
        ({
            let gone = connection.devices.filter(
                |device: BoundDevice| loses(device, connection.bound, asked),
            );
            let done = connection.bind_actions(asked, geometries);
            &&& gone.len() <= done.len()
            &&& 0 <= i < gone.len() ==> done[i] == (EisActionView::RemoveDevice {
                device: gone[i].handle,
            })
            &&& gone.len() <= i < done.len() ==> done[i] is AddDevice
            &&& gone.len() <= i < j < done.len() ==> place_of(made_kind(done[i])) < place_of(
                made_kind(done[j]),
            )
            &&& connection.after_bind(asked).devices == connection.devices.filter(
                |device: BoundDevice| !loses(device, connection.bound, asked),
            )
        }),
{
    lemma_lost(connection.devices, connection.bound, asked);
    let kept = connection.devices.filter(free_of(unbound(connection.bound, asked)));
    let gone = connection.devices.filter(touched_by(unbound(connection.bound, asked)));
    lemma_made_in_order(kept, asked, geometries);
    let removed = devices_removed(gone);
    let made = devices_made(kept, asked, geometries);
    let done = connection.bind_actions(asked, geometries);
    assert(done == removed + made);
    if gone.len() <= i < done.len() {
        assert(done[i] == made[i - gone.len()]);
    }
    if gone.len() <= j < done.len() {
        assert(done[j] == made[j - gone.len()]);
    }
}

/// What is told about a monitor is its number, its name and its owner.
pub proof fn monitors_tell_who_they_are(monitor: Monitor, info: MonitorInfo)
    requires
        call_ensures(Monitor::info, (&monitor,), info),
    ensures
        info@.id == monitor@.id,
        info@.name == monitor@.output_name,
        info@.owner == monitor@.owner,
{
}

/// Dropping a monitor takes out exactly the one with its number.
pub proof fn dropped_monitors_are_gone(
    desktop: &mut RemoteDesktopState,
    monitor: RemoteDesktopMonitorId,
    record: MonitorView,
)
    requires
        call_ensures(RemoteDesktopState::drop_monitor, (desktop, monitor), ()),
    ensures
        final(desktop)@.monitors.contains(record) == (old(desktop)@.monitors.contains(record)
            && record.id != monitor),
        final(desktop)@ == (RemoteDesktopView {
            monitors: final(desktop)@.monitors,
            ..old(desktop)@
        }),
{
    crate::utils::lists::lemma_filter_contains(
        old(desktop)@.monitors,
        super::monitors::other_than(monitor),
        record,
    );
}

/// Removing the monitors of a session takes them out of the list or disowns them, does what is stated
/// of that behind what was to be done before, and changes nothing else.
pub proof fn session_monitors_are_removed(
    desktop: &mut RemoteDesktopState,
    session: RemoteDesktopSessionId,
    drop_monitors: bool,
    actions: &mut Vec<Action>,
)
    requires
        call_ensures(
            RemoteDesktopState::remove_session_monitors,
            (desktop, session, drop_monitors, actions),
            (),
        ),
    ensures
        only_added(old(actions)@, final(actions)@),
        new_of(old(actions)@, final(actions)@) == monitors_removed(
            old(desktop)@.to_dbus,
            old(desktop)@.monitors,
            session,
            drop_monitors,
        ),
        final(desktop)@.monitors == monitors_left(old(desktop)@.monitors, session, drop_monitors),
        final(desktop)@ == (RemoteDesktopView {
            monitors: final(desktop)@.monitors,
            ..old(desktop)@
        }),
{
    lemma_new_of(
        old(actions)@,
        final(actions)@,
        monitors_removed(old(desktop)@.to_dbus, old(desktop)@.monitors, session, drop_monitors),
    );
}

/// Forgetting the monitors whose outputs are gone keeps the others in their order, and tells of each
/// one that goes once, in theirs.
pub proof fn forgotten_monitors_are_told(
    desktop: &mut RemoteDesktopState,
    outputs: Vec<String>,
    actions: &mut Vec<Action>,
    k: int,
)
    requires
        call_ensures(RemoteDesktopState::forget_monitors, (desktop, &outputs, actions), ()),
    ensures
        ({
            let before = old(desktop)@.monitors;
            let names = views(outputs@);
            let gone = before.filter(|monitor: MonitorView| !names.contains(monitor.output_name));
            let done = new_of(old(actions)@, final(actions)@);
            &&& only_added(old(actions)@, final(actions)@)
            &&& done.len() == gone.len()
            &&& 0 <= k < gone.len() ==> done[k] == ActionView::Notify(
                NoticeView::MonitorRemoved(gone[k].id),
            )
            &&& final(desktop)@.monitors == before.filter(
                |monitor: MonitorView| names.contains(monitor.output_name),
            )
            &&& final(desktop)@ == (RemoteDesktopView {
                monitors: final(desktop)@.monitors,
                ..old(desktop)@
            })
        }),
{
    let before = old(desktop)@.monitors;
    let names = views(outputs@);
    let keep = |monitor: MonitorView| names.contains(monitor.output_name);
    let drop = |monitor: MonitorView| !names.contains(monitor.output_name);
    assert(super::sessions::backed_by(names) =~= keep);
    assert(super::sessions::not_backed_by(names) =~= drop);
    lemma_new_of(
        old(actions)@,
        final(actions)@,
        super::sessions::told_removed(before.filter(drop)),
    );
}

/// Clearing the selections of a session gives up everything that its clipboard has, and leaves the
/// clipboard with nothing but its serials; nothing else of the session changes.
pub proof fn cleared_selections_leave_nothing(
    session: &mut Session,
    actions: &mut Vec<Action>,
    action: ActionView,
)
    requires
        counted(old(session)@.clipboard),
        call_ensures(Session::clear_remote_desktop_selections, (session, actions), ()),
    ensures
        only_added(old(actions)@, final(actions)@),
        new_of(old(actions)@, final(actions)@) == old(session)@.clipboard_cleared(),
        new_of(old(actions)@, final(actions)@).contains(action) == gives_up(
            old(session)@.clipboard,
            action,
        ),
        final(session)@.clipboard is Some <==> old(session)@.clipboard is Some,
        old(session)@.clipboard matches Some(before) ==> {
            &&& final(session)@.clipboard matches Some(after)
            &&& after.offered.dom() == Set::<ClipboardType>::empty()
            &&& after.pending.dom() == Set::<u32>::empty()
            &&& after.next_serial == before.next_serial
        },
        final(session)@ == (SessionView {
            clipboard: final(session)@.clipboard,
            ..old(session)@
        }),
{
    lemma_new_of(old(actions)@, final(actions)@, old(session)@.clipboard_cleared());
    cleared_clipboards_give_everything_up(old(session)@, action);
}

/// A stream is found by its id and its monitor: the first one that has both.
pub proof fn streams_are_found_by_id_and_monitor(
    session: Session,
    id: String,
    monitor: RemoteDesktopMonitorId,
    found: Option<usize>,
    j: int,
)
    requires
        call_ensures(Session::find_stream, (&session, &id, monitor), found),
    ensures
        found matches Some(i) ==> {
            &&& i < session@.streams.len()
            &&& session@.streams[i as int].id == id@
            &&& session@.streams[i as int].monitor == monitor
            &&& 0 <= j < i ==> session@.streams[j].id != id@ || session@.streams[j].monitor
                != monitor
        },
        found is None && 0 <= j < session@.streams.len() ==> session@.streams[j].id != id@
            || session@.streams[j].monitor != monitor,
{
    crate::utils::lists::lemma_first_index(
        session@.streams,
        super::streams::is_stream(id@, monitor),
    );
    if 0 <= j < session@.streams.len() {
        assert(super::streams::is_stream(id@, monitor)(session@.streams[j]) == (
        session@.streams[j].id == id@ && session@.streams[j].monitor == monitor));
    }
}

/// Of what belongs to both axes, the first is for the horizontal one and the second for the vertical
/// one.
pub proof fn axes_pick_their_own<T>(first: T, second: T, horizontal: T, vertical: T)
    requires
        call_ensures(tuple_axis::<T>, ((first, second), Axis::Horizontal), horizontal),
        call_ensures(tuple_axis::<T>, ((first, second), Axis::Vertical), vertical),
    ensures
        horizontal == first,
        vertical == second,
{
}

/// What nothing is said about is plain: the clipboard, the cursor as metadata, and everything else
/// empty.
pub proof fn defaults_are_plain(
    ty: ClipboardType,
    mode: CursorMode,
    clipboard: SessionClipboard,
    connection: EisConnectionState,
    desktop: RemoteDesktopState,
)
    requires
        call_ensures(ClipboardType::default, (), ty),
        call_ensures(CursorMode::default, (), mode),
        call_ensures(SessionClipboard::default, (), clipboard),
        call_ensures(EisConnectionState::default, (), connection),
        call_ensures(RemoteDesktopState::default, (), desktop),
    ensures
        ty == ClipboardType::Clipboard,
        mode == CursorMode::Metadata,
        clipboard@.offered.dom() == Set::<ClipboardType>::empty(),
        clipboard@.pending.dom() == Set::<u32>::empty(),
        clipboard@.next_serial == 0,
        !connection@.seat,
        connection@.devices.len() == 0,
        desktop@.sessions.dom() == Set::<u64>::empty(),
        desktop@.monitors.len() == 0,
        desktop@.controlling is None,
        desktop@.default_mode is None,
        !desktop@.to_dbus,
{
}

/// Devices of the seat are the same exactly if they have the same number, and a copy of one is what
/// it is a copy of, as is a copy of what is told about a monitor.
pub proof fn devices_are_the_same_by_number(
    a: EiDevice,
    b: EiDevice,
    same: bool,
    copy: EiDevice,
    info: MonitorInfo,
    told: MonitorInfo,
)
    requires
        call_ensures(EiDevice::eq, (&a, &b), same),
        call_ensures(EiDevice::clone, (&a,), copy),
        call_ensures(MonitorInfo::clone, (&info,), told),
    ensures
        same == (a.id == b.id),
        copy == a,
        told == info,
{
}

} // verus!
