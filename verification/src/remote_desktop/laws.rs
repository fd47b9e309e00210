//! What holds of the compositor across messages.

use vstd::prelude::*;

use super::actions::{ActionView, ReplyView};
use super::capabilities::{Capabilities, DeviceCapability};
use super::clipboard::{ClipboardView, PendingTransfer, transfers_ended};
use super::eis::kept_capabilities;
use super::monitors::other_than;
use super::sessions::{
    backed_by, disowned, exposed, goes_with, named, not_backed_by, outlives, streams_stopped,
    told_added, told_removed,
};
use super::streams::{is_stream, stream_name};
use super::{MonitorView, RemoteDesktopView, SessionView, StreamView, numbered};
use crate::dbus::remote_desktop::messages::{FdHandle, NoticeView, ReplyHandle, RequestView};
use crate::niri::{Cast, NiriView, casts_left, casts_stopped, stopping_leaves_the_other_casts, stream_at};
use crate::utils::lists::{first_index, lemma_first_index};
use crate::utils::order::serials_of;
use crate::utils::{CastSessionId, CastStreamId, RemoteDesktopMonitorId, RemoteDesktopSessionId};

verus! {

/// Every item of a filtered list is an item of the list that was let through.
proof fn lemma_filter_items(
    monitors: Seq<MonitorView>,
    keep: spec_fn(MonitorView) -> bool,
)
    ensures
        forall|i: int|
            0 <= i < monitors.filter(keep).len() ==> keep(#[trigger] monitors.filter(keep)[i])
                && monitors.contains(monitors.filter(keep)[i]),
        forall|i: int|
            0 <= i < monitors.len() && keep(#[trigger] monitors[i]) ==> monitors.filter(
                keep,
            ).contains(monitors[i]),
    decreases monitors.len(),
{
    reveal(Seq::filter);
    if monitors.len() > 0 {
        let rest = monitors.drop_last();
        lemma_filter_items(rest, keep);
        let all = monitors.filter(keep);
        assert forall|i: int| 0 <= i < all.len() implies keep(#[trigger] all[i])
            && monitors.contains(all[i]) by {
            if i < rest.filter(keep).len() {
                assert(all[i] == rest.filter(keep)[i]);
                assert(rest.contains(all[i]));
                let j = choose|j: int| 0 <= j < rest.len() && rest[j] == all[i];
                assert(monitors[j] == all[i]);
            } else {
                assert(monitors[monitors.len() - 1] == all[i]);
            }
        }
        assert forall|i: int| 0 <= i < monitors.len() && keep(
            #[trigger] monitors[i],
        ) implies all.contains(monitors[i]) by {
            if i < rest.len() {
                assert(rest[i] == monitors[i]);
                let j = choose|j: int|
                    0 <= j < rest.filter(keep).len() && rest.filter(keep)[j] == monitors[i];
                assert(all[j] == monitors[i]);
            } else {
                assert(all[all.len() - 1] == monitors[i]);
            }
        }
    }
}

/// Whether no two monitors have the same number.
pub open spec fn distinct(monitors: Seq<MonitorView>) -> bool {
    forall|i: int, j: int|
        0 <= i < j < monitors.len() ==> #[trigger] monitors[i].id != #[trigger] monitors[j].id
}

proof fn lemma_filter_distinct(monitors: Seq<MonitorView>, keep: spec_fn(MonitorView) -> bool)
    requires
        distinct(monitors),
    ensures
        distinct(monitors.filter(keep)),
    decreases monitors.len(),
{
    reveal(Seq::filter);
    if monitors.len() > 0 {
        let rest = monitors.drop_last();
        assert forall|i: int, j: int| 0 <= i < j < rest.len() implies #[trigger] rest[i].id
            != #[trigger] rest[j].id by {
            assert(monitors[i].id != monitors[j].id);
        }
        lemma_filter_distinct(rest, keep);
        lemma_filter_items(rest, keep);
        let all = monitors.filter(keep);
        if keep(monitors.last()) {
            assert forall|i: int, j: int| 0 <= i < j < all.len() implies #[trigger] all[i].id
                != #[trigger] all[j].id by {
                assert(all[i] == rest.filter(keep)[i]);
                if j < rest.filter(keep).len() {
                    assert(all[j] == rest.filter(keep)[j]);
                } else {
                    assert(rest.contains(all[i]));
                    let k = choose|k: int| 0 <= k < rest.len() && rest[k] == all[i];
                    assert(monitors[k].id != monitors[monitors.len() - 1].id);
                }
            }
        }
    }
}

/// What holds of the monitors of a valid compositor, and what is to be shown of a changed list.
proof fn lemma_valid_monitors(before: NiriView, after: NiriView)
    requires
        before.valid_monitors(),
        distinct(after.remote_desktop.monitors),
        after.next_monitor >= before.next_monitor,
        forall|i: int|
            0 <= i < after.remote_desktop.monitors.len() ==> exists|j: int|
                0 <= j < before.remote_desktop.monitors.len()
                    && before.remote_desktop.monitors[j].id
                    == #[trigger] after.remote_desktop.monitors[i].id,
    ensures
        after.valid_monitors(),
{
}

proof fn lemma_filtered_valid(before: NiriView, after: NiriView, keep: spec_fn(MonitorView) -> bool)
    requires
        before.valid_monitors(),
        after.remote_desktop.monitors == before.remote_desktop.monitors.filter(keep),
        after.next_monitor == before.next_monitor,
    ensures
        after.valid_monitors(),
{
    let monitors = before.remote_desktop.monitors;
    lemma_filter_distinct(monitors, keep);
    lemma_filter_items(monitors, keep);
    assert forall|i: int| 0 <= i < after.remote_desktop.monitors.len() implies exists|j: int|
        0 <= j < monitors.len() && monitors[j].id
            == #[trigger] after.remote_desktop.monitors[i].id by {
        let j = choose|j: int| 0 <= j < monitors.len() && monitors[j] == monitors.filter(keep)[i];
        assert(monitors[j].id == after.remote_desktop.monitors[i].id);
    }
    lemma_valid_monitors(before, after);
}

/// Destroying a session keeps the compositor valid.
pub proof fn destroying_keeps_valid(niri: NiriView, id: RemoteDesktopSessionId, remove: bool)
    requires
        niri.valid(),
    ensures
        niri.session_destroyed(id, remove).valid(),
{
    let after = niri.session_destroyed(id, remove);
    if niri.remote_desktop.sessions.contains_key(id) {
        let drop_monitors = remove || !niri.remote_desktop.sessions[id].persistent;
        let monitors = niri.remote_desktop.monitors;
        let kept = monitors.filter(outlives(id, drop_monitors));
        lemma_filter_distinct(monitors, outlives(id, drop_monitors));
        lemma_filter_items(monitors, outlives(id, drop_monitors));
        let left = after.remote_desktop.monitors;
        assert(left == kept.map_values(disowned(id)));
        assert forall|i: int| 0 <= i < left.len() implies exists|j: int|
            0 <= j < monitors.len() && monitors[j].id == #[trigger] left[i].id by {
            assert(kept[i].id == left[i].id);
            let j = choose|j: int| 0 <= j < monitors.len() && monitors[j] == kept[i];
            assert(monitors[j].id == left[i].id);
        }
        assert forall|i: int, j: int| 0 <= i < j < left.len() implies #[trigger] left[i].id
            != #[trigger] left[j].id by {
            assert(kept[i].id != kept[j].id);
        }
        lemma_valid_monitors(niri, after);
        assert forall|a: u64, i: int| #[trigger] stream_at(after, a, i) implies stream_at(
            niri,
            a,
            i,
        ) && after.stream(a, i) == niri.stream(a, i) by {}
        assert(after.valid_streams());
        assert(after.valid_control());
    }
}

/// Adding a session keeps the compositor valid, unless it takes the number of the session in
/// control and not the control.
pub proof fn adding_keeps_valid(
    niri: NiriView,
    id: RemoteDesktopSessionId,
    persistent: bool,
    takes_control: bool,
    disable_animations: bool,
)
    requires
        niri.valid(),
        takes_control || niri.remote_desktop.controlling != Some(id),
    ensures
        niri.session_added(id, persistent, takes_control, disable_animations).valid(),
{
    let after = niri.session_added(id, persistent, takes_control, disable_animations);
    let middle = if takes_control {
        niri.control_released()
    } else {
        niri
    };
    if takes_control {
        if let Some(previous) = niri.remote_desktop.controlling {
            lemma_released(niri, previous);
        }
    }
    assert(middle.valid_monitors() && middle.valid_streams());
    assert forall|a: u64, i: int| #[trigger] stream_at(after, a, i) implies stream_at(middle, a, i)
        && after.stream(a, i) == middle.stream(a, i) by {}
    assert(after.valid_streams());
    assert forall|a: u64| #[trigger]
        after.remote_desktop.sessions.contains_key(a)
            && after.remote_desktop.sessions[a].has_control implies after.remote_desktop.controlling
        == Some(a) by {
        if a != id {
            assert(middle.remote_desktop.sessions.contains_key(a));
        }
    }
}

/// What is left when the controlling session goes.
proof fn lemma_released(niri: NiriView, previous: RemoteDesktopSessionId)
    requires
        niri.valid(),
        niri.remote_desktop.controlling == Some(previous),
    ensures
        niri.control_released().valid(),
        niri.control_released().remote_desktop.controlling is None,
        !niri.control_released().remote_desktop.sessions.contains_key(previous),
        niri.control_released() == niri.session_destroyed(previous, false),
{
    destroying_keeps_valid(niri, previous, false);
    assert(niri.control_released() =~= niri.session_destroyed(previous, false));
}

/// A change of one session that keeps its streams and its control keeps the compositor valid.
pub proof fn session_changes_keep_valid(
    niri: NiriView,
    id: RemoteDesktopSessionId,
    session: SessionView,
)
    requires
        niri.valid(),
        niri.remote_desktop.sessions.contains_key(id),
        session.has_control == niri.remote_desktop.sessions[id].has_control,
        session.streams == niri.remote_desktop.sessions[id].streams,
    ensures
        niri.with_sessions(niri.remote_desktop.sessions.insert(id, session)).valid(),
{
    let after = niri.with_sessions(niri.remote_desktop.sessions.insert(id, session));
    assert forall|a: u64, i: int| #[trigger] stream_at(after, a, i) implies stream_at(niri, a, i)
        && after.stream(a, i) == niri.stream(a, i) by {}
    assert(after.valid_streams());
    assert forall|a: u64| #[trigger]
        after.remote_desktop.sessions.contains_key(a)
            && after.remote_desktop.sessions[a].has_control implies after.remote_desktop.controlling
        == Some(a) by {
        assert(niri.remote_desktop.sessions.contains_key(a));
    }
}

/// Taking a stream out keeps the compositor valid.
proof fn lemma_stream_removed(niri: NiriView, session: RemoteDesktopSessionId, index: int)
    requires
        niri.valid(),
        stream_at(niri, session, index),
    ensures
        niri.stream_removed(session, index).valid(),
{
    let after = niri.stream_removed(session, index);
    let streams = niri.remote_desktop.sessions[session].streams;
    assert forall|a: u64, i: int, b: u64, j: int| #[trigger]
        stream_at(after, a, i) && #[trigger] stream_at(after, b, j) && (after.stream(
            a,
            i,
        ).cast_stream_id == after.stream(b, j).cast_stream_id || after.stream(a, i).cast_session_id
            == after.stream(b, j).cast_session_id) implies a == b && i == j by {
        let k = if a == session && i >= index {
            i + 1
        } else {
            i
        };
        let m = if b == session && j >= index {
            j + 1
        } else {
            j
        };
        assert(stream_at(niri, a, k) && niri.stream(a, k) == after.stream(a, i));
        assert(stream_at(niri, b, m) && niri.stream(b, m) == after.stream(b, j));
    }
    assert forall|a: u64, i: int| #[trigger] stream_at(after, a, i) implies after.stream(
        a,
        i,
    ).cast_stream_id < after.next_cast_stream && after.stream(a, i).cast_session_id
        < after.next_cast_session by {
        let k = if a == session && i >= index {
            i + 1
        } else {
            i
        };
        assert(stream_at(niri, a, k) && niri.stream(a, k) == after.stream(a, i));
    }
    assert forall|a: u64| #[trigger]
        after.remote_desktop.sessions.contains_key(a)
            && after.remote_desktop.sessions[a].has_control implies after.remote_desktop.controlling
        == Some(a) by {
        assert(niri.remote_desktop.sessions.contains_key(a));
    }
}

/// Whether a message creates a session without control under the number of the one in control.
/// Session numbers are handed out once, so none does.
pub open spec fn displaces_control(niri: NiriView, request: RequestView) -> bool {
    request matches RequestView::CreateSession { id, takes_control, .. } && !takes_control
        && niri.remote_desktop.controlling == Some(id)
}

/// Every message keeps the compositor valid: monitors and streams stay told apart by their numbers,
/// and exactly the session that is noted as controlling has control.
pub proof fn messages_keep_valid(niri: NiriView, request: RequestView)
    requires
        niri.valid(),
        !displaces_control(niri, request),
    ensures
        niri.handled(request).valid(),
{
    let sessions = niri.remote_desktop.sessions;
    match request {
        RequestView::CreateSession { id, persistent, takes_control, disable_animations, reply } => {
            adding_keeps_valid(niri, id, persistent, takes_control, disable_animations);
        },
        RequestView::DestroySession { id, remove } => {
            destroying_keeps_valid(niri, id, remove);
        },
        RequestView::SetDisableAnimations { id, value } => {
            if sessions.contains_key(id) {
                let session = SessionView { disable_animations: value, ..sessions[id] };
                session_changes_keep_valid(niri, id, session);
                let changed = niri.with_sessions(sessions.insert(id, session));
                assert(changed.valid());
                let after = niri.handled(request);
                assert(after == changed.animations_refreshed());
                assert forall|a: u64, i: int| #[trigger] stream_at(after, a, i) implies stream_at(
                    changed,
                    a,
                    i,
                ) && after.stream(a, i) == changed.stream(a, i) by {}
            } else {
                let after = niri.handled(request);
                assert forall|a: u64, i: int| #[trigger] stream_at(after, a, i) implies stream_at(
                    niri,
                    a,
                    i,
                ) && after.stream(a, i) == niri.stream(a, i) by {}
            }
        },
        RequestView::ClosePipeWireStream { session, monitor, stream_id, reply } => {
            lemma_first_index(sessions[session].streams, is_stream(stream_id, monitor));
            match first_index(sessions[session].streams, is_stream(stream_id, monitor)) {
                Some(index) => {
                    if sessions.contains_key(session) {
                        assert(stream_at(niri, session, index));
                        lemma_stream_removed(niri, session, index);
                    }
                },
                None => {},
            }
        },
        RequestView::ConnectToEis { session, socket, reply } => {
            if sessions.contains_key(session) {
                session_changes_keep_valid(
                    niri,
                    session,
                    SessionView { eis: None, ..sessions[session] },
                );
            }
        },
        RequestView::EnableClipboard { session, reply } => {
            if sessions.contains_key(session) {
                clipboard_changes_keep_valid(niri, session, Some(ClipboardView::fresh()));
            }
        },
        RequestView::DisableClipboard { session } => {
            if sessions.contains_key(session) {
                clipboard_changes_keep_valid(niri, session, None);
            }
        },
        RequestView::SetSelection { session, ty, mime_types, reply } => {
            if sessions.contains_key(session) {
                clipboard_changes_keep_valid(
                    niri,
                    session,
                    niri.selection_set(
                        session,
                        ty,
                        mime_types,
                    ).remote_desktop.sessions[session].clipboard,
                );
            }
        },
        RequestView::SelectionWrite { session, serial, reply } => {
            if sessions.contains_key(session) {
                clipboard_changes_keep_valid(
                    niri,
                    session,
                    niri.transfer_taken(session, serial).remote_desktop.sessions[session].clipboard,
                );
            }
        },
        RequestView::SelectionWriteDone { session, serial, success } => {
            if sessions.contains_key(session) {
                clipboard_changes_keep_valid(
                    niri,
                    session,
                    niri.transfer_finished(
                        session,
                        serial,
                    ).remote_desktop.sessions[session].clipboard,
                );
            }
        },
        _ => {},
    }
}

/// A change of the clipboard of a session keeps the compositor valid.
pub proof fn clipboard_changes_keep_valid(
    niri: NiriView,
    session: RemoteDesktopSessionId,
    clipboard: Option<ClipboardView>,
)
    requires
        niri.valid(),
        niri.remote_desktop.sessions.contains_key(session),
    ensures
        niri.with_clipboard(session, clipboard).valid(),
{
    session_changes_keep_valid(
        niri,
        session,
        SessionView { clipboard, ..niri.remote_desktop.sessions[session] },
    );
}

/// The numbers of the monitors that are added for outputs.
proof fn lemma_exposed_numbers(monitors: Seq<MonitorView>, outputs: Seq<Seq<char>>, next: u64)
    requires
        next + outputs.len() <= u64::MAX,
    ensures
        forall|i: int|
            monitors.len() <= i < exposed(monitors, outputs, next).len() ==> (
            #[trigger] exposed(monitors, outputs, next)[i]).id == next + i - monitors.len(),
    decreases outputs.len(),
{
    if outputs.len() > 0 {
        lemma_exposed_numbers(monitors, outputs.drop_last(), next);
        super::sessions::lemma_exposed(monitors, outputs.drop_last(), next);
    }
}

/// Making the monitors stand for the virtual outputs that exist keeps the compositor valid.
pub proof fn refreshing_keeps_valid(niri: NiriView, outputs: Seq<Seq<char>>)
    requires
        niri.valid(),
        niri.remote_desktop.to_dbus ==> niri.next_monitor + outputs.len() <= u64::MAX,
    ensures
        niri.monitors_refreshed(outputs).valid(),
        niri.monitors_refreshed(outputs).animations_refreshed().valid(),
{
    let after = niri.monitors_refreshed(outputs);
    if niri.remote_desktop.to_dbus {
        let kept = niri.remote_desktop.monitors.filter(backed_by(outputs));
        let middle = NiriView {
            remote_desktop: RemoteDesktopView { monitors: kept, ..niri.remote_desktop },
            ..niri
        };
        lemma_filtered_valid(niri, middle, backed_by(outputs));
        lemma_exposed_numbers(kept, outputs, niri.next_monitor);
        super::sessions::lemma_exposed(kept, outputs, niri.next_monitor);
        let monitors = after.remote_desktop.monitors;
        assert forall|i: int| 0 <= i < kept.len() implies #[trigger] monitors[i] == kept[i] by {
            assert(monitors.take(kept.len() as int)[i] == kept[i]);
        }
        assert(after.valid_monitors());
    }
    assert(after.valid_streams()) by {
        assert forall|a: u64, i: int| #[trigger] stream_at(after, a, i) implies stream_at(
            niri,
            a,
            i,
        ) && after.stream(a, i) == niri.stream(a, i) by {}
    }
    other_changes_keep_valid(after, after.animations_refreshed());
}

/// What changes neither the sessions nor the monitors, nor the numbers that are handed out for
/// them, keeps the compositor valid.
pub proof fn other_changes_keep_valid(niri: NiriView, after: NiriView)
    requires
        niri.valid(),
        after.remote_desktop.sessions == niri.remote_desktop.sessions,
        after.remote_desktop.monitors == niri.remote_desktop.monitors,
        after.remote_desktop.controlling == niri.remote_desktop.controlling,
        after.next_monitor == niri.next_monitor,
        after.next_cast_session == niri.next_cast_session,
        after.next_cast_stream == niri.next_cast_stream,
    ensures
        after.valid(),
{
    assert forall|a: u64, i: int| #[trigger] stream_at(after, a, i) implies stream_at(niri, a, i)
        && after.stream(a, i) == niri.stream(a, i) by {}
}

/// Adding the monitor for a new virtual output keeps the compositor valid.
pub proof fn new_monitors_keep_valid(
    niri: NiriView,
    session: RemoteDesktopSessionId,
    persistent: bool,
    output: Seq<char>,
)
    requires
        niri.valid(),
        niri.next_monitor < u64::MAX,
    ensures
        niri.monitor_added(niri.new_monitor(session, persistent, output)).valid(),
{
    let after = niri.monitor_added(niri.new_monitor(session, persistent, output));
    assert forall|a: u64, i: int| #[trigger] stream_at(after, a, i) implies stream_at(niri, a, i)
        && after.stream(a, i) == niri.stream(a, i) by {}
}

/// Removing a monitor keeps the compositor valid, and no monitor has its number anymore.
pub proof fn removed_monitors_are_gone(niri: NiriView, monitor: RemoteDesktopMonitorId)
    requires
        niri.valid(),
    ensures
        niri.monitor_dropped(monitor).valid(),
        niri.monitor_dropped(monitor).remote_desktop.monitor_index(monitor) is None,
{
    let after = niri.monitor_dropped(monitor);
    lemma_filtered_valid(niri, after, other_than(monitor));
    lemma_filter_items(niri.remote_desktop.monitors, other_than(monitor));
    lemma_first_index(after.remote_desktop.monitors, numbered(monitor));
    assert forall|a: u64, i: int| #[trigger] stream_at(after, a, i) implies stream_at(niri, a, i)
        && after.stream(a, i) == niri.stream(a, i) by {}
}

/// Whether no stream has the given numbers, and none will get them.
pub open spec fn unused(
    niri: NiriView,
    cast_session_id: CastSessionId,
    cast_stream_id: CastStreamId,
) -> bool {
    &&& cast_session_id < niri.next_cast_session
    &&& cast_stream_id < niri.next_cast_stream
    &&& forall|a: u64, i: int| #[trigger]
        stream_at(niri, a, i) ==> niri.stream(a, i).cast_session_id != cast_session_id
            && niri.stream(a, i).cast_stream_id != cast_stream_id
}

/// The numbers that are handed out for a stream are unused, and handing them out keeps the
/// compositor valid.
pub proof fn new_stream_numbers_are_unused(niri: NiriView)
    requires
        niri.valid(),
        niri.next_cast_session < u64::MAX,
        niri.next_cast_stream < u64::MAX,
    ensures
        ({
            let after = NiriView {
                next_cast_session: (niri.next_cast_session + 1) as u64,
                next_cast_stream: (niri.next_cast_stream + 1) as u64,
                ..niri
            };
            after.valid() && unused(after, niri.next_cast_session, niri.next_cast_stream)
        }),
{
    let after = NiriView {
        next_cast_session: (niri.next_cast_session + 1) as u64,
        next_cast_stream: (niri.next_cast_stream + 1) as u64,
        ..niri
    };
    assert forall|a: u64, i: int| #[trigger] stream_at(after, a, i) implies stream_at(niri, a, i)
        && after.stream(a, i) == niri.stream(a, i) by {}
}

/// Adding a stream with unused numbers keeps the compositor valid.
pub proof fn new_streams_keep_valid(
    niri: NiriView,
    session: RemoteDesktopSessionId,
    monitor: RemoteDesktopMonitorId,
    cast_session_id: CastSessionId,
    cast_stream_id: CastStreamId,
    running: u64,
    reply: ReplyHandle,
)
    requires
        niri.valid(),
        niri.remote_desktop.sessions.contains_key(session),
        unused(niri, cast_session_id, cast_stream_id),
    ensures
        niri.stream_added(
            session,
            NiriView::new_stream(monitor, cast_session_id, cast_stream_id, reply),
            running,
        ).valid(),
{
    let stream = NiriView::new_stream(monitor, cast_session_id, cast_stream_id, reply);
    let after = niri.stream_added(session, stream, running);
    let place = niri.remote_desktop.sessions[session].streams.len() as int;
    assert forall|a: u64, i: int| #[trigger] stream_at(after, a, i) implies (a == session && i
        == place && after.stream(a, i) == stream) || (stream_at(niri, a, i) && after.stream(a, i)
        == niri.stream(a, i)) by {}
    assert(after.valid_streams());
    assert forall|a: u64| #[trigger]
        after.remote_desktop.sessions.contains_key(a)
            && after.remote_desktop.sessions[a].has_control implies after.remote_desktop.controlling
        == Some(a) by {
        assert(niri.remote_desktop.sessions.contains_key(a));
    }
}

/// Answering the call that opened a stream keeps the compositor valid, and the call is answered
/// only once.
pub proof fn streams_are_answered_once(niri: NiriView, session: RemoteDesktopSessionId, index: int)
    requires
        niri.valid(),
        stream_at(niri, session, index),
    ensures
        niri.stream_answered(session, index).valid(),
        niri.stream_answered(session, index).stream(session, index).pending_reply is None,
{
    let after = niri.stream_answered(session, index);
    assert forall|a: u64, i: int| #[trigger] stream_at(after, a, i) implies stream_at(niri, a, i)
        && after.stream(a, i).cast_stream_id == niri.stream(a, i).cast_stream_id && after.stream(
        a,
        i,
    ).cast_session_id == niri.stream(a, i).cast_session_id by {}
    assert(after.valid_streams());
    assert forall|a: u64| #[trigger]
        after.remote_desktop.sessions.contains_key(a)
            && after.remote_desktop.sessions[a].has_control implies after.remote_desktop.controlling
        == Some(a) by {
        assert(niri.remote_desktop.sessions.contains_key(a));
    }
}

/// What happens on the EIS connection of a session keeps the compositor valid.
pub proof fn eis_events_keep_valid(
    niri: NiriView,
    session: RemoteDesktopSessionId,
    bound: Capabilities,
)
    requires
        niri.valid(),
    ensures
        niri.eis_bound(session, bound).valid(),
        niri.eis_taken(session, bound).valid(),
        niri.eis_resumed(session).valid(),
{
    let record = niri.remote_desktop.sessions[session];
    if niri.remote_desktop.sessions.contains_key(session) {
        session_changes_keep_valid(niri, session, record.with_eis_bound(bound));
        session_changes_keep_valid(niri, session, record.without_eis(bound));
        let kept = kept_capabilities(niri, session);
        let left = NiriView {
            remote_desktop: RemoteDesktopView {
                eis_left: niri.eis_resumed(session).remote_desktop.eis_left,
                ..niri.remote_desktop
            },
            ..niri
        };
        other_changes_keep_valid(niri, left);
        session_changes_keep_valid(left, session, record.with_eis_bound(kept));
    }
}

/// Only one session has control at a time.
pub proof fn one_session_has_control(
    niri: NiriView,
    a: RemoteDesktopSessionId,
    b: RemoteDesktopSessionId,
)
    requires
        niri.valid(),
        niri.remote_desktop.sessions.contains_key(a),
        niri.remote_desktop.sessions.contains_key(b),
        niri.remote_desktop.sessions[a].has_control,
        niri.remote_desktop.sessions[b].has_control,
    ensures
        a == b,
{
}

/// Creating a controlling session terminates the controlling session that existed before, and the
/// D-Bus side is told.
pub proof fn taking_control_terminates_the_session_before(
    niri: NiriView,
    previous: RemoteDesktopSessionId,
    id: RemoteDesktopSessionId,
    persistent: bool,
    disable_animations: bool,
    reply: ReplyHandle,
)
    requires
        niri.valid(),
        niri.remote_desktop.controlling == Some(previous),
        previous != id,
    ensures
        ({
            let after = niri.session_added(id, persistent, true, disable_animations);
            &&& after.remote_desktop.controlling == Some(id)
            &&& !after.remote_desktop.sessions.contains_key(previous)
            &&& niri.remote_desktop.to_dbus ==> niri.session_addition(id, true, reply).contains(
                ActionView::Notify(NoticeView::SessionDestroyed(previous)),
            )
        }),
{
    lemma_released(niri, previous);
    if niri.remote_desktop.to_dbus {
        let actions = niri.destruction(previous, false, true);
        let notice = ActionView::Notify(NoticeView::SessionDestroyed(previous));
        assert(actions.last() == notice);
        let all = niri.session_addition(id, true, reply);
        assert(all[actions.len() - 1] == actions[actions.len() - 1]);
    }
}

/// Destroying a session leaves it out, leaves no stream of it running, and leaves no monitor in its
/// hands.
pub proof fn destroyed_sessions_leave_nothing(
    niri: NiriView,
    id: RemoteDesktopSessionId,
    remove: bool,
)
    requires
        niri.valid(),
    ensures
        ({
            let after = niri.session_destroyed(id, remove);
            &&& !after.remote_desktop.sessions.contains_key(id)
            &&& niri.remote_desktop.sessions.contains_key(id) ==> forall|i: int|
                0 <= i < after.remote_desktop.monitors.len()
                    ==> #[trigger] after.remote_desktop.monitors[i].owner != Some(id)
            &&& forall|i: int, k: int|
                #![trigger after.casts[i], niri.stream(id, k)]
                0 <= i < after.casts.len() && stream_at(niri, id, k) ==> after.casts[i].session_id
                    != niri.stream(id, k).cast_session_id
        }),
{
    let after = niri.session_destroyed(id, remove);
    if niri.remote_desktop.sessions.contains_key(id) {
        let streams = niri.remote_desktop.sessions[id].streams;
        lemma_no_cast_left(niri.casts, streams);
        let drop_monitors = remove || !niri.remote_desktop.sessions[id].persistent;
        let kept = niri.remote_desktop.monitors.filter(outlives(id, drop_monitors));
        assert forall|i: int| 0 <= i < after.remote_desktop.monitors.len() implies
            #[trigger] after.remote_desktop.monitors[i].owner != Some(id) by {
            assert(after.remote_desktop.monitors[i] == disowned(id)(kept[i]));
        }
        assert forall|i: int, k: int|
            #![trigger after.casts[i], niri.stream(id, k)]
            0 <= i < after.casts.len() && stream_at(niri, id, k) implies after.casts[i].session_id
            != niri.stream(id, k).cast_session_id by {
            assert(streams[k] == niri.stream(id, k));
        }
    }
}

/// Stopping streams leaves no cast of any of them.
proof fn lemma_no_cast_left(casts: Seq<Cast>, streams: Seq<StreamView>)
    ensures
        forall|i: int, k: int|
            #![trigger streams_stopped(casts, streams).0[i], streams[k]]
            0 <= i < streams_stopped(casts, streams).0.len() && 0 <= k < streams.len()
                ==> streams_stopped(casts, streams).0[i].session_id != streams[k].cast_session_id,
    decreases streams.len(),
{
    if streams.len() > 0 {
        let rest = streams.drop_last();
        lemma_no_cast_left(casts, rest);
        let before = streams_stopped(casts, rest).0;
        let id = streams.last().cast_session_id;
        stopping_leaves_the_other_casts(before, id);
        let after = streams_stopped(casts, streams).0;
        assert(after == casts_left(before, id, before.len()));
        assert forall|i: int, k: int|
            #![trigger after[i], streams[k]]
            0 <= i < after.len() && 0 <= k < streams.len() implies after[i].session_id
            != streams[k].cast_session_id by {
            if k < rest.len() {
                crate::niri::lemma_left_contained(before, id, after[i]);
                let m = choose|m: int| 0 <= m < before.len() && before[m] == after[i];
                assert(before[m].session_id != rest[k].cast_session_id);
            }
        }
    }
}

/// A session that is not persistent takes its monitors with it, and so does one that is asked to.
pub proof fn monitors_go_with_their_session(
    niri: NiriView,
    id: RemoteDesktopSessionId,
    remove: bool,
    index: int,
)
    requires
        niri.valid(),
        niri.remote_desktop.sessions.contains_key(id),
        0 <= index < niri.remote_desktop.monitors.len(),
        niri.remote_desktop.monitors[index].owner == Some(id),
        remove || !niri.remote_desktop.sessions[id].persistent,
    ensures
        niri.session_destroyed(id, remove).remote_desktop.monitor_index(
            niri.remote_desktop.monitors[index].id,
        ) is None,
        niri.destruction(id, remove, false).contains(
            ActionView::RemoveVirtualOutput {
                name: niri.remote_desktop.monitors[index].output_name,
            },
        ),
{
    let monitors = niri.remote_desktop.monitors;
    let drop_monitors = remove || !niri.remote_desktop.sessions[id].persistent;
    let after = niri.session_destroyed(id, remove).remote_desktop.monitors;
    let kept = monitors.filter(outlives(id, drop_monitors));
    lemma_filter_items(monitors, outlives(id, drop_monitors));
    assert forall|i: int| 0 <= i < after.len() implies #[trigger] after[i].id
        != monitors[index].id by {
        assert(after[i] == disowned(id)(kept[i]));
        let j = choose|j: int| 0 <= j < monitors.len() && monitors[j] == kept[i];
        assert(outlives(id, drop_monitors)(monitors[j]));
        assert(j != index);
    }
    lemma_first_index(after, numbered(monitors[index].id));
    lemma_removal_told(niri.remote_desktop.to_dbus, monitors, id, drop_monitors, index);
    let removed = super::sessions::monitors_removed(
        niri.remote_desktop.to_dbus,
        monitors,
        id,
        drop_monitors,
    );
    let session = niri.remote_desktop.sessions[id];
    let front = streams_stopped(niri.casts, session.streams).1 + session.eis_removed()
        + session.clipboard_cleared();
    let action = ActionView::RemoveVirtualOutput { name: monitors[index].output_name };
    let k = choose|k: int| 0 <= k < removed.len() && removed[k] == action;
    assert(niri.destruction(id, remove, false) =~= front + removed);
    assert((front + removed)[front.len() + k] == action);
}

/// Removing a monitor's output is among what is done.
proof fn lemma_removal_told(
    to_dbus: bool,
    monitors: Seq<MonitorView>,
    id: RemoteDesktopSessionId,
    drop_monitors: bool,
    index: int,
)
    requires
        0 <= index < monitors.len(),
        goes_with(id, drop_monitors)(monitors[index]),
    ensures
        super::sessions::monitors_removed(to_dbus, monitors, id, drop_monitors).contains(
            ActionView::RemoveVirtualOutput { name: monitors[index].output_name },
        ),
    decreases monitors.len(),
{
    let action = ActionView::RemoveVirtualOutput { name: monitors[index].output_name };
    let all = super::sessions::monitors_removed(to_dbus, monitors, id, drop_monitors);
    let rest = super::sessions::monitors_removed(to_dbus, monitors.drop_last(), id, drop_monitors);
    if index < monitors.len() - 1 {
        lemma_removal_told(to_dbus, monitors.drop_last(), id, drop_monitors, index);
        assert(monitors.drop_last()[index] == monitors[index]);
        let k = choose|k: int| 0 <= k < rest.len() && rest[k] == action;
        assert(all[k] == action);
    } else {
        assert(all[rest.len() as int] == action);
    }
}

/// The monitors of a persistent session outlive it, without an owner, unless the peer asks for them
/// to go: every monitor keeps its place, its number and its output, no output is removed, and the
/// D-Bus side hears of no removal.
pub proof fn monitors_outlive_a_persistent_session(
    niri: NiriView,
    id: RemoteDesktopSessionId,
    notify: bool,
)
    requires
        niri.remote_desktop.sessions.contains_key(id),
        niri.remote_desktop.sessions[id].persistent,
    ensures
        ({
            let before = niri.remote_desktop.monitors;
            let after = niri.session_destroyed(id, false).remote_desktop.monitors;
            &&& after.len() == before.len()
            &&& forall|i: int|
                0 <= i < before.len() ==> #[trigger] after[i] == (MonitorView {
                    owner: if before[i].owner == Some(id) {
                        None
                    } else {
                        before[i].owner
                    },
                    ..before[i]
                })
        }),
        leaves_monitors(niri.destruction(id, false, notify)),
{
    let monitors = niri.remote_desktop.monitors;
    let session = niri.remote_desktop.sessions[id];
    lemma_filter_all(monitors, outlives(id, false));
    lemma_nothing_removed(niri.remote_desktop.to_dbus, monitors, id);
    lemma_streams_leave_monitors(niri.casts, session.streams);
    if let Some(clipboard) = session.clipboard {
        lemma_transfers_leave_monitors(
            clipboard.pending,
            serials_of(clipboard.pending.dom()),
        );
    }
    let stopped = streams_stopped(niri.casts, session.streams).1;
    let told = if notify {
        niri.remote_desktop.notice(NoticeView::SessionDestroyed(id))
    } else {
        Seq::empty()
    };
    assert(leaves_monitors(session.clipboard_cleared()));
    assert(leaves_monitors(told));
    assert(niri.destruction(id, false, notify) =~= stopped + session.eis_removed()
        + session.clipboard_cleared() + told);
}

/// The capabilities that the client of a persistent session had bound outlive the session too,
/// unless the peer asks for its things to go; no other session leaves any.
pub proof fn bound_capabilities_outlive_a_persistent_session(
    niri: NiriView,
    id: RemoteDesktopSessionId,
    remove: bool,
    capability: DeviceCapability,
)
    requires
        niri.remote_desktop.sessions.contains_key(id),
    ensures
        ({
            let session = niri.remote_desktop.sessions[id];
            niri.session_destroyed(id, remove).remote_desktop.eis_left.has(capability) == (
            niri.remote_desktop.eis_left.has(capability) || (session.persistent && !remove
                && session.eis_bound.has(capability)))
        }),
{
}

/// What persistent sessions left stays, whatever the D-Bus side sends, until a client takes it.
pub proof fn messages_keep_what_sessions_left(
    niri: NiriView,
    request: RequestView,
    capability: DeviceCapability,
)
    requires
        niri.remote_desktop.eis_left.has(capability),
    ensures
        niri.handled(request).remote_desktop.eis_left.has(capability),
{
}

/// What persistent sessions left is taken once, and only by a client of a persistent session.
pub proof fn left_capabilities_are_taken_once(niri: NiriView, session: RemoteDesktopSessionId)
    ensures
        niri.eis_resumed(session).remote_desktop.eis_left == niri.remote_desktop.eis_left
            || niri.eis_resumed(session).remote_desktop.eis_left == Capabilities::none(),
        niri.eis_resumed(session).remote_desktop.eis_left != niri.remote_desktop.eis_left
            ==> niri.remote_desktop.sessions.contains_key(session)
            && niri.remote_desktop.sessions[session].persistent && niri.eis_resumed(
            session,
        ).remote_desktop.sessions[session].eis_bound == niri.remote_desktop.eis_left,
{
}

/// Whether an action removes an output, or tells of a monitor that went.
pub open spec fn ends_a_monitor(action: ActionView) -> bool {
    match action {
        ActionView::RemoveVirtualOutput { .. } => true,
        ActionView::Notify(NoticeView::MonitorRemoved(_)) => true,
        _ => false,
    }
}

/// Whether none of some actions removes an output or tells of a monitor that went.
pub open spec fn leaves_monitors(actions: Seq<ActionView>) -> bool {
    forall|i: int| 0 <= i < actions.len() ==> !ends_a_monitor(#[trigger] actions[i])
}

proof fn lemma_streams_leave_monitors(casts: Seq<Cast>, streams: Seq<StreamView>)
    ensures
        leaves_monitors(streams_stopped(casts, streams).1),
    decreases streams.len(),
{
    if streams.len() > 0 {
        lemma_streams_leave_monitors(casts, streams.drop_last());
        lemma_casts_leave_monitors(
            streams_stopped(casts, streams.drop_last()).0,
            streams.last().cast_session_id,
        );
    }
}

proof fn lemma_casts_leave_monitors(casts: Seq<Cast>, session_id: CastSessionId)
    ensures
        leaves_monitors(casts_stopped(casts, session_id)),
    decreases casts.len(),
{
    if casts.len() > 0 {
        lemma_casts_leave_monitors(casts.drop_last(), session_id);
    }
}

proof fn lemma_transfers_leave_monitors(pending: Map<u32, PendingTransfer>, serials: Seq<u32>)
    ensures
        leaves_monitors(transfers_ended(pending, serials)),
    decreases serials.len(),
{
    if serials.len() > 0 {
        lemma_transfers_leave_monitors(pending, serials.drop_last());
    }
}

proof fn lemma_nothing_removed(
    to_dbus: bool,
    monitors: Seq<MonitorView>,
    id: RemoteDesktopSessionId,
)
    ensures
        super::sessions::monitors_removed(to_dbus, monitors, id, false) == Seq::<
            ActionView,
        >::empty(),
    decreases monitors.len(),
{
    if monitors.len() > 0 {
        lemma_nothing_removed(to_dbus, monitors.drop_last(), id);
        assert(super::sessions::monitors_removed(to_dbus, monitors, id, false) =~= Seq::<
            ActionView,
        >::empty());
    }
}

/// Monitors of other sessions, and those without an owner, are not touched by the end of a session.
pub proof fn other_monitors_are_untouched(
    niri: NiriView,
    id: RemoteDesktopSessionId,
    remove: bool,
    index: int,
)
    requires
        niri.remote_desktop.sessions.contains_key(id),
        0 <= index < niri.remote_desktop.monitors.len(),
        niri.remote_desktop.monitors[index].owner != Some(id),
    ensures
        niri.session_destroyed(id, remove).remote_desktop.monitors.contains(
            niri.remote_desktop.monitors[index],
        ),
{
    lemma_outlives(niri, id, remove, index);
}

proof fn lemma_outlives(niri: NiriView, id: RemoteDesktopSessionId, remove: bool, index: int)
    requires
        niri.remote_desktop.sessions.contains_key(id),
        0 <= index < niri.remote_desktop.monitors.len(),
        outlives(id, remove || !niri.remote_desktop.sessions[id].persistent)(
            niri.remote_desktop.monitors[index],
        ),
    ensures
        niri.session_destroyed(id, remove).remote_desktop.monitors.contains(
            disowned(id)(niri.remote_desktop.monitors[index]),
        ),
{
    let keep = outlives(id, remove || !niri.remote_desktop.sessions[id].persistent);
    let monitors = niri.remote_desktop.monitors;
    lemma_filter_items(monitors, keep);
    let kept = monitors.filter(keep);
    let k = choose|k: int| 0 <= k < kept.len() && kept[k] == monitors[index];
    let after = niri.session_destroyed(id, remove).remote_desktop.monitors;
    assert(after[k] == disowned(id)(kept[k]));
}

/// Only the owner of a monitor may remove it: for every other session the answer is an error, and
/// no output is removed.
pub proof fn only_the_owner_removes(
    niri: NiriView,
    session: RemoteDesktopSessionId,
    monitor: RemoteDesktopMonitorId,
    reply: ReplyHandle,
    index: int,
)
    requires
        niri.valid(),
        0 <= index < niri.remote_desktop.monitors.len(),
        niri.remote_desktop.monitors[index].id == monitor,
        niri.remote_desktop.monitors[index].owner != Some(session),
    ensures
        niri.handled(RequestView::RemoveVirtualMonitor { session, monitor, reply }) == niri,
        niri.handling(RequestView::RemoveVirtualMonitor { session, monitor, reply }) == seq![
            ActionView::Reply {
                to: reply,
                reply: ReplyView::Done(Err("this monitor belongs to another session"@)),
            },
        ],
{
    lemma_first_index(niri.remote_desktop.monitors, numbered(monitor));
    let found = niri.remote_desktop.monitor_index(monitor)->0;
    assert(niri.remote_desktop.monitors[found].id == monitor);
    assert(niri.remote_desktop.monitors[index].id == monitor);
    assert(found == index);
}

/// After a refresh the monitors stand for exactly the virtual outputs that exist.
pub proof fn refreshed_monitors_are_the_outputs(
    niri: NiriView,
    outputs: Seq<Seq<char>>,
    output: Seq<char>,
)
    requires
        niri.remote_desktop.to_dbus,
    ensures
        named(niri.monitors_refreshed(outputs).remote_desktop.monitors, output)
            == outputs.contains(output),
{
    let kept = niri.remote_desktop.monitors.filter(backed_by(outputs));
    lemma_filter_items(niri.remote_desktop.monitors, backed_by(outputs));
    lemma_exposed_names(kept, outputs, niri.next_monitor, output);
    let monitors = niri.monitors_refreshed(outputs).remote_desktop.monitors;
    if named(kept, output) {
        let i = choose|i: int| 0 <= i < kept.len() && #[trigger] kept[i].output_name == output;
        assert(backed_by(outputs)(kept[i]));
    }
}

/// After a refresh no two monitors stand for the same output, if that was so before.
pub proof fn refreshed_names_are_distinct(niri: NiriView, outputs: Seq<Seq<char>>)
    requires
        distinct_names(niri.remote_desktop.monitors),
    ensures
        distinct_names(niri.monitors_refreshed(outputs).remote_desktop.monitors),
{
    if niri.remote_desktop.to_dbus {
        let kept = niri.remote_desktop.monitors.filter(backed_by(outputs));
        lemma_filter_distinct_names(niri.remote_desktop.monitors, backed_by(outputs));
        lemma_exposed_distinct_names(kept, outputs, niri.next_monitor);
    }
}

/// A refresh keeps the monitors whose outputs exist, in order and as they are, and puts behind them
/// one for each new output, with a number that was never handed out, without an owner. The D-Bus
/// side hears of exactly the monitors that went and those that are new.
pub proof fn refreshing_keeps_and_adds(niri: NiriView, outputs: Seq<Seq<char>>)
    requires
        niri.valid(),
        niri.remote_desktop.to_dbus,
        niri.next_monitor + outputs.len() <= u64::MAX,
    ensures
        ({
            let before = niri.remote_desktop.monitors;
            let after = niri.monitors_refreshed(outputs).remote_desktop.monitors;
            let kept = before.filter(backed_by(outputs));
            &&& kept.len() <= after.len()
            &&& after.take(kept.len() as int) == kept
            &&& forall|i: int|
                kept.len() <= i < after.len() ==> {
                    &&& (#[trigger] after[i]).id == niri.next_monitor + i - kept.len()
                    &&& after[i].owner is None
                    &&& !after[i].persistent
                    &&& outputs.contains(after[i].output_name)
                    &&& forall|j: int|
                        0 <= j < before.len() ==> (#[trigger] before[j]).id != after[i].id
                }
            &&& niri.monitor_changes(outputs) == told_removed(
                before.filter(not_backed_by(outputs)),
            ) + told_added(after.skip(kept.len() as int))
        }),
{
    let before = niri.remote_desktop.monitors;
    let kept = before.filter(backed_by(outputs));
    let after = niri.monitors_refreshed(outputs).remote_desktop.monitors;
    super::sessions::lemma_exposed(kept, outputs, niri.next_monitor);
    lemma_exposed_numbers(kept, outputs, niri.next_monitor);
    lemma_exposed_fresh(kept, outputs, niri.next_monitor);
    assert forall|i: int| kept.len() <= i < after.len() implies outputs.contains(
        (#[trigger] after[i]).output_name,
    ) by {
        assert(named(after, after[i].output_name));
        refreshed_monitors_are_the_outputs(niri, outputs, after[i].output_name);
    }
}

proof fn lemma_exposed_fresh(monitors: Seq<MonitorView>, outputs: Seq<Seq<char>>, next: u64)
    ensures
        forall|i: int|
            monitors.len() <= i < exposed(monitors, outputs, next).len() ==> (
            #[trigger] exposed(monitors, outputs, next)[i]).owner is None && !exposed(
                monitors,
                outputs,
                next,
            )[i].persistent,
    decreases outputs.len(),
{
    if outputs.len() > 0 {
        lemma_exposed_fresh(monitors, outputs.drop_last(), next);
        let before = exposed(monitors, outputs.drop_last(), next);
        let after = exposed(monitors, outputs, next);
        assert forall|i: int| monitors.len() <= i < after.len() implies (#[trigger] after[i]).owner
            is None && !after[i].persistent by {
            if i < before.len() {
                assert(after[i] == before[i]);
            }
        }
    }
}

/// Whether no two monitors stand for the same output.
pub open spec fn distinct_names(monitors: Seq<MonitorView>) -> bool {
    forall|i: int, j: int|
        0 <= i < j < monitors.len() ==> #[trigger] monitors[i].output_name
            != #[trigger] monitors[j].output_name
}

proof fn lemma_filter_distinct_names(
    monitors: Seq<MonitorView>,
    keep: spec_fn(MonitorView) -> bool,
)
    requires
        distinct_names(monitors),
    ensures
        distinct_names(monitors.filter(keep)),
    decreases monitors.len(),
{
    reveal(Seq::filter);
    if monitors.len() > 0 {
        let rest = monitors.drop_last();
        assert forall|i: int, j: int| 0 <= i < j < rest.len() implies #[trigger] rest[i].output_name
            != #[trigger] rest[j].output_name by {
            assert(monitors[i].output_name != monitors[j].output_name);
        }
        lemma_filter_distinct_names(rest, keep);
        lemma_filter_items(rest, keep);
        let all = monitors.filter(keep);
        if keep(monitors.last()) {
            assert forall|i: int, j: int| 0 <= i < j < all.len() implies
                #[trigger] all[i].output_name != #[trigger] all[j].output_name by {
                assert(all[i] == rest.filter(keep)[i]);
                if j < rest.filter(keep).len() {
                    assert(all[j] == rest.filter(keep)[j]);
                } else {
                    assert(rest.contains(all[i]));
                    let k = choose|k: int| 0 <= k < rest.len() && rest[k] == all[i];
                    assert(monitors[k].output_name != monitors[monitors.len() - 1].output_name);
                }
            }
        }
    }
}

proof fn lemma_exposed_distinct_names(
    monitors: Seq<MonitorView>,
    outputs: Seq<Seq<char>>,
    next: u64,
)
    requires
        distinct_names(monitors),
    ensures
        distinct_names(exposed(monitors, outputs, next)),
    decreases outputs.len(),
{
    if outputs.len() > 0 {
        lemma_exposed_distinct_names(monitors, outputs.drop_last(), next);
        let before = exposed(monitors, outputs.drop_last(), next);
        let after = exposed(monitors, outputs, next);
        if !named(before, outputs.last()) {
            assert forall|i: int, j: int| 0 <= i < j < after.len() implies
                #[trigger] after[i].output_name != #[trigger] after[j].output_name by {
                assert(after[i] == before[i]);
                assert(before[i].output_name != outputs.last());
                if j < before.len() {
                    assert(after[j] == before[j]);
                }
            }
        }
    }
}

proof fn lemma_exposed_names(
    monitors: Seq<MonitorView>,
    outputs: Seq<Seq<char>>,
    next: u64,
    output: Seq<char>,
)
    ensures
        named(exposed(monitors, outputs, next), output) == (named(monitors, output)
            || outputs.contains(output)),
    decreases outputs.len(),
{
    if outputs.len() > 0 {
        let rest = outputs.drop_last();
        lemma_exposed_names(monitors, rest, next, output);
        let before = exposed(monitors, rest, next);
        let after = exposed(monitors, outputs, next);
        if named(before, output) {
            let i = choose|i: int|
                0 <= i < before.len() && #[trigger] before[i].output_name == output;
            assert(after[i].output_name == output);
        }
        if named(after, output) && !named(before, output) {
            let i = choose|i: int| 0 <= i < after.len() && #[trigger] after[i].output_name == output;
            if i < before.len() {
                assert(before[i].output_name == output);
            }
            assert(outputs.last() == output);
        }
        if outputs.contains(output) && !rest.contains(output) {
            let i = choose|i: int| 0 <= i < outputs.len() && outputs[i] == output;
            if i < rest.len() {
                assert(rest[i] == output);
            }
            assert(outputs.last() == output);
            if !named(before, output) {
                assert(after[after.len() - 1].output_name == output);
            }
        }
        if rest.contains(output) {
            let i = choose|i: int| 0 <= i < rest.len() && rest[i] == output;
            assert(outputs[i] == output);
        }
        if outputs.last() == output {
            assert(outputs[outputs.len() - 1] == output);
        }
    }
}

/// A second refresh with the same virtual outputs changes nothing and tells nobody anything.
pub proof fn refreshing_twice_changes_nothing(niri: NiriView, outputs: Seq<Seq<char>>)
    ensures
        ({
            let once = niri.monitors_refreshed(outputs);
            &&& once.monitors_refreshed(outputs) == once
            &&& once.monitor_changes(outputs) == Seq::<ActionView>::empty()
        }),
{
    let once = niri.monitors_refreshed(outputs);
    if niri.remote_desktop.to_dbus {
        let monitors = once.remote_desktop.monitors;
        assert forall|i: int| 0 <= i < monitors.len() implies backed_by(outputs)(
            #[trigger] monitors[i],
        ) by {
            refreshed_monitors_are_the_outputs(niri, outputs, monitors[i].output_name);
        }
        lemma_filter_all(monitors, backed_by(outputs));
        lemma_filter_none(monitors, not_backed_by(outputs));
        assert forall|i: int| 0 <= i < outputs.len() implies named(
            monitors,
            #[trigger] outputs[i],
        ) by {
            refreshed_monitors_are_the_outputs(niri, outputs, outputs[i]);
        }
        lemma_exposed_nothing(monitors, outputs, once.next_monitor);
        assert(once.monitors_refreshed(outputs) =~= once);
        assert(monitors.skip(monitors.len() as int) =~= Seq::<MonitorView>::empty());
        assert(once.monitor_changes(outputs) =~= Seq::<ActionView>::empty());
    }
}

proof fn lemma_filter_all(monitors: Seq<MonitorView>, keep: spec_fn(MonitorView) -> bool)
    requires
        forall|i: int| 0 <= i < monitors.len() ==> keep(#[trigger] monitors[i]),
    ensures
        monitors.filter(keep) == monitors,
    decreases monitors.len(),
{
    reveal(Seq::filter);
    if monitors.len() > 0 {
        lemma_filter_all(monitors.drop_last(), keep);
        assert(monitors.drop_last().push(monitors.last()) =~= monitors);
    } else {
        assert(monitors.filter(keep) =~= monitors);
    }
}

proof fn lemma_filter_none(monitors: Seq<MonitorView>, keep: spec_fn(MonitorView) -> bool)
    requires
        forall|i: int| 0 <= i < monitors.len() ==> !keep(#[trigger] monitors[i]),
    ensures
        monitors.filter(keep) == Seq::<MonitorView>::empty(),
    decreases monitors.len(),
{
    reveal(Seq::filter);
    if monitors.len() > 0 {
        lemma_filter_none(monitors.drop_last(), keep);
    }
}

proof fn lemma_exposed_nothing(monitors: Seq<MonitorView>, outputs: Seq<Seq<char>>, next: u64)
    requires
        forall|i: int| 0 <= i < outputs.len() ==> named(monitors, #[trigger] outputs[i]),
    ensures
        exposed(monitors, outputs, next) == monitors,
    decreases outputs.len(),
{
    if outputs.len() > 0 {
        assert forall|i: int| 0 <= i < outputs.drop_last().len() implies named(
            monitors,
            #[trigger] outputs.drop_last()[i],
        ) by {
            assert(named(monitors, outputs[i]));
        }
        lemma_exposed_nothing(monitors, outputs.drop_last(), next);
        assert(named(monitors, outputs[outputs.len() - 1]));
    }
}

/// Whether animations complete instantly exactly when the config or a session says so.
pub open spec fn animations_follow_sessions(niri: NiriView) -> bool {
    niri.complete_instantly == (niri.animations_off || niri.remote_desktop.animations_disabled())
}

/// Animations follow the `disable-animations` options: every message keeps it so, and after the
/// one that creates a session it is so again as soon as the session is ready.
pub proof fn animations_follow_the_sessions(
    niri: NiriView,
    request: RequestView,
    outputs: Seq<Seq<char>>,
)
    requires
        animations_follow_sessions(niri),
    ensures
        !(request is CreateSession) ==> animations_follow_sessions(niri.handled(request)),
        animations_follow_sessions(
            niri.handled(request).monitors_refreshed(outputs).animations_refreshed(),
        ),
{
    let after = niri.handled(request);
    let sessions = niri.remote_desktop.sessions;
    if !(request is CreateSession) && !(request is DestroySession) && !(
    request is SetDisableAnimations) {
        assert forall|a: u64| #[trigger]
            after.remote_desktop.sessions.contains_key(a) == sessions.contains_key(a)
                && after.remote_desktop.sessions[a].disable_animations
                == sessions[a].disable_animations by {}
        assert(after.remote_desktop.animations_disabled()
            == niri.remote_desktop.animations_disabled()) by {
            if niri.remote_desktop.animations_disabled() {
                let a = choose|a: u64| #[trigger]
                    sessions.contains_key(a) && sessions[a].disable_animations;
                assert(after.remote_desktop.sessions.contains_key(a));
            }
        }
    }
}

/// A parked fd is what the service is handed, once, until the transfer is finished.
pub proof fn transfers_are_handed_out_once(
    niri: NiriView,
    session: RemoteDesktopSessionId,
    serial: u32,
    fd: FdHandle,
    timeout: Option<u64>,
)
    requires
        niri.remote_desktop.clipboard_error(session) is None,
    ensures
        ({
            let parked = niri.transfer_parked(
                session,
                serial,
                PendingTransfer { fd: Some(fd), timeout },
            );
            let taken = parked.transfer_taken(session, serial);
            let finished = taken.transfer_finished(session, serial);
            &&& parked.transfer_fd(session, serial) == Ok::<FdHandle, Seq<char>>(fd)
            &&& taken.transfer_fd(session, serial) == Err::<FdHandle, Seq<char>>(
                "the transfer fd was already taken"@,
            )
            &&& finished.transfer_fd(session, serial) == Err::<FdHandle, Seq<char>>(
                "no transfer with this serial"@,
            )
        }),
{
}

/// A transfer that nobody took closes its fd when it times out, and the serial is unknown then.
pub proof fn timed_out_transfers_are_dropped(
    niri: NiriView,
    session: RemoteDesktopSessionId,
    serial: u32,
    fd: FdHandle,
    timeout: Option<u64>,
)
    requires
        niri.remote_desktop.clipboard_error(session) is None,
    ensures
        ({
            let transfer = PendingTransfer { fd: Some(fd), timeout };
            let parked = niri.transfer_parked(session, serial, transfer);
            let dropped = parked.transfer_finished(session, serial);
            &&& parked.remote_desktop.clipboard(session).pending[serial].closed() == seq![
                ActionView::CloseFd { fd },
            ]
            &&& dropped.transfer_fd(session, serial) == Err::<FdHandle, Seq<char>>(
                "no transfer with this serial"@,
            )
        }),
{
}

/// What the service offers for a selection is what the session owns, until it offers nothing.
pub proof fn offers_make_the_owner(
    niri: NiriView,
    session: RemoteDesktopSessionId,
    ty: crate::dbus::remote_desktop::messages::ClipboardType,
    mime_types: Seq<Seq<char>>,
)
    requires
        niri.remote_desktop.clipboard_error(session) is None,
    ensures
        niri.selection_set(session, ty, mime_types).remote_desktop.clipboard(
            session,
        ).offered.contains_key(ty) == (mime_types.len() > 0),
        mime_types.len() > 0 ==> niri.selection_set(
            session,
            ty,
            mime_types,
        ).remote_desktop.clipboard(session).offered[ty] == mime_types,
{
}

/// A new owner of a selection is told to exactly the sessions with clipboard integration.
pub proof fn owner_changes_reach_every_clipboard(
    desktop: RemoteDesktopView,
    sessions: Seq<RemoteDesktopSessionId>,
    ty: crate::dbus::remote_desktop::messages::ClipboardType,
    mime_types: Seq<Seq<char>>,
    session: RemoteDesktopSessionId,
    session_is_owner: bool,
)
    ensures
        desktop.owner_changes(sessions, ty, mime_types).contains(
            ActionView::Notify(
                NoticeView::SelectionOwnerChanged { session, ty, mime_types, session_is_owner },
            ),
        ) == (sessions.contains(session) && (desktop.sessions[session].clipboard matches Some(
            clipboard,
        ) && session_is_owner == clipboard.offered.contains_key(ty))),
    decreases sessions.len(),
{
    let notice = ActionView::Notify(
        NoticeView::SelectionOwnerChanged { session, ty, mime_types, session_is_owner },
    );
    let all = desktop.owner_changes(sessions, ty, mime_types);
    if sessions.len() > 0 {
        let rest = sessions.drop_last();
        owner_changes_reach_every_clipboard(
            desktop,
            rest,
            ty,
            mime_types,
            session,
            session_is_owner,
        );
        let before = desktop.owner_changes(rest, ty, mime_types);
        let told = desktop.sessions[session].clipboard matches Some(clipboard) && session_is_owner
            == clipboard.offered.contains_key(ty);
        if rest.contains(session) {
            let i = choose|i: int| 0 <= i < rest.len() && rest[i] == session;
            assert(sessions[i] == session);
        }
        if before.contains(notice) {
            let i = choose|i: int| 0 <= i < before.len() && before[i] == notice;
            assert(all[i] == notice);
        }
        if sessions.contains(session) && !rest.contains(session) {
            let i = choose|i: int| 0 <= i < sessions.len() && sessions[i] == session;
            if i < rest.len() {
                assert(rest[i] == session);
            }
            assert(sessions.last() == session);
            if told {
                assert(all[before.len() as int] == notice);
            }
        }
        if all.contains(notice) && !before.contains(notice) {
            let i = choose|i: int| 0 <= i < all.len() && all[i] == notice;
            if i < before.len() {
                assert(before[i] == notice);
            }
            assert(sessions.last() == session);
            assert(sessions[sessions.len() - 1] == session);
        }
    }
}

/// Different streams have different ids on D-Bus.
pub proof fn stream_ids_are_distinct(a: CastStreamId, b: CastStreamId)
    requires
        stream_name(a) == stream_name(b),
    ensures
        a == b,
{
    let x = crate::utils::text::decimal(a as nat);
    let y = crate::utils::text::decimal(b as nat);
    reveal_strlit("u");
    assert(x =~= stream_name(a).skip(1));
    assert(y =~= stream_name(b).skip(1));
    crate::utils::text::lemma_decimal_injective(a as nat, b as nat);
}

/// Monitors that belong to no session are never resized.
pub proof fn ownerless_monitors_keep_their_size(
    niri: NiriView,
    monitor: RemoteDesktopMonitorId,
    index: int,
    width: u32,
    height: u32,
)
    requires
        niri.valid(),
        0 <= index < niri.remote_desktop.monitors.len(),
        niri.remote_desktop.monitors[index].id == monitor,
        niri.remote_desktop.monitors[index].owner is None,
    ensures
        niri.resize_request(monitor, width, height) == Seq::<ActionView>::empty(),
{
    lemma_first_index(niri.remote_desktop.monitors, numbered(monitor));
    let found = niri.remote_desktop.monitor_index(monitor)->0;
    assert(niri.remote_desktop.monitors[found].id == monitor);
    assert(found == index);
}

/// A persistent session keeps the capabilities that its client had bound when the client goes
/// away; any other session keeps none.
pub proof fn bound_capabilities_survive_in_persistent_sessions(
    session: SessionView,
    bound: Capabilities,
)
    ensures
        session.without_eis(bound).eis is None,
        session.without_eis(bound).eis_bound == if session.persistent {
            bound
        } else {
            Capabilities::none()
        },
{
}

} // verus!
