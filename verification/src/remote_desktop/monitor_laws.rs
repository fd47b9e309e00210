//! What happens to virtual monitors, to their streams and to EIS connections.

use vstd::prelude::*;

use super::actions::{Action, ActionView, OutputHandle, PipeWireStream, ReplyView, SourceToken};
use super::capabilities::DeviceCapability;
use super::monitors::{CustomMode, new_monitor_mode, other_than, resized_mode, starting_mode};
use super::session_laws::{stopped_casts_are_disconnected, stopped_casts_are_gone};
use super::sessions::{backed_by, not_backed_by, told_added, told_removed};
use super::streams::{is_stream, stream_name, streams_are_found_by_their_number};
use super::{ConfiguredMode, MonitorView, RefreshRate, SessionView, StreamView, numbered};
use crate::dbus::remote_desktop::messages::{
    CastCursorMode, CursorMode, FdHandle, MonitorInfoView, NoticeView, ReplyHandle, RequestView,
};
use crate::niri::{Cast, Niri, NiriView, State, stream_at};
use crate::utils::lists::{
    lemma_add_contains, lemma_filter_contains, lemma_first_index, lemma_is_first, view_of, views,
};
use crate::utils::order::{ids_are_listed, ids_of};
use crate::utils::{CastSessionId, CastStreamId, RemoteDesktopMonitorId, RemoteDesktopSessionId};

verus! {

/// Whether the monitor with a number stands at an index.
pub open spec fn monitor_at(niri: NiriView, monitor: RemoteDesktopMonitorId, index: int) -> bool {
    0 <= index < niri.remote_desktop.monitors.len() && niri.remote_desktop.monitors[index].id
        == monitor
}

/// Whether no monitor has a number.
pub open spec fn no_monitor(niri: NiriView, monitor: RemoteDesktopMonitorId) -> bool {
    forall|i: int|
        0 <= i < niri.remote_desktop.monitors.len() ==> (
        #[trigger] niri.remote_desktop.monitors[i]).id != monitor
}

proof fn lemma_monitor_at(niri: NiriView, monitor: RemoteDesktopMonitorId, index: int)
    requires
        niri.valid(),
        monitor_at(niri, monitor, index),
    ensures
        niri.remote_desktop.monitor_index(monitor) == Some(index),
{
    let monitors = niri.remote_desktop.monitors;
    lemma_first_index(monitors, numbered(monitor));
    match niri.remote_desktop.monitor_index(monitor) {
        Some(found) => {
            assert(monitors[found].id == monitors[index].id);
        },
        None => {
            assert(!numbered(monitor)(monitors[index]));
        },
    }
}

proof fn lemma_no_monitor(niri: NiriView, monitor: RemoteDesktopMonitorId)
    requires
        no_monitor(niri, monitor),
    ensures
        niri.remote_desktop.monitor_index(monitor) is None,
{
    lemma_first_index(niri.remote_desktop.monitors, numbered(monitor));
}

/// For every monitor, asking for a stream of it looks for that monitor's own output, with the cursor
/// mode of the call, and changes nothing.
pub proof fn streams_show_the_monitor_asked_for(
    niri: NiriView,
    session: RemoteDesktopSessionId,
    monitor: RemoteDesktopMonitorId,
    cursor_mode: CursorMode,
    reply: ReplyHandle,
    index: int,
)
    requires
        niri.valid(),
        monitor_at(niri, monitor, index),
    ensures
        ({
            let request = RequestView::OpenPipeWireStream { session, monitor, cursor_mode, reply };
            &&& niri.handled(request) == niri
            &&& niri.handling(request) == seq![
                ActionView::FindOutput {
                    session,
                    monitor,
                    cursor_mode,
                    name: niri.remote_desktop.monitors[index].output_name,
                    reply,
                },
            ]
        }),
{
    lemma_monitor_at(niri, monitor, index);
}

/// Streams of different monitors look for the outputs of different monitors.
pub proof fn streams_of_different_outputs_differ(
    niri: NiriView,
    session: RemoteDesktopSessionId,
    a: RemoteDesktopMonitorId,
    b: RemoteDesktopMonitorId,
    cursor_mode: CursorMode,
    reply: ReplyHandle,
    i: int,
    j: int,
)
    requires
        niri.valid(),
        monitor_at(niri, a, i),
        monitor_at(niri, b, j),
        niri.remote_desktop.monitors[i].output_name != niri.remote_desktop.monitors[j].output_name,
    ensures
        niri.handling(
            RequestView::OpenPipeWireStream { session, monitor: a, cursor_mode, reply },
        )[0]->FindOutput_name != niri.handling(
            RequestView::OpenPipeWireStream { session, monitor: b, cursor_mode, reply },
        )[0]->FindOutput_name,
{
    lemma_monitor_at(niri, a, i);
    lemma_monitor_at(niri, b, j);
}

/// For every monitor and the session that owns it, asking for the monitor to go removes that
/// monitor's own output, and changes nothing before that is done.
pub proof fn owners_remove_the_monitor_asked_for(
    niri: NiriView,
    session: RemoteDesktopSessionId,
    monitor: RemoteDesktopMonitorId,
    reply: ReplyHandle,
    index: int,
)
    requires
        niri.valid(),
        monitor_at(niri, monitor, index),
        niri.remote_desktop.monitors[index].owner == Some(session),
    ensures
        ({
            let request = RequestView::RemoveVirtualMonitor { session, monitor, reply };
            &&& niri.handled(request) == niri
            &&& niri.handling(request) == seq![
                ActionView::RemoveOwnedOutput {
                    monitor,
                    name: niri.remote_desktop.monitors[index].output_name,
                    reply,
                },
            ]
        }),
{
    lemma_monitor_at(niri, monitor, index);
}

/// A number that no monitor has is refused, for a stream and for a removal alike, and nothing
/// changes.
pub proof fn unknown_monitors_are_refused(
    niri: NiriView,
    session: RemoteDesktopSessionId,
    monitor: RemoteDesktopMonitorId,
    cursor_mode: CursorMode,
    reply: ReplyHandle,
    width: u32,
    height: u32,
)
    requires
        no_monitor(niri, monitor),
    ensures
        ({
            let open = RequestView::OpenPipeWireStream { session, monitor, cursor_mode, reply };
            let remove = RequestView::RemoveVirtualMonitor { session, monitor, reply };
            &&& niri.handled(open) == niri
            &&& niri.handled(remove) == niri
            &&& niri.handling(open) == seq![
                ActionView::Reply { to: reply, reply: ReplyView::Stream(Err("no such monitor"@)) },
            ]
            &&& niri.handling(remove) == seq![
                ActionView::Reply { to: reply, reply: ReplyView::Done(Err("no such monitor"@)) },
            ]
            &&& niri.resize_request(monitor, width, height).len() == 0
        }),
{
    lemma_no_monitor(niri, monitor);
}

/// A monitor that a session owns gets the size that the consumer of its stream asks for, on its own
/// output; a size that no mode can have is not asked for.
pub proof fn resizing_reaches_the_monitor_asked_for(
    niri: NiriView,
    monitor: RemoteDesktopMonitorId,
    width: u32,
    height: u32,
    index: int,
)
    requires
        niri.valid(),
        monitor_at(niri, monitor, index),
        niri.remote_desktop.monitors[index].owner is Some,
    ensures
        ({
            let actions = niri.resize_request(monitor, width, height);
            if width < 65536 && height < 65536 {
                &&& actions.len() == 1
                &&& actions[0] matches ActionView::ResizeOutput { name, width: w, height: h }
                &&& name == niri.remote_desktop.monitors[index].output_name
                &&& w == width
                &&& h == height
            } else {
                actions.len() == 0
            }
        }),
{
    lemma_monitor_at(niri, monitor, index);
}

/// A new monitor is made as its session asked: with the name and the persistence of the call, for
/// that session.
pub proof fn monitors_are_asked_for_as_named(
    niri: NiriView,
    session: RemoteDesktopSessionId,
    name: Option<Seq<char>>,
    persistent: bool,
    reply: ReplyHandle,
)
    ensures
        ({
            let request = RequestView::CreateVirtualMonitor { session, name, persistent, reply };
            let actions = niri.handling(request);
            &&& niri.handled(request) == niri
            &&& actions.len() == 1
            &&& if niri.remote_desktop.sessions.contains_key(session) {
                &&& actions[0] matches ActionView::CreateVirtualOutput {
                    session: asking,
                    persistent: kept,
                    width,
                    height,
                    refresh,
                    name: named,
                    reply: to,
                }
                &&& asking == session
                &&& kept == persistent
                &&& named == name
                &&& to == reply
                &&& (width, height, refresh) == starting_mode(niri.remote_desktop.default_mode)
            } else {
                actions[0] == (ActionView::Reply {
                    to: reply,
                    reply: ReplyView::Monitor(Err("no such session"@)),
                })
            }
        }),
{
}

/// The size that is configured is the size that monitors start with, and so is the refresh rate,
/// brought between 1 and 1000 Hz. Without one it is 60 Hz, and without a mode the monitor is 1920
/// by 1080.
pub proof fn monitors_start_as_configured(mode: ConfiguredMode, hertz: i64)
    ensures
        starting_mode(Some(mode)).0 == mode.width,
        starting_mode(Some(mode)).1 == mode.height,
        mode.refresh is None ==> starting_mode(Some(mode)).2 == 60,
        mode.refresh == Some(RefreshRate::NotANumber) ==> starting_mode(Some(mode)).2 == 0,
        mode.refresh == Some(RefreshRate::Hertz(hertz)) ==> {
            let refresh = starting_mode(Some(mode)).2;
            &&& 1 <= refresh <= 1000
            &&& 1 <= hertz <= 1000 ==> refresh == hertz
            &&& hertz <= 1 ==> refresh == 1
            &&& hertz >= 1000 ==> refresh == 1000
        },
        starting_mode(None).0 == 1920,
        starting_mode(None).1 == 1080,
        starting_mode(None).2 == 60,
{
}

/// A new monitor stands for its output, belongs to the session that asked for it, and has a number
/// that no monitor had. It comes behind the others, which stay as they are.
pub proof fn new_monitors_belong_to_their_session(
    niri: NiriView,
    session: RemoteDesktopSessionId,
    persistent: bool,
    output: Seq<char>,
    index: int,
)
    requires
        niri.valid(),
        niri.next_monitor < u64::MAX,
    ensures
        ({
            let monitor = niri.new_monitor(session, persistent, output);
            let after = niri.monitor_added(monitor);
            let before = niri.remote_desktop.monitors;
            &&& monitor.output_name == output
            &&& monitor.owner == Some(session)
            &&& monitor.persistent == persistent
            &&& no_monitor(niri, monitor.id)
            &&& after.remote_desktop.monitors.len() == before.len() + 1
            &&& after.remote_desktop.monitors.last() == monitor
            &&& 0 <= index < before.len() ==> after.remote_desktop.monitors[index] == before[index]
            &&& after.next_monitor == monitor.id + 1
            &&& after == (NiriView {
                remote_desktop: super::RemoteDesktopView {
                    monitors: after.remote_desktop.monitors,
                    ..niri.remote_desktop
                },
                next_monitor: after.next_monitor,
                ..niri
            })
            &&& monitor.info().id == monitor.id
            &&& monitor.info().name == output
            &&& monitor.info().owner == Some(session)
        }),
{
}

/// What is told about a monitor is its number, the name of its output and its owner.
pub proof fn monitors_are_told_as_they_are(monitor: MonitorView)
    ensures
        monitor.info().id == monitor.id,
        monitor.info().name == monitor.output_name,
        monitor.info().owner == monitor.owner,
{
}

/// Removing a monitor takes out exactly the monitor with that number, and nothing else changes.
pub proof fn only_the_removed_monitor_goes(
    niri: NiriView,
    monitor: RemoteDesktopMonitorId,
    record: MonitorView,
)
    ensures
        ({
            let after = niri.monitor_dropped(monitor);
            &&& after.remote_desktop.monitors.contains(record)
                == (niri.remote_desktop.monitors.contains(record) && record.id != monitor)
            &&& after == (NiriView {
                remote_desktop: super::RemoteDesktopView {
                    monitors: after.remote_desktop.monitors,
                    ..niri.remote_desktop
                },
                ..niri
            })
        }),
{
    lemma_filter_contains(niri.remote_desktop.monitors, other_than(monitor), record);
}

/// Once a monitor is removed, asking for it is refused.
pub proof fn removed_monitors_are_unknown(niri: NiriView, monitor: RemoteDesktopMonitorId)
    ensures
        no_monitor(niri.monitor_dropped(monitor), monitor),
{
    let after = niri.monitor_dropped(monitor).remote_desktop.monitors;
    assert forall|i: int| 0 <= i < after.len() implies (#[trigger] after[i]).id != monitor by {
        assert(after.contains(after[i]));
        lemma_filter_contains(niri.remote_desktop.monitors, other_than(monitor), after[i]);
    }
}

/// A refresh keeps exactly the monitors whose outputs exist, as they are; behind them come those of
/// new outputs.
pub proof fn refreshing_keeps_the_monitors_that_exist(
    niri: NiriView,
    outputs: Seq<Seq<char>>,
    monitor: MonitorView,
)
    requires
        niri.valid(),
        niri.remote_desktop.to_dbus,
        niri.next_monitor + outputs.len() <= u64::MAX,
    ensures
        ({
            let after = niri.monitors_refreshed(outputs);
            &&& monitor.id < niri.next_monitor ==> after.remote_desktop.monitors.contains(monitor)
                == (niri.remote_desktop.monitors.contains(monitor) && outputs.contains(
                monitor.output_name,
            ))
            &&& monitor.id >= niri.next_monitor && after.remote_desktop.monitors.contains(monitor)
                ==> outputs.contains(monitor.output_name) && monitor.owner is None
                && !monitor.persistent
            &&& niri.monitor_changes(outputs).contains(
                ActionView::Notify(NoticeView::MonitorRemoved(monitor.id)),
            ) == (exists|i: int|
                0 <= i < niri.remote_desktop.monitors.len() && (
                #[trigger] niri.remote_desktop.monitors[i]).id == monitor.id && !outputs.contains(
                    niri.remote_desktop.monitors[i].output_name,
                ))
            &&& after == (NiriView {
                remote_desktop: super::RemoteDesktopView {
                    monitors: after.remote_desktop.monitors,
                    ..niri.remote_desktop
                },
                next_monitor: after.next_monitor,
                ..niri
            })
        }),
{
    let before = niri.remote_desktop.monitors;
    let kept = before.filter(backed_by(outputs));
    let gone = before.filter(not_backed_by(outputs));
    let after = niri.monitors_refreshed(outputs).remote_desktop.monitors;
    super::laws::refreshing_keeps_and_adds(niri, outputs);
    lemma_filter_contains(before, backed_by(outputs), monitor);
    if after.contains(monitor) {
        let i = choose|i: int| 0 <= i < after.len() && after[i] == monitor;
        if i < kept.len() {
            assert(after.take(kept.len() as int)[i] == kept[i]);
            assert(kept.contains(monitor));
            let j = choose|j: int| 0 <= j < before.len() && before[j] == monitor;
            assert(before[j].id < niri.next_monitor);
        }
    }
    if kept.contains(monitor) {
        let i = choose|i: int| 0 <= i < kept.len() && kept[i] == monitor;
        assert(after.take(kept.len() as int)[i] == kept[i]);
        assert(after[i] == monitor);
    }
    let notice = ActionView::Notify(NoticeView::MonitorRemoved(monitor.id));
    let removed = told_removed(gone);
    let added = told_added(after.skip(kept.len() as int));
    lemma_add_contains(removed, added, notice);
    assert(!added.contains(notice));
    if removed.contains(notice) {
        let k = choose|k: int| 0 <= k < removed.len() && removed[k] == notice;
        assert(gone.contains(gone[k]));
        lemma_filter_contains(before, not_backed_by(outputs), gone[k]);
        let i = choose|i: int| 0 <= i < before.len() && before[i] == gone[k];
        assert(before[i].id == monitor.id);
    }
    if exists|i: int|
        0 <= i < before.len() && (#[trigger] before[i]).id == monitor.id && !outputs.contains(
            before[i].output_name,
        ) {
        let i = choose|i: int|
            0 <= i < before.len() && (#[trigger] before[i]).id == monitor.id && !outputs.contains(
                before[i].output_name,
            );
        assert(before.contains(before[i]));
        lemma_filter_contains(before, not_backed_by(outputs), before[i]);
        let k = choose|k: int| 0 <= k < gone.len() && gone[k] == before[i];
        assert(removed[k] == notice);
    }
}

/// A refresh tells of exactly the monitors that are new, as they are.
pub proof fn refreshing_tells_of_new_monitors(
    niri: NiriView,
    outputs: Seq<Seq<char>>,
    info: MonitorInfoView,
)
    requires
        niri.valid(),
        niri.remote_desktop.to_dbus,
        niri.next_monitor + outputs.len() <= u64::MAX,
    ensures
        niri.monitor_changes(outputs).contains(ActionView::Notify(NoticeView::MonitorAdded(info)))
            == (info.id >= niri.next_monitor && info.owner is None && niri.monitors_refreshed(
            outputs,
        ).remote_desktop.monitors.contains(
            MonitorView {
                id: info.id,
                output_name: info.name,
                owner: info.owner,
                persistent: false,
            },
        )),
{
    let before = niri.remote_desktop.monitors;
    let kept = before.filter(backed_by(outputs));
    let after = niri.monitors_refreshed(outputs).remote_desktop.monitors;
    super::laws::refreshing_keeps_and_adds(niri, outputs);
    let notice = ActionView::Notify(NoticeView::MonitorAdded(info));
    let removed = told_removed(before.filter(not_backed_by(outputs)));
    let new = after.skip(kept.len() as int);
    let added = told_added(new);
    lemma_add_contains(removed, added, notice);
    assert(!removed.contains(notice));
    let record = MonitorView {
        id: info.id,
        output_name: info.name,
        owner: info.owner,
        persistent: false,
    };
    if added.contains(notice) {
        let k = choose|k: int| 0 <= k < added.len() && added[k] == notice;
        assert(after[kept.len() + k] == new[k]);
        assert(new[k] == record);
        assert(after.contains(record));
    }
    if info.id >= niri.next_monitor && info.owner is None && after.contains(record) {
        let i = choose|i: int| 0 <= i < after.len() && after[i] == record;
        if i < kept.len() {
            assert(after.take(kept.len() as int)[i] == kept[i]);
            assert(kept.contains(record));
            lemma_filter_contains(before, backed_by(outputs), record);
            let j = choose|j: int| 0 <= j < before.len() && before[j] == record;
            assert(before[j].id < niri.next_monitor);
        } else {
            assert(new[i - kept.len()] == record);
            assert(added[i - kept.len()] == notice);
        }
    }
}

/// Where nobody listens on the bus, a refresh does nothing.
pub proof fn refreshing_waits_for_the_bus(niri: NiriView, outputs: Seq<Seq<char>>)
    requires
        !niri.remote_desktop.to_dbus,
    ensures
        niri.monitors_refreshed(outputs) == niri,
        niri.monitor_changes(outputs).len() == 0,
{
}

/// The screen cast code draws the cursor as the call asked.
pub proof fn cursors_are_drawn_as_asked()
    ensures
        <CastCursorMode as vstd::std_specs::convert::FromSpec<CursorMode>>::from_spec(
            CursorMode::Hidden,
        ) == CastCursorMode::Hidden,
        <CastCursorMode as vstd::std_specs::convert::FromSpec<CursorMode>>::from_spec(
            CursorMode::Embedded,
        ) == CastCursorMode::Embedded,
        <CastCursorMode as vstd::std_specs::convert::FromSpec<CursorMode>>::from_spec(
            CursorMode::Metadata,
        ) == CastCursorMode::Metadata,
{
}

/// A cast that runs is a stream of the monitor that was asked for, in the session that asked, and
/// the call that opened it waits. It comes behind the other streams of the session and the other
/// casts, which stay as they are.
pub proof fn running_casts_are_streams(
    niri: NiriView,
    session: RemoteDesktopSessionId,
    monitor: RemoteDesktopMonitorId,
    cast_session_id: CastSessionId,
    cast_stream_id: CastStreamId,
    running: PipeWireStream,
    reply: ReplyHandle,
    other: RemoteDesktopSessionId,
)
    requires
        niri.remote_desktop.sessions.contains_key(session),
    ensures
        ({
            let stream = NiriView::new_stream(monitor, cast_session_id, cast_stream_id, reply);
            let after = niri.stream_added(session, stream, running);
            let before = niri.remote_desktop.sessions;
            let sessions = after.remote_desktop.sessions;
            let own = sessions[session].streams.last();
            &&& after.casts.len() == niri.casts.len() + 1
            &&& after.casts.drop_last() == niri.casts
            &&& after.casts.last().session_id == cast_session_id
            &&& after.casts.last().stream == running
            &&& sessions[session].streams.len() == before[session].streams.len() + 1
            &&& sessions[session].streams.drop_last() == before[session].streams
            &&& own.monitor == monitor
            &&& own.cast_session_id == cast_session_id
            &&& own.cast_stream_id == cast_stream_id
            &&& own.pending_reply == Some(reply)
            &&& own.id == "u"@ + crate::utils::text::decimal(cast_stream_id as nat)
            &&& sessions[session] == (SessionView {
                streams: sessions[session].streams,
                ..before[session]
            })
            &&& sessions.contains_key(other) == before.contains_key(other)
            &&& other != session ==> sessions[other] == before[other]
            &&& after == (NiriView { casts: after.casts, ..niri.with_sessions(sessions) })
        }),
{
    let stream = NiriView::new_stream(monitor, cast_session_id, cast_stream_id, reply);
    let after = niri.stream_added(session, stream, running);
    let streams = niri.remote_desktop.sessions[session].streams;
    assert(after.casts.drop_last() =~= niri.casts);
    assert(streams.push(stream).drop_last() =~= streams);
}

/// Whether the stream with an id that shows a monitor stands at an index of a session, and is the
/// first one.
pub open spec fn opened_at(
    niri: NiriView,
    session: RemoteDesktopSessionId,
    monitor: RemoteDesktopMonitorId,
    stream_id: Seq<char>,
    index: int,
) -> bool {
    let streams = niri.remote_desktop.sessions[session].streams;
    &&& stream_at(niri, session, index)
    &&& streams[index].id == stream_id
    &&& streams[index].monitor == monitor
    &&& forall|i: int|
        0 <= i < index ==> !((#[trigger] streams[i]).id == stream_id && streams[i].monitor
            == monitor)
}

/// Closing a stream takes out that stream and exactly its casts, and nothing else changes.
pub proof fn only_the_closed_stream_goes(
    niri: NiriView,
    session: RemoteDesktopSessionId,
    monitor: RemoteDesktopMonitorId,
    stream_id: Seq<char>,
    reply: ReplyHandle,
    index: int,
    other: RemoteDesktopSessionId,
    cast: Cast,
)
    requires
        opened_at(niri, session, monitor, stream_id, index),
    ensures
        ({
            let request = RequestView::ClosePipeWireStream { session, monitor, stream_id, reply };
            let stream = niri.stream(session, index);
            let before = niri.remote_desktop.sessions;
            let after = niri.handled(request);
            let sessions = after.remote_desktop.sessions;
            &&& sessions[session].streams == before[session].streams.remove(index)
            &&& sessions[session] == (SessionView {
                streams: sessions[session].streams,
                ..before[session]
            })
            &&& sessions.contains_key(other) == before.contains_key(other)
            &&& other != session ==> sessions[other] == before[other]
            &&& after.casts.contains(cast) == (niri.casts.contains(cast) && cast.session_id
                != stream.cast_session_id)
            &&& after == (NiriView { casts: after.casts, ..niri.with_sessions(sessions) })
        }),
{
    let streams = niri.remote_desktop.sessions[session].streams;
    lemma_is_first(streams, is_stream(stream_id, monitor), index);
    stopped_casts_are_gone(niri.casts, streams[index].cast_session_id, cast);
}

/// Closing a stream disconnects exactly its casts and answers the call, and the call that still
/// waits for the stream hears that it was closed.
pub proof fn closing_disconnects_the_stream(
    niri: NiriView,
    session: RemoteDesktopSessionId,
    monitor: RemoteDesktopMonitorId,
    stream_id: Seq<char>,
    reply: ReplyHandle,
    index: int,
    action: ActionView,
)
    requires
        opened_at(niri, session, monitor, stream_id, index),
    ensures
        ({
            let request = RequestView::ClosePipeWireStream { session, monitor, stream_id, reply };
            let stream = niri.stream(session, index);
            let done = ActionView::Reply { to: reply, reply: ReplyView::Done(Ok(())) };
            &&& niri.handling(request).len() > 0
            &&& niri.handling(request).last() == done
            &&& niri.handling(request).contains(action) == match action {
                ActionView::DisconnectCast { stream: running } => niri.casts.contains(
                    Cast { session_id: stream.cast_session_id, stream: running },
                ),
                ActionView::Reply { to, reply: answer } => action == done || (stream.pending_reply
                    == Some(to) && answer == ReplyView::Stream(Err("the stream was closed"@))),
                _ => false,
            }
        }),
{
    let request = RequestView::ClosePipeWireStream { session, monitor, stream_id, reply };
    let streams = niri.remote_desktop.sessions[session].streams;
    let stream = streams[index];
    lemma_is_first(streams, is_stream(stream_id, monitor), index);
    let done = ActionView::Reply { to: reply, reply: ReplyView::Done(Ok(())) };
    let refused = match stream.pending_reply {
        Some(to) => seq![
            ActionView::Reply { to, reply: ReplyView::Stream(Err("the stream was closed"@)) },
        ],
        None => Seq::empty(),
    };
    let stopped = crate::niri::casts_stopped(niri.casts, stream.cast_session_id);
    let last = seq![done];
    assert(niri.handling(request) =~= refused + stopped + last);
    lemma_add_contains(refused, stopped, action);
    lemma_add_contains(refused + stopped, last, action);
    stopped_casts_are_disconnected(niri.casts, stream.cast_session_id, action);
    assert(last[0] == done);
    assert(last.contains(last[0]));
    if let Some(to) = stream.pending_reply {
        assert(refused.contains(refused[0]));
    }
}

/// A session that does not exist has no stream to close, and a stream that is not open is not
/// closed.
pub proof fn unknown_streams_are_not_closed(
    niri: NiriView,
    session: RemoteDesktopSessionId,
    monitor: RemoteDesktopMonitorId,
    stream_id: Seq<char>,
    reply: ReplyHandle,
)
    requires
        forall|i: int|
            !(#[trigger] stream_at(niri, session, i) && niri.stream(session, i).id == stream_id
                && niri.stream(session, i).monitor == monitor),
    ensures
        ({
            let request = RequestView::ClosePipeWireStream { session, monitor, stream_id, reply };
            &&& niri.handled(request) == niri
            &&& niri.handling(request) == seq![
                ActionView::Reply {
                    to: reply,
                    reply: ReplyView::Done(
                        Err(
                            if niri.remote_desktop.sessions.contains_key(session) {
                                "no such stream"@
                            } else {
                                "no such session"@
                            },
                        ),
                    ),
                },
            ]
        }),
{
    let streams = niri.remote_desktop.sessions[session].streams;
    lemma_first_index(streams, is_stream(stream_id, monitor));
    if niri.remote_desktop.sessions.contains_key(session) {
        if let Some(index) = crate::utils::lists::first_index(
            streams,
            is_stream(stream_id, monitor),
        ) {
            assert(stream_at(niri, session, index));
        }
    }
}

proof fn lemma_stream_place(niri: NiriView, session: RemoteDesktopSessionId, index: int)
    requires
        niri.valid(),
        niri.remote_desktop.sessions.dom().finite(),
        stream_at(niri, session, index),
    ensures
        niri.stream_place(niri.stream(session, index).cast_stream_id) == Some((session, index)),
{
    let sessions = ids_of(niri.remote_desktop.sessions.dom());
    ids_are_listed(niri.remote_desktop.sessions.dom());
    streams_are_found_by_their_number(niri, sessions, session, index);
}

/// Once the node of a stream is known, the call that waits for that stream, and no other, is
/// answered with the stream's id, its node and its serial. The stream is as it was otherwise, and so
/// is everything else.
pub proof fn nodes_answer_the_call_that_waits(
    niri: NiriView,
    session: RemoteDesktopSessionId,
    index: int,
    node_id: u32,
    serial: Option<u64>,
    other: RemoteDesktopSessionId,
    place: int,
)
    requires
        niri.valid(),
        niri.remote_desktop.sessions.dom().finite(),
        stream_at(niri, session, index),
    ensures
        ({
            let stream = niri.stream(session, index);
            let after = niri.node_known(stream.cast_stream_id);
            let actions = niri.node_answer(stream.cast_stream_id, node_id, serial);
            &&& match stream.pending_reply {
                Some(waiting) => {
                    &&& actions.len() == 1
                    &&& actions[0] matches ActionView::Reply { to, reply: ReplyView::Stream(Ok(info)) }
                    &&& to == waiting
                    &&& info.stream_id == stream.id
                    &&& info.node_id == node_id
                    &&& serial is Some ==> Some(info.serial) == serial
                    &&& serial is None ==> info.serial == 0
                },
                None => actions.len() == 0,
            }
            &&& stream_at(after, session, index)
            &&& after.stream(session, index).pending_reply is None
            &&& after.stream(session, index) == (StreamView { pending_reply: None, ..stream })
            &&& stream_at(after, other, place) == stream_at(niri, other, place)
            &&& stream_at(niri, other, place) && !(other == session && place == index)
                ==> after.stream(other, place) == niri.stream(other, place)
            &&& after.remote_desktop.sessions[session] == (SessionView {
                streams: after.remote_desktop.sessions[session].streams,
                ..niri.remote_desktop.sessions[session]
            })
            &&& other != session ==> after.remote_desktop.sessions[other]
                == niri.remote_desktop.sessions[other]
            &&& after == niri.with_sessions(after.remote_desktop.sessions)
        }),
{
    lemma_stream_place(niri, session, index);
}

/// The node of a cast that is no stream of a session answers nobody.
pub proof fn nodes_of_other_casts_answer_nobody(
    niri: NiriView,
    stream_id: CastStreamId,
    node_id: u32,
    serial: Option<u64>,
    width: u32,
    height: u32,
)
    requires
        niri.remote_desktop.sessions.dom().finite(),
        forall|a: u64, i: int| #[trigger]
            stream_at(niri, a, i) ==> niri.stream(a, i).cast_stream_id != stream_id,
    ensures
        niri.node_known(stream_id) == niri,
        niri.node_answer(stream_id, node_id, serial).len() == 0,
        niri.stream_resize_request(stream_id, width, height).len() == 0,
{
    let sessions = ids_of(niri.remote_desktop.sessions.dom());
    ids_are_listed(niri.remote_desktop.sessions.dom());
    lemma_none_found(niri, sessions, stream_id);
}

proof fn lemma_none_found(
    niri: NiriView,
    sessions: Seq<RemoteDesktopSessionId>,
    stream_id: CastStreamId,
)
    requires
        forall|i: int|
            0 <= i < sessions.len() ==> niri.remote_desktop.sessions.contains_key(
                #[trigger] sessions[i],
            ) || sessions.contains(sessions[i]),
        forall|id: u64| #[trigger]
            sessions.contains(id) ==> niri.remote_desktop.sessions.contains_key(id),
        forall|a: u64, i: int| #[trigger]
            stream_at(niri, a, i) ==> niri.stream(a, i).cast_stream_id != stream_id,
    ensures
        niri.first_stream(sessions, stream_id) is None,
    decreases sessions.len(),
{
    if sessions.len() > 0 {
        let rest = sessions.drop_last();
        let last = sessions.last();
        assert(sessions[sessions.len() - 1] == last);
        assert(sessions.contains(last));
        assert forall|id: u64| #[trigger]
            rest.contains(id) implies niri.remote_desktop.sessions.contains_key(id) by {
            let i = choose|i: int| 0 <= i < rest.len() && rest[i] == id;
            assert(sessions[i] == id);
            assert(sessions.contains(id));
        }
        lemma_none_found(niri, rest, stream_id);
        let streams = niri.remote_desktop.sessions[last].streams;
        lemma_first_index(streams, super::streams::casts(stream_id));
        if let Some(index) = crate::utils::lists::first_index(
            streams,
            super::streams::casts(stream_id),
        ) {
            assert(stream_at(niri, last, index));
        }
    }
}

/// The consumer of a stream resizes the output of the monitor that the stream shows.
pub proof fn consumers_resize_the_monitor_they_see(
    niri: NiriView,
    session: RemoteDesktopSessionId,
    index: int,
    place: int,
    width: u32,
    height: u32,
)
    requires
        niri.valid(),
        niri.remote_desktop.sessions.dom().finite(),
        stream_at(niri, session, index),
        monitor_at(niri, niri.stream(session, index).monitor, place),
        width < 65536,
        height < 65536,
    ensures
        ({
            let actions = niri.stream_resize_request(
                niri.stream(session, index).cast_stream_id,
                width,
                height,
            );
            match niri.remote_desktop.monitors[place].owner {
                Some(_) => {
                    &&& actions.len() == 1
                    &&& actions[0] matches ActionView::ResizeOutput { name, width: w, height: h }
                    &&& name == niri.remote_desktop.monitors[place].output_name
                    &&& w == width
                    &&& h == height
                },
                None => actions.len() == 0,
            }
        }),
{
    lemma_stream_place(niri, session, index);
    lemma_monitor_at(niri, niri.stream(session, index).monitor, place);
}

/// The id of a stream is the letter u and its number.
pub proof fn stream_ids_are_their_numbers(cast_stream_id: CastStreamId)
    ensures
        stream_name(cast_stream_id) == "u"@ + crate::utils::text::decimal(cast_stream_id as nat),
{
}

/// Asking for an EIS connection removes the source of the one before, if there is one, and sets the
/// new one up on the socket of the call. The session has no connection until that is done, and
/// nothing else changes.
pub proof fn new_connections_replace_the_old(
    niri: NiriView,
    session: RemoteDesktopSessionId,
    socket: FdHandle,
    reply: ReplyHandle,
    other: RemoteDesktopSessionId,
)
    requires
        niri.remote_desktop.sessions.contains_key(session),
    ensures
        ({
            let request = RequestView::ConnectToEis { session, socket, reply };
            let before = niri.remote_desktop.sessions;
            let after = niri.handled(request);
            let connect = ActionView::ConnectEis { session, socket, reply };
            &&& match before[session].eis {
                Some(eis) => niri.handling(request) == seq![
                    ActionView::RemoveSource { token: eis.token },
                    connect,
                ],
                None => niri.handling(request) == seq![connect],
            }
            &&& after.remote_desktop.sessions.contains_key(other) == before.contains_key(other)
            &&& other != session ==> after.remote_desktop.sessions[other] == before[other]
            &&& after.remote_desktop.sessions[session] == (SessionView {
                eis: None,
                ..before[session]
            })
            &&& after == niri.with_sessions(after.remote_desktop.sessions)
        }),
{
    let request = RequestView::ConnectToEis { session, socket, reply };
    let connect = ActionView::ConnectEis { session, socket, reply };
    match niri.remote_desktop.sessions[session].eis {
        Some(eis) => {
            assert(niri.handling(request) =~= seq![
                ActionView::RemoveSource { token: eis.token },
                connect,
            ]);
        },
        None => {
            assert(niri.handling(request) =~= seq![connect]);
        },
    }
}

/// A session that does not exist gets no EIS connection: the socket is closed and the call refused.
pub proof fn unknown_sessions_are_not_connected(
    niri: NiriView,
    session: RemoteDesktopSessionId,
    socket: FdHandle,
    reply: ReplyHandle,
)
    requires
        !niri.remote_desktop.sessions.contains_key(session),
    ensures
        ({
            let request = RequestView::ConnectToEis { session, socket, reply };
            &&& niri.handled(request) == niri
            &&& niri.handling(request) == seq![
                ActionView::CloseFd { fd: socket },
                ActionView::Reply { to: reply, reply: ReplyView::Done(Err("no such session"@)) },
            ]
        }),
{
}

/// Asking for a stream, for a removal or for a monitor does what the messages for that do: the stream
/// is of the monitor's own output, and so is the removal.
pub proof fn monitors_are_asked_for_as_stated(
    first: &mut State,
    second: &mut State,
    third: &mut State,
    session: RemoteDesktopSessionId,
    monitor: RemoteDesktopMonitorId,
    cursor_mode: CursorMode,
    reply: ReplyHandle,
    name: Option<String>,
    persistent: bool,
    opened: Vec<Action>,
    removed: Vec<Action>,
    created: Vec<Action>,
)
    requires
        call_ensures(
            State::open_remote_desktop_stream,
            (first, session, monitor, cursor_mode, reply),
            opened,
        ),
        call_ensures(
            State::remove_remote_desktop_monitor,
            (second, session, monitor, reply),
            removed,
        ),
        call_ensures(
            State::create_remote_desktop_monitor,
            (third, session, name, persistent, reply),
            created,
        ),
    ensures
        final(first)@ == old(first)@,
        final(second)@ == old(second)@,
        final(third)@ == old(third)@,
        views(opened@) == old(first)@.handling(
            RequestView::OpenPipeWireStream { session, monitor, cursor_mode, reply },
        ),
        views(removed@) == old(second)@.handling(
            RequestView::RemoveVirtualMonitor { session, monitor, reply },
        ),
        views(created@) == old(third)@.handling(
            RequestView::CreateVirtualMonitor { session, name: view_of(name), persistent, reply },
        ),
{
}

/// For every monitor, asking for a stream looks for that monitor's own output, with the cursor mode
/// of the call.
pub proof fn opened_streams_find_their_own_output(
    state: &mut State,
    session: RemoteDesktopSessionId,
    monitor: RemoteDesktopMonitorId,
    cursor_mode: CursorMode,
    reply: ReplyHandle,
    actions: Vec<Action>,
    index: int,
)
    requires
        old(state)@.valid(),
        monitor_at(old(state)@, monitor, index),
        call_ensures(
            State::open_remote_desktop_stream,
            (state, session, monitor, cursor_mode, reply),
            actions,
        ),
    ensures
        actions@.len() == 1,
        actions@[0] matches Action::FindOutput {
            session: asking,
            monitor: shown,
            cursor_mode: mode,
            name,
            reply: to,
        } && asking == session && shown == monitor && mode == cursor_mode && name@
            == old(state)@.remote_desktop.monitors[index].output_name && to == reply,
{
    streams_show_the_monitor_asked_for(
        old(state)@,
        session,
        monitor,
        cursor_mode,
        reply,
        index,
    );
    assert(views(actions@).len() == actions@.len());
    assert(views(actions@)[0] == actions@[0]@);
}

/// For every monitor and its owner, asking for it to go removes that monitor's own output.
pub proof fn removed_monitors_lose_their_own_output(
    state: &mut State,
    session: RemoteDesktopSessionId,
    monitor: RemoteDesktopMonitorId,
    reply: ReplyHandle,
    actions: Vec<Action>,
    index: int,
)
    requires
        old(state)@.valid(),
        monitor_at(old(state)@, monitor, index),
        old(state)@.remote_desktop.monitors[index].owner == Some(session),
        call_ensures(
            State::remove_remote_desktop_monitor,
            (state, session, monitor, reply),
            actions,
        ),
    ensures
        actions@.len() == 1,
        actions@[0] matches Action::RemoveOwnedOutput { monitor: gone, name, reply: to } && gone
            == monitor && name@ == old(state)@.remote_desktop.monitors[index].output_name && to
            == reply,
{
    owners_remove_the_monitor_asked_for(old(state)@, session, monitor, reply, index);
    assert(views(actions@).len() == actions@.len());
    assert(views(actions@)[0] == actions@[0]@);
}

/// An output that was created becomes a monitor of the session that asked for it, behind the others.
/// The D-Bus side hears of it where it listens, and then the call is answered with it: its number, its
/// name and its owner. Where none was created, the call hears why and nothing changes.
pub proof fn created_outputs_become_monitors(
    state: &mut State,
    session: RemoteDesktopSessionId,
    persistent: bool,
    result: Result<String, String>,
    reply: ReplyHandle,
    actions: Vec<Action>,
)
    requires
        result is Ok ==> old(state).niri.monitor_ids.can_supply(1),
        call_ensures(
            State::virtual_output_created,
            (state, session, persistent, result, reply),
            actions,
        ),
    ensures
        result matches Ok(output) ==> {
            let before = old(state)@.remote_desktop.monitors;
            let after = final(state)@.remote_desktop.monitors;
            let made = after.last();
            let done = views(actions@);
            &&& after.len() == before.len() + 1
            &&& after.drop_last() == before
            &&& made.id == old(state)@.next_monitor
            &&& final(state)@.next_monitor == made.id + 1
            &&& made.output_name == output@
            &&& made.owner == Some(session)
            &&& made.persistent == persistent
            &&& done.len() > 0
            &&& done.last() matches ActionView::Reply { to, reply: ReplyView::Monitor(Ok(info)) }
            &&& to == reply
            &&& info.id == made.id
            &&& info.name == output@
            &&& info.owner == Some(session)
            &&& old(state)@.remote_desktop.to_dbus ==> done.len() == 2 && done[0]
                == ActionView::Notify(NoticeView::MonitorAdded(info))
            &&& !old(state)@.remote_desktop.to_dbus ==> done.len() == 1
        },
        result matches Err(error) ==> {
            &&& final(state)@ == old(state)@
            &&& views(actions@) == seq![
                ActionView::Reply { to: reply, reply: ReplyView::Monitor(Err(error@)) },
            ]
        },
{
    if result is Ok {
        assert(final(state)@.remote_desktop.monitors.drop_last()
            =~= old(state)@.remote_desktop.monitors);
    }
}

/// An output that was removed takes its monitor with it and no other. The D-Bus side hears of it
/// where it listens, and then the call is answered. Where it was not removed, the call hears why and
/// nothing changes.
pub proof fn removed_outputs_take_their_monitor(
    state: &mut State,
    monitor: RemoteDesktopMonitorId,
    result: Result<(), String>,
    reply: ReplyHandle,
    actions: Vec<Action>,
    record: MonitorView,
)
    requires
        call_ensures(State::virtual_output_removed, (state, monitor, result, reply), actions),
    ensures
        result is Ok ==> {
            let done = views(actions@);
            &&& final(state)@.remote_desktop.monitors.contains(record) == (
            old(state)@.remote_desktop.monitors.contains(record) && record.id != monitor)
            &&& done.len() > 0
            &&& done.last() == (ActionView::Reply { to: reply, reply: ReplyView::Done(Ok(())) })
            &&& old(state)@.remote_desktop.to_dbus ==> done.len() == 2 && done[0]
                == ActionView::Notify(NoticeView::MonitorRemoved(monitor))
            &&& !old(state)@.remote_desktop.to_dbus ==> done.len() == 1
        },
        result matches Err(error) ==> {
            &&& final(state)@ == old(state)@
            &&& views(actions@) == seq![
                ActionView::Reply { to: reply, reply: ReplyView::Done(Err(error@)) },
            ]
        },
{
    only_the_removed_monitor_goes(old(state)@, monitor, record);
}

/// A monitor starts with the configured size and rate, and a resized output has the size that was
/// asked for and keeps its rate, 60 Hz where it has none.
pub proof fn modes_are_as_configured_and_asked(
    mode: ConfiguredMode,
    started: (u16, u16, u32),
    plain: (u16, u16, u32),
    width: u16,
    height: u16,
    refresh: Option<i32>,
    resized: CustomMode,
    hertz: i64,
)
    requires
        call_ensures(new_monitor_mode, (Some(mode),), started),
        call_ensures(new_monitor_mode, (None,), plain),
        call_ensures(resized_mode, (width, height, refresh), resized),
    ensures
        started.0 == mode.width,
        started.1 == mode.height,
        mode.refresh is None ==> started.2 == 60,
        mode.refresh == Some(RefreshRate::NotANumber) ==> started.2 == 0,
        mode.refresh == Some(RefreshRate::Hertz(hertz)) ==> {
            &&& 1 <= started.2 <= 1000
            &&& 1 <= hertz <= 1000 ==> started.2 == hertz
            &&& hertz <= 1 ==> started.2 == 1
            &&& hertz >= 1000 ==> started.2 == 1000
        },
        plain.0 == 1920,
        plain.1 == 1080,
        plain.2 == 60,
        resized.width == width,
        resized.height == height,
        refresh is Some ==> Some(resized.refresh) == refresh,
        refresh is None ==> resized.refresh == 60_000,
{
}

/// Once the output of a monitor is found, the cast of that output is started for the session and the
/// monitor that were asked for, with the cursor as it was asked for and with the next numbers. Without
/// an output or a session the call is refused, and nothing changes.
pub proof fn found_outputs_are_cast(
    state: &mut State,
    session: RemoteDesktopSessionId,
    monitor: RemoteDesktopMonitorId,
    cursor_mode: CursorMode,
    output: Option<OutputHandle>,
    reply: ReplyHandle,
    actions: Vec<Action>,
)
    requires
        old(state)@.starts_cast(session, output) ==> old(
            state,
        ).niri.cast_session_ids.can_supply(1) && old(state).niri.cast_stream_ids.can_supply(1),
        call_ensures(
            State::stream_output_found,
            (state, session, monitor, cursor_mode, output, reply),
            actions,
        ),
    ensures
        ({
            let known = old(state)@.remote_desktop.sessions.contains_key(session);
            &&& output is Some && known ==> {
                &&& actions@.len() == 1
                &&& actions@[0] matches Action::StartCast {
                    session: asking,
                    monitor: shown,
                    cast_session_id,
                    cast_stream_id,
                    output: target,
                    cursor_mode: cursor,
                    reply: to,
                }
                &&& asking == session
                &&& shown == monitor
                &&& Some(target) == output
                &&& to == reply
                &&& cursor == CastCursorMode::Hidden <==> cursor_mode == CursorMode::Hidden
                &&& cursor == CastCursorMode::Embedded <==> cursor_mode == CursorMode::Embedded
                &&& cast_session_id == old(state)@.next_cast_session
                &&& cast_stream_id == old(state)@.next_cast_stream
                &&& final(state)@ == (NiriView {
                    next_cast_session: (cast_session_id + 1) as u64,
                    next_cast_stream: (cast_stream_id + 1) as u64,
                    ..old(state)@
                })
            }
            &&& output is None ==> final(state)@ == old(state)@ && views(actions@) == seq![
                ActionView::Reply {
                    to: reply,
                    reply: ReplyView::Stream(Err("the monitor's output is not connected"@)),
                },
            ]
            &&& output is Some && !known ==> final(state)@ == old(state)@ && views(actions@)
                == seq![
                ActionView::Reply { to: reply, reply: ReplyView::Stream(Err("no such session"@)) },
            ]
        }),
{
    assert(views(actions@).len() == actions@.len());
    assert(views(actions@)[0] == actions@[0]@);
}

/// A cast that runs becomes a stream, and the call that asked for it waits; one that did not start is
/// an answer that says why, and nothing changes.
pub proof fn started_casts_become_streams(
    state: &mut State,
    session: RemoteDesktopSessionId,
    monitor: RemoteDesktopMonitorId,
    cast_session_id: CastSessionId,
    cast_stream_id: CastStreamId,
    result: Result<PipeWireStream, String>,
    reply: ReplyHandle,
    actions: Vec<Action>,
)
    requires
        result is Ok ==> old(state)@.remote_desktop.sessions.contains_key(session),
        call_ensures(
            State::cast_started,
            (state, session, monitor, cast_session_id, cast_stream_id, result, reply),
            actions,
        ),
    ensures
        result matches Ok(running) ==> {
            let before = old(state)@.remote_desktop.sessions[session].streams;
            let after = final(state)@.remote_desktop.sessions[session].streams;
            &&& actions@.len() == 0
            &&& after.len() == before.len() + 1
            &&& after.drop_last() == before
            &&& after.last().monitor == monitor
            &&& after.last().cast_session_id == cast_session_id
            &&& after.last().cast_stream_id == cast_stream_id
            &&& after.last().pending_reply == Some(reply)
            &&& after.last().id == "u"@ + crate::utils::text::decimal(cast_stream_id as nat)
            &&& final(state)@.casts.drop_last() == old(state)@.casts
            &&& final(state)@.casts.last() == (Cast {
                session_id: cast_session_id,
                stream: running,
            })
        },
        result matches Err(error) ==> {
            &&& final(state)@ == old(state)@
            &&& views(actions@) == seq![
                ActionView::Reply {
                    to: reply,
                    reply: ReplyView::Stream(Err("error starting the stream: "@ + error@)),
                },
            ]
        },
{
    if let Ok(running) = result {
        running_casts_are_streams(
            old(state)@,
            session,
            monitor,
            cast_session_id,
            cast_stream_id,
            running,
            reply,
            session,
        );
    }
}

/// Closing a stream, and asking for an EIS connection, do what the messages for that do.
pub proof fn streams_close_and_connections_begin_as_stated(
    first: &mut State,
    second: &mut State,
    session: RemoteDesktopSessionId,
    monitor: RemoteDesktopMonitorId,
    stream_id: String,
    socket: FdHandle,
    reply: ReplyHandle,
    closed: Vec<Action>,
    connecting: Vec<Action>,
)
    requires
        call_ensures(
            State::close_remote_desktop_stream,
            (first, session, monitor, &stream_id, reply),
            closed,
        ),
        call_ensures(
            State::connect_remote_desktop_eis,
            (second, session, socket, reply),
            connecting,
        ),
    ensures
        ({
            let request = RequestView::ClosePipeWireStream {
                session,
                monitor,
                stream_id: stream_id@,
                reply,
            };
            &&& final(first)@ == old(first)@.handled(request)
            &&& views(closed@) == old(first)@.handling(request)
        }),
        ({
            let request = RequestView::ConnectToEis { session, socket, reply };
            &&& final(second)@ == old(second)@.handled(request)
            &&& views(connecting@) == old(second)@.handling(request)
        }),
{
}

/// The node of a stream, and the size that its consumer asks for, do what is stated of them.
pub proof fn nodes_and_sizes_do_what_is_stated(
    first: &mut State,
    second: &mut State,
    stream_id: CastStreamId,
    node_id: u32,
    serial: Option<u64>,
    width: u32,
    height: u32,
    answered: Vec<Action>,
    resized: Vec<Action>,
)
    requires
        call_ensures(
            State::on_remote_desktop_node_id,
            (first, stream_id, node_id, serial),
            answered,
        ),
        call_ensures(
            State::on_remote_desktop_resize_target,
            (second, stream_id, width, height),
            resized,
        ),
    ensures
        final(first)@ == old(first)@.node_known(stream_id),
        views(answered@) == old(first)@.node_answer(stream_id, node_id, serial),
        final(second)@ == old(second)@,
        views(resized@) == old(second)@.stream_resize_request(stream_id, width, height),
{
}

/// The source of a new EIS connection is kept with its session, with nothing bound yet, and the call
/// is answered; where there is none, the call hears why and nothing changes.
pub proof fn connected_sessions_keep_their_source(
    state: &mut State,
    session: RemoteDesktopSessionId,
    result: Result<SourceToken, String>,
    reply: ReplyHandle,
    actions: Vec<Action>,
    other: RemoteDesktopSessionId,
)
    requires
        call_ensures(State::eis_connected, (state, session, result, reply), actions),
    ensures
        result matches Ok(token) ==> {
            let before = old(state)@.remote_desktop.sessions;
            let after = final(state)@.remote_desktop.sessions;
            &&& views(actions@) == seq![
                ActionView::Reply { to: reply, reply: ReplyView::Done(Ok(())) },
            ]
            &&& after.contains_key(other) == before.contains_key(other)
            &&& other != session ==> after[other] == before[other]
            &&& before.contains_key(session) ==> {
                &&& after[session].eis matches Some(eis)
                &&& eis.token == token
                &&& forall|c: DeviceCapability| !(#[trigger] eis.bound.has(c))
                &&& after[session] == (SessionView { eis: after[session].eis, ..before[session] })
            }
            &&& final(state)@ == old(state)@.with_sessions(after)
        },
        result matches Err(error) ==> {
            &&& final(state)@ == old(state)@
            &&& views(actions@) == seq![
                ActionView::Reply {
                    to: reply,
                    reply: ReplyView::Done(
                        Err("error setting up the EIS connection: "@ + error@),
                    ),
                },
            ]
        },
{
    if result is Ok {
        assert(final(state)@ =~= old(state)@.with_sessions(final(state)@.remote_desktop.sessions));
    }
}

/// Monitors are found by their number and outputs by their name, streams by their numbers.
pub proof fn things_are_found_by_their_number(
    state: State,
    monitor: RemoteDesktopMonitorId,
    place: Option<usize>,
    output: String,
    named: bool,
    stream_id: CastStreamId,
    found: Option<(RemoteDesktopSessionId, usize)>,
    index: int,
)
    requires
        state@.valid(),
        call_ensures(
            super::RemoteDesktopState::monitor,
            (&state.niri.remote_desktop, monitor),
            place,
        ),
        call_ensures(
            super::RemoteDesktopState::has_monitor,
            (&state.niri.remote_desktop, &output),
            named,
        ),
        call_ensures(Niri::find_stream, (&state.niri, stream_id), found),
    ensures
        place matches Some(i) ==> monitor_at(state@, monitor, i as int),
        monitor_at(state@, monitor, index) ==> (place matches Some(i) && i == index),
        named <==> exists|i: int|
            0 <= i < state@.remote_desktop.monitors.len()
                && #[trigger] state@.remote_desktop.monitors[i].output_name == output@,
        found matches Some((session, i)) ==> stream_at(state@, session, i as int) && state@.stream(
            session,
            i as int,
        ).cast_stream_id == stream_id,
{
    lemma_first_index(state@.remote_desktop.monitors, numbered(monitor));
    if monitor_at(state@, monitor, index) {
        lemma_monitor_at(state@, monitor, index);
    }
    if let Some((session, i)) = found {
        lemma_found(
            state@,
            ids_of(state@.remote_desktop.sessions.dom()),
            stream_id,
            session,
            i as int,
        );
    }
}

proof fn lemma_found(
    niri: NiriView,
    sessions: Seq<RemoteDesktopSessionId>,
    stream_id: CastStreamId,
    session: RemoteDesktopSessionId,
    index: int,
)
    requires
        niri.first_stream(sessions, stream_id) == Some((session, index)),
    ensures
        niri.stream(session, index).cast_stream_id == stream_id,
    decreases sessions.len(),
{
    if niri.first_stream(sessions.drop_last(), stream_id) is Some {
        lemma_found(niri, sessions.drop_last(), stream_id, session, index);
    } else {
        lemma_first_index(
            niri.remote_desktop.sessions[sessions.last()].streams,
            super::streams::casts(stream_id),
        );
    }
}

} // verus!
