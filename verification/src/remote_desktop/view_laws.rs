//! What is seen of the things of the compositor is what they are.

use vstd::prelude::*;

use super::actions::{Action, ActionView, Reply, ReplyView};
use super::clipboard::{Offers, SessionClipboard};
use super::eis::{EisAction, EisActionView, EisConnectionState};
use super::input::AxisFrame;
use super::{Monitor, RemoteDesktopState, Session, Stream};
use crate::dbus::remote_desktop::messages::ClipboardType;
use crate::niri::State;
use crate::utils::lists::{view_of, views};
use crate::utils::RemoteDesktopSessionId;

verus! {

/// What is seen of an action is what it is: the same thing, done to the same.
pub proof fn actions_are_what_they_are_seen_as(action: Action)
    ensures
        match action@ {
            ActionView::Notify(seen) => action matches Action::Notify(notice) && seen == notice@,
            ActionView::Reply { to: seen_to, reply: seen_reply } => {
                &&& action matches Action::Reply { to, reply }
                &&& seen_to == to
                &&& seen_reply == reply@
            },
            ActionView::DropReply { to: seen_to } => {
                &&& action matches Action::DropReply { to }
                &&& seen_to == to
            },
            ActionView::DisconnectCast { stream: seen_stream } => {
                &&& action matches Action::DisconnectCast { stream }
                &&& seen_stream == stream
            },
            ActionView::RemoveSource { token: seen_token } => {
                &&& action matches Action::RemoveSource { token }
                &&& seen_token == token
            },
            ActionView::CloseFd { fd: seen_fd } => {
                &&& action matches Action::CloseFd { fd }
                &&& seen_fd == fd
            },
            ActionView::ClearFdFlags { fd: seen_fd } => {
                &&& action matches Action::ClearFdFlags { fd }
                &&& seen_fd == fd
            },
            ActionView::ClearSelection { target: seen_target } => {
                &&& action matches Action::ClearSelection { target }
                &&& seen_target == target
            },
            ActionView::SetSelection {
                target: seen_target,
                mime_types: seen_mime_types,
                session: seen_session,
            } => {
                &&& action matches Action::SetSelection { target, mime_types, session }
                &&& seen_target == target
                &&& seen_mime_types == views(mime_types@)
                &&& seen_session == session
            },
            ActionView::RemoveVirtualOutput { name: seen_name } => {
                &&& action matches Action::RemoveVirtualOutput { name }
                &&& seen_name == name@
            },
            ActionView::ListVirtualOutputs { reply: seen_reply } => {
                &&& action matches Action::ListVirtualOutputs { reply }
                &&& seen_reply == reply
            },
            ActionView::CreateVirtualOutput {
                session: seen_session,
                persistent: seen_persistent,
                width: seen_width,
                height: seen_height,
                refresh: seen_refresh,
                name: seen_name,
                reply: seen_reply,
            } => {
                &&& action matches Action::CreateVirtualOutput {
                    session,
                    persistent,
                    width,
                    height,
                    refresh,
                    name,
                    reply,
                }
                &&& seen_session == session
                &&& seen_persistent == persistent
                &&& seen_width == width
                &&& seen_height == height
                &&& seen_refresh == refresh
                &&& seen_name == view_of(name)
                &&& seen_reply == reply
            },
            ActionView::RemoveOwnedOutput {
                monitor: seen_monitor,
                name: seen_name,
                reply: seen_reply,
            } => {
                &&& action matches Action::RemoveOwnedOutput { monitor, name, reply }
                &&& seen_monitor == monitor
                &&& seen_name == name@
                &&& seen_reply == reply
            },
            ActionView::FindOutput {
                session: seen_session,
                monitor: seen_monitor,
                cursor_mode: seen_cursor_mode,
                name: seen_name,
                reply: seen_reply,
            } => {
                &&& action matches Action::FindOutput { session, monitor, cursor_mode, name, reply }
                &&& seen_session == session
                &&& seen_monitor == monitor
                &&& seen_cursor_mode == cursor_mode
                &&& seen_name == name@
                &&& seen_reply == reply
            },
            ActionView::StartCast {
                session: seen_session,
                monitor: seen_monitor,
                cast_session_id: seen_cast_session_id,
                cast_stream_id: seen_cast_stream_id,
                output: seen_output,
                cursor_mode: seen_cursor_mode,
                reply: seen_reply,
            } => {
                &&& action matches Action::StartCast {
                    session,
                    monitor,
                    cast_session_id,
                    cast_stream_id,
                    output,
                    cursor_mode,
                    reply,
                }
                &&& seen_session == session
                &&& seen_monitor == monitor
                &&& seen_cast_session_id == cast_session_id
                &&& seen_cast_stream_id == cast_stream_id
                &&& seen_output == output
                &&& seen_cursor_mode == cursor_mode
                &&& seen_reply == reply
            },
            ActionView::ConnectEis {
                session: seen_session,
                socket: seen_socket,
                reply: seen_reply,
            } => {
                &&& action matches Action::ConnectEis { session, socket, reply }
                &&& seen_session == session
                &&& seen_socket == socket
                &&& seen_reply == reply
            },
            ActionView::ReadSelection {
                target: seen_target,
                mime_type: seen_mime_type,
                reply: seen_reply,
            } => {
                &&& action matches Action::ReadSelection { target, mime_type, reply }
                &&& seen_target == target
                &&& seen_mime_type == mime_type@
                &&& seen_reply == reply
            },
            ActionView::StartTransferTimer {
                session: seen_session,
                ty: seen_ty,
                mime_type: seen_mime_type,
                fd: seen_fd,
                serial: seen_serial,
                seconds: seen_seconds,
            } => {
                &&& action matches Action::StartTransferTimer {
                    session,
                    ty,
                    mime_type,
                    fd,
                    serial,
                    seconds,
                }
                &&& seen_session == session
                &&& seen_ty == ty
                &&& seen_mime_type == mime_type@
                &&& seen_fd == fd
                &&& seen_serial == serial
                &&& seen_seconds == seconds
            },
            ActionView::ResizeOutput {
                name: seen_name,
                width: seen_width,
                height: seen_height,
            } => {
                &&& action matches Action::ResizeOutput { name, width, height }
                &&& seen_name == name@
                &&& seen_width == width
                &&& seen_height == height
            },
        },
{
}

/// What is seen of an answer is what it is: of the same kind, good or bad, with the same content.
pub proof fn answers_are_what_they_are_seen_as(reply: Reply)
    ensures
        match reply@ {
            ReplyView::Monitors(Ok(seen)) => reply matches Reply::Monitors(Ok(monitors)) && seen
                == views(monitors@),
            ReplyView::Monitors(Err(seen)) => reply matches Reply::Monitors(Err(error)) && seen
                == error@,
            ReplyView::Monitor(Ok(seen)) => reply matches Reply::Monitor(Ok(monitor)) && seen
                == monitor@,
            ReplyView::Monitor(Err(seen)) => reply matches Reply::Monitor(Err(error)) && seen
                == error@,
            ReplyView::Done(Ok(seen)) => reply matches Reply::Done(Ok(_)),
            ReplyView::Done(Err(seen)) => reply matches Reply::Done(Err(error)) && seen == error@,
            ReplyView::Stream(Ok(seen)) => reply matches Reply::Stream(Ok(stream)) && seen
                == stream@,
            ReplyView::Stream(Err(seen)) => reply matches Reply::Stream(Err(error)) && seen
                == error@,
            ReplyView::Fd(Ok(seen)) => reply matches Reply::Fd(Ok(fd)) && seen == fd,
            ReplyView::Fd(Err(seen)) => reply matches Reply::Fd(Err(error)) && seen == error@,
        },
{
}

/// What is seen of an action for a client is what it is.
pub proof fn client_actions_are_what_they_are_seen_as(action: EisAction)
    ensures
        match action@ {
            EisActionView::AddSeat { capabilities: seen_capabilities } => {
                &&& action matches EisAction::AddSeat { capabilities }
                &&& seen_capabilities == capabilities
            },
            EisActionView::AddDevice {
                kind: seen_kind,
                capabilities: seen_capabilities,
                regions: seen_regions,
                keymap: seen_keymap,
            } => {
                &&& action matches EisAction::AddDevice { kind, capabilities, regions, keymap }
                &&& seen_kind == kind
                &&& seen_capabilities == capabilities
                &&& seen_regions == regions@
                &&& seen_keymap == keymap
            },
            EisActionView::RemoveDevice { device: seen_device } => {
                &&& action matches EisAction::RemoveDevice { device }
                &&& seen_device == device
            },
            EisActionView::Input(seen) => action matches EisAction::Input(event) && seen == event,
            EisActionView::Flush => action is Flush,
        },
{
}

/// What is seen of the compositor is what it holds: its casts, its counters and its switches, each
/// session under its number, and the monitors in their order.
pub proof fn compositors_are_what_they_are_seen_as(
    state: State,
    id: RemoteDesktopSessionId,
    i: int,
)
    ensures
        state@.casts == state.niri.casting.casts@,
        state@.complete_instantly == state.niri.clock.complete_instantly,
        state@.animations_off == state.niri.animations_off,
        state@.next_monitor == state.niri.monitor_ids.value,
        state@.next_cast_session == state.niri.cast_session_ids.value,
        state@.next_cast_stream == state.niri.cast_stream_ids.value,
        state@.next_device == state.niri.device_ids.value,
        ({
            let desktop: RemoteDesktopState = state.niri.remote_desktop;
            let seen = state@.remote_desktop;
            &&& seen.to_dbus == desktop.to_dbus
            &&& seen.controlling == desktop.controlling
            &&& seen.default_mode == desktop.default_mode
            &&& seen.eis_left == desktop.eis_left
            &&& seen.sessions.contains_key(id) == desktop.sessions@.contains_key(id)
            &&& desktop.sessions@.contains_key(id) ==> seen.sessions[id] == desktop.sessions@[id]@
            &&& seen.monitors.len() == desktop.monitors@.len()
            &&& 0 <= i < desktop.monitors@.len() ==> seen.monitors[i] == desktop.monitors@[i]@
        }),
{
}

/// What is seen of a session, a monitor and a stream is what they are.
pub proof fn records_are_what_they_are_seen_as(
    session: Session,
    monitor: Monitor,
    stream: Stream,
    i: int,
)
    ensures
        session@.persistent == session.persistent,
        session@.has_control == session.has_control,
        session@.disable_animations == session.disable_animations,
        session@.eis == session.eis,
        session@.eis_bound == session.eis_bound,
        session.clipboard is None ==> session@.clipboard is None,
        session.clipboard matches Some(clipboard) ==> session@.clipboard == Some(clipboard@),
        session@.streams.len() == session.streams@.len(),
        0 <= i < session.streams@.len() ==> session@.streams[i] == session.streams@[i]@,
        monitor@.id == monitor.id,
        monitor@.output_name == monitor.output_name@,
        monitor@.owner == monitor.owner,
        monitor@.persistent == monitor.persistent,
        stream@.id == stream.id@,
        stream@.monitor == stream.monitor,
        stream@.cast_session_id == stream.cast_session_id,
        stream@.cast_stream_id == stream.cast_stream_id,
        stream@.pending_reply == stream.pending_reply,
{
}

/// What is seen of a clipboard is what it holds, each offer under its selection.
pub proof fn clipboards_are_what_they_are_seen_as(clipboard: SessionClipboard, offers: Offers)
    ensures
        clipboard@.offered == clipboard.offered@,
        clipboard@.pending == clipboard.pending@,
        clipboard@.next_serial == clipboard.next_serial,
        offers.clipboard is None ==> !offers@.contains_key(ClipboardType::Clipboard),
        offers.clipboard matches Some(mime_types) ==> offers@.contains_key(ClipboardType::Clipboard)
            && offers@[ClipboardType::Clipboard] == views(mime_types@),
        offers.primary is None ==> !offers@.contains_key(ClipboardType::Primary),
        offers.primary matches Some(mime_types) ==> offers@.contains_key(ClipboardType::Primary)
            && offers@[ClipboardType::Primary] == views(mime_types@),
{
}

/// What is seen of a connection is what it holds, each frame under its device.
pub proof fn connections_are_what_they_are_seen_as(
    connection: EisConnectionState,
    frame: AxisFrame,
    key: u64,
)
    ensures
        connection@.seat == connection.seat,
        connection@.devices == connection.devices@,
        connection@.touch_frames == connection.touch_frames@,
        connection@.bound == connection.bound,
        connection@.axis_frames.contains_key(key) == connection.axis_frames@.contains_key(key),
        connection.axis_frames@.contains_key(key) ==> connection@.axis_frames[key]
            == connection.axis_frames@[key]@,
        frame@.time == frame.time,
        frame@.source == frame.source,
        frame@.relative_direction == frame.relative_direction,
        frame@.deltas == frame.deltas@,
        frame@.v120 == frame.v120,
        frame@.stop == frame.stop,
{
}

} // verus!
