//! What is seen of the things of the D-Bus API is what they are.

use vstd::prelude::*;

use super::calls::{ErrorView, FdoError};
use super::clipboard::Clipboard;
use super::messages::{
    MonitorInfo, NiriToRemoteDesktop, NoticeView, RemoteDesktopToNiri, RequestView, StreamInfo,
};
use super::monitor::Monitor;
use super::options::{Item, ItemView, Value, ValueView};
use super::registry::{ObjectAction, ObjectActionView, Registry};
use super::session::Session;
use crate::utils::lists::{view_of, views};
use crate::utils::RemoteDesktopSessionId;

verus! {

/// What is seen of a message is what it is.
pub proof fn messages_are_what_they_are_seen_as(message: RemoteDesktopToNiri)
    ensures
        match message@ {
            RequestView::CreateSession {
                id: seen_id,
                persistent: seen_persistent,
                takes_control: seen_takes_control,
                disable_animations: seen_disable_animations,
                reply: seen_reply,
            } => {
                &&& message matches RemoteDesktopToNiri::CreateSession {
                    id,
                    persistent,
                    takes_control,
                    disable_animations,
                    reply,
                }
                &&& seen_id == id
                &&& seen_persistent == persistent
                &&& seen_takes_control == takes_control
                &&& seen_disable_animations == disable_animations
                &&& seen_reply == reply
            },
            RequestView::DestroySession { id: seen_id, remove: seen_remove } => {
                &&& message matches RemoteDesktopToNiri::DestroySession { id, remove }
                &&& seen_id == id
                &&& seen_remove == remove
            },
            RequestView::SetDisableAnimations { id: seen_id, value: seen_value } => {
                &&& message matches RemoteDesktopToNiri::SetDisableAnimations { id, value }
                &&& seen_id == id
                &&& seen_value == value
            },
            RequestView::CreateVirtualMonitor {
                session: seen_session,
                name: seen_name,
                persistent: seen_persistent,
                reply: seen_reply,
            } => {
                &&& message matches RemoteDesktopToNiri::CreateVirtualMonitor {
                    session,
                    name,
                    persistent,
                    reply,
                }
                &&& seen_session == session
                &&& seen_name == view_of(name)
                &&& seen_persistent == persistent
                &&& seen_reply == reply
            },
            RequestView::RemoveVirtualMonitor {
                session: seen_session,
                monitor: seen_monitor,
                reply: seen_reply,
            } => {
                &&& message matches RemoteDesktopToNiri::RemoveVirtualMonitor {
                    session,
                    monitor,
                    reply,
                }
                &&& seen_session == session
                &&& seen_monitor == monitor
                &&& seen_reply == reply
            },
            RequestView::OpenPipeWireStream {
                session: seen_session,
                monitor: seen_monitor,
                cursor_mode: seen_cursor_mode,
                reply: seen_reply,
            } => {
                &&& message matches RemoteDesktopToNiri::OpenPipeWireStream {
                    session,
                    monitor,
                    cursor_mode,
                    reply,
                }
                &&& seen_session == session
                &&& seen_monitor == monitor
                &&& seen_cursor_mode == cursor_mode
                &&& seen_reply == reply
            },
            RequestView::ClosePipeWireStream {
                session: seen_session,
                monitor: seen_monitor,
                stream_id: seen_stream_id,
                reply: seen_reply,
            } => {
                &&& message matches RemoteDesktopToNiri::ClosePipeWireStream {
                    session,
                    monitor,
                    stream_id,
                    reply,
                }
                &&& seen_session == session
                &&& seen_monitor == monitor
                &&& seen_stream_id == stream_id@
                &&& seen_reply == reply
            },
            RequestView::ConnectToEis {
                session: seen_session,
                socket: seen_socket,
                reply: seen_reply,
            } => {
                &&& message matches RemoteDesktopToNiri::ConnectToEis { session, socket, reply }
                &&& seen_session == session
                &&& seen_socket == socket
                &&& seen_reply == reply
            },
            RequestView::EnableClipboard { session: seen_session, reply: seen_reply } => {
                &&& message matches RemoteDesktopToNiri::EnableClipboard { session, reply }
                &&& seen_session == session
                &&& seen_reply == reply
            },
            RequestView::DisableClipboard { session: seen_session } => {
                &&& message matches RemoteDesktopToNiri::DisableClipboard { session }
                &&& seen_session == session
            },
            RequestView::SetSelection {
                session: seen_session,
                ty: seen_ty,
                mime_types: seen_mime_types,
                reply: seen_reply,
            } => {
                &&& message matches RemoteDesktopToNiri::SetSelection {
                    session,
                    ty,
                    mime_types,
                    reply,
                }
                &&& seen_session == session
                &&& seen_ty == ty
                &&& seen_mime_types == views(mime_types@)
                &&& seen_reply == reply
            },
            RequestView::SelectionRead {
                session: seen_session,
                ty: seen_ty,
                mime_type: seen_mime_type,
                reply: seen_reply,
            } => {
                &&& message matches RemoteDesktopToNiri::SelectionRead {
                    session,
                    ty,
                    mime_type,
                    reply,
                }
                &&& seen_session == session
                &&& seen_ty == ty
                &&& seen_mime_type == mime_type@
                &&& seen_reply == reply
            },
            RequestView::SelectionWrite {
                session: seen_session,
                serial: seen_serial,
                reply: seen_reply,
            } => {
                &&& message matches RemoteDesktopToNiri::SelectionWrite { session, serial, reply }
                &&& seen_session == session
                &&& seen_serial == serial
                &&& seen_reply == reply
            },
            RequestView::SelectionWriteDone {
                session: seen_session,
                serial: seen_serial,
                success: seen_success,
            } => {
                &&& message matches RemoteDesktopToNiri::SelectionWriteDone {
                    session,
                    serial,
                    success,
                }
                &&& seen_session == session
                &&& seen_serial == serial
                &&& seen_success == success
            },
        },
{
}

/// What is seen of a notice is what it is.
pub proof fn notices_are_what_they_are_seen_as(notice: NiriToRemoteDesktop)
    ensures
        match notice@ {
            NoticeView::MonitorAdded(seen) => {
                &&& notice matches NiriToRemoteDesktop::MonitorAdded(info)
                &&& seen == info@
            },
            NoticeView::MonitorRemoved(seen) => {
                &&& notice matches NiriToRemoteDesktop::MonitorRemoved(monitor)
                &&& seen == monitor
            },
            NoticeView::SessionControlChanged {
                session: seen_session,
                has_control: seen_has_control,
            } => {
                &&& notice matches NiriToRemoteDesktop::SessionControlChanged {
                    session,
                    has_control,
                }
                &&& seen_session == session
                &&& seen_has_control == has_control
            },
            NoticeView::SessionDestroyed(seen) => {
                &&& notice matches NiriToRemoteDesktop::SessionDestroyed(session)
                &&& seen == session
            },
            NoticeView::SelectionOwnerChanged {
                session: seen_session,
                ty: seen_ty,
                mime_types: seen_mime_types,
                session_is_owner: seen_session_is_owner,
            } => {
                &&& notice matches NiriToRemoteDesktop::SelectionOwnerChanged {
                    session,
                    ty,
                    mime_types,
                    session_is_owner,
                }
                &&& seen_session == session
                &&& seen_ty == ty
                &&& seen_mime_types == views(mime_types@)
                &&& seen_session_is_owner == session_is_owner
            },
            NoticeView::SelectionTransfer {
                session: seen_session,
                ty: seen_ty,
                mime_type: seen_mime_type,
                serial: seen_serial,
            } => {
                &&& notice matches NiriToRemoteDesktop::SelectionTransfer {
                    session,
                    ty,
                    mime_type,
                    serial,
                }
                &&& seen_session == session
                &&& seen_ty == ty
                &&& seen_mime_type == mime_type@
                &&& seen_serial == serial
            },
        },
{
}

/// What is seen of an action on the objects is what it is.
pub proof fn object_actions_are_what_they_are_seen_as(action: ObjectAction)
    ensures
        match action@ {
            ObjectActionView::AddMonitor { path: seen_path, monitor: seen_monitor } => {
                &&& action matches ObjectAction::AddMonitor { path, monitor }
                &&& seen_path == path@
                &&& seen_monitor == monitor@
            },
            ObjectActionView::EmitMonitorRemoved { path: seen_path } => {
                &&& action matches ObjectAction::EmitMonitorRemoved { path }
                &&& seen_path == path@
            },
            ObjectActionView::RemoveMonitor { path: seen_path } => {
                &&& action matches ObjectAction::RemoveMonitor { path }
                &&& seen_path == path@
            },
            ObjectActionView::ChangeControl { path: seen_path, has_control: seen_has_control } => {
                &&& action matches ObjectAction::ChangeControl { path, has_control }
                &&& seen_path == path@
                &&& seen_has_control == has_control
            },
            ObjectActionView::EmitDestroyed { path: seen_path, destination: seen_destination } => {
                &&& action matches ObjectAction::EmitDestroyed { path, destination }
                &&& seen_path == path@
                &&& seen_destination == view_of(destination)
            },
            ObjectActionView::RemoveClipboard { path: seen_path } => {
                &&& action matches ObjectAction::RemoveClipboard { path }
                &&& seen_path == path@
            },
            ObjectActionView::RemoveSession { path: seen_path } => {
                &&& action matches ObjectAction::RemoveSession { path }
                &&& seen_path == path@
            },
            ObjectActionView::RemoveObjectManager { path: seen_path } => {
                &&& action matches ObjectAction::RemoveObjectManager { path }
                &&& seen_path == path@
            },
            ObjectActionView::ForgetSession { session: seen_session } => {
                &&& action matches ObjectAction::ForgetSession { session }
                &&& seen_session == session
            },
            ObjectActionView::EmitSelectionOwnerChanged {
                path: seen_path,
                destination: seen_destination,
                options: seen_options,
            } => {
                &&& action matches ObjectAction::EmitSelectionOwnerChanged {
                    path,
                    destination,
                    options,
                }
                &&& seen_path == path@
                &&& seen_destination == destination@
                &&& seen_options == options@
            },
            ObjectActionView::EmitSelectionTransfer {
                path: seen_path,
                destination: seen_destination,
                mime_type: seen_mime_type,
                serial: seen_serial,
                options: seen_options,
            } => {
                &&& action matches ObjectAction::EmitSelectionTransfer {
                    path,
                    destination,
                    mime_type,
                    serial,
                    options,
                }
                &&& seen_path == path@
                &&& seen_destination == destination@
                &&& seen_mime_type == mime_type@
                &&& seen_serial == serial
                &&& seen_options == options@
            },
        },
{
}

/// What is seen of what is told is what it is.
pub proof fn infos_are_what_they_are_seen_as(info: MonitorInfo, stream: StreamInfo)
    ensures
        info@.id == info.id,
        info@.name == info.name@,
        info@.owner == info.owner,
        stream@.stream_id == stream.stream_id@,
        stream@.node_id == stream.node_id,
        stream@.serial == stream.serial,
{
}

/// What is seen of an error is its kind and its text.
pub proof fn errors_are_what_they_are_seen_as(error: FdoError)
    ensures
        match error@ {
            ErrorView::Failed(seen) => error matches FdoError::Failed(text) && seen == text@,
            ErrorView::AccessDenied(seen) => error matches FdoError::AccessDenied(text) && seen
                == text@,
            ErrorView::NotSupported(seen) => error matches FdoError::NotSupported(text) && seen
                == text@,
            ErrorView::InvalidArgs(seen) => error matches FdoError::InvalidArgs(text) && seen
                == text@,
        },
{
}

/// What is seen of a value on the bus is its type and its content.
pub proof fn values_are_what_they_are_seen_as(value: Value, item: Item)
    ensures
        match value@ {
            ValueView::Bool(seen) => value matches Value::Bool(content) && seen == content,
            ValueView::U32(seen) => value matches Value::U32(content) && seen == content,
            ValueView::U64(seen) => value matches Value::U64(content) && seen == content,
            ValueView::Str(seen) => value matches Value::Str(content) && seen == content@,
            ValueView::Array(seen) => value matches Value::Array(items) && seen == views(items@),
            ValueView::Other => value is Other,
        },
        match item@ {
            ItemView::Str(seen) => item matches Item::Str(content) && seen == content@,
            ItemView::Other => item is Other,
        },
{
}

/// What is seen of an object is what it is.
pub proof fn objects_are_what_they_are_seen_as(
    session: Session,
    monitor: Monitor,
    clipboard: Clipboard,
)
    ensures
        session@.id == session.id,
        session@.owner == session.owner@,
        session@.persistent == session.persistent,
        session@.has_control == session.has_control,
        session@.disable_animations == session.disable_animations,
        session@.destroyed == session.destroyed,
        session@.enable_input == session.enable_input,
        session@.enable_clipboard == session.enable_clipboard,
        monitor@.session == monitor.session,
        monitor@.info == monitor.info@,
        clipboard@.session == clipboard.session,
        clipboard@.owner == clipboard.owner@,
{
}

/// What is seen of the registry is what it holds: each session under its number, and the monitors in
/// their order.
pub proof fn registries_are_what_they_are_seen_as(
    registry: Registry,
    id: RemoteDesktopSessionId,
    i: int,
)
    ensures
        registry@.sessions.contains_key(id) == registry.sessions@.contains_key(id),
        registry.sessions@.contains_key(id) ==> registry@.sessions[id] == registry.sessions@[id]@,
        registry@.monitors.len() == registry.monitors@.len(),
        0 <= i < registry.monitors@.len() ==> registry@.monitors[i] == registry.monitors@[i]@,
{
}

/// A registry begins without sessions and monitors.
pub proof fn registries_begin_empty(registry: Registry, other: Registry)
    requires
        call_ensures(Registry::new, (), registry),
        call_ensures(Registry::default, (), other),
    ensures
        registry@.sessions.dom() == Set::<u64>::empty(),
        registry@.monitors.len() == 0,
        other@.sessions.dom() == Set::<u64>::empty(),
        other@.monitors.len() == 0,
{
}

} // verus!
