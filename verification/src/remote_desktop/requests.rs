//! What each message of the D-Bus side does.

use vstd::prelude::*;

use super::actions::{Action, ActionView};
use super::laws::{displaces_control, messages_keep_valid};
use super::selections::fd_answered;
use super::SessionView;
use crate::dbus::remote_desktop::messages::{RemoteDesktopToNiri, RequestView};
use crate::niri::{NiriView, State};
use crate::utils::lists::{group_map_views, group_views, views};
use crate::utils::RemoteDesktopSessionId;

verus! {

impl NiriView {
    /// The compositor once a session's `disable-animations` option changed.
    pub open spec fn animations_set(self, id: RemoteDesktopSessionId, value: bool) -> NiriView {
        NiriView {
            remote_desktop: self.remote_desktop.with_session(
                id,
                SessionView {
                    disable_animations: value,
                    ..self.remote_desktop.sessions[id]
                },
            ),
            ..self
        }.animations_refreshed()
    }

    /// The compositor once it took a message of the D-Bus side.
    pub open spec fn handled(self, request: RequestView) -> NiriView {
        match request {
            RequestView::CreateSession {
                id,
                persistent,
                takes_control,
                disable_animations,
                reply,
            } => self.session_added(id, persistent, takes_control, disable_animations),
            RequestView::DestroySession { id, remove } => self.session_destroyed(id, remove),
            RequestView::SetDisableAnimations { id, value } => self.animations_set(id, value),
            RequestView::CreateVirtualMonitor { session, name, persistent, reply } => self,
            RequestView::RemoveVirtualMonitor { session, monitor, reply } => self,
            RequestView::OpenPipeWireStream { session, monitor, cursor_mode, reply } => self,
            RequestView::ClosePipeWireStream { session, monitor, stream_id, reply } => {
                self.stream_closed(session, monitor, stream_id)
            },
            RequestView::ConnectToEis { session, socket, reply } => self.eis_dropped(session),
            RequestView::EnableClipboard { session, reply } => self.clipboard_enabled(session),
            RequestView::DisableClipboard { session } => self.clipboard_disabled(session),
            RequestView::SetSelection { session, ty, mime_types, reply } => {
                self.selection_set(session, ty, mime_types)
            },
            RequestView::SelectionRead { session, ty, mime_type, reply } => self,
            RequestView::SelectionWrite { session, serial, reply } => {
                self.transfer_taken(session, serial)
            },
            RequestView::SelectionWriteDone { session, serial, success } => {
                self.transfer_finished(session, serial)
            },
        }
    }

    /// What taking a message of the D-Bus side does.
    pub open spec fn handling(self, request: RequestView) -> Seq<ActionView> {
        match request {
            RequestView::CreateSession {
                id,
                persistent,
                takes_control,
                disable_animations,
                reply,
            } => self.session_addition(id, takes_control, reply),
            RequestView::DestroySession { id, remove } => self.destruction(id, remove, false),
            RequestView::SetDisableAnimations { id, value } => Seq::empty(),
            RequestView::CreateVirtualMonitor { session, name, persistent, reply } => {
                self.monitor_request(session, name, persistent, reply)
            },
            RequestView::RemoveVirtualMonitor { session, monitor, reply } => {
                self.monitor_removal_request(session, monitor, reply)
            },
            RequestView::OpenPipeWireStream { session, monitor, cursor_mode, reply } => {
                self.stream_request(session, monitor, cursor_mode, reply)
            },
            RequestView::ClosePipeWireStream { session, monitor, stream_id, reply } => {
                self.stream_closing(session, monitor, stream_id, reply)
            },
            RequestView::ConnectToEis { session, socket, reply } => {
                self.eis_request(session, socket, reply)
            },
            RequestView::EnableClipboard { session, reply } => {
                self.clipboard_enabling(session, reply)
            },
            RequestView::DisableClipboard { session } => self.clipboard_disabling(session),
            RequestView::SetSelection { session, ty, mime_types, reply } => {
                self.selection_setting(session, ty, mime_types, reply)
            },
            RequestView::SelectionRead { session, ty, mime_type, reply } => {
                self.selection_reading(session, ty, mime_type, reply)
            },
            RequestView::SelectionWrite { session, serial, reply } => {
                seq![fd_answered(reply, self.transfer_fd(session, serial))]
            },
            RequestView::SelectionWriteDone { session, serial, success } => {
                self.transfer_finishing(session, serial)
            },
        }
    }
}

impl State {
    /// Changes a session's `disable-animations` option, if the session exists.
    pub fn set_disable_animations(&mut self, id: RemoteDesktopSessionId, value: bool)
        ensures
            final(self)@ == old(self)@.animations_set(id, value),
            old(self)@.valid() ==> final(self)@.valid(),
    {
        broadcast use group_map_views;

        let ghost before = self@;
        proof {
            if before.valid() {
                messages_keep_valid(before, RequestView::SetDisableAnimations { id, value });
            }
        }
        if let Some(mut session) = self.niri.remote_desktop.sessions.remove(&id) {
            session.disable_animations = value;
            self.niri.remote_desktop.sessions.insert(id, session);
        }
        assert(self@.remote_desktop.sessions =~= before.remote_desktop.with_session(
            id,
            SessionView { disable_animations: value, ..before.remote_desktop.sessions[id] },
        ).sessions);
        self.refresh_remote_desktop_animations();
    }

    /// Takes a message of the D-Bus side.
    pub fn on_remote_desktop_msg(&mut self, msg: RemoteDesktopToNiri) -> (actions: Vec<Action>)
        ensures
            final(self)@ == old(self)@.handled(msg@),
            views(actions@) == old(self)@.handling(msg@),
            old(self)@.valid() && !displaces_control(old(self)@, msg@) ==> final(self)@.valid(),
    {
        broadcast use group_views;

        proof {
            if self@.valid() && !displaces_control(self@, msg@) {
                messages_keep_valid(self@, msg@);
            }
        }
        let mut actions: Vec<Action> = Vec::new();
        match msg {
            RemoteDesktopToNiri::CreateSession {
                id,
                persistent,
                takes_control,
                disable_animations,
                reply,
            } => {
                self.create_remote_desktop_session(
                    id,
                    persistent,
                    takes_control,
                    disable_animations,
                    reply,
                    &mut actions,
                );
                assert(views(actions@) =~= old(self)@.handling(msg@));
            },
            RemoteDesktopToNiri::DestroySession { id, remove } => {
                self.destroy_remote_desktop_session(id, remove, false, &mut actions);
                assert(views(actions@) =~= old(self)@.handling(msg@));
            },
            RemoteDesktopToNiri::SetDisableAnimations { id, value } => {
                self.set_disable_animations(id, value);
            },
            RemoteDesktopToNiri::CreateVirtualMonitor { session, name, persistent, reply } => {
                actions = self.create_remote_desktop_monitor(session, name, persistent, reply);
            },
            RemoteDesktopToNiri::RemoveVirtualMonitor { session, monitor, reply } => {
                actions = self.remove_remote_desktop_monitor(session, monitor, reply);
            },
            RemoteDesktopToNiri::OpenPipeWireStream { session, monitor, cursor_mode, reply } => {
                actions = self.open_remote_desktop_stream(session, monitor, cursor_mode, reply);
            },
            RemoteDesktopToNiri::ClosePipeWireStream { session, monitor, stream_id, reply } => {
                actions = self.close_remote_desktop_stream(session, monitor, &stream_id, reply);
            },
            RemoteDesktopToNiri::ConnectToEis { session, socket, reply } => {
                actions = self.connect_remote_desktop_eis(session, socket, reply);
            },
            RemoteDesktopToNiri::EnableClipboard { session, reply } => {
                actions = self.enable_remote_desktop_clipboard(session, reply);
            },
            RemoteDesktopToNiri::DisableClipboard { session } => {
                actions = self.disable_remote_desktop_clipboard(session);
            },
            RemoteDesktopToNiri::SetSelection { session, ty, mime_types, reply } => {
                actions = self.set_remote_desktop_selection(session, ty, mime_types, reply);
            },
            RemoteDesktopToNiri::SelectionRead { session, ty, mime_type, reply } => {
                actions = self.read_remote_desktop_selection(session, ty, mime_type, reply);
            },
            RemoteDesktopToNiri::SelectionWrite { session, serial, reply } => {
                actions = self.take_remote_desktop_transfer_fd(session, serial, reply);
            },
            RemoteDesktopToNiri::SelectionWriteDone { session, serial, success: _ } => {
                actions = self.finish_remote_desktop_transfer(session, serial);
            },
        }
        actions
    }
}

} // verus!
