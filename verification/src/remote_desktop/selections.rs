//! Selections of the seat: offering, reading and transferring them.

use vstd::prelude::*;
use vstd::string::*;

use super::actions::{Action, ActionView, Reply, ReplyView, SourceToken};
use super::clipboard::{
    ClipboardView, PendingTransfer, SelectionTarget, SessionClipboard, TRANSFER_TIMEOUT,
    clipboard_type_of, serial_after, target_of,
};
use super::laws::{clipboard_changes_keep_valid, messages_keep_valid};
use super::streams::answered;
use super::{RemoteDesktopView, Session, SessionView};
use crate::dbus::remote_desktop::messages::{
    ClipboardType, FdHandle, NiriToRemoteDesktop, NoticeView, ReplyHandle, RequestView,
};
use crate::niri::{NiriView, State};
use crate::utils::lists::{clone_texts, group_map_views, group_views, lemma_take_push, views};
use crate::utils::order::{ids_in, ids_of};
use crate::utils::text::join;
use crate::utils::RemoteDesktopSessionId;

verus! {

/// Why the data of a selection cannot be read.
#[derive(Debug)]
pub enum SelectionReadError {
    /// There is no pipe for the data.
    Pipe(String),
    /// The owner of the selection cannot be asked.
    Request(String),
}

/// The answer to a call that gives a file descriptor back.
pub open spec fn fd_answered(reply: ReplyHandle, result: Result<FdHandle, Seq<char>>) -> ActionView {
    ActionView::Reply { to: reply, reply: ReplyView::Fd(result) }
}

impl RemoteDesktopView {
    /// Why the clipboard of a session cannot be used, if it cannot.
    pub open spec fn clipboard_error(self, session: RemoteDesktopSessionId) -> Option<Seq<char>> {
        if !self.sessions.contains_key(session) {
            Some("no such session"@)
        } else if self.sessions[session].clipboard is None {
            Some("clipboard integration is not enabled for this session"@)
        } else {
            None
        }
    }

    /// The clipboard of a session that has one.
    pub open spec fn clipboard(self, session: RemoteDesktopSessionId) -> ClipboardView {
        self.sessions[session].clipboard->0
    }

    /// Telling the given sessions that a selection has a new owner.
    pub open spec fn owner_changes(
        self,
        sessions: Seq<RemoteDesktopSessionId>,
        ty: ClipboardType,
        mime_types: Seq<Seq<char>>,
    ) -> Seq<ActionView>
        decreases sessions.len(),
    {
        if sessions.len() == 0 {
            Seq::empty()
        } else {
            let session = sessions.last();
            self.owner_changes(sessions.drop_last(), ty, mime_types) + (
            match self.sessions[session].clipboard {
                Some(clipboard) => seq![
                    ActionView::Notify(
                        NoticeView::SelectionOwnerChanged {
                            session,
                            ty,
                            mime_types,
                            session_is_owner: clipboard.offered.contains_key(ty),
                        },
                    ),
                ],
                None => Seq::empty(),
            })
        }
    }
}

impl NiriView {
    /// The compositor with another clipboard for a session.
    pub open spec fn with_clipboard(
        self,
        session: RemoteDesktopSessionId,
        clipboard: Option<ClipboardView>,
    ) -> NiriView {
        self.with_sessions(
            self.remote_desktop.sessions.insert(
                session,
                SessionView { clipboard, ..self.remote_desktop.sessions[session] },
            ),
        )
    }
}

impl NiriView {
    /// The compositor with clipboard integration turned on for a session.
    pub open spec fn clipboard_enabled(self, session: RemoteDesktopSessionId) -> NiriView {
        if self.remote_desktop.sessions.contains_key(session) {
            self.with_clipboard(session, Some(ClipboardView::fresh()))
        } else {
            self
        }
    }

    /// What turning clipboard integration on does.
    pub open spec fn clipboard_enabling(
        self,
        session: RemoteDesktopSessionId,
        reply: ReplyHandle,
    ) -> Seq<ActionView> {
        if self.remote_desktop.sessions.contains_key(session) {
            (match self.remote_desktop.sessions[session].clipboard {
                Some(clipboard) => clipboard.dropped(),
                None => Seq::empty(),
            }).push(answered(reply, Ok(())))
        } else {
            seq![answered(reply, Err("no such session"@))]
        }
    }

    /// The compositor with clipboard integration turned off for a session.
    pub open spec fn clipboard_disabled(self, session: RemoteDesktopSessionId) -> NiriView {
        if self.remote_desktop.sessions.contains_key(session) {
            self.with_clipboard(session, None)
        } else {
            self
        }
    }

    /// What turning clipboard integration off does.
    pub open spec fn clipboard_disabling(self, session: RemoteDesktopSessionId) -> Seq<ActionView> {
        if self.remote_desktop.sessions.contains_key(session) {
            self.remote_desktop.sessions[session].clipboard_cleared()
        } else {
            Seq::empty()
        }
    }

    /// The compositor once a session offers mime types for a selection, or none anymore.
    pub open spec fn selection_set(
        self,
        session: RemoteDesktopSessionId,
        ty: ClipboardType,
        mime_types: Seq<Seq<char>>,
    ) -> NiriView {
        let clipboard = self.remote_desktop.clipboard(session);
        if self.remote_desktop.clipboard_error(session) is Some {
            self
        } else {
            self.with_clipboard(
                session,
                Some(
                    ClipboardView {
                        offered: if mime_types.len() == 0 {
                            clipboard.offered.remove(ty)
                        } else {
                            clipboard.offered.insert(ty, mime_types)
                        },
                        ..clipboard
                    },
                ),
            )
        }
    }

    /// What offering mime types for a selection does.
    pub open spec fn selection_setting(
        self,
        session: RemoteDesktopSessionId,
        ty: ClipboardType,
        mime_types: Seq<Seq<char>>,
        reply: ReplyHandle,
    ) -> Seq<ActionView> {
        match self.remote_desktop.clipboard_error(session) {
            Some(error) => seq![answered(reply, Err(error))],
            None => seq![
                if mime_types.len() == 0 {
                    ActionView::ClearSelection { target: target_of(ty) }
                } else {
                    ActionView::SetSelection { target: target_of(ty), mime_types, session }
                },
                answered(reply, Ok(())),
            ],
        }
    }

    /// What asking for the data of a selection does.
    pub open spec fn selection_reading(
        self,
        session: RemoteDesktopSessionId,
        ty: ClipboardType,
        mime_type: Seq<char>,
        reply: ReplyHandle,
    ) -> Seq<ActionView> {
        seq![
            if self.remote_desktop.sessions.contains_key(session) {
                ActionView::ReadSelection { target: target_of(ty), mime_type, reply }
            } else {
                fd_answered(reply, Err("no such session"@))
            },
        ]
    }

    /// The fd that is handed out for a transfer, or the reason why there is none.
    pub open spec fn transfer_fd(self, session: RemoteDesktopSessionId, serial: u32) -> Result<
        FdHandle,
        Seq<char>,
    > {
        let pending = self.remote_desktop.clipboard(session).pending;
        match self.remote_desktop.clipboard_error(session) {
            Some(error) => Err(error),
            None => if !pending.contains_key(serial) {
                Err("no transfer with this serial"@)
            } else {
                match pending[serial].fd {
                    Some(fd) => Ok(fd),
                    None => Err("the transfer fd was already taken"@),
                }
            },
        }
    }

    /// The compositor once the fd of a transfer was handed out.
    pub open spec fn transfer_taken(
        self,
        session: RemoteDesktopSessionId,
        serial: u32,
    ) -> NiriView {
        let clipboard = self.remote_desktop.clipboard(session);
        if self.transfer_fd(session, serial) is Ok {
            self.with_clipboard(
                session,
                Some(
                    ClipboardView {
                        pending: clipboard.pending.insert(
                            serial,
                            PendingTransfer { fd: None, ..clipboard.pending[serial] },
                        ),
                        ..clipboard
                    },
                ),
            )
        } else {
            self
        }
    }

    /// Whether a transfer is under way.
    pub open spec fn transfer_pending(
        self,
        session: RemoteDesktopSessionId,
        serial: u32,
    ) -> bool {
        self.remote_desktop.clipboard_error(session) is None && self.remote_desktop.clipboard(
            session,
        ).pending.contains_key(serial)
    }

    /// The compositor without a transfer.
    pub open spec fn transfer_finished(
        self,
        session: RemoteDesktopSessionId,
        serial: u32,
    ) -> NiriView {
        let clipboard = self.remote_desktop.clipboard(session);
        if self.transfer_pending(session, serial) {
            self.with_clipboard(
                session,
                Some(ClipboardView { pending: clipboard.pending.remove(serial), ..clipboard }),
            )
        } else {
            self
        }
    }

    /// What ending a transfer does.
    pub open spec fn transfer_finishing(
        self,
        session: RemoteDesktopSessionId,
        serial: u32,
    ) -> Seq<ActionView> {
        if self.transfer_pending(session, serial) {
            self.remote_desktop.clipboard(session).pending[serial].ended()
        } else {
            Seq::empty()
        }
    }

    /// The compositor once a client asked for the data of a selection that a session offers.
    pub open spec fn transfer_requested(self, session: RemoteDesktopSessionId) -> NiriView {
        let clipboard = self.remote_desktop.clipboard(session);
        if self.remote_desktop.clipboard_error(session) is None {
            self.with_clipboard(
                session,
                Some(
                    ClipboardView {
                        next_serial: serial_after(clipboard.next_serial),
                        ..clipboard
                    },
                ),
            )
        } else {
            self
        }
    }

    /// The compositor once the fd of a client is parked.
    pub open spec fn transfer_parked(
        self,
        session: RemoteDesktopSessionId,
        serial: u32,
        transfer: PendingTransfer,
    ) -> NiriView {
        let clipboard = self.remote_desktop.clipboard(session);
        self.with_clipboard(
            session,
            Some(
                ClipboardView { pending: clipboard.pending.insert(serial, transfer), ..clipboard },
            ),
        )
    }
}

/// Reads the answer to a call that a session's clipboard cannot serve.
fn refusal(session: Option<&Session>) -> (error: Option<String>)
    ensures
        match (session, error) {
            (None, Some(error)) => error@ == "no such session"@,
            (Some(session), Some(error)) => session@.clipboard is None && error@
                == "clipboard integration is not enabled for this session"@,
            (Some(session), None) => session@.clipboard is Some,
            (None, None) => false,
        },
{
    match session {
        None => Some("no such session".to_owned()),
        Some(session) => if session.clipboard.is_none() {
            Some("clipboard integration is not enabled for this session".to_owned())
        } else {
            None
        },
    }
}

impl State {
    /// Why the clipboard of a session cannot be used, if it cannot.
    fn clipboard_error(&self, session: RemoteDesktopSessionId) -> (error: Option<String>)
        ensures
            match error {
                Some(error) => self@.remote_desktop.clipboard_error(session) == Some(error@),
                None => self@.remote_desktop.clipboard_error(session) is None,
            },
    {
        broadcast use group_map_views;

        let record = self.niri.remote_desktop.sessions.get(&session);
        refusal(record)
    }

    /// Takes the clipboard of a session that has one out of it.
    fn take_clipboard(&mut self, session: RemoteDesktopSessionId) -> (clipboard: SessionClipboard)
        requires
            old(self)@.remote_desktop.clipboard_error(session) is None,
        ensures
            clipboard@ == old(self)@.remote_desktop.clipboard(session),
            final(self)@ == old(self)@.with_clipboard(session, None),
    {
        broadcast use group_map_views;

        let ghost before = self@;
        match self.niri.remote_desktop.sessions.remove(&session) {
            Some(mut record) => {
                let clipboard = record.clipboard.take();
                self.niri.remote_desktop.sessions.insert(session, record);
                assert(self@ =~= before.with_clipboard(session, None));
                match clipboard {
                    Some(clipboard) => clipboard,
                    None => SessionClipboard::new(),
                }
            },
            None => SessionClipboard::new(),
        }
    }

    /// Puts a clipboard into a session.
    fn put_clipboard(&mut self, session: RemoteDesktopSessionId, clipboard: SessionClipboard)
        requires
            old(self)@.remote_desktop.sessions.contains_key(session),
        ensures
            final(self)@ == old(self)@.with_clipboard(session, Some(clipboard@)),
    {
        broadcast use group_map_views;

        let ghost before = self@;
        if let Some(mut record) = self.niri.remote_desktop.sessions.remove(&session) {
            record.clipboard = Some(clipboard);
            self.niri.remote_desktop.sessions.insert(session, record);
        }
        assert(self@ =~= before.with_clipboard(session, Some(clipboard@)));
    }

    /// Turns clipboard integration on for a session.
    pub fn enable_remote_desktop_clipboard(
        &mut self,
        session: RemoteDesktopSessionId,
        reply: ReplyHandle,
    ) -> (actions: Vec<Action>)
        ensures
            final(self)@ == old(self)@.clipboard_enabled(session),
            views(actions@) == old(self)@.clipboard_enabling(session, reply),
            old(self)@.valid() ==> final(self)@.valid(),
    {
        broadcast use {group_views, group_map_views};

        proof {
            if self@.valid() {
                messages_keep_valid(self@, RequestView::EnableClipboard { session, reply });
            }
        }
        let ghost before = self@;
        let mut actions: Vec<Action> = Vec::new();
        match self.niri.remote_desktop.sessions.remove(&session) {
            Some(mut record) => {
                if let Some(replaced) = record.clipboard.take() {
                    replaced.discard(&mut actions);
                }
                assert(views(actions@) =~= (
                match before.remote_desktop.sessions[session].clipboard {
                    Some(clipboard) => clipboard.dropped(),
                    None => Seq::empty(),
                }));
                record.clipboard = Some(SessionClipboard::default());
                self.niri.remote_desktop.sessions.insert(session, record);
                assert(self@ =~= before.with_clipboard(session, Some(ClipboardView::fresh())));
                actions.push(Action::Reply { to: reply, reply: Reply::Done(Ok(())) });
            },
            None => {
                let error = "no such session".to_owned();
                actions.push(Action::Reply { to: reply, reply: Reply::Done(Err(error)) });
                assert(self@ =~= before);
                assert(views(actions@) =~= seq![answered(reply, Err("no such session"@))]);
            },
        }
        actions
    }

    /// Turns clipboard integration off for a session.
    pub fn disable_remote_desktop_clipboard(&mut self, session: RemoteDesktopSessionId) -> (actions:
        Vec<Action>)
        ensures
            final(self)@ == old(self)@.clipboard_disabled(session),
            views(actions@) == old(self)@.clipboard_disabling(session),
            old(self)@.valid() ==> final(self)@.valid(),
    {
        broadcast use {group_views, group_map_views};

        proof {
            if self@.valid() {
                messages_keep_valid(self@, RequestView::DisableClipboard { session });
            }
        }
        let ghost before = self@;
        let mut actions: Vec<Action> = Vec::new();
        if let Some(mut record) = self.niri.remote_desktop.sessions.remove(&session) {
            record.clear_remote_desktop_selections(&mut actions);
            record.clipboard = None;
            self.niri.remote_desktop.sessions.insert(session, record);
            assert(self@ =~= before.with_clipboard(session, None));
            assert(views(actions@)
                =~= before.remote_desktop.sessions[session].clipboard_cleared());
        } else {
            assert(self@ =~= before);
        }
        actions
    }

    /// Makes a session the owner of a selection, or gives the selection up if there is nothing to
    /// offer.
    pub fn set_remote_desktop_selection(
        &mut self,
        session: RemoteDesktopSessionId,
        ty: ClipboardType,
        mime_types: Vec<String>,
        reply: ReplyHandle,
    ) -> (actions: Vec<Action>)
        ensures
            final(self)@ == old(self)@.selection_set(session, ty, views(mime_types@)),
            views(actions@) == old(self)@.selection_setting(
                session,
                ty,
                views(mime_types@),
                reply,
            ),
            old(self)@.valid() ==> final(self)@.valid(),
    {
        broadcast use group_views;

        proof {
            if self@.valid() {
                messages_keep_valid(
                    self@,
                    RequestView::SetSelection {
                        session,
                        ty,
                        mime_types: views(mime_types@),
                        reply,
                    },
                );
            }
        }
        let ghost before = self@;
        let mut actions: Vec<Action> = Vec::new();
        if let Some(error) = self.clipboard_error(session) {
            actions.push(Action::Reply { to: reply, reply: Reply::Done(Err(error)) });
            assert(views(actions@) =~= seq![answered(reply, Err(error@))]);
            return actions;
        }
        let mut clipboard = self.take_clipboard(session);
        if mime_types.len() == 0 {
            clipboard.offered.remove(ty);
            actions.push(Action::ClearSelection { target: SelectionTarget::from(ty) });
        } else {
            clipboard.offered.insert(ty, clone_texts(&mime_types));
            actions.push(
                Action::SetSelection { target: SelectionTarget::from(ty), mime_types, session },
            );
        }
        actions.push(Action::Reply { to: reply, reply: Reply::Done(Ok(())) });
        self.put_clipboard(session, clipboard);
        assert(self@ =~= before.with_clipboard(session, Some(clipboard@)));
        assert(views(actions@) =~= before.selection_setting(
            session,
            ty,
            views(mime_types@),
            reply,
        ));
        actions
    }

    /// Asks for the data of a selection.
    pub fn read_remote_desktop_selection(
        &mut self,
        session: RemoteDesktopSessionId,
        ty: ClipboardType,
        mime_type: String,
        reply: ReplyHandle,
    ) -> (actions: Vec<Action>)
        ensures
            final(self)@ == old(self)@,
            views(actions@) == old(self)@.selection_reading(session, ty, mime_type@, reply),
    {
        broadcast use {group_views, group_map_views};

        let mut actions: Vec<Action> = Vec::new();
        if !self.niri.remote_desktop.sessions.contains_key(&session) {
            let error = "no such session".to_owned();
            actions.push(Action::Reply { to: reply, reply: Reply::Fd(Err(error)) });
            assert(views(actions@) =~= seq![fd_answered(reply, Err("no such session"@))]);
        } else {
            actions.push(
                Action::ReadSelection { target: SelectionTarget::from(ty), mime_type, reply },
            );
            assert(views(actions@) =~= seq![
                ActionView::ReadSelection { target: target_of(ty), mime_type: mime_type@, reply },
            ]);
        }
        actions
    }

    /// Called with the end of a pipe that gives the data of a selection, or with the reason why
    /// there is none.
    pub fn selection_read(
        &mut self,
        result: Result<FdHandle, SelectionReadError>,
        reply: ReplyHandle,
    ) -> (actions: Vec<Action>)
        ensures
            final(self)@ == old(self)@,
            views(actions@) == seq![
                fd_answered(
                    reply,
                    match result {
                        Ok(fd) => Ok(fd),
                        Err(SelectionReadError::Pipe(error)) => Err(
                            "error creating a pipe: "@ + error@,
                        ),
                        Err(SelectionReadError::Request(error)) => Err(
                            "error reading the selection: "@ + error@,
                        ),
                    },
                ),
            ],
    {
        broadcast use group_views;

        let answer = match result {
            Ok(fd) => Ok(fd),
            Err(SelectionReadError::Pipe(error)) => Err(
                join("error creating a pipe: ", error.as_str()),
            ),
            Err(SelectionReadError::Request(error)) => Err(
                join("error reading the selection: ", error.as_str()),
            ),
        };
        let mut actions: Vec<Action> = Vec::new();
        actions.push(Action::Reply { to: reply, reply: Reply::Fd(answer) });
        assert(views(actions@) =~= seq![views(actions@)[0]]);
        actions
    }

    /// Hands the parked fd of a transfer to the service, once.
    pub fn take_remote_desktop_transfer_fd(
        &mut self,
        session: RemoteDesktopSessionId,
        serial: u32,
        reply: ReplyHandle,
    ) -> (actions: Vec<Action>)
        ensures
            final(self)@ == old(self)@.transfer_taken(session, serial),
            views(actions@) == seq![
                fd_answered(reply, old(self)@.transfer_fd(session, serial)),
            ],
            old(self)@.valid() ==> final(self)@.valid(),
    {
        broadcast use group_views;

        proof {
            if self@.valid() {
                messages_keep_valid(self@, RequestView::SelectionWrite { session, serial, reply });
            }
        }
        let ghost before = self@;
        let mut actions: Vec<Action> = Vec::new();
        if let Some(error) = self.clipboard_error(session) {
            actions.push(Action::Reply { to: reply, reply: Reply::Fd(Err(error)) });
            assert(views(actions@) =~= seq![fd_answered(reply, Err(error@))]);
            return actions;
        }
        let mut clipboard = self.take_clipboard(session);
        let ghost held = clipboard@;
        let answer = match clipboard.pending.remove(&serial) {
            None => {
                assert(clipboard@ =~= held);
                Err("no transfer with this serial".to_owned())
            },
            Some(transfer) => {
                let kept = PendingTransfer { fd: None, timeout: transfer.timeout };
                clipboard.pending.insert(serial, kept);
                assert(clipboard@.pending =~= held.pending.insert(serial, kept));
                match transfer.fd {
                    Some(fd) => Ok(fd),
                    None => {
                        assert(clipboard@ =~= held);
                        Err("the transfer fd was already taken".to_owned())
                    },
                }
            },
        };
        actions.push(Action::Reply { to: reply, reply: Reply::Fd(answer) });
        self.put_clipboard(session, clipboard);
        assert(views(actions@) =~= seq![views(actions@)[0]]);
        assert(self@ =~= before.with_clipboard(session, Some(clipboard@)));
        proof {
            if clipboard@ == held {
                assert(self@ =~= before);
            }
        }
        actions
    }

    /// Ends a transfer that the service is done with.
    pub fn finish_remote_desktop_transfer(
        &mut self,
        session: RemoteDesktopSessionId,
        serial: u32,
    ) -> (actions: Vec<Action>)
        ensures
            final(self)@ == old(self)@.transfer_finished(session, serial),
            views(actions@) == old(self)@.transfer_finishing(session, serial),
            old(self)@.valid() ==> final(self)@.valid(),
    {
        broadcast use group_views;

        proof {
            if self@.valid() {
                messages_keep_valid(
                    self@,
                    RequestView::SelectionWriteDone { session, serial, success: true },
                );
            }
        }
        let ghost before = self@;
        let mut actions: Vec<Action> = Vec::new();
        if self.clipboard_error(session).is_some() {
            return actions;
        }
        let mut clipboard = self.take_clipboard(session);
        let ghost held = clipboard@;
        if let Some(transfer) = clipboard.pending.remove(&serial) {
            transfer.end(&mut actions);
            assert(views(actions@) =~= transfer.ended());
        } else {
            assert(clipboard@ =~= held);
        }
        self.put_clipboard(session, clipboard);
        assert(self@ =~= before.with_clipboard(session, Some(clipboard@)));
        proof {
            if clipboard@ == held {
                assert(self@ =~= before);
            }
        }
        actions
    }

    /// Called when the service did not finish a transfer in time. Its fd is closed, so that a
    /// service that never answers leaks nothing.
    pub fn transfer_timed_out(&mut self, session: RemoteDesktopSessionId, serial: u32) -> (actions:
        Vec<Action>)
        ensures
            final(self)@ == old(self)@.transfer_finished(session, serial),
            views(actions@) == if old(self)@.transfer_pending(session, serial) {
                old(self)@.remote_desktop.clipboard(session).pending[serial].closed()
            } else {
                Seq::empty()
            },
            old(self)@.valid() ==> final(self)@.valid(),
    {
        broadcast use group_views;

        proof {
            if self@.valid() {
                messages_keep_valid(
                    self@,
                    RequestView::SelectionWriteDone { session, serial, success: true },
                );
            }
        }
        let ghost before = self@;
        let mut actions: Vec<Action> = Vec::new();
        if self.clipboard_error(session).is_some() {
            return actions;
        }
        let mut clipboard = self.take_clipboard(session);
        let ghost held = clipboard@;
        if let Some(transfer) = clipboard.pending.remove(&serial) {
            transfer.close(&mut actions);
            assert(views(actions@) =~= transfer.closed());
        } else {
            assert(clipboard@ =~= held);
        }
        self.put_clipboard(session, clipboard);
        assert(self@ =~= before.with_clipboard(session, Some(clipboard@)));
        proof {
            if clipboard@ == held {
                assert(self@ =~= before);
            }
        }
        actions
    }

    /// A Wayland client wants to read a selection owned by a remote desktop session.
    ///
    /// Asks for a timer, so the client's fd is not leaked if the service never answers. The fd
    /// arrives without blocking writes; the service writes to it with a plain write, so its flags
    /// are cleared first.
    pub fn remote_desktop_send_selection(
        &mut self,
        session: RemoteDesktopSessionId,
        ty: ClipboardType,
        mime_type: String,
        fd: FdHandle,
    ) -> (actions: Vec<Action>)
        ensures
            final(self)@ == old(self)@.transfer_requested(session),
            views(actions@) == seq![
                ActionView::ClearFdFlags { fd },
                if old(self)@.remote_desktop.clipboard_error(session) is None {
                    ActionView::StartTransferTimer {
                        session,
                        ty,
                        mime_type: mime_type@,
                        fd,
                        serial: serial_after(
                            old(self)@.remote_desktop.clipboard(session).next_serial,
                        ),
                        seconds: TRANSFER_TIMEOUT,
                    }
                } else {
                    ActionView::CloseFd { fd }
                },
            ],
            old(self)@.valid() ==> final(self)@.valid(),
    {
        broadcast use group_views;

        proof {
            let after = self@.transfer_requested(session).remote_desktop.sessions[session];
            if self@.valid() && self@.remote_desktop.sessions.contains_key(session) {
                clipboard_changes_keep_valid(self@, session, after.clipboard);
            }
        }
        let ghost before = self@;
        let mut actions: Vec<Action> = Vec::new();
        actions.push(Action::ClearFdFlags { fd });
        if self.clipboard_error(session).is_some() {
            actions.push(Action::CloseFd { fd });
            assert(views(actions@) =~= seq![
                ActionView::ClearFdFlags { fd },
                ActionView::CloseFd { fd },
            ]);
            return actions;
        }
        let mut clipboard = self.take_clipboard(session);
        let serial: u32 = clipboard.next_serial();
        self.put_clipboard(session, clipboard);
        assert(self@ =~= before.with_clipboard(session, Some(clipboard@)));
        let action = Action::StartTransferTimer {
            session,
            ty,
            mime_type,
            fd,
            serial,
            seconds: TRANSFER_TIMEOUT,
        };
        actions.push(action);
        assert(views(actions@) =~= seq![ActionView::ClearFdFlags { fd }, action@]);
        actions
    }

    /// Called with the timer of a transfer, if there is one. Parks the client's fd and asks the
    /// service for the data; it answers with `SelectionWrite`.
    pub fn transfer_timer_started(
        &mut self,
        session: RemoteDesktopSessionId,
        ty: ClipboardType,
        mime_type: String,
        fd: FdHandle,
        serial: u32,
        timeout: Option<SourceToken>,
    ) -> (actions: Vec<Action>)
        requires
            old(self)@.remote_desktop.clipboard_error(session) is None,
        ensures
            final(self)@ == old(self)@.transfer_parked(
                session,
                serial,
                PendingTransfer { fd: Some(fd), timeout },
            ),
            views(actions@) == (if old(self)@.transfer_pending(session, serial) {
                old(self)@.remote_desktop.clipboard(session).pending[serial].closed()
            } else {
                Seq::empty()
            }) + old(self)@.remote_desktop.notice(
                NoticeView::SelectionTransfer { session, ty, mime_type: mime_type@, serial },
            ),
            old(self)@.valid() ==> final(self)@.valid(),
    {
        broadcast use group_views;

        proof {
            if self@.valid() {
                let parked = self@.transfer_parked(
                    session,
                    serial,
                    PendingTransfer { fd: Some(fd), timeout },
                );
                clipboard_changes_keep_valid(
                    self@,
                    session,
                    parked.remote_desktop.sessions[session].clipboard,
                );
            }
        }
        let ghost before = self@;
        let mut actions: Vec<Action> = Vec::new();
        let mut clipboard = self.take_clipboard(session);
        let transfer = PendingTransfer { fd: Some(fd), timeout };
        if let Some(replaced) = clipboard.pending.insert(serial, transfer) {
            replaced.close(&mut actions);
        }
        self.put_clipboard(session, clipboard);
        assert(self@ =~= before.with_clipboard(session, Some(clipboard@)));
        let ghost closed = views(actions@);
        let notice = NiriToRemoteDesktop::SelectionTransfer { session, ty, mime_type, serial };
        self.niri.remote_desktop.notify(notice, &mut actions);
        assert(views(actions@) =~= closed + before.remote_desktop.notice(notice@));
        assert(closed =~= (if before.remote_desktop.clipboard(session).pending.contains_key(
            serial,
        ) {
            before.remote_desktop.clipboard(session).pending[serial].closed()
        } else {
            Seq::empty()
        }));
        actions
    }

    /// A Wayland client took over a selection; tells every session with clipboard integration.
    pub fn remote_desktop_new_selection(
        &mut self,
        target: SelectionTarget,
        source: Option<Vec<String>>,
    ) -> (actions: Vec<Action>)
        ensures
            final(self)@ == old(self)@,
            views(actions@) == if old(self)@.remote_desktop.to_dbus {
                old(self)@.remote_desktop.owner_changes(
                    ids_of(old(self)@.remote_desktop.sessions.dom()),
                    match target {
                        SelectionTarget::Clipboard => ClipboardType::Clipboard,
                        SelectionTarget::Primary => ClipboardType::Primary,
                    },
                    match source {
                        Some(mime_types) => views(mime_types@),
                        None => Seq::empty(),
                    },
                )
            } else {
                Seq::empty()
            },
    {
        broadcast use {group_views, group_map_views};

        let mut actions: Vec<Action> = Vec::new();
        if !self.niri.remote_desktop.is_enabled() {
            return actions;
        }

        let ghost desktop = self@.remote_desktop;
        let ty = clipboard_type_of(target);
        let mime_types: Vec<String> = match source {
            Some(mime_types) => mime_types,
            None => Vec::new(),
        };
        let ids = ids_in(&self.niri.remote_desktop.sessions);
        for i in 0..ids.len()
            invariant
                self@ == old(self)@,
                desktop == self@.remote_desktop,
                desktop.to_dbus,
                ids@.to_set() == self.niri.remote_desktop.sessions@.dom(),
                views(actions@) == desktop.owner_changes(
                    ids@.take(i as int),
                    ty,
                    views(mime_types@),
                ),
        {
            let session: u64 = ids[i];
            proof {
                lemma_take_push(ids@, i as int);
                assert(ids@.take(i + 1).drop_last() =~= ids@.take(i as int));
                assert(ids@.to_set().contains(session));
            }
            if let Some(record) = self.niri.remote_desktop.sessions.get(&session) {
                assert(desktop.sessions[session] == record@);
                if let Some(clipboard) = &record.clipboard {
                    let session_is_owner = clipboard.owns(ty);
                    self.niri.remote_desktop.notify(
                        NiriToRemoteDesktop::SelectionOwnerChanged {
                            session,
                            ty,
                            mime_types: clone_texts(&mime_types),
                            session_is_owner,
                        },
                        &mut actions,
                    );
                }
            }
            assert(views(actions@) =~= desktop.owner_changes(
                ids@.take(i + 1),
                ty,
                views(mime_types@),
            ));
        }
        assert(ids@.take(ids.len() as int) =~= ids@);
        assert(desktop.sessions.dom() =~= self.niri.remote_desktop.sessions@.dom());
        assert(views(Seq::<String>::empty()) =~= Seq::<Seq<char>>::empty());
        actions
    }
}

impl Session {
    /// Gives every offered selection up and ends every transfer.
    pub fn clear_remote_desktop_selections(&mut self, actions: &mut Vec<Action>)
        ensures
            final(self)@ == (SessionView {
                clipboard: match old(self)@.clipboard {
                    Some(clipboard) => Some(
                        ClipboardView {
                            offered: Map::empty(),
                            pending: Map::empty(),
                            ..clipboard
                        },
                    ),
                    None => None,
                },
                ..old(self)@
            }),
            views(final(actions)@) == views(old(actions)@) + old(self)@.clipboard_cleared(),
    {
        let ghost start = views(actions@);
        if let Some(mut clipboard) = self.clipboard.take() {
            clipboard.clear(actions);
            self.clipboard = Some(clipboard);
        }
        assert(views(actions@) =~= start + old(self)@.clipboard_cleared());
    }
}

} // verus!
