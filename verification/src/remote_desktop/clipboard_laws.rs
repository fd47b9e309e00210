//! What sessions do to the selections of the seat, and what becomes of transfers.

use vstd::prelude::*;

use super::actions::{Action, ActionView, ReplyView, SourceToken};
use super::clipboard::{
    ClipboardView, Offers, PendingTransfer, SelectionTarget, SessionClipboard, TRANSFER_TIMEOUT,
    clipboard_type_of, serial_after, target_of,
};
use super::selections::SelectionReadError;
use super::session_laws::{
    cleared_clipboards_give_everything_up, counted, dropped_clipboards_close_their_fds, gives_up,
    parks,
};
use super::SessionView;
use crate::dbus::remote_desktop::messages::{
    ClipboardType, FdHandle, NoticeView, ReplyHandle, RequestView,
};
use crate::niri::{NiriView, State};
use crate::utils::lists::{lemma_new_of, lemma_push_contains, new_of, only_added, views};
use crate::utils::order::{ids_are_listed, ids_of};
use crate::utils::RemoteDesktopSessionId;

verus! {

/// The clipboard of the API is the clipboard of the seat, and the primary selection is the primary
/// selection.
pub proof fn selections_keep_their_names(ty: ClipboardType)
    ensures
        target_of(ClipboardType::Clipboard) == SelectionTarget::Clipboard,
        target_of(ClipboardType::Primary) == SelectionTarget::Primary,
        target_of(ty) == SelectionTarget::Clipboard <==> ty == ClipboardType::Clipboard,
{
}

/// Whether a session has clipboard integration.
pub open spec fn integrated(niri: NiriView, session: RemoteDesktopSessionId) -> bool {
    niri.remote_desktop.sessions.contains_key(session)
        && niri.remote_desktop.sessions[session].clipboard is Some
}

/// The clipboard of a session.
pub open spec fn clipboard_in(niri: NiriView, session: RemoteDesktopSessionId) -> ClipboardView {
    niri.remote_desktop.sessions[session].clipboard->0
}

/// Whether nothing but the clipboard of one session changed.
pub open spec fn only_the_clipboard_changed(
    before: NiriView,
    after: NiriView,
    session: RemoteDesktopSessionId,
) -> bool {
    &&& after == before.with_sessions(after.remote_desktop.sessions)
    &&& forall|other: RemoteDesktopSessionId| #[trigger]
        after.remote_desktop.sessions.contains_key(other)
            == before.remote_desktop.sessions.contains_key(other)
    &&& forall|other: RemoteDesktopSessionId|
        other != session ==> #[trigger] after.remote_desktop.sessions[other]
            == before.remote_desktop.sessions[other]
    &&& after.remote_desktop.sessions[session] == (SessionView {
        clipboard: after.remote_desktop.sessions[session].clipboard,
        ..before.remote_desktop.sessions[session]
    })
}

/// Why a session's clipboard cannot be used: there is no such session, or it has no integration.
pub open spec fn complaint(niri: NiriView, session: RemoteDesktopSessionId) -> Seq<char> {
    if niri.remote_desktop.sessions.contains_key(session) {
        "clipboard integration is not enabled for this session"@
    } else {
        "no such session"@
    }
}

/// Reading a selection asks the owner of the very selection that the call names, for the mime type
/// of the call, and changes nothing.
pub proof fn reads_ask_for_the_selection_named(
    niri: NiriView,
    session: RemoteDesktopSessionId,
    mime_type: Seq<char>,
    reply: ReplyHandle,
)
    requires
        niri.remote_desktop.sessions.contains_key(session),
    ensures
        ({
            let clipboard = RequestView::SelectionRead {
                session,
                ty: ClipboardType::Clipboard,
                mime_type,
                reply,
            };
            let primary = RequestView::SelectionRead {
                session,
                ty: ClipboardType::Primary,
                mime_type,
                reply,
            };
            &&& niri.handled(clipboard) == niri
            &&& niri.handled(primary) == niri
            &&& niri.handling(clipboard) == seq![
                ActionView::ReadSelection {
                    target: SelectionTarget::Clipboard,
                    mime_type,
                    reply,
                },
            ]
            &&& niri.handling(primary) == seq![
                ActionView::ReadSelection { target: SelectionTarget::Primary, mime_type, reply },
            ]
        }),
{
}

/// Reads of different selections ask for different selections, and reads of the same selection for
/// the same one, whatever the sessions and the mime types are.
pub proof fn reads_of_different_selections_differ(
    niri: NiriView,
    a: RemoteDesktopSessionId,
    b: RemoteDesktopSessionId,
    first: ClipboardType,
    second: ClipboardType,
    one: Seq<char>,
    two: Seq<char>,
    reply: ReplyHandle,
    answer: ReplyHandle,
)
    requires
        niri.remote_desktop.sessions.contains_key(a),
        niri.remote_desktop.sessions.contains_key(b),
    ensures
        (niri.handling(
            RequestView::SelectionRead { session: a, ty: first, mime_type: one, reply },
        )[0]->ReadSelection_target == niri.handling(
            RequestView::SelectionRead { session: b, ty: second, mime_type: two, reply: answer },
        )[0]->ReadSelection_target) == (first == second),
{
}

/// A session that does not exist reads nothing.
pub proof fn unknown_sessions_read_nothing(
    niri: NiriView,
    session: RemoteDesktopSessionId,
    ty: ClipboardType,
    mime_type: Seq<char>,
    reply: ReplyHandle,
)
    requires
        !niri.remote_desktop.sessions.contains_key(session),
    ensures
        ({
            let request = RequestView::SelectionRead { session, ty, mime_type, reply };
            &&& niri.handled(request) == niri
            &&& niri.handling(request) == seq![
                ActionView::Reply { to: reply, reply: ReplyView::Fd(Err("no such session"@)) },
            ]
        }),
{
}

/// A session that offers mime types becomes the owner of the very selection that the call names, with
/// those mime types; one that offers none leaves it without an owner.
pub proof fn offers_set_the_selection_named(
    niri: NiriView,
    session: RemoteDesktopSessionId,
    ty: ClipboardType,
    mime_types: Seq<Seq<char>>,
    reply: ReplyHandle,
)
    requires
        integrated(niri, session),
    ensures
        ({
            let actions = niri.handling(
                RequestView::SetSelection { session, ty, mime_types, reply },
            );
            &&& actions.len() == 2
            &&& actions[1] == (ActionView::Reply { to: reply, reply: ReplyView::Done(Ok(())) })
            &&& mime_types.len() == 0 ==> {
                &&& actions[0] matches ActionView::ClearSelection { target }
                &&& target == SelectionTarget::Primary <==> ty == ClipboardType::Primary
            }
            &&& mime_types.len() > 0 ==> {
                &&& actions[0] matches ActionView::SetSelection {
                    target,
                    mime_types: offered,
                    session: owner,
                }
                &&& target == SelectionTarget::Primary <==> ty == ClipboardType::Primary
                &&& offered == mime_types
                &&& owner == session
            }
        }),
{
}

/// What a session offers for a selection is what it offered last; the other selection, the transfers
/// and everything else stay as they are.
pub proof fn offers_leave_the_other_selection(
    niri: NiriView,
    session: RemoteDesktopSessionId,
    ty: ClipboardType,
    mime_types: Seq<Seq<char>>,
    reply: ReplyHandle,
    other: ClipboardType,
)
    requires
        integrated(niri, session),
    ensures
        ({
            let after = niri.handled(RequestView::SetSelection { session, ty, mime_types, reply });
            let old_offers = clipboard_in(niri, session);
            let new_offers = clipboard_in(after, session);
            &&& integrated(after, session)
            &&& only_the_clipboard_changed(niri, after, session)
            &&& new_offers.offered.contains_key(ty) == (mime_types.len() > 0)
            &&& mime_types.len() > 0 ==> new_offers.offered[ty] == mime_types
            &&& other != ty ==> {
                &&& new_offers.offered.contains_key(other) == old_offers.offered.contains_key(other)
                &&& new_offers.offered[other] == old_offers.offered[other]
            }
            &&& new_offers.pending == old_offers.pending
            &&& new_offers.next_serial == old_offers.next_serial
        }),
{
}

/// Without clipboard integration a session can neither offer a selection nor write one, and hears
/// why; nothing changes.
pub proof fn clipboards_have_to_be_enabled(
    niri: NiriView,
    session: RemoteDesktopSessionId,
    ty: ClipboardType,
    mime_types: Seq<Seq<char>>,
    serial: u32,
    success: bool,
    reply: ReplyHandle,
)
    requires
        !integrated(niri, session),
    ensures
        ({
            let set = RequestView::SetSelection { session, ty, mime_types, reply };
            let write = RequestView::SelectionWrite { session, serial, reply };
            let done = RequestView::SelectionWriteDone { session, serial, success };
            &&& niri.handled(set) == niri
            &&& niri.handled(write) == niri
            &&& niri.handled(done) == niri
            &&& niri.handling(set) == seq![
                ActionView::Reply {
                    to: reply,
                    reply: ReplyView::Done(Err(complaint(niri, session))),
                },
            ]
            &&& niri.handling(write) == seq![
                ActionView::Reply {
                    to: reply,
                    reply: ReplyView::Fd(Err(complaint(niri, session))),
                },
            ]
            &&& niri.handling(done).len() == 0
            &&& niri.transfer_requested(session) == niri
            &&& niri.remote_desktop.clipboard_error(session) == Some(complaint(niri, session))
        }),
{
}

/// Exactly the sessions with clipboard integration have a clipboard to use.
pub proof fn enabled_clipboards_can_be_used(niri: NiriView, session: RemoteDesktopSessionId)
    ensures
        niri.remote_desktop.clipboard_error(session) is None <==> integrated(niri, session),
{
}

/// Turning clipboard integration on gives the session a clipboard that offers nothing and that nobody
/// reads, in place of one that it had; the fds of that one are closed, and the call is answered last.
pub proof fn enabled_clipboards_begin_with_nothing(
    niri: NiriView,
    session: RemoteDesktopSessionId,
    reply: ReplyHandle,
    action: ActionView,
)
    requires
        niri.remote_desktop.sessions.contains_key(session),
        counted(niri.remote_desktop.sessions[session].clipboard),
    ensures
        ({
            let request = RequestView::EnableClipboard { session, reply };
            let after = niri.handled(request);
            let actions = niri.handling(request);
            let done = ActionView::Reply { to: reply, reply: ReplyView::Done(Ok(())) };
            &&& integrated(after, session)
            &&& only_the_clipboard_changed(niri, after, session)
            &&& clipboard_in(after, session).offered.dom() == Set::<ClipboardType>::empty()
            &&& clipboard_in(after, session).pending.dom() == Set::<u32>::empty()
            &&& clipboard_in(after, session).next_serial == 0
            &&& actions.len() > 0
            &&& actions.last() == done
            &&& actions.contains(action) == (action == done || (
            action matches ActionView::CloseFd { fd } && parks(
                niri.remote_desktop.sessions[session].clipboard,
                fd,
            )))
        }),
{
    let dropped = match niri.remote_desktop.sessions[session].clipboard {
        Some(clipboard) => clipboard.dropped(),
        None => Seq::empty(),
    };
    let done = ActionView::Reply { to: reply, reply: ReplyView::Done(Ok(())) };
    lemma_push_contains(dropped, done, action);
    if let Some(clipboard) = niri.remote_desktop.sessions[session].clipboard {
        dropped_clipboards_close_their_fds(clipboard, action);
    }
}

/// Turning clipboard integration off gives up everything that the clipboard has, and leaves the
/// session without one.
pub proof fn disabled_clipboards_give_everything_up(
    niri: NiriView,
    session: RemoteDesktopSessionId,
    action: ActionView,
)
    requires
        niri.remote_desktop.sessions.contains_key(session),
        counted(niri.remote_desktop.sessions[session].clipboard),
    ensures
        ({
            let request = RequestView::DisableClipboard { session };
            let after = niri.handled(request);
            &&& after.remote_desktop.sessions[session].clipboard is None
            &&& only_the_clipboard_changed(niri, after, session)
            &&& niri.handling(request).contains(action) == gives_up(
                niri.remote_desktop.sessions[session].clipboard,
                action,
            )
        }),
{
    cleared_clipboards_give_everything_up(niri.remote_desktop.sessions[session], action);
}

/// A session that does not exist has no clipboard integration to turn on or off.
pub proof fn unknown_sessions_have_no_clipboard(
    niri: NiriView,
    session: RemoteDesktopSessionId,
    reply: ReplyHandle,
)
    requires
        !niri.remote_desktop.sessions.contains_key(session),
    ensures
        ({
            let enable = RequestView::EnableClipboard { session, reply };
            let disable = RequestView::DisableClipboard { session };
            &&& niri.handled(enable) == niri
            &&& niri.handled(disable) == niri
            &&& niri.handling(enable) == seq![
                ActionView::Reply { to: reply, reply: ReplyView::Done(Err("no such session"@)) },
            ]
            &&& niri.handling(disable).len() == 0
        }),
{
}

/// A clipboard begins with nothing.
pub proof fn clipboards_begin_with_nothing()
    ensures
        ClipboardView::fresh().offered.dom() == Set::<ClipboardType>::empty(),
        ClipboardView::fresh().pending.dom() == Set::<u32>::empty(),
        ClipboardView::fresh().next_serial == 0,
{
}

/// A service that writes gets the fd of the very transfer that it names, and nobody gets it a second
/// time: the transfer stays, without its fd and with its timer. Every other transfer stays as it is,
/// and so does everything else.
pub proof fn writers_get_the_fd_of_their_transfer(
    niri: NiriView,
    session: RemoteDesktopSessionId,
    serial: u32,
    fd: FdHandle,
    reply: ReplyHandle,
    other: u32,
)
    requires
        integrated(niri, session),
        clipboard_in(niri, session).pending.contains_key(serial),
        clipboard_in(niri, session).pending[serial].fd == Some(fd),
    ensures
        ({
            let request = RequestView::SelectionWrite { session, serial, reply };
            let before = clipboard_in(niri, session);
            let after = niri.handled(request);
            let clipboard = clipboard_in(after, session);
            &&& niri.handling(request) == seq![
                ActionView::Reply { to: reply, reply: ReplyView::Fd(Ok(fd)) },
            ]
            &&& integrated(after, session)
            &&& only_the_clipboard_changed(niri, after, session)
            &&& clipboard.offered == before.offered
            &&& clipboard.next_serial == before.next_serial
            &&& clipboard.pending.contains_key(serial)
            &&& clipboard.pending[serial].fd is None
            &&& clipboard.pending[serial].timeout == before.pending[serial].timeout
            &&& other != serial ==> {
                &&& clipboard.pending.contains_key(other) == before.pending.contains_key(other)
                &&& clipboard.pending[other] == before.pending[other]
            }
        }),
{
}

/// A transfer that is not there, or whose fd was taken, has no fd to give, and the service hears
/// which it is; nothing changes.
pub proof fn other_transfers_have_no_fd(
    niri: NiriView,
    session: RemoteDesktopSessionId,
    serial: u32,
    reply: ReplyHandle,
)
    requires
        integrated(niri, session),
        clipboard_in(niri, session).pending.contains_key(serial) ==> clipboard_in(
            niri,
            session,
        ).pending[serial].fd is None,
    ensures
        ({
            let request = RequestView::SelectionWrite { session, serial, reply };
            &&& niri.handled(request) == niri
            &&& niri.handling(request) == seq![
                ActionView::Reply {
                    to: reply,
                    reply: ReplyView::Fd(
                        Err(
                            if clipboard_in(niri, session).pending.contains_key(serial) {
                                "the transfer fd was already taken"@
                            } else {
                                "no transfer with this serial"@
                            },
                        ),
                    ),
                },
            ]
        }),
{
}

/// Ending a transfer stops its timer first and then closes its fd, as far as it has them, and forgets
/// it, whether the service says that it succeeded or not. Every other transfer stays as it is, and so
/// does everything else.
pub proof fn finished_transfers_are_gone(
    niri: NiriView,
    session: RemoteDesktopSessionId,
    serial: u32,
    success: bool,
    other: u32,
)
    requires
        integrated(niri, session),
        clipboard_in(niri, session).pending.contains_key(serial),
    ensures
        ({
            let request = RequestView::SelectionWriteDone { session, serial, success };
            let before = clipboard_in(niri, session);
            let after = niri.handled(request);
            let clipboard = clipboard_in(after, session);
            let actions = niri.handling(request);
            &&& match (before.pending[serial].timeout, before.pending[serial].fd) {
                (Some(token), Some(fd)) => actions == seq![
                    ActionView::RemoveSource { token },
                    ActionView::CloseFd { fd },
                ],
                (Some(token), None) => actions == seq![ActionView::RemoveSource { token }],
                (None, Some(fd)) => actions == seq![ActionView::CloseFd { fd }],
                (None, None) => actions.len() == 0,
            }
            &&& integrated(after, session)
            &&& only_the_clipboard_changed(niri, after, session)
            &&& clipboard.offered == before.offered
            &&& clipboard.next_serial == before.next_serial
            &&& !clipboard.pending.contains_key(serial)
            &&& other != serial ==> {
                &&& clipboard.pending.contains_key(other) == before.pending.contains_key(other)
                &&& clipboard.pending[other] == before.pending[other]
            }
            &&& niri.transfer_pending(session, serial)
            &&& niri.transfer_finished(session, serial) == after
        }),
{
    let actions = niri.handling(RequestView::SelectionWriteDone { session, serial, success });
    let transfer = clipboard_in(niri, session).pending[serial];
    match (transfer.timeout, transfer.fd) {
        (Some(token), Some(fd)) => {
            assert(actions =~= seq![ActionView::RemoveSource { token }, ActionView::CloseFd { fd }]);
        },
        (Some(token), None) => {
            assert(actions =~= seq![ActionView::RemoveSource { token }]);
        },
        (None, Some(fd)) => {
            assert(actions =~= seq![ActionView::CloseFd { fd }]);
        },
        (None, None) => {},
    }
}

/// A transfer that is not there does not end.
pub proof fn unknown_transfers_do_not_end(
    niri: NiriView,
    session: RemoteDesktopSessionId,
    serial: u32,
    success: bool,
)
    requires
        integrated(niri, session),
        !clipboard_in(niri, session).pending.contains_key(serial),
    ensures
        ({
            let request = RequestView::SelectionWriteDone { session, serial, success };
            &&& niri.handled(request) == niri
            &&& niri.handling(request).len() == 0
            &&& !niri.transfer_pending(session, serial)
        }),
{
}

/// Letting go of a transfer closes its fd if nobody took it, and does nothing else.
pub proof fn transfers_close_what_nobody_took(transfer: PendingTransfer)
    ensures
        match transfer.fd {
            Some(fd) => transfer.closed() == seq![ActionView::CloseFd { fd }],
            None => transfer.closed().len() == 0,
        },
{
}

/// Each client that wants to read gets the next serial, and one after the largest comes the serial 1.
/// Nothing but the serial changes.
pub proof fn readers_get_the_next_serial(niri: NiriView, session: RemoteDesktopSessionId)
    requires
        integrated(niri, session),
    ensures
        ({
            let before = clipboard_in(niri, session);
            let after = niri.transfer_requested(session);
            let clipboard = clipboard_in(after, session);
            &&& integrated(after, session)
            &&& only_the_clipboard_changed(niri, after, session)
            &&& clipboard.offered == before.offered
            &&& clipboard.pending == before.pending
            &&& clipboard.next_serial == serial_after(before.next_serial)
            &&& before.next_serial < u32::MAX ==> clipboard.next_serial == before.next_serial + 1
            &&& before.next_serial == u32::MAX ==> clipboard.next_serial == 1
        }),
{
}

/// A service has half a minute to answer a client that wants to read.
pub proof fn services_have_half_a_minute()
    ensures
        TRANSFER_TIMEOUT == 30,
{
}

/// The fd of a client that wants to read is kept under its serial, with its timer. Every other
/// transfer stays as it is, and so does everything else.
pub proof fn readers_are_parked_under_their_serial(
    niri: NiriView,
    session: RemoteDesktopSessionId,
    serial: u32,
    fd: FdHandle,
    timeout: Option<SourceToken>,
    other: u32,
)
    requires
        integrated(niri, session),
    ensures
        ({
            let before = clipboard_in(niri, session);
            let after = niri.transfer_parked(
                session,
                serial,
                PendingTransfer { fd: Some(fd), timeout },
            );
            let clipboard = clipboard_in(after, session);
            &&& integrated(after, session)
            &&& only_the_clipboard_changed(niri, after, session)
            &&& clipboard.offered == before.offered
            &&& clipboard.next_serial == before.next_serial
            &&& clipboard.pending.contains_key(serial)
            &&& clipboard.pending[serial].fd == Some(fd)
            &&& clipboard.pending[serial].timeout == timeout
            &&& other != serial ==> {
                &&& clipboard.pending.contains_key(other) == before.pending.contains_key(other)
                &&& clipboard.pending[other] == before.pending[other]
            }
        }),
{
}

/// What a client wants to read goes round: the fd that is parked for it is the fd that the service
/// gets for its serial.
pub proof fn parked_fds_reach_the_writer(
    niri: NiriView,
    session: RemoteDesktopSessionId,
    serial: u32,
    fd: FdHandle,
    timeout: Option<SourceToken>,
    reply: ReplyHandle,
)
    requires
        integrated(niri, session),
    ensures
        niri.transfer_parked(
            session,
            serial,
            PendingTransfer { fd: Some(fd), timeout },
        ).handling(RequestView::SelectionWrite { session, serial, reply }) == seq![
            ActionView::Reply { to: reply, reply: ReplyView::Fd(Ok(fd)) },
        ],
{
    let parked = niri.transfer_parked(session, serial, PendingTransfer { fd: Some(fd), timeout });
    readers_are_parked_under_their_serial(niri, session, serial, fd, timeout, serial);
    writers_get_the_fd_of_their_transfer(parked, session, serial, fd, reply, serial);
}

/// When a selection has a new owner, exactly the sessions with clipboard integration hear of it: of
/// that selection and of its mime types, and whether the session itself owns the selection.
pub proof fn new_owners_are_told_to_every_clipboard(
    niri: NiriView,
    ty: ClipboardType,
    mime_types: Seq<Seq<char>>,
    notice: NoticeView,
)
    requires
        niri.remote_desktop.sessions.dom().finite(),
    ensures
        niri.remote_desktop.owner_changes(
            ids_of(niri.remote_desktop.sessions.dom()),
            ty,
            mime_types,
        ).contains(ActionView::Notify(notice)) == (
        notice matches NoticeView::SelectionOwnerChanged {
            session,
            ty: selection,
            mime_types: offered,
            session_is_owner,
        } && integrated(niri, session) && selection == ty && offered == mime_types
            && session_is_owner == clipboard_in(niri, session).offered.contains_key(ty)),
{
    let desktop = niri.remote_desktop;
    let sessions = ids_of(desktop.sessions.dom());
    ids_are_listed(desktop.sessions.dom());
    let changes = desktop.owner_changes(sessions, ty, mime_types);
    lemma_owner_changes_speak_of(desktop, sessions, ty, mime_types, notice);
    if let NoticeView::SelectionOwnerChanged {
        session,
        ty: selection,
        mime_types: offered,
        session_is_owner,
    } = notice {
        super::laws::owner_changes_reach_every_clipboard(
            desktop,
            sessions,
            ty,
            mime_types,
            session,
            session_is_owner,
        );
        assert(sessions.contains(session) == desktop.sessions.contains_key(session));
    }
}

proof fn lemma_owner_changes_speak_of(
    desktop: super::RemoteDesktopView,
    sessions: Seq<RemoteDesktopSessionId>,
    ty: ClipboardType,
    mime_types: Seq<Seq<char>>,
    notice: NoticeView,
)
    ensures
        desktop.owner_changes(sessions, ty, mime_types).contains(ActionView::Notify(notice)) ==> (
        notice matches NoticeView::SelectionOwnerChanged {
            session,
            ty: selection,
            mime_types: offered,
            session_is_owner,
        } && selection == ty && offered == mime_types),
    decreases sessions.len(),
{
    if sessions.len() > 0 {
        let rest = sessions.drop_last();
        lemma_owner_changes_speak_of(desktop, rest, ty, mime_types, notice);
        let before = desktop.owner_changes(rest, ty, mime_types);
        let all = desktop.owner_changes(sessions, ty, mime_types);
        if all.contains(ActionView::Notify(notice)) {
            let i = choose|i: int| 0 <= i < all.len() && all[i] == ActionView::Notify(notice);
            if i < before.len() {
                assert(before[i] == all[i]);
                assert(before.contains(ActionView::Notify(notice)));
            }
        }
    }
}

/// Reading a selection asks for the very selection that the call names: the clipboard for the
/// clipboard, and the primary selection for the primary selection.
pub proof fn reads_name_their_selection(
    state: &mut State,
    session: RemoteDesktopSessionId,
    ty: ClipboardType,
    mime_type: String,
    reply: ReplyHandle,
    actions: Vec<Action>,
)
    requires
        old(state)@.remote_desktop.sessions.contains_key(session),
        call_ensures(
            State::read_remote_desktop_selection,
            (state, session, ty, mime_type, reply),
            actions,
        ),
    ensures
        final(state)@ == old(state)@,
        actions@.len() == 1,
        actions@[0] matches Action::ReadSelection { target, mime_type: wanted, reply: to } && (
        target == SelectionTarget::Clipboard <==> ty == ClipboardType::Clipboard) && wanted@
            == mime_type@ && to == reply,
{
    assert(views(actions@).len() == actions@.len());
    assert(views(actions@)[0] == actions@[0]@);
}

/// Every call that is about a clipboard does what the message for it does.
pub proof fn clipboard_calls_do_what_is_stated(
    first: &mut State,
    second: &mut State,
    third: &mut State,
    fourth: &mut State,
    fifth: &mut State,
    sixth: &mut State,
    session: RemoteDesktopSessionId,
    ty: ClipboardType,
    mime_types: Vec<String>,
    mime_type: String,
    serial: u32,
    success: bool,
    reply: ReplyHandle,
    enabled: Vec<Action>,
    disabled: Vec<Action>,
    set: Vec<Action>,
    read: Vec<Action>,
    taken: Vec<Action>,
    finished: Vec<Action>,
)
    requires
        call_ensures(State::enable_remote_desktop_clipboard, (first, session, reply), enabled),
        call_ensures(State::disable_remote_desktop_clipboard, (second, session), disabled),
        call_ensures(
            State::set_remote_desktop_selection,
            (third, session, ty, mime_types, reply),
            set,
        ),
        call_ensures(
            State::read_remote_desktop_selection,
            (fourth, session, ty, mime_type, reply),
            read,
        ),
        call_ensures(
            State::take_remote_desktop_transfer_fd,
            (fifth, session, serial, reply),
            taken,
        ),
        call_ensures(State::finish_remote_desktop_transfer, (sixth, session, serial), finished),
    ensures
        ({
            let enable = RequestView::EnableClipboard { session, reply };
            let disable = RequestView::DisableClipboard { session };
            let offer = RequestView::SetSelection {
                session,
                ty,
                mime_types: views(mime_types@),
                reply,
            };
            let ask = RequestView::SelectionRead { session, ty, mime_type: mime_type@, reply };
            let write = RequestView::SelectionWrite { session, serial, reply };
            let done = RequestView::SelectionWriteDone { session, serial, success };
            &&& final(first)@ == old(first)@.handled(enable)
            &&& views(enabled@) == old(first)@.handling(enable)
            &&& final(second)@ == old(second)@.handled(disable)
            &&& views(disabled@) == old(second)@.handling(disable)
            &&& final(third)@ == old(third)@.handled(offer)
            &&& views(set@) == old(third)@.handling(offer)
            &&& final(fourth)@ == old(fourth)@.handled(ask)
            &&& views(read@) == old(fourth)@.handling(ask)
            &&& final(fifth)@ == old(fifth)@.handled(write)
            &&& views(taken@) == old(fifth)@.handling(write)
            &&& final(sixth)@ == old(sixth)@.handled(done)
            &&& views(finished@) == old(sixth)@.handling(done)
        }),
{
}

/// The end of a pipe that gives the data of a selection answers the call; where there is none, the
/// call hears whether the pipe or the owner is at fault, and why. Nothing changes.
pub proof fn reads_are_answered(
    state: &mut State,
    result: Result<FdHandle, SelectionReadError>,
    reply: ReplyHandle,
    actions: Vec<Action>,
)
    requires
        call_ensures(State::selection_read, (state, result, reply), actions),
    ensures
        final(state)@ == old(state)@,
        views(actions@).len() == 1,
        views(actions@)[0] matches ActionView::Reply { to, reply: ReplyView::Fd(answer) } && to
            == reply && match result {
            Ok(fd) => answer == Ok::<FdHandle, Seq<char>>(fd),
            Err(SelectionReadError::Pipe(error)) => answer == Err::<FdHandle, Seq<char>>(
                "error creating a pipe: "@ + error@,
            ),
            Err(SelectionReadError::Request(error)) => answer == Err::<FdHandle, Seq<char>>(
                "error reading the selection: "@ + error@,
            ),
        },
{
}

/// A client that wants to read what a session offers has its fd made to block, and then a timer of
/// half a minute is started for it under the next serial, with what it wants to read. Without
/// clipboard integration its fd is closed, and nothing changes.
pub proof fn readers_wait_half_a_minute(
    state: &mut State,
    session: RemoteDesktopSessionId,
    ty: ClipboardType,
    mime_type: String,
    fd: FdHandle,
    actions: Vec<Action>,
)
    requires
        call_ensures(
            State::remote_desktop_send_selection,
            (state, session, ty, mime_type, fd),
            actions,
        ),
    ensures
        actions@.len() == 2,
        actions@[0] == (Action::ClearFdFlags { fd }),
        integrated(old(state)@, session) ==> {
            let before = clipboard_in(old(state)@, session);
            let after = clipboard_in(final(state)@, session);
            &&& actions@[1] matches Action::StartTransferTimer {
                session: owner,
                ty: selection,
                mime_type: wanted,
                fd: parked,
                serial,
                seconds,
            }
            &&& owner == session
            &&& selection == ty
            &&& wanted@ == mime_type@
            &&& parked == fd
            &&& seconds == 30
            &&& serial == after.next_serial
            &&& before.next_serial < u32::MAX ==> serial == before.next_serial + 1
            &&& before.next_serial == u32::MAX ==> serial == 1
            &&& after.offered == before.offered
            &&& after.pending == before.pending
            &&& only_the_clipboard_changed(old(state)@, final(state)@, session)
        },
        !integrated(old(state)@, session) ==> {
            &&& actions@[1] == (Action::CloseFd { fd })
            &&& final(state)@ == old(state)@
        },
{
    assert(views(actions@).len() == actions@.len());
    assert(views(actions@)[0] == actions@[0]@);
    assert(views(actions@)[1] == actions@[1]@);
    if integrated(old(state)@, session) {
        readers_get_the_next_serial(old(state)@, session);
    }
}

/// Once the timer of a client runs, its fd is kept under its serial, and the service is asked for the
/// data where somebody listens: for that selection, that mime type and that serial. An fd that was
/// kept under the serial before is closed.
pub proof fn services_are_asked_for_the_data(
    state: &mut State,
    session: RemoteDesktopSessionId,
    ty: ClipboardType,
    mime_type: String,
    fd: FdHandle,
    serial: u32,
    timeout: Option<SourceToken>,
    actions: Vec<Action>,
    action: ActionView,
)
    requires
        integrated(old(state)@, session),
        call_ensures(
            State::transfer_timer_started,
            (state, session, ty, mime_type, fd, serial, timeout),
            actions,
        ),
    ensures
        ({
            let before = clipboard_in(old(state)@, session);
            let after = clipboard_in(final(state)@, session);
            &&& only_the_clipboard_changed(old(state)@, final(state)@, session)
            &&& after.pending == before.pending.insert(
                serial,
                PendingTransfer { fd: Some(fd), timeout },
            )
            &&& after.offered == before.offered
            &&& after.next_serial == before.next_serial
            &&& views(actions@).contains(action) == match action {
                ActionView::CloseFd { fd: replaced } => before.pending.contains_key(serial)
                    && before.pending[serial].fd == Some(replaced),
                ActionView::Notify(notice) => old(state)@.remote_desktop.to_dbus && notice
                    == (NoticeView::SelectionTransfer {
                    session,
                    ty,
                    mime_type: mime_type@,
                    serial,
                }),
                _ => false,
            }
        }),
{
    let before = clipboard_in(old(state)@, session);
    let notice = NoticeView::SelectionTransfer { session, ty, mime_type: mime_type@, serial };
    let closed = if before.pending.contains_key(serial) {
        before.pending[serial].closed()
    } else {
        Seq::empty()
    };
    let told = if old(state)@.remote_desktop.to_dbus {
        seq![ActionView::Notify(notice)]
    } else {
        Seq::empty()
    };
    assert(views(actions@) =~= closed + told);
    crate::utils::lists::lemma_add_contains(closed, told, action);
    if before.pending.contains_key(serial) {
        transfers_close_what_nobody_took(before.pending[serial]);
        if closed.len() > 0 {
            assert(closed.contains(closed[0]));
        }
    }
    if old(state)@.remote_desktop.to_dbus {
        assert(told.contains(told[0]));
    }
}

/// A transfer that the service did not finish in time is forgotten, and its fd closed if nobody took
/// it. One that is not there is not.
pub proof fn late_transfers_are_dropped(
    state: &mut State,
    session: RemoteDesktopSessionId,
    serial: u32,
    actions: Vec<Action>,
)
    requires
        call_ensures(State::transfer_timed_out, (state, session, serial), actions),
    ensures
        ({
            let there = integrated(old(state)@, session) && clipboard_in(
                old(state)@,
                session,
            ).pending.contains_key(serial);
            let before = clipboard_in(old(state)@, session);
            let after = clipboard_in(final(state)@, session);
            &&& there ==> {
                &&& only_the_clipboard_changed(old(state)@, final(state)@, session)
                &&& after.pending == before.pending.remove(serial)
                &&& after.offered == before.offered
                &&& after.next_serial == before.next_serial
                &&& match before.pending[serial].fd {
                    Some(fd) => views(actions@) == seq![ActionView::CloseFd { fd }],
                    None => views(actions@).len() == 0,
                }
            }
            &&& !there ==> final(state)@ == old(state)@ && views(actions@).len() == 0
        }),
{
}

/// When a selection has a new owner, every session with clipboard integration hears of it where
/// somebody listens: of that selection and of the mime types of its source. Nothing changes.
pub proof fn new_owners_are_told(
    state: &mut State,
    target: SelectionTarget,
    source: Option<Vec<String>>,
    actions: Vec<Action>,
    session: RemoteDesktopSessionId,
    ty: ClipboardType,
    mime_types: Seq<Seq<char>>,
    session_is_owner: bool,
)
    requires
        old(state)@.remote_desktop.sessions.dom().finite(),
        call_ensures(State::remote_desktop_new_selection, (state, target, source), actions),
    ensures
        final(state)@ == old(state)@,
        views(actions@).contains(
            ActionView::Notify(
                NoticeView::SelectionOwnerChanged { session, ty, mime_types, session_is_owner },
            ),
        ) == (old(state)@.remote_desktop.to_dbus && integrated(old(state)@, session) && (target
            == SelectionTarget::Primary <==> ty == ClipboardType::Primary) && mime_types == (
        match source {
            Some(offered) => views(offered@),
            None => Seq::empty(),
        }) && session_is_owner == clipboard_in(old(state)@, session).offered.contains_key(ty)),
{
    let selection = match target {
        SelectionTarget::Clipboard => ClipboardType::Clipboard,
        SelectionTarget::Primary => ClipboardType::Primary,
    };
    let offered = match source {
        Some(offered) => views(offered@),
        None => Seq::empty(),
    };
    new_owners_are_told_to_every_clipboard(
        old(state)@,
        selection,
        offered,
        NoticeView::SelectionOwnerChanged { session, ty, mime_types, session_is_owner },
    );
}

/// The selections of the seat and those of the API are the same ones, both ways.
pub proof fn selections_are_the_same_both_ways(target: SelectionTarget, ty: ClipboardType)
    requires
        call_ensures(clipboard_type_of, (target,), ty),
    ensures
        target == SelectionTarget::Clipboard <==> ty == ClipboardType::Clipboard,
{
}

/// Offers are what was offered last for a selection, until nothing is; the other selection is not
/// affected.
pub proof fn offers_are_kept_per_selection(
    none: Offers,
    offered: &mut Offers,
    removed: &mut Offers,
    ty: ClipboardType,
    other: ClipboardType,
    mime_types: Vec<String>,
    there: bool,
    gone: bool,
    nothing: bool,
)
    requires
        call_ensures(Offers::new, (), none),
        call_ensures(Offers::insert, (offered, ty, mime_types), ()),
        call_ensures(Offers::contains_key, (&*final(offered), ty), there),
        *old(removed) == *final(offered),
        call_ensures(Offers::remove, (removed, ty), ()),
        call_ensures(Offers::contains_key, (&*final(removed), ty), gone),
        call_ensures(Offers::contains_key, (&none, ty), nothing),
    ensures
        there,
        final(offered)@[ty] == views(mime_types@),
        !gone,
        !nothing,
        other != ty ==> {
            &&& final(offered)@.contains_key(other) == old(offered)@.contains_key(other)
            &&& final(offered)@[other] == old(offered)@[other]
            &&& final(removed)@.contains_key(other) == old(offered)@.contains_key(other)
            &&& final(removed)@[other] == old(offered)@[other]
        },
{
}

/// A clipboard hands out serials from 1 on, and after the largest one 1 again; it owns what it
/// offers.
pub proof fn clipboards_hand_out_serials(
    fresh: SessionClipboard,
    clipboard: &mut SessionClipboard,
    serial: u32,
    ty: ClipboardType,
    owned: bool,
)
    requires
        call_ensures(SessionClipboard::new, (), fresh),
        call_ensures(SessionClipboard::next_serial, (clipboard,), serial),
        call_ensures(SessionClipboard::owns, (&*final(clipboard), ty), owned),
    ensures
        fresh@.offered.dom() == Set::<ClipboardType>::empty(),
        fresh@.pending.dom() == Set::<u32>::empty(),
        fresh.next_serial == 0,
        old(clipboard).next_serial < u32::MAX ==> serial == old(clipboard).next_serial + 1,
        old(clipboard).next_serial == u32::MAX ==> serial == 1,
        final(clipboard).next_serial == serial,
        final(clipboard)@.offered == old(clipboard)@.offered,
        final(clipboard)@.pending == old(clipboard)@.pending,
        owned <==> old(clipboard)@.offered.contains_key(ty),
{
}

/// Clearing a clipboard gives up everything that it has, and letting go of one closes its fds.
pub proof fn clipboards_are_cleared_whole(
    clipboard: &mut SessionClipboard,
    cleared: &mut Vec<Action>,
    other: SessionClipboard,
    dropped: &mut Vec<Action>,
    action: ActionView,
)
    requires
        old(clipboard)@.pending.dom().finite(),
        other@.pending.dom().finite(),
        call_ensures(SessionClipboard::clear, (clipboard, cleared), ()),
        call_ensures(SessionClipboard::discard, (other, dropped), ()),
    ensures
        only_added(old(cleared)@, final(cleared)@),
        only_added(old(dropped)@, final(dropped)@),
        new_of(old(cleared)@, final(cleared)@) == old(clipboard)@.cleared(),
        new_of(old(cleared)@, final(cleared)@).contains(action) == gives_up(
            Some(old(clipboard)@),
            action,
        ),
        new_of(old(dropped)@, final(dropped)@) == other@.dropped(),
        new_of(old(dropped)@, final(dropped)@).contains(action) == (
        action matches ActionView::CloseFd { fd } && parks(Some(other@), fd)),
        final(clipboard)@.offered.dom() == Set::<ClipboardType>::empty(),
        final(clipboard)@.pending.dom() == Set::<u32>::empty(),
        final(clipboard)@.next_serial == old(clipboard)@.next_serial,
{
    let session = SessionView {
        clipboard: Some(old(clipboard)@),
        ..SessionView::fresh(false, false, false)
    };
    lemma_new_of(old(cleared)@, final(cleared)@, session.clipboard_cleared());
    cleared_clipboards_give_everything_up(session, action);
    lemma_new_of(old(dropped)@, final(dropped)@, other@.dropped());
    dropped_clipboards_close_their_fds(other@, action);
}

/// Ending a transfer stops its timer and closes its fd; letting go of one closes its fd.
pub proof fn transfers_end_whole(
    transfer: PendingTransfer,
    ended: &mut Vec<Action>,
    closed: &mut Vec<Action>,
    fd: FdHandle,
    token: SourceToken,
)
    requires
        call_ensures(PendingTransfer::end, (transfer, ended), ()),
        call_ensures(PendingTransfer::close, (transfer, closed), ()),
    ensures
        only_added(old(ended)@, final(ended)@),
        only_added(old(closed)@, final(closed)@),
        transfer.fd == Some(fd) ==> new_of(old(closed)@, final(closed)@) == seq![
            ActionView::CloseFd { fd },
        ],
        transfer.fd is None ==> new_of(old(closed)@, final(closed)@).len() == 0,
        transfer.timeout == Some(token) ==> new_of(old(ended)@, final(ended)@) == seq![
            ActionView::RemoveSource { token },
        ] + new_of(old(closed)@, final(closed)@),
        transfer.timeout is None ==> new_of(old(ended)@, final(ended)@) == new_of(
            old(closed)@,
            final(closed)@,
        ),
{
    lemma_new_of(old(closed)@, final(closed)@, transfer.closed());
    lemma_new_of(old(ended)@, final(ended)@, transfer.ended());
    if transfer.timeout is None {
        assert(transfer.ended() =~= transfer.closed());
    }
}

} // verus!
