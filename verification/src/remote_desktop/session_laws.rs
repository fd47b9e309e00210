//! What the beginning and the end of a session do.

use vstd::prelude::*;

use super::actions::{Action, ActionView, ReplyView, SourceToken};
use super::capabilities::DeviceCapability;
use super::clipboard::{
    ClipboardView, PendingTransfer, SelectionTarget, transfers_closed, transfers_ended,
};
use super::sessions::{monitors_left, monitors_removed, streams_stopped};
use super::{
    MonitorView, RemoteDesktopState, RemoteDesktopView, Session, SessionView, Stream, StreamView,
    infos, streams_dropped, told,
};
use crate::dbus::remote_desktop::messages::{
    ClipboardType, FdHandle, NiriToRemoteDesktop, NoticeView, RemoteDesktopToNiri, ReplyHandle,
    RequestView,
};
use crate::niri::{
    Cast, Clock, Niri, NiriView, State, casts_left, casts_stopped, of_another,
    stopping_leaves_the_other_casts,
};
use crate::utils::lists::{
    lemma_add_contains, lemma_filter_contains, lemma_new_of, new_of, only_added, views,
};
use crate::utils::order::{serials_are_listed, serials_of};
use crate::utils::{CastSessionId, RemoteDesktopSessionId};

verus! {

/// Where the D-Bus side listens it is told, once; where it does not, nothing is sent.
pub proof fn notices_are_sent_where_someone_listens(desktop: RemoteDesktopView, notice: NoticeView)
    ensures
        desktop.to_dbus ==> desktop.notice(notice) == seq![ActionView::Notify(notice)],
        !desktop.to_dbus ==> desktop.notice(notice).len() == 0,
        told(desktop.to_dbus, notice) == desktop.notice(notice),
{
}

/// Whether a clipboard holds the fd of a client that waits.
pub open spec fn parks(clipboard: Option<ClipboardView>, fd: FdHandle) -> bool {
    clipboard matches Some(clipboard) && exists|serial: u32| #[trigger]
        clipboard.pending.contains_key(serial) && clipboard.pending[serial].fd == Some(fd)
}

/// Whether a timer runs for a client that waits.
pub open spec fn times(clipboard: Option<ClipboardView>, token: SourceToken) -> bool {
    clipboard matches Some(clipboard) && exists|serial: u32| #[trigger]
        clipboard.pending.contains_key(serial) && clipboard.pending[serial].timeout == Some(token)
}

/// Whether a selection of the seat is offered.
pub open spec fn offers(clipboard: Option<ClipboardView>, target: SelectionTarget) -> bool {
    clipboard matches Some(clipboard) && match target {
        SelectionTarget::Clipboard => clipboard.offered.contains_key(ClipboardType::Clipboard),
        SelectionTarget::Primary => clipboard.offered.contains_key(ClipboardType::Primary),
    }
}

/// Whether there are finitely many clients that wait, as in every clipboard of a running compositor.
pub open spec fn counted(clipboard: Option<ClipboardView>) -> bool {
    clipboard matches Some(clipboard) ==> clipboard.pending.dom().finite()
}

/// Whether an action gives up what a clipboard has: its offers, its timers and its fds.
pub open spec fn gives_up(clipboard: Option<ClipboardView>, action: ActionView) -> bool {
    match action {
        ActionView::ClearSelection { target } => offers(clipboard, target),
        ActionView::RemoveSource { token } => times(clipboard, token),
        ActionView::CloseFd { fd } => parks(clipboard, fd),
        _ => false,
    }
}

proof fn lemma_transfers_ended(
    pending: Map<u32, PendingTransfer>,
    serials: Seq<u32>,
    action: ActionView,
)
    ensures
        transfers_ended(pending, serials).contains(action) == match action {
            ActionView::RemoveSource { token } => exists|i: int|
                0 <= i < serials.len() && pending[#[trigger] serials[i]].timeout == Some(token),
            ActionView::CloseFd { fd } => exists|i: int|
                0 <= i < serials.len() && pending[#[trigger] serials[i]].fd == Some(fd),
            _ => false,
        },
    decreases serials.len(),
{
    if serials.len() > 0 {
        let rest = serials.drop_last();
        let last = pending[serials.last()];
        lemma_transfers_ended(pending, rest, action);
        lemma_add_contains(transfers_ended(pending, rest), last.ended(), action);
        lemma_ended(last, action);
        assert(forall|i: int| 0 <= i < rest.len() ==> #[trigger] rest[i] == serials[i]);
        match action {
            ActionView::RemoveSource { token } => {
                if exists|i: int|
                    0 <= i < rest.len() && pending[#[trigger] rest[i]].timeout == Some(token) {
                    let i = choose|i: int|
                        0 <= i < rest.len() && pending[#[trigger] rest[i]].timeout == Some(token);
                    assert(pending[serials[i]].timeout == Some(token));
                }
                if last.timeout == Some(token) {
                    assert(pending[serials[serials.len() - 1]].timeout == Some(token));
                }
                if exists|i: int|
                    0 <= i < serials.len() && pending[#[trigger] serials[i]].timeout == Some(
                        token,
                    ) {
                    let i = choose|i: int|
                        0 <= i < serials.len() && pending[#[trigger] serials[i]].timeout == Some(
                            token,
                        );
                    if i < rest.len() {
                        assert(pending[rest[i]].timeout == Some(token));
                    }
                }
            },
            ActionView::CloseFd { fd } => {
                if exists|i: int| 0 <= i < rest.len() && pending[#[trigger] rest[i]].fd == Some(fd) {
                    let i = choose|i: int|
                        0 <= i < rest.len() && pending[#[trigger] rest[i]].fd == Some(fd);
                    assert(pending[serials[i]].fd == Some(fd));
                }
                if last.fd == Some(fd) {
                    assert(pending[serials[serials.len() - 1]].fd == Some(fd));
                }
                if exists|i: int|
                    0 <= i < serials.len() && pending[#[trigger] serials[i]].fd == Some(fd) {
                    let i = choose|i: int|
                        0 <= i < serials.len() && pending[#[trigger] serials[i]].fd == Some(fd);
                    if i < rest.len() {
                        assert(pending[rest[i]].fd == Some(fd));
                    }
                }
            },
            _ => {},
        }
    }
}

/// Ending a transfer stops its timer and closes its fd, where it has them, and does nothing else.
proof fn lemma_ended(transfer: PendingTransfer, action: ActionView)
    ensures
        transfer.ended().contains(action) == match action {
            ActionView::RemoveSource { token } => transfer.timeout == Some(token),
            ActionView::CloseFd { fd } => transfer.fd == Some(fd),
            _ => false,
        },
        transfer.closed().contains(action) == (action matches ActionView::CloseFd { fd }
            && transfer.fd == Some(fd)),
{
    let stopped = match transfer.timeout {
        Some(token) => seq![ActionView::RemoveSource { token }],
        None => Seq::empty(),
    };
    lemma_add_contains(stopped, transfer.closed(), action);
    if let Some(token) = transfer.timeout {
        assert(stopped[0] == (ActionView::RemoveSource { token }));
        assert(stopped.contains(stopped[0]));
    }
    if let Some(fd) = transfer.fd {
        assert(transfer.closed()[0] == (ActionView::CloseFd { fd }));
        assert(transfer.closed().contains(transfer.closed()[0]));
    }
}

proof fn lemma_transfers_closed(
    pending: Map<u32, PendingTransfer>,
    serials: Seq<u32>,
    action: ActionView,
)
    ensures
        transfers_closed(pending, serials).contains(action) == (
        action matches ActionView::CloseFd { fd } && exists|i: int|
            0 <= i < serials.len() && pending[#[trigger] serials[i]].fd == Some(fd)),
    decreases serials.len(),
{
    if serials.len() > 0 {
        let rest = serials.drop_last();
        let last = pending[serials.last()];
        lemma_transfers_closed(pending, rest, action);
        lemma_add_contains(transfers_closed(pending, rest), last.closed(), action);
        lemma_ended(last, action);
        if let ActionView::CloseFd { fd } = action {
            if exists|i: int| 0 <= i < rest.len() && pending[#[trigger] rest[i]].fd == Some(fd) {
                let i = choose|i: int|
                    0 <= i < rest.len() && pending[#[trigger] rest[i]].fd == Some(fd);
                assert(pending[serials[i]].fd == Some(fd));
            }
            if last.fd == Some(fd) {
                assert(pending[serials[serials.len() - 1]].fd == Some(fd));
            }
            if exists|i: int|
                0 <= i < serials.len() && pending[#[trigger] serials[i]].fd == Some(fd) {
                let i = choose|i: int|
                    0 <= i < serials.len() && pending[#[trigger] serials[i]].fd == Some(fd);
                if i < rest.len() {
                    assert(pending[rest[i]].fd == Some(fd));
                }
            }
        }
    }
}

/// What the serials of a map are, said of some transfer.
proof fn lemma_some_transfer(pending: Map<u32, PendingTransfer>, fd: FdHandle, token: SourceToken)
    requires
        pending.dom().finite(),
    ensures
        (exists|i: int|
            0 <= i < serials_of(pending.dom()).len() && pending[#[trigger] serials_of(
                pending.dom(),
            )[i]].fd == Some(fd)) == (exists|serial: u32| #[trigger]
            pending.contains_key(serial) && pending[serial].fd == Some(fd)),
        (exists|i: int|
            0 <= i < serials_of(pending.dom()).len() && pending[#[trigger] serials_of(
                pending.dom(),
            )[i]].timeout == Some(token)) == (exists|serial: u32| #[trigger]
            pending.contains_key(serial) && pending[serial].timeout == Some(token)),
{
    serials_are_listed(pending.dom());
    let serials = serials_of(pending.dom());
    assert forall|i: int| 0 <= i < serials.len() implies pending.contains_key(
        #[trigger] serials[i],
    ) by {
        assert(serials.contains(serials[i]));
    }
    assert forall|serial: u32| #[trigger] pending.contains_key(serial) implies exists|i: int|
        0 <= i < serials.len() && #[trigger] serials[i] == serial by {
        assert(serials.contains(serial));
    }
}

/// The fd and the timer that an action is about, if it is about one.
spec fn subject(action: ActionView) -> (FdHandle, SourceToken) {
    match action {
        ActionView::CloseFd { fd } => (fd, 0),
        ActionView::RemoveSource { token } => (0, token),
        _ => (0, 0),
    }
}

/// Clearing the clipboard of a session gives up exactly what it has: each selection that it offers,
/// and the timer and the fd of each client that waits.
pub proof fn cleared_clipboards_give_everything_up(session: SessionView, action: ActionView)
    requires
        counted(session.clipboard),
    ensures
        session.clipboard_cleared().contains(action) == gives_up(session.clipboard, action),
{
    if let Some(clipboard) = session.clipboard {
        let types = clipboard.offered_types();
        let ended = transfers_ended(clipboard.pending, serials_of(clipboard.pending.dom()));
        let cleared = session.clipboard_cleared();
        let selections = cleared.take(types.len() as int);
        assert(cleared =~= selections + ended);
        lemma_add_contains(selections, ended, action);
        lemma_transfers_ended(clipboard.pending, serials_of(clipboard.pending.dom()), action);
        lemma_some_transfer(clipboard.pending, subject(action).0, subject(action).1);
        let first = ActionView::ClearSelection { target: SelectionTarget::Clipboard };
        let second = ActionView::ClearSelection { target: SelectionTarget::Primary };
        if clipboard.offered.contains_key(ClipboardType::Clipboard) {
            assert(selections[0] == first);
            if clipboard.offered.contains_key(ClipboardType::Primary) {
                assert(selections[1] == second);
                assert(selections =~= seq![first, second]);
            } else {
                assert(selections =~= seq![first]);
            }
        } else if clipboard.offered.contains_key(ClipboardType::Primary) {
            assert(selections[0] == second);
            assert(selections =~= seq![second]);
        } else {
            assert(selections =~= Seq::<ActionView>::empty());
        }
    }
}

/// Letting go of a clipboard closes exactly the fds of the clients that wait.
pub proof fn dropped_clipboards_close_their_fds(clipboard: ClipboardView, action: ActionView)
    requires
        clipboard.pending.dom().finite(),
    ensures
        clipboard.dropped().contains(action) == (action matches ActionView::CloseFd { fd } && parks(
            Some(clipboard),
            fd,
        )),
{
    lemma_transfers_closed(clipboard.pending, serials_of(clipboard.pending.dom()), action);
    lemma_some_transfer(clipboard.pending, subject(action).0, subject(action).1);
}

/// Stopping the casts of a cast session leaves exactly the casts of others.
pub proof fn stopped_casts_are_gone(casts: Seq<Cast>, session_id: CastSessionId, cast: Cast)
    ensures
        casts_left(casts, session_id, casts.len()).contains(cast) == (casts.contains(cast)
            && cast.session_id != session_id),
{
    broadcast use vstd::seq_lib::group_to_multiset_ensures;

    let left = casts_left(casts, session_id, casts.len());
    let kept = casts.filter(of_another(session_id));
    stopping_leaves_the_other_casts(casts, session_id);
    lemma_filter_contains(casts, of_another(session_id), cast);
    assert(left.contains(cast) == (left.to_multiset().count(cast) > 0));
    assert(kept.contains(cast) == (kept.to_multiset().count(cast) > 0));
}

/// Stopping the casts of a cast session disconnects exactly its streams.
pub proof fn stopped_casts_are_disconnected(
    casts: Seq<Cast>,
    session_id: CastSessionId,
    action: ActionView,
)
    ensures
        casts_stopped(casts, session_id).contains(action) == (
        action matches ActionView::DisconnectCast { stream } && casts.contains(
            Cast { session_id, stream },
        )),
    decreases casts.len(),
{
    if casts.len() > 0 {
        let rest = casts.drop_last();
        let last = casts.last();
        let own = if last.session_id == session_id {
            seq![ActionView::DisconnectCast { stream: last.stream }]
        } else {
            Seq::empty()
        };
        stopped_casts_are_disconnected(rest, session_id, action);
        lemma_add_contains(own, casts_stopped(rest, session_id), action);
        assert(rest.push(last) =~= casts);
        if let ActionView::DisconnectCast { stream } = action {
            crate::utils::lists::lemma_push_contains(rest, last, Cast { session_id, stream });
        }
        if last.session_id == session_id {
            assert(own[0] == (ActionView::DisconnectCast { stream: last.stream }));
            assert(own.contains(own[0]));
            assert(last == (Cast { session_id, stream: last.stream }));
        }
    }
}

/// Whether a cast belongs to one of some streams.
pub open spec fn cast_of(streams: Seq<StreamView>, cast: Cast) -> bool {
    exists|k: int|
        0 <= k < streams.len() && (#[trigger] streams[k]).cast_session_id == cast.session_id
}

/// Whether a call waits for one of some streams.
pub open spec fn awaited(streams: Seq<StreamView>, to: ReplyHandle) -> bool {
    exists|k: int| 0 <= k < streams.len() && (#[trigger] streams[k]).pending_reply == Some(to)
}

proof fn lemma_last_stream(streams: Seq<StreamView>, cast: Cast, to: ReplyHandle)
    requires
        streams.len() > 0,
    ensures
        cast_of(streams, cast) == (cast_of(streams.drop_last(), cast)
            || streams.last().cast_session_id == cast.session_id),
        awaited(streams, to) == (awaited(streams.drop_last(), to) || streams.last().pending_reply
            == Some(to)),
{
    let rest = streams.drop_last();
    assert(streams[streams.len() - 1] == streams.last());
    if cast_of(rest, cast) {
        let k = choose|k: int|
            0 <= k < rest.len() && (#[trigger] rest[k]).cast_session_id == cast.session_id;
        assert(streams[k].cast_session_id == cast.session_id);
    }
    if awaited(rest, to) {
        let k = choose|k: int| 0 <= k < rest.len() && (#[trigger] rest[k]).pending_reply == Some(to);
        assert(streams[k].pending_reply == Some(to));
    }
    if cast_of(streams, cast) && streams.last().cast_session_id != cast.session_id {
        let k = choose|k: int|
            0 <= k < streams.len() && (#[trigger] streams[k]).cast_session_id == cast.session_id;
        assert(rest[k].cast_session_id == cast.session_id);
    }
    if awaited(streams, to) && streams.last().pending_reply != Some(to) {
        let k = choose|k: int|
            0 <= k < streams.len() && (#[trigger] streams[k]).pending_reply == Some(to);
        assert(rest[k].pending_reply == Some(to));
    }
}

/// Stopping some streams leaves exactly the casts of others.
pub proof fn stopped_streams_leave_the_other_casts(
    casts: Seq<Cast>,
    streams: Seq<StreamView>,
    cast: Cast,
)
    ensures
        streams_stopped(casts, streams).0.contains(cast) == (casts.contains(cast) && !cast_of(
            streams,
            cast,
        )),
    decreases streams.len(),
{
    if streams.len() > 0 {
        let rest = streams.drop_last();
        stopped_streams_leave_the_other_casts(casts, rest, cast);
        stopped_casts_are_gone(
            streams_stopped(casts, rest).0,
            streams.last().cast_session_id,
            cast,
        );
        lemma_last_stream(streams, cast, 0);
    }
}

/// Letting go of a stream lets go of the call that waits for it, and does nothing else.
proof fn lemma_dropped(stream: StreamView, action: ActionView)
    ensures
        stream.dropped().contains(action) == (action matches ActionView::DropReply { to }
            && stream.pending_reply == Some(to)),
{
    if let Some(to) = stream.pending_reply {
        assert(stream.dropped()[0] == (ActionView::DropReply { to }));
        assert(stream.dropped().contains(stream.dropped()[0]));
    }
}

/// Stopping some streams disconnects exactly their casts, and lets go of exactly the calls that wait
/// for them.
pub proof fn stopped_streams_are_disconnected(
    casts: Seq<Cast>,
    streams: Seq<StreamView>,
    action: ActionView,
)
    ensures
        streams_stopped(casts, streams).1.contains(action) == match action {
            ActionView::DisconnectCast { stream } => exists|session_id: CastSessionId|
                #[trigger] casts.contains(Cast { session_id, stream }) && cast_of(
                    streams,
                    Cast { session_id, stream },
                ),
            ActionView::DropReply { to } => awaited(streams, to),
            _ => false,
        },
    decreases streams.len(),
{
    if streams.len() > 0 {
        let rest = streams.drop_last();
        let last = streams.last();
        let left = streams_stopped(casts, rest).0;
        let before = streams_stopped(casts, rest).1;
        let stopped = casts_stopped(left, last.cast_session_id);
        stopped_streams_are_disconnected(casts, rest, action);
        stopped_casts_are_disconnected(left, last.cast_session_id, action);
        lemma_dropped(last, action);
        lemma_add_contains(before, stopped, action);
        lemma_add_contains(before + stopped, last.dropped(), action);
        match action {
            ActionView::DisconnectCast { stream } => {
                assert forall|session_id: CastSessionId| #[trigger] cast_of(
                    streams,
                    Cast { session_id, stream },
                ) == (cast_of(rest, Cast { session_id, stream }) || last.cast_session_id
                    == session_id) by {
                    lemma_last_stream(streams, Cast { session_id, stream }, 0);
                }
                let own = Cast { session_id: last.cast_session_id, stream };
                stopped_streams_leave_the_other_casts(casts, rest, own);
                assert(cast_of(streams, own));
                if casts.contains(own) && cast_of(rest, own) {
                    assert(before.contains(action));
                }
            },
            ActionView::DropReply { to } => {
                lemma_last_stream(streams, Cast { session_id: 0, stream: 0 }, to);
            },
            _ => {},
        }
    } else {
        assert(!streams_stopped(casts, streams).1.contains(action));
    }
}

/// Whether a monitor of a session stands for an output.
pub open spec fn owned_output(
    monitors: Seq<MonitorView>,
    session: RemoteDesktopSessionId,
    name: Seq<char>,
) -> bool {
    exists|i: int|
        0 <= i < monitors.len() && (#[trigger] monitors[i]).owner == Some(session)
            && monitors[i].output_name == name
}

/// Whether a monitor of a session has a number.
pub open spec fn owned_number(
    monitors: Seq<MonitorView>,
    session: RemoteDesktopSessionId,
    number: u64,
) -> bool {
    exists|i: int|
        0 <= i < monitors.len() && (#[trigger] monitors[i]).owner == Some(session) && monitors[i].id
            == number
}

proof fn lemma_last_monitor(
    monitors: Seq<MonitorView>,
    session: RemoteDesktopSessionId,
    name: Seq<char>,
    number: u64,
)
    requires
        monitors.len() > 0,
    ensures
        owned_output(monitors, session, name) == (owned_output(monitors.drop_last(), session, name)
            || (monitors.last().owner == Some(session) && monitors.last().output_name == name)),
        owned_number(monitors, session, number) == (owned_number(
            monitors.drop_last(),
            session,
            number,
        ) || (monitors.last().owner == Some(session) && monitors.last().id == number)),
{
    let rest = monitors.drop_last();
    assert(monitors[monitors.len() - 1] == monitors.last());
    if owned_output(rest, session, name) {
        let i = choose|i: int|
            0 <= i < rest.len() && (#[trigger] rest[i]).owner == Some(session)
                && rest[i].output_name == name;
        assert(monitors[i].owner == Some(session));
    }
    if owned_number(rest, session, number) {
        let i = choose|i: int|
            0 <= i < rest.len() && (#[trigger] rest[i]).owner == Some(session) && rest[i].id
                == number;
        assert(monitors[i].owner == Some(session));
    }
    if owned_output(monitors, session, name) {
        let i = choose|i: int|
            0 <= i < monitors.len() && (#[trigger] monitors[i]).owner == Some(session)
                && monitors[i].output_name == name;
        if i < rest.len() {
            assert(rest[i].owner == Some(session));
        }
    }
    if owned_number(monitors, session, number) {
        let i = choose|i: int|
            0 <= i < monitors.len() && (#[trigger] monitors[i]).owner == Some(session)
                && monitors[i].id == number;
        if i < rest.len() {
            assert(rest[i].owner == Some(session));
        }
    }
}

proof fn lemma_monitors_removed(
    to_dbus: bool,
    monitors: Seq<MonitorView>,
    session: RemoteDesktopSessionId,
    drop_monitors: bool,
    action: ActionView,
)
    ensures
        monitors_removed(to_dbus, monitors, session, drop_monitors).contains(action)
            == match action {
            ActionView::RemoveVirtualOutput { name } => drop_monitors && owned_output(
                monitors,
                session,
                name,
            ),
            ActionView::Notify(NoticeView::MonitorRemoved(number)) => to_dbus && drop_monitors
                && owned_number(monitors, session, number),
            _ => false,
        },
    decreases monitors.len(),
{
    if monitors.len() > 0 {
        let rest = monitors.drop_last();
        let last = monitors.last();
        let before = monitors_removed(to_dbus, rest, session, drop_monitors);
        let all = monitors_removed(to_dbus, monitors, session, drop_monitors);
        let own = all.skip(before.len() as int);
        lemma_monitors_removed(to_dbus, rest, session, drop_monitors, action);
        assert(all =~= before + own);
        lemma_add_contains(before, own, action);
        let removal = ActionView::RemoveVirtualOutput { name: last.output_name };
        let notice = ActionView::Notify(NoticeView::MonitorRemoved(last.id));
        if last.owner == Some(session) && drop_monitors {
            if to_dbus {
                assert(own =~= seq![removal, notice]);
                assert(own[0] == removal && own[1] == notice);
            } else {
                assert(own =~= seq![removal]);
                assert(own[0] == removal);
            }
        } else {
            assert(own =~= Seq::<ActionView>::empty());
        }
        match action {
            ActionView::RemoveVirtualOutput { name } => {
                lemma_last_monitor(monitors, session, name, 0);
            },
            ActionView::Notify(NoticeView::MonitorRemoved(number)) => {
                lemma_last_monitor(monitors, session, last.output_name, number);
            },
            _ => {},
        }
    }
}

/// Whether an action is part of what ends a session: the casts of its streams are disconnected and
/// the calls that wait for them let go, the source of its EIS connection is removed, everything that
/// its clipboard has is given up, its monitors go with it unless they outlive it, and the D-Bus side
/// hears of that.
pub open spec fn ends(
    niri: NiriView,
    id: RemoteDesktopSessionId,
    remove: bool,
    notify: bool,
    action: ActionView,
) -> bool {
    let desktop = niri.remote_desktop;
    let session = desktop.sessions[id];
    match action {
        ActionView::DisconnectCast { stream } => exists|session_id: CastSessionId|
            #[trigger] niri.casts.contains(Cast { session_id, stream }) && cast_of(
                session.streams,
                Cast { session_id, stream },
            ),
        ActionView::DropReply { to } => awaited(session.streams, to),
        ActionView::RemoveSource { token } => (session.eis matches Some(eis) && eis.token == token)
            || times(session.clipboard, token),
        ActionView::ClearSelection { target } => offers(session.clipboard, target),
        ActionView::CloseFd { fd } => parks(session.clipboard, fd),
        ActionView::RemoveVirtualOutput { name } => (remove || !session.persistent) && owned_output(
            desktop.monitors,
            id,
            name,
        ),
        ActionView::Notify(NoticeView::MonitorRemoved(number)) => desktop.to_dbus && (remove
            || !session.persistent) && owned_number(desktop.monitors, id, number),
        ActionView::Notify(NoticeView::SessionDestroyed(gone)) => desktop.to_dbus && notify && gone
            == id,
        _ => false,
    }
}

/// Destroying a session does everything that ends it, and nothing else.
pub proof fn destroying_does_what_ends_a_session(
    niri: NiriView,
    id: RemoteDesktopSessionId,
    remove: bool,
    notify: bool,
    action: ActionView,
)
    requires
        niri.remote_desktop.sessions.contains_key(id),
        counted(niri.remote_desktop.sessions[id].clipboard),
    ensures
        niri.destruction(id, remove, notify).contains(action) == ends(
            niri,
            id,
            remove,
            notify,
            action,
        ),
{
    let desktop = niri.remote_desktop;
    let session = desktop.sessions[id];
    let drop_monitors = remove || !session.persistent;
    let stopped = streams_stopped(niri.casts, session.streams).1;
    let eis = match session.eis {
        Some(eis) => seq![ActionView::RemoveSource { token: eis.token }],
        None => Seq::empty(),
    };
    let cleared = session.clipboard_cleared();
    let removed = monitors_removed(desktop.to_dbus, desktop.monitors, id, drop_monitors);
    let gone = ActionView::Notify(NoticeView::SessionDestroyed(id));
    let heard = if notify && desktop.to_dbus {
        seq![gone]
    } else {
        Seq::empty()
    };
    assert(niri.destruction(id, remove, notify) =~= stopped + eis + cleared + removed + heard);
    stopped_streams_are_disconnected(niri.casts, session.streams, action);
    cleared_clipboards_give_everything_up(session, action);
    lemma_monitors_removed(desktop.to_dbus, desktop.monitors, id, drop_monitors, action);
    lemma_add_contains(stopped, eis, action);
    lemma_add_contains(stopped + eis, cleared, action);
    lemma_add_contains(stopped + eis + cleared, removed, action);
    lemma_add_contains(stopped + eis + cleared + removed, heard, action);
    if let Some(connection) = session.eis {
        assert(eis[0] == (ActionView::RemoveSource { token: connection.token }));
        assert(eis.contains(eis[0]));
    }
    if notify && desktop.to_dbus {
        assert(heard[0] == gone);
        assert(heard.contains(heard[0]));
    }
}

/// No event source of a session is left behind: where its EIS connection has a token, that source
/// is removed, whether the session is persistent or not, and whatever the peer asked for.
pub proof fn destroyed_sessions_leave_no_source(
    niri: NiriView,
    id: RemoteDesktopSessionId,
    remove: bool,
    notify: bool,
    connection: super::EisConnection,
)
    requires
        niri.remote_desktop.sessions.contains_key(id),
        niri.remote_desktop.sessions[id].eis == Some(connection),
    ensures
        niri.destruction(id, remove, notify).contains(
            ActionView::RemoveSource { token: connection.token },
        ),
        niri.handling(RequestView::DestroySession { id, remove }).contains(
            ActionView::RemoveSource { token: connection.token },
        ),
{
    let session = niri.remote_desktop.sessions[id];
    let place = streams_stopped(niri.casts, session.streams).1.len() as int;
    let action = ActionView::RemoveSource { token: connection.token };
    assert(niri.destruction(id, remove, notify)[place] == action);
    assert(niri.destruction(id, remove, false)[place] == action);
}

/// A peer that destroys its session gets no signal for it.
pub proof fn destroying_by_message_tells_nobody(
    niri: NiriView,
    id: RemoteDesktopSessionId,
    remove: bool,
)
    ensures
        niri.handling(RequestView::DestroySession { id, remove }) == niri.destruction(
            id,
            remove,
            false,
        ),
        niri.handled(RequestView::DestroySession { id, remove }) == niri.session_destroyed(
            id,
            remove,
        ),
{
}

/// Destroying a session that does not exist does nothing.
pub proof fn unknown_sessions_are_not_destroyed(
    niri: NiriView,
    id: RemoteDesktopSessionId,
    remove: bool,
    notify: bool,
)
    requires
        !niri.remote_desktop.sessions.contains_key(id),
    ensures
        niri.destruction(id, remove, notify).len() == 0,
        niri.session_destroyed(id, remove) == niri,
{
}

/// Whether animations complete instantly exactly if the config turns them off or a session does.
pub open spec fn instant_if_asked(niri: NiriView) -> bool {
    niri.complete_instantly == (niri.animations_off || exists|id: RemoteDesktopSessionId| #[trigger]
        niri.remote_desktop.sessions.contains_key(id)
            && niri.remote_desktop.sessions[id].disable_animations)
}

/// Destroying a session takes out that session and exactly the casts of its streams. Every other
/// session stays as it is, and so does the control, unless the session had it.
pub proof fn destroying_leaves_the_rest(
    niri: NiriView,
    id: RemoteDesktopSessionId,
    remove: bool,
    other: RemoteDesktopSessionId,
    cast: Cast,
    capability: DeviceCapability,
)
    requires
        niri.remote_desktop.sessions.contains_key(id),
    ensures
        ({
            let session = niri.remote_desktop.sessions[id];
            let before = niri.remote_desktop;
            let after = niri.session_destroyed(id, remove);
            &&& !after.remote_desktop.sessions.contains_key(id)
            &&& other != id ==> {
                &&& after.remote_desktop.sessions.contains_key(other)
                    == before.sessions.contains_key(other)
                &&& after.remote_desktop.sessions[other] == before.sessions[other]
            }
            &&& before.controlling == Some(id) ==> after.remote_desktop.controlling is None
            &&& before.controlling != Some(id) ==> after.remote_desktop.controlling
                == before.controlling
            &&& after.casts.contains(cast) == (niri.casts.contains(cast) && !cast_of(
                session.streams,
                cast,
            ))
            &&& after.remote_desktop.eis_left.has(capability) == (before.eis_left.has(capability)
                || (session.persistent && !remove && session.eis_bound.has(capability)))
            &&& after.remote_desktop.to_dbus == before.to_dbus
            &&& after.remote_desktop.default_mode == before.default_mode
            &&& instant_if_asked(after)
            &&& after.animations_off == niri.animations_off
            &&& after.next_monitor == niri.next_monitor
            &&& after.next_cast_session == niri.next_cast_session
            &&& after.next_cast_stream == niri.next_cast_stream
            &&& after.next_device == niri.next_device
        }),
{
    let session = niri.remote_desktop.sessions[id];
    stopped_streams_leave_the_other_casts(niri.casts, session.streams, cast);
}

/// Which monitors are left when a session ends: those of others and those without an owner, as they
/// are, and, unless they go with it, its own, without an owner.
pub proof fn monitors_left_by_a_session(
    niri: NiriView,
    id: RemoteDesktopSessionId,
    remove: bool,
    monitor: MonitorView,
)
    requires
        niri.remote_desktop.sessions.contains_key(id),
    ensures
        niri.session_destroyed(id, remove).remote_desktop.monitors.contains(monitor) == (
        monitor.owner != Some(id) && (niri.remote_desktop.monitors.contains(monitor) || (
        monitor.owner is None && niri.remote_desktop.sessions[id].persistent && !remove
            && niri.remote_desktop.monitors.contains(
            MonitorView { owner: Some(id), ..monitor },
        )))),
{
    let monitors = niri.remote_desktop.monitors;
    let drop_monitors = remove || !niri.remote_desktop.sessions[id].persistent;
    let keep = super::sessions::outlives(id, drop_monitors);
    let kept = monitors.filter(keep);
    let left = monitors_left(monitors, id, drop_monitors);
    let own = MonitorView { owner: Some(id), ..monitor };
    lemma_filter_contains(monitors, keep, monitor);
    lemma_filter_contains(monitors, keep, own);
    if left.contains(monitor) {
        let k = choose|k: int| 0 <= k < left.len() && left[k] == monitor;
        assert(kept.contains(kept[k]));
        assert(kept[k] == monitor || kept[k] == own);
    }
    if kept.contains(monitor) && monitor.owner != Some(id) {
        let k = choose|k: int| 0 <= k < kept.len() && kept[k] == monitor;
        assert(left[k] == monitor);
    }
    if kept.contains(own) && monitor.owner is None {
        let k = choose|k: int| 0 <= k < kept.len() && kept[k] == own;
        assert(left[k] == monitor);
    }
}

/// A new session is what its peer asked for: persistent or not, with control or not, with animations
/// or without. It has no connection, no capabilities, no clipboard and no streams yet, and every
/// other session stays.
pub proof fn new_sessions_are_as_asked(
    niri: NiriView,
    id: RemoteDesktopSessionId,
    persistent: bool,
    disable_animations: bool,
    reply: ReplyHandle,
    other: RemoteDesktopSessionId,
    capability: DeviceCapability,
)
    ensures
        ({
            let request = RequestView::CreateSession {
                id,
                persistent,
                takes_control: false,
                disable_animations,
                reply,
            };
            let after = niri.handled(request).remote_desktop.sessions;
            &&& after.contains_key(id)
            &&& after[id].persistent == persistent
            &&& !after[id].has_control
            &&& after[id].disable_animations == disable_animations
            &&& after[id].eis is None
            &&& !after[id].eis_bound.has(capability)
            &&& after[id].clipboard is None
            &&& after[id].streams.len() == 0
            &&& other != id ==> after.contains_key(other)
                == niri.remote_desktop.sessions.contains_key(other) && after[other]
                == niri.remote_desktop.sessions[other]
            &&& niri.handled(request) == niri.with_sessions(after)
            &&& !niri.remote_desktop.sessions.contains_key(id) ==> niri.handling(request) == seq![
                ActionView::ListVirtualOutputs { reply },
            ]
        }),
{
    let request = RequestView::CreateSession {
        id,
        persistent,
        takes_control: false,
        disable_animations,
        reply,
    };
    assert(niri.handled(request) =~= niri.with_sessions(
        niri.handled(request).remote_desktop.sessions,
    ));
    if !niri.remote_desktop.sessions.contains_key(id) {
        assert(niri.handling(request) =~= seq![ActionView::ListVirtualOutputs { reply }]);
    }
}

/// A session that takes control is created like any other, once the session that had it is
/// destroyed and told so, and it alone has control then.
pub proof fn taking_control_ends_the_session_that_had_it(
    niri: NiriView,
    id: RemoteDesktopSessionId,
    persistent: bool,
    disable_animations: bool,
    reply: ReplyHandle,
)
    requires
        niri.valid(),
        !niri.remote_desktop.sessions.contains_key(id),
    ensures
        ({
            let request = RequestView::CreateSession {
                id,
                persistent,
                takes_control: true,
                disable_animations,
                reply,
            };
            let plain = RequestView::CreateSession {
                id,
                persistent,
                takes_control: false,
                disable_animations,
                reply,
            };
            let (middle, actions) = match niri.remote_desktop.controlling {
                Some(previous) => (
                    niri.session_destroyed(previous, false),
                    niri.destruction(previous, false, true),
                ),
                None => (niri, Seq::empty()),
            };
            let after = niri.handled(request);
            let expected = middle.handled(plain);
            let record = expected.remote_desktop.sessions[id];
            &&& niri.handling(request) == actions + seq![ActionView::ListVirtualOutputs { reply }]
            &&& after.remote_desktop.controlling == Some(id)
            &&& after.remote_desktop.sessions == expected.remote_desktop.sessions.insert(
                id,
                SessionView { has_control: true, ..record },
            )
            &&& after == (NiriView {
                remote_desktop: RemoteDesktopView {
                    controlling: Some(id),
                    sessions: after.remote_desktop.sessions,
                    ..expected.remote_desktop
                },
                ..expected
            })
        }),
{
    let request = RequestView::CreateSession {
        id,
        persistent,
        takes_control: true,
        disable_animations,
        reply,
    };
    let plain = RequestView::CreateSession {
        id,
        persistent,
        takes_control: false,
        disable_animations,
        reply,
    };
    let after = niri.handled(request);
    match niri.remote_desktop.controlling {
        Some(previous) => {
            assert(previous != id);
            let middle = niri.session_destroyed(previous, false);
            assert(niri.control_released() =~= middle);
            assert(!middle.remote_desktop.sessions.contains_key(id));
            let expected = middle.handled(plain);
            let record = expected.remote_desktop.sessions[id];
            assert(after.remote_desktop.sessions =~= expected.remote_desktop.sessions.insert(
                id,
                SessionView { has_control: true, ..record },
            ));
            assert(niri.handling(request) =~= niri.destruction(previous, false, true) + seq![
                ActionView::ListVirtualOutputs { reply },
            ]);
        },
        None => {
            let expected = niri.handled(plain);
            let record = expected.remote_desktop.sessions[id];
            assert(after.remote_desktop.sessions =~= expected.remote_desktop.sessions.insert(
                id,
                SessionView { has_control: true, ..record },
            ));
            assert(niri.handling(request) =~= Seq::<ActionView>::empty() + seq![
                ActionView::ListVirtualOutputs { reply },
            ]);
        },
    }
}

proof fn lemma_streams_dropped(streams: Seq<StreamView>, action: ActionView)
    ensures
        streams_dropped(streams).contains(action) == (action matches ActionView::DropReply { to }
            && awaited(streams, to)),
    decreases streams.len(),
{
    if streams.len() > 0 {
        let rest = streams.drop_last();
        lemma_streams_dropped(rest, action);
        lemma_add_contains(streams_dropped(rest), streams.last().dropped(), action);
        lemma_dropped(streams.last(), action);
        if let ActionView::DropReply { to } = action {
            lemma_last_stream(streams, Cast { session_id: 0, stream: 0 }, to);
        }
    }
}

/// Letting go of a session closes the fds of the clients that wait, and lets go of the calls that
/// wait for its streams; nothing else is done about it.
pub proof fn replaced_sessions_are_let_go(session: SessionView, action: ActionView)
    requires
        counted(session.clipboard),
    ensures
        session.dropped().contains(action) == match action {
            ActionView::CloseFd { fd } => parks(session.clipboard, fd),
            ActionView::DropReply { to } => awaited(session.streams, to),
            _ => false,
        },
{
    let clipboard = match session.clipboard {
        Some(clipboard) => clipboard.dropped(),
        None => Seq::empty(),
    };
    lemma_add_contains(clipboard, streams_dropped(session.streams), action);
    lemma_streams_dropped(session.streams, action);
    if let Some(clipboard) = session.clipboard {
        dropped_clipboards_close_their_fds(clipboard, action);
    }
}

/// A session that takes the number of another one lets that one go before anything else.
pub proof fn sessions_replace_those_of_their_number(
    niri: NiriView,
    id: RemoteDesktopSessionId,
    persistent: bool,
    disable_animations: bool,
    reply: ReplyHandle,
)
    requires
        niri.remote_desktop.sessions.contains_key(id),
    ensures
        niri.handling(
            RequestView::CreateSession {
                id,
                persistent,
                takes_control: false,
                disable_animations,
                reply,
            },
        ) == niri.remote_desktop.sessions[id].dropped() + seq![
            ActionView::ListVirtualOutputs { reply },
        ],
{
    let dropped = niri.remote_desktop.sessions[id].dropped();
    assert(Seq::<ActionView>::empty() + dropped =~= dropped);
}

/// The `disable-animations` option of a session is what it was set to, and animations follow; no
/// other session changes, and nothing else of that one.
pub proof fn animation_options_are_set(
    niri: NiriView,
    id: RemoteDesktopSessionId,
    value: bool,
    other: RemoteDesktopSessionId,
)
    ensures
        ({
            let request = RequestView::SetDisableAnimations { id, value };
            let before = niri.remote_desktop.sessions;
            let after = niri.handled(request);
            &&& niri.handling(request).len() == 0
            &&& instant_if_asked(after)
            &&& after.remote_desktop.sessions.contains_key(other) == before.contains_key(other)
            &&& other != id ==> after.remote_desktop.sessions[other] == before[other]
            &&& before.contains_key(id) ==> after.remote_desktop.sessions[id] == (SessionView {
                disable_animations: value,
                ..before[id]
            })
            &&& after == (NiriView {
                complete_instantly: after.complete_instantly,
                ..niri.with_sessions(after.remote_desktop.sessions)
            })
        }),
{
}

/// What is told about monitors is the number, the name and the owner of each, in order.
pub proof fn monitors_are_told_in_order(monitors: Seq<MonitorView>, index: int)
    ensures
        infos(monitors).len() == monitors.len(),
        0 <= index < monitors.len() ==> {
            &&& infos(monitors)[index].id == monitors[index].id
            &&& infos(monitors)[index].name == monitors[index].output_name
            &&& infos(monitors)[index].owner == monitors[index].owner
        },
{
}

/// Every message of the D-Bus side does what is stated of it.
pub proof fn messages_do_what_is_stated(
    state: &mut State,
    message: RemoteDesktopToNiri,
    actions: Vec<Action>,
)
    requires
        call_ensures(State::on_remote_desktop_msg, (state, message), actions),
    ensures
        final(state)@ == old(state)@.handled(message@),
        views(actions@) == old(state)@.handling(message@),
{
}

/// Destroying a session does everything that ends it behind what was to be done before, and removes
/// the source of its EIS connection, whether the session is persistent or not, and whatever the peer
/// asked for. The session is gone then.
pub proof fn sessions_are_destroyed_whole(
    state: &mut State,
    id: RemoteDesktopSessionId,
    remove: bool,
    notify: bool,
    actions: &mut Vec<Action>,
    action: ActionView,
)
    requires
        old(state)@.remote_desktop.sessions.contains_key(id),
        counted(old(state)@.remote_desktop.sessions[id].clipboard),
        call_ensures(
            State::destroy_remote_desktop_session,
            (state, id, remove, notify, actions),
            (),
        ),
    ensures
        only_added(old(actions)@, final(actions)@),
        new_of(old(actions)@, final(actions)@) == old(state)@.destruction(id, remove, notify),
        new_of(old(actions)@, final(actions)@).contains(action) == ends(
            old(state)@,
            id,
            remove,
            notify,
            action,
        ),
        old(state)@.remote_desktop.sessions[id].eis matches Some(connection) ==> new_of(
            old(actions)@,
            final(actions)@,
        ).contains(ActionView::RemoveSource { token: connection.token }),
        !final(state)@.remote_desktop.sessions.contains_key(id),
        final(state)@ == old(state)@.session_destroyed(id, remove),
{
    lemma_new_of(old(actions)@, final(actions)@, old(state)@.destruction(id, remove, notify));
    destroying_does_what_ends_a_session(old(state)@, id, remove, notify, action);
    if let Some(connection) = old(state)@.remote_desktop.sessions[id].eis {
        destroyed_sessions_leave_no_source(old(state)@, id, remove, notify, connection);
    }
}

/// Creating a session and setting its option do what the messages for that do.
pub proof fn sessions_are_created_and_set_as_stated(
    state: &mut State,
    id: RemoteDesktopSessionId,
    persistent: bool,
    takes_control: bool,
    disable_animations: bool,
    reply: ReplyHandle,
    actions: &mut Vec<Action>,
    second: &mut State,
    value: bool,
)
    requires
        call_ensures(
            State::create_remote_desktop_session,
            (state, id, persistent, takes_control, disable_animations, reply, actions),
            (),
        ),
        call_ensures(State::set_disable_animations, (second, id, value), ()),
    ensures
        only_added(old(actions)@, final(actions)@),
        ({
            let request = RequestView::CreateSession {
                id,
                persistent,
                takes_control,
                disable_animations,
                reply,
            };
            &&& final(state)@ == old(state)@.handled(request)
            &&& new_of(old(actions)@, final(actions)@) == old(state)@.handling(request)
        }),
        final(second)@ == old(second)@.handled(RequestView::SetDisableAnimations { id, value }),
{
    let request = RequestView::CreateSession {
        id,
        persistent,
        takes_control,
        disable_animations,
        reply,
    };
    lemma_new_of(old(actions)@, final(actions)@, old(state)@.handling(request));
}

/// Once a session was created, the monitors stand for the outputs that exist, animations are as the
/// sessions want them, and the call is answered last with every monitor: its number, its name and its
/// owner, in order.
pub proof fn created_sessions_hear_of_every_monitor(
    state: &mut State,
    outputs: Vec<String>,
    reply: ReplyHandle,
    actions: Vec<Action>,
    index: int,
)
    requires
        call_ensures(State::session_created, (state, &outputs, reply), actions),
        0 <= index < final(state)@.remote_desktop.monitors.len(),
    ensures
        ({
            let done = views(actions@);
            let monitors = final(state)@.remote_desktop.monitors;
            &&& done.len() > 0
            &&& done.drop_last() == old(state)@.monitor_changes(views(outputs@))
            &&& done.last() matches ActionView::Reply { to, reply: ReplyView::Monitors(Ok(told)) }
            &&& to == reply
            &&& told.len() == monitors.len()
            &&& told[index].id == monitors[index].id
            &&& told[index].name == monitors[index].output_name
            &&& told[index].owner == monitors[index].owner
        }),
        final(state)@ == old(state)@.monitors_refreshed(views(outputs@)).animations_refreshed(),
        instant_if_asked(final(state)@),
{
    assert(views(actions@).drop_last() =~= old(state)@.monitor_changes(views(outputs@)));
    monitors_are_told_in_order(final(state)@.remote_desktop.monitors, index);
}

/// A refresh of the monitors and of the animations does what is stated of them.
pub proof fn refreshes_do_what_is_stated(
    state: &mut State,
    outputs: Vec<String>,
    actions: &mut Vec<Action>,
    second: &mut State,
)
    requires
        call_ensures(State::refresh_remote_desktop_monitors, (state, &outputs, actions), ()),
        call_ensures(State::refresh_remote_desktop_animations, (second,), ()),
    ensures
        only_added(old(actions)@, final(actions)@),
        final(state)@ == old(state)@.monitors_refreshed(views(outputs@)),
        new_of(old(actions)@, final(actions)@) == old(state)@.monitor_changes(views(outputs@)),
        final(second)@ == (NiriView {
            complete_instantly: final(second)@.complete_instantly,
            ..old(second)@
        }),
        instant_if_asked(final(second)@),
{
    lemma_new_of(old(actions)@, final(actions)@, old(state)@.monitor_changes(views(outputs@)));
}

/// A compositor begins without sessions, monitors, streams or control, with animations as they are,
/// and hands out its numbers from 1 on.
pub proof fn compositors_begin_with_nothing(niri: Niri, desktop: RemoteDesktopState)
    requires
        call_ensures(Niri::new, (), niri),
        call_ensures(RemoteDesktopState::new, (), desktop),
    ensures
        niri@.remote_desktop == desktop@,
        desktop@.sessions.dom() == Set::<u64>::empty(),
        desktop@.monitors.len() == 0,
        desktop@.controlling is None,
        desktop@.default_mode is None,
        !desktop@.to_dbus,
        niri@.casts.len() == 0,
        !niri@.complete_instantly,
        !niri@.animations_off,
        niri@.next_monitor == 1,
        niri@.next_cast_session == 1,
        niri@.next_cast_stream == 1,
        niri@.next_device == 1,
{
}

/// The clock completes animations instantly exactly if it was told to.
pub proof fn clocks_do_as_they_are_told(clock: &mut Clock, value: bool, instantly: bool)
    requires
        call_ensures(Clock::set_complete_instantly, (clock, value), ()),
        call_ensures(Clock::should_complete_instantly, (&*final(clock),), instantly),
    ensures
        instantly == value,
{
}

/// Stopping a cast session disconnects exactly its casts and leaves exactly the others; nothing else
/// changes.
pub proof fn cast_sessions_are_stopped_whole(
    niri: &mut Niri,
    session_id: CastSessionId,
    actions: &mut Vec<Action>,
    cast: Cast,
    action: ActionView,
)
    requires
        call_ensures(Niri::stop_remote_desktop_cast, (niri, session_id, actions), ()),
    ensures
        only_added(old(actions)@, final(actions)@),
        final(niri)@.casts.contains(cast) == (old(niri)@.casts.contains(cast) && cast.session_id
            != session_id),
        final(niri)@.casts == casts_left(old(niri)@.casts, session_id, old(niri)@.casts.len()),
        new_of(old(actions)@, final(actions)@) == casts_stopped(old(niri)@.casts, session_id),
        new_of(old(actions)@, final(actions)@).contains(action) == (
        action matches ActionView::DisconnectCast { stream } && old(niri)@.casts.contains(
            Cast { session_id, stream },
        )),
        final(niri)@ == (NiriView { casts: final(niri)@.casts, ..old(niri)@ }),
{
    lemma_new_of(old(actions)@, final(actions)@, casts_stopped(old(niri)@.casts, session_id));
    stopped_casts_are_gone(old(niri)@.casts, session_id, cast);
    stopped_casts_are_disconnected(old(niri)@.casts, session_id, action);
}

/// Stopping some streams stops exactly their casts and lets go of the calls that wait for them.
pub proof fn streams_are_stopped_whole(
    niri: &mut Niri,
    streams: Vec<Stream>,
    actions: &mut Vec<Action>,
    cast: Cast,
    action: ActionView,
)
    requires
        call_ensures(Niri::stop_streams, (niri, &streams, actions), ()),
    ensures
        only_added(old(actions)@, final(actions)@),
        final(niri)@.casts.contains(cast) == (old(niri)@.casts.contains(cast) && !cast_of(
            views(streams@),
            cast,
        )),
        final(niri)@.casts == streams_stopped(old(niri)@.casts, views(streams@)).0,
        new_of(old(actions)@, final(actions)@) == streams_stopped(
            old(niri)@.casts,
            views(streams@),
        ).1,
        new_of(old(actions)@, final(actions)@).contains(action) == match action {
            ActionView::DisconnectCast { stream } => exists|session_id: CastSessionId|
                #[trigger] old(niri)@.casts.contains(Cast { session_id, stream }) && cast_of(
                    views(streams@),
                    Cast { session_id, stream },
                ),
            ActionView::DropReply { to } => awaited(views(streams@), to),
            _ => false,
        },
        final(niri)@ == (NiriView { casts: final(niri)@.casts, ..old(niri)@ }),
{
    lemma_new_of(
        old(actions)@,
        final(actions)@,
        streams_stopped(old(niri)@.casts, views(streams@)).1,
    );
    stopped_streams_leave_the_other_casts(old(niri)@.casts, views(streams@), cast);
    stopped_streams_are_disconnected(old(niri)@.casts, views(streams@), action);
}

/// What is told goes to the D-Bus side exactly if it listens, and behind what was to be done before.
pub proof fn notices_go_to_a_listening_bus(
    desktop: RemoteDesktopState,
    notice: NiriToRemoteDesktop,
    actions: &mut Vec<Action>,
    enabled: bool,
    disabled: bool,
)
    requires
        call_ensures(RemoteDesktopState::notify, (&desktop, notice, actions), ()),
        call_ensures(RemoteDesktopState::is_enabled, (&desktop,), enabled),
        call_ensures(RemoteDesktopState::animations_disabled, (&desktop,), disabled),
    ensures
        enabled == desktop.to_dbus,
        enabled ==> views(final(actions)@) == views(old(actions)@).push(
            ActionView::Notify(notice@),
        ),
        !enabled ==> views(final(actions)@) == views(old(actions)@),
        disabled <==> exists|id: RemoteDesktopSessionId| #[trigger]
            desktop@.sessions.contains_key(id) && desktop@.sessions[id].disable_animations,
{
    if enabled {
        assert(views(final(actions)@) =~= views(old(actions)@).push(ActionView::Notify(notice@)));
    } else {
        assert(views(final(actions)@) =~= views(old(actions)@));
    }
}

/// Letting go of a session or of a stream lets go of the calls that wait, and closes the fds of the
/// clients that wait, and does nothing else.
pub proof fn discarded_sessions_let_calls_go(
    session: Session,
    stream: Stream,
    first: &mut Vec<Action>,
    second: &mut Vec<Action>,
    action: ActionView,
)
    requires
        counted(session@.clipboard),
        call_ensures(Session::discard, (session, first), ()),
        call_ensures(Stream::discard, (&stream, second), ()),
    ensures
        only_added(old(first)@, final(first)@),
        only_added(old(second)@, final(second)@),
        new_of(old(first)@, final(first)@) == session@.dropped(),
        new_of(old(first)@, final(first)@).contains(action) == match action {
            ActionView::CloseFd { fd } => parks(session@.clipboard, fd),
            ActionView::DropReply { to } => awaited(session@.streams, to),
            _ => false,
        },
        new_of(old(second)@, final(second)@) == match stream.pending_reply {
            Some(to) => seq![ActionView::DropReply { to }],
            None => Seq::empty(),
        },
{
    lemma_new_of(old(first)@, final(first)@, session@.dropped());
    lemma_new_of(old(second)@, final(second)@, stream@.dropped());
    replaced_sessions_are_let_go(session@, action);
}

} // verus!
