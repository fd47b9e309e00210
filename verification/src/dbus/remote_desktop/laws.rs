//! What holds of the objects on the bus, of the options of calls and of who may call.

use vstd::prelude::*;
use vstd::string::*;

use super::calls::{ErrorView, not_the_owner, sent_by};
use super::clipboard::asked_clipboard_type;
use super::messages::{ClipboardType, CursorMode, MonitorInfoView, NoticeView};
use super::monitor::{MonitorObjectView, asked_cursor_mode};
use super::options::{
    Entry, ItemView, ValueView, array_of, bool_of, options_of, string_of, string_vec_of, texts_of,
    u32_of,
};
use super::paths::{path_of_clipboard, path_of_monitor, path_of_session};
use super::registry::{
    ObjectActionView, RegistryView, created_by, monitor_added, monitor_exposed, monitor_withdrawn,
    monitors_exposed, not_numbered,
};
use super::session::{is_on, no_clipboard, no_input, not_persistent};
use crate::utils::lists::lemma_filter_contains;
use crate::utils::order::{ids_are_listed, ids_of};
use crate::utils::text::decimal;
use crate::utils::{RemoteDesktopMonitorId, RemoteDesktopSessionId};

verus! {

/// An option is read as what it is and as nothing else, and reading one does not depend on others.
/// One that is not there is not read.
pub proof fn options_are_read_as_they_are(
    options: Map<Seq<char>, ValueView>,
    key: Seq<char>,
    value: ValueView,
    other: Seq<char>,
)
    ensures
        bool_of(options.insert(key, value), key) == (match value {
            ValueView::Bool(on) => Some(on),
            _ => None,
        }),
        u32_of(options.insert(key, value), key) == (match value {
            ValueView::U32(number) => Some(number),
            _ => None,
        }),
        string_of(options.insert(key, value), key) == (match value {
            ValueView::Str(text) => Some(text),
            _ => None,
        }),
        !(value is Array) ==> string_vec_of(options.insert(key, value), key) is None,
        value matches ValueView::Array(items) ==> string_vec_of(options.insert(key, value), key)
            == texts_of(items),
        other != key ==> {
            &&& bool_of(options.insert(key, value), other) == bool_of(options, other)
            &&& u32_of(options.insert(key, value), other) == u32_of(options, other)
            &&& string_of(options.insert(key, value), other) == string_of(options, other)
            &&& string_vec_of(options.insert(key, value), other) == string_vec_of(options, other)
        },
        bool_of(options.remove(key), key) is None,
        u32_of(options.remove(key), key) is None,
        string_of(options.remove(key), key) is None,
        string_vec_of(options.remove(key), key) is None,
{
}

/// A flag is on if it is given as true, and off if it is given as false, as anything else or not at
/// all.
pub proof fn flags_are_on_if_they_are_true(
    options: Map<Seq<char>, ValueView>,
    key: Seq<char>,
    value: ValueView,
)
    ensures
        is_on(options.insert(key, value), key) <==> value == ValueView::Bool(true),
        !is_on(options.remove(key), key),
{
}

/// Where a name is put in twice, the value that came last counts; other names are not affected.
pub proof fn later_options_count(entries: Seq<Entry>, entry: Entry, other: Seq<char>)
    ensures
        options_of(Seq::empty()).dom() == Set::<Seq<char>>::empty(),
        options_of(entries.push(entry)).contains_key(entry.key@),
        options_of(entries.push(entry))[entry.key@] == entry.value@,
        other != entry.key@ ==> {
            &&& options_of(entries.push(entry)).contains_key(other) == options_of(
                entries,
            ).contains_key(other)
            &&& options_of(entries.push(entry))[other] == options_of(entries)[other]
        },
{
    assert(entries.push(entry).drop_last() =~= entries);
}

/// An array is read as texts exactly if it holds nothing else, and then as its texts, in order.
pub proof fn arrays_are_read_if_they_hold_texts(items: Seq<ItemView>)
    ensures
        match texts_of(items) {
            Some(texts) => texts.len() == items.len() && forall|i: int|
                0 <= i < items.len() ==> #[trigger] items[i] == ItemView::Str(texts[i]),
            None => exists|i: int| 0 <= i < items.len() && #[trigger] items[i] == ItemView::Other,
        },
    decreases items.len(),
{
    if items.len() > 0 {
        let rest = items.drop_last();
        arrays_are_read_if_they_hold_texts(rest);
        assert(forall|i: int| 0 <= i < rest.len() ==> #[trigger] rest[i] == items[i]);
        match texts_of(rest) {
            Some(texts) => {
                match items.last() {
                    ItemView::Str(text) => {
                        let all = texts.push(text);
                        assert forall|i: int| 0 <= i < items.len() implies #[trigger] items[i]
                            == ItemView::Str(all[i]) by {
                            if i < rest.len() {
                                assert(rest[i] == ItemView::Str(texts[i]));
                            }
                        }
                    },
                    ItemView::Other => {
                        assert(items[items.len() - 1] == ItemView::Other);
                    },
                }
            },
            None => {
                let i = choose|i: int|
                    0 <= i < rest.len() && #[trigger] rest[i] == ItemView::Other;
                assert(items[i] == ItemView::Other);
            },
        }
    }
}

/// An array of texts holds each text, in order.
pub proof fn arrays_are_made_of_texts(texts: Seq<Seq<char>>, index: int)
    ensures
        array_of(texts) matches ValueView::Array(items) && items.len() == texts.len() && (0 <= index
            < texts.len() ==> items[index] == ItemView::Str(texts[index])),
{
}

/// On the bus the clipboard is 1 and the primary selection 2, and a cursor is hidden as 1, embedded
/// as 2 and metadata as 3.
pub proof fn bus_numbers_are_fixed()
    ensures
        ClipboardType::Clipboard.code() == 1,
        ClipboardType::Primary.code() == 2,
        CursorMode::Hidden.code() == 1,
        CursorMode::Embedded.code() == 2,
        CursorMode::Metadata.code() == 3,
{
}

/// The cursor mode that a call gets is the one whose number it gives, and metadata if it gives none.
/// A number that is no mode's gives none.
pub proof fn cursor_modes_are_asked_for_by_number(
    options: Map<Seq<char>, ValueView>,
    mode: CursorMode,
    value: ValueView,
)
    ensures
        asked_cursor_mode(options.insert("cursor-mode"@, ValueView::U32(mode.code()))) == Some(mode),
        asked_cursor_mode(options.remove("cursor-mode"@)) == Some(CursorMode::Metadata),
        !(value is U32) ==> asked_cursor_mode(options.insert("cursor-mode"@, value)) == Some(
            CursorMode::Metadata,
        ),
        value matches ValueView::U32(number) ==> (asked_cursor_mode(
            options.insert("cursor-mode"@, value),
        ) is None <==> number == 0 || number > 3),
{
}

/// The selection that a call speaks of is the one whose number it gives, and the clipboard if it
/// gives none. A number that is no selection's is an error that says it.
pub proof fn selections_are_asked_for_by_number(
    options: Map<Seq<char>, ValueView>,
    ty: ClipboardType,
    value: ValueView,
)
    ensures
        asked_clipboard_type(options.insert("clipboard-type"@, ValueView::U32(ty.code()))) == Ok::<
            ClipboardType,
            ErrorView,
        >(ty),
        asked_clipboard_type(options.remove("clipboard-type"@)) == Ok::<ClipboardType, ErrorView>(
            ClipboardType::Clipboard,
        ),
        !(value is U32) ==> asked_clipboard_type(options.insert("clipboard-type"@, value)) == Ok::<
            ClipboardType,
            ErrorView,
        >(ClipboardType::Clipboard),
        value matches ValueView::U32(number) ==> number == 0 || number > 2 ==> asked_clipboard_type(
            options.insert("clipboard-type"@, value),
        ) == Err::<ClipboardType, ErrorView>(
            ErrorView::InvalidArgs("bad clipboard type: "@ + decimal(number as nat)),
        ),
{
}

/// A message is sent by a peer exactly if it names that peer as its sender.
pub proof fn senders_are_known_by_name(sender: String, owner: Seq<char>)
    ensures
        sent_by(Some(sender), owner) <==> sender@ == owner,
        !sent_by(None, owner),
{
}

/// Each refusal says why, as an error of its own kind.
pub proof fn refusals_say_why()
    ensures
        not_the_owner() == ErrorView::AccessDenied(
            "only the peer that created this session may use it"@,
        ),
        no_input() == ErrorView::NotSupported(
            "input emulation is not enabled; add enable-input to the remote-desktop config section"@,
        ),
        no_clipboard() == ErrorView::NotSupported(
            "clipboard integration is not enabled; add enable-clipboard to the remote-desktop config section"@,
        ),
        not_persistent() == ErrorView::InvalidArgs(
            "persistent monitors require a persistent session"@,
        ),
{
}

/// A monitor is owned by the session that looks at it exactly if that session made it.
pub proof fn monitors_are_owned_by_their_maker(monitor: MonitorObjectView)
    ensures
        monitor.info.owner is None ==> !monitor.owned(),
        monitor.info.owner matches Some(owner) ==> (monitor.owned() <==> owner == monitor.session),
{
}

/// The object tree: sessions below the service, their monitors and their clipboard below each of
/// them.
pub proof fn objects_have_their_place(
    session: RemoteDesktopSessionId,
    monitor: RemoteDesktopMonitorId,
)
    ensures
        path_of_session(session) == "/org/freedesktop/RemoteDesktop1/Session/u"@ + decimal(
            session as nat,
        ),
        path_of_monitor(session, monitor) == path_of_session(session) + "/Monitor/u"@ + decimal(
            monitor as nat,
        ),
        path_of_clipboard(session) == path_of_session(session) + "/Clipboard"@,
{
    reveal_strlit("/org/freedesktop/RemoteDesktop1");
    reveal_strlit("/org/freedesktop/RemoteDesktop1/Session/u");
    reveal_strlit("/");
    reveal_strlit("u");
    reveal_strlit("Session");
    reveal_strlit("Monitor");
    reveal_strlit("Clipboard");
    reveal_strlit("/Monitor/u");
    reveal_strlit("/Clipboard");
    assert(path_of_session(session) =~= "/org/freedesktop/RemoteDesktop1/Session/u"@ + decimal(
        session as nat,
    ));
    assert(path_of_monitor(session, monitor) =~= path_of_session(session) + "/Monitor/u"@ + decimal(
        monitor as nat,
    ));
    assert(path_of_clipboard(session) =~= path_of_session(session) + "/Clipboard"@);
}

/// A monitor's object under a session is that monitor, as that session sees it, at its path there.
pub proof fn monitor_objects_are_under_their_session(
    session: RemoteDesktopSessionId,
    info: MonitorInfoView,
)
    ensures
        monitor_added(session, info) matches ObjectActionView::AddMonitor { path, monitor } && path
            == path_of_monitor(session, info.id) && monitor.session == session && monitor.info
            == info,
{
}

/// A new monitor gets an object under every session that is known, and nothing else happens on the
/// bus; it is noted behind the others.
pub proof fn new_monitors_get_their_objects(
    registry: RegistryView,
    info: MonitorInfoView,
    action: ObjectActionView,
)
    requires
        registry.sessions.dom().finite(),
    ensures
        ({
            let notice = NoticeView::MonitorAdded(info);
            &&& registry.notice_actions(notice).contains(action) == (
            action matches ObjectActionView::AddMonitor { path, monitor }
                && registry.sessions.contains_key(monitor.session) && monitor.info == info && path
                == path_of_monitor(monitor.session, info.id))
            &&& registry.after_notice(notice).sessions == registry.sessions
            &&& registry.after_notice(notice).monitors == registry.monitors.push(info)
        }),
{
    let sessions = ids_of(registry.sessions.dom());
    ids_are_listed(registry.sessions.dom());
    let actions = monitor_exposed(sessions, info);
    if actions.contains(action) {
        let k = choose|k: int| 0 <= k < actions.len() && actions[k] == action;
        assert(sessions.contains(sessions[k]));
    }
    if let ObjectActionView::AddMonitor { path, monitor } = action {
        if registry.sessions.contains_key(monitor.session) {
            assert(sessions.contains(monitor.session));
            let k = choose|k: int| 0 <= k < sessions.len() && sessions[k] == monitor.session;
            assert(actions[k] == monitor_added(monitor.session, info));
            assert(actions.contains(actions[k]));
        }
    }
}

/// A monitor that went leaves the bus under every session that is known, each time with a signal
/// before, and nothing else happens. It is forgotten, and the others are not.
pub proof fn removed_monitors_lose_their_objects(
    registry: RegistryView,
    monitor: RemoteDesktopMonitorId,
    index: int,
    info: MonitorInfoView,
)
    requires
        registry.sessions.dom().finite(),
    ensures
        ({
            let notice = NoticeView::MonitorRemoved(monitor);
            let sessions = ids_of(registry.sessions.dom());
            let actions = registry.notice_actions(notice);
            &&& forall|id: u64| #[trigger]
                sessions.contains(id) == registry.sessions.contains_key(id)
            &&& actions.len() == 2 * sessions.len()
            &&& 0 <= index < sessions.len() ==> {
                let path = path_of_monitor(sessions[index], monitor);
                &&& actions[2 * index] == (ObjectActionView::EmitMonitorRemoved { path })
                &&& actions[2 * index + 1] == (ObjectActionView::RemoveMonitor { path })
            }
            &&& registry.after_notice(notice).sessions == registry.sessions
            &&& registry.after_notice(notice).monitors.contains(info) == (
            registry.monitors.contains(info) && info.id != monitor)
        }),
{
    ids_are_listed(registry.sessions.dom());
    lemma_withdrawn(ids_of(registry.sessions.dom()), monitor, index);
    lemma_filter_contains(registry.monitors, not_numbered(monitor), info);
}

proof fn lemma_withdrawn(
    sessions: Seq<RemoteDesktopSessionId>,
    monitor: RemoteDesktopMonitorId,
    index: int,
)
    ensures
        ({
            let actions = monitor_withdrawn(sessions, monitor);
            &&& actions.len() == 2 * sessions.len()
            &&& 0 <= index < sessions.len() ==> {
                let path = path_of_monitor(sessions[index], monitor);
                &&& actions[2 * index] == (ObjectActionView::EmitMonitorRemoved { path })
                &&& actions[2 * index + 1] == (ObjectActionView::RemoveMonitor { path })
            }
        }),
    decreases sessions.len(),
{
    if sessions.len() > 0 {
        lemma_withdrawn(sessions.drop_last(), monitor, index);
    }
}

/// A session that gains or loses control has its object say so, and nothing else happens.
pub proof fn control_is_told_to_its_session(
    registry: RegistryView,
    session: RemoteDesktopSessionId,
    has_control: bool,
)
    ensures
        ({
            let notice = NoticeView::SessionControlChanged { session, has_control };
            &&& registry.after_notice(notice) == registry
            &&& registry.notice_actions(notice).len() == 1
            &&& registry.notice_actions(notice)[0] matches ObjectActionView::ChangeControl {
                path,
                has_control: now,
            }
            &&& path == path_of_session(session)
            &&& now == has_control
        }),
{
}

/// Taking a session off the bus takes off each of its monitors' objects, its clipboard, itself and
/// its object manager, and then forgets it; nothing of another session is touched.
pub proof fn withdrawn_sessions_leave_no_object(
    registry: RegistryView,
    session: RemoteDesktopSessionId,
    index: int,
)
    ensures
        ({
            let actions = registry.session_withdrawn(session);
            let count = registry.monitors.len() as int;
            &&& actions.len() == count + 4
            &&& 0 <= index < count ==> actions[index] == (ObjectActionView::RemoveMonitor {
                path: path_of_monitor(session, registry.monitors[index].id),
            })
            &&& actions[count] == (ObjectActionView::RemoveClipboard {
                path: path_of_clipboard(session),
            })
            &&& actions[count + 1] == (ObjectActionView::RemoveSession {
                path: path_of_session(session),
            })
            &&& actions[count + 2] == (ObjectActionView::RemoveObjectManager {
                path: path_of_session(session),
            })
            &&& actions[count + 3] == (ObjectActionView::ForgetSession { session })
        }),
{
}

/// A session that the compositor destroyed tells its peer before it leaves the bus.
pub proof fn destroyed_sessions_tell_their_peer(
    registry: RegistryView,
    session: RemoteDesktopSessionId,
)
    ensures
        ({
            let notice = NoticeView::SessionDestroyed(session);
            let actions = registry.notice_actions(notice);
            &&& registry.after_notice(notice) == registry
            &&& actions.len() > 0
            &&& actions[0] matches ObjectActionView::EmitDestroyed { path, destination }
            &&& path == path_of_session(session)
            &&& registry.sessions.contains_key(session) ==> destination == Some(
                registry.sessions[session],
            )
            &&& !registry.sessions.contains_key(session) ==> destination is None
            &&& actions.skip(1) == registry.session_withdrawn(session)
        }),
{
    let actions = registry.notice_actions(NoticeView::SessionDestroyed(session));
    assert(actions.skip(1) =~= registry.session_withdrawn(session));
}

/// A new owner of a selection is told to the peer of the session alone, on the session's clipboard:
/// which selection it is, with which mime types, and whether the session owns it. A session that is
/// not known is not told.
pub proof fn owner_changes_are_told_to_the_peer(
    registry: RegistryView,
    session: RemoteDesktopSessionId,
    ty: ClipboardType,
    mime_types: Seq<Seq<char>>,
    session_is_owner: bool,
)
    ensures
        ({
            let notice = NoticeView::SelectionOwnerChanged {
                session,
                ty,
                mime_types,
                session_is_owner,
            };
            let actions = registry.notice_actions(notice);
            &&& registry.after_notice(notice) == registry
            &&& if registry.sessions.contains_key(session) {
                &&& actions.len() == 1
                &&& actions[0] matches ObjectActionView::EmitSelectionOwnerChanged {
                    path,
                    destination,
                    options,
                }
                &&& path == path_of_clipboard(session)
                &&& destination == registry.sessions[session]
                &&& options.dom() == set!["mime-types"@, "clipboard-type"@, "session-is-owner"@]
                &&& string_vec_of(options, "mime-types"@) == Some(mime_types)
                &&& u32_of(options, "clipboard-type"@) == Some(
                    if ty == ClipboardType::Primary {
                        2u32
                    } else {
                        1u32
                    },
                )
                &&& bool_of(options, "session-is-owner"@) == Some(session_is_owner)
            } else {
                actions.len() == 0
            }
        }),
{
    reveal_strlit("mime-types");
    reveal_strlit("clipboard-type");
    reveal_strlit("session-is-owner");
    assert("mime-types"@.len() != "clipboard-type"@.len());
    assert("mime-types"@.len() != "session-is-owner"@.len());
    assert("clipboard-type"@.len() != "session-is-owner"@.len());
    super::options::arrays_hold_their_texts(mime_types);
    if registry.sessions.contains_key(session) {
        let notice = NoticeView::SelectionOwnerChanged { session, ty, mime_types, session_is_owner };
        let options = registry.notice_actions(notice)[0]->EmitSelectionOwnerChanged_options;
        assert(options.dom() =~= set!["mime-types"@, "clipboard-type"@, "session-is-owner"@]);
    }
}

/// A client that wants to read a selection of a session is told to the peer of the session alone, on
/// the session's clipboard: which selection it reads, which mime type, and under which serial. A
/// session that is not known is not told.
pub proof fn transfers_are_told_to_the_peer(
    registry: RegistryView,
    session: RemoteDesktopSessionId,
    ty: ClipboardType,
    mime_type: Seq<char>,
    serial: u32,
)
    ensures
        ({
            let notice = NoticeView::SelectionTransfer { session, ty, mime_type, serial };
            let actions = registry.notice_actions(notice);
            &&& registry.after_notice(notice) == registry
            &&& if registry.sessions.contains_key(session) {
                &&& actions.len() == 1
                &&& actions[0] matches ObjectActionView::EmitSelectionTransfer {
                    path,
                    destination,
                    mime_type: wanted,
                    serial: number,
                    options,
                }
                &&& path == path_of_clipboard(session)
                &&& destination == registry.sessions[session]
                &&& wanted == mime_type
                &&& number == serial
                &&& options.dom() == set!["clipboard-type"@]
                &&& u32_of(options, "clipboard-type"@) == Some(
                    if ty == ClipboardType::Primary {
                        2u32
                    } else {
                        1u32
                    },
                )
            } else {
                actions.len() == 0
            }
        }),
{
    if registry.sessions.contains_key(session) {
        let notice = NoticeView::SelectionTransfer { session, ty, mime_type, serial };
        let options = registry.notice_actions(notice)[0]->EmitSelectionTransfer_options;
        assert(options.dom() =~= set!["clipboard-type"@]);
    }
}

/// The peer of a session is the one that created it, and a session that is not known has none.
pub proof fn sessions_have_the_peer_that_created_them(
    registry: RegistryView,
    session: RemoteDesktopSessionId,
)
    ensures
        registry.sessions.contains_key(session) ==> registry.owner(session) == Some(
            registry.sessions[session],
        ),
        !registry.sessions.contains_key(session) ==> registry.owner(session) is None,
{
}

/// A new session gets an object for each monitor that exists, in order.
pub proof fn new_sessions_see_every_monitor(
    session: RemoteDesktopSessionId,
    infos: Seq<MonitorInfoView>,
    index: int,
)
    ensures
        ({
            let actions = monitors_exposed(session, infos);
            &&& actions.len() == infos.len()
            &&& 0 <= index < infos.len() ==> {
                &&& actions[index] matches ObjectActionView::AddMonitor { path, monitor }
                &&& path == path_of_monitor(session, infos[index].id)
                &&& monitor.session == session
                &&& monitor.info == infos[index]
            }
        }),
{
}

/// A peer that leaves the bus takes exactly the sessions with it that it created, of all that are
/// known.
pub proof fn peers_that_leave_take_their_sessions(
    registry: RegistryView,
    peer: Seq<char>,
    session: RemoteDesktopSessionId,
)
    requires
        registry.sessions.dom().finite(),
    ensures
        created_by(registry, ids_of(registry.sessions.dom()), peer).contains(session) == (
        registry.sessions.contains_key(session) && registry.sessions[session] == peer),
{
    ids_are_listed(registry.sessions.dom());
    super::registry::peers_take_their_sessions(
        registry,
        ids_of(registry.sessions.dom()),
        peer,
        session,
    );
}

} // verus!
