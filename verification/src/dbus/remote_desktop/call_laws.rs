//! What the calls of the D-Bus API give, whoever makes them.

use vstd::prelude::*;
use vstd::string::*;

use super::calls::{CallOutcome, ErrorView, FdoError, call_niri, check_sender};
use super::clipboard::{Clipboard, clipboard_type};
use super::laws::{objects_have_their_place, withdrawn_sessions_leave_no_object};
use super::messages::{
    ClipboardType, CursorMode, FdHandle, MonitorInfo, NiriToRemoteDesktop, RemoteDesktopToNiri,
    ReplyHandle, RequestView, StreamInfo,
};
use super::monitor::Monitor;
use super::options::{
    Options, Value, ValueView, bool_of, get_bool, get_string, get_string_vec, get_u32, string_array,
    string_of, string_vec_of, u32_of,
};
use super::paths::{
    clipboard_path, monitor_path, object_path, path_of_clipboard, path_of_monitor, path_of_session,
    session_path, valid_object_path,
};
use super::registry::{ObjectAction, ObjectActionView, Registry, add_monitor_object};
use super::service::{NewSession, PendingSession, Refusal, RemoteDesktop};
use super::session::{NewClipboard, NewMonitor, Session, flag};
use crate::utils::lists::views;
use crate::utils::text::decimal;
use crate::utils::{RemoteDesktopMonitorId, RemoteDesktopSessionId};

verus! {

/// The number of a selection on the bus is read as that selection again, and any other number as
/// none.
pub proof fn selections_come_back_from_the_bus(
    ty: ClipboardType,
    number: u32,
    back: Option<ClipboardType>,
    value: u32,
    read: Option<ClipboardType>,
)
    requires
        call_ensures(ClipboardType::to_dbus, (ty,), number),
        call_ensures(ClipboardType::from_dbus, (number,), back),
        call_ensures(ClipboardType::from_dbus, (value,), read),
    ensures
        back == Some(ty),
        number == if ty == ClipboardType::Primary {
            2u32
        } else {
            1u32
        },
        value == 1 ==> read == Some(ClipboardType::Clipboard),
        value == 2 ==> read == Some(ClipboardType::Primary),
        value != 1 && value != 2 ==> read is None,
{
    assert(ty.code() == number);
    assert(ClipboardType::Clipboard.code() == 1);
    assert(ClipboardType::Primary.code() == 2);
}

/// The number of a cursor mode on the bus is read as that mode again, and any other number as none.
pub proof fn cursor_modes_come_back_from_the_bus(
    mode: CursorMode,
    number: u32,
    back: Option<CursorMode>,
    value: u32,
    read: Option<CursorMode>,
)
    requires
        call_ensures(CursorMode::to_dbus, (mode,), number),
        call_ensures(CursorMode::from_dbus, (number,), back),
        call_ensures(CursorMode::from_dbus, (value,), read),
    ensures
        back == Some(mode),
        number == match mode {
            CursorMode::Hidden => 1u32,
            CursorMode::Embedded => 2u32,
            CursorMode::Metadata => 3u32,
        },
        value == 1 ==> read == Some(CursorMode::Hidden),
        value == 2 ==> read == Some(CursorMode::Embedded),
        value == 3 ==> read == Some(CursorMode::Metadata),
        value == 0 || value > 3 ==> read is None,
{
    assert(mode.code() == number);
    assert(CursorMode::Hidden.code() == 1);
    assert(CursorMode::Embedded.code() == 2);
    assert(CursorMode::Metadata.code() == 3);
}

/// What is put into options is what is got out of them under its name, and other names are not
/// affected. New options hold nothing.
pub proof fn options_give_back_what_was_put_in(
    none: Options,
    options: &mut Options,
    put: Options,
    key: &str,
    value: Value,
    got: Option<&Value>,
    other: &str,
    before: Option<&Value>,
    after: Option<&Value>,
    nothing: Option<&Value>,
)
    requires
        call_ensures(Options::new, (), none),
        call_ensures(Options::insert, (options, key, value), ()),
        put == *final(options),
        call_ensures(Options::get, (&put, key), got),
        call_ensures(Options::get, (&*old(options), other), before),
        call_ensures(Options::get, (&put, other), after),
        call_ensures(Options::get, (&none, key), nothing),
        other@ != key@,
    ensures
        got matches Some(found) && found@ == value@,
        before is Some <==> after is Some,
        before matches Some(found) ==> after matches Some(same) && found@ == same@,
        nothing is None,
{
}

/// An option is read as a boolean, a number, a text or texts exactly if it is one.
pub proof fn options_are_read_by_their_kind(
    options: Options,
    key: &str,
    on: Option<bool>,
    number: Option<u32>,
    text: Option<String>,
    texts: Option<Vec<String>>,
    set: bool,
)
    requires
        call_ensures(get_bool, (&options, key), on),
        call_ensures(get_u32, (&options, key), number),
        call_ensures(get_string, (&options, key), text),
        call_ensures(get_string_vec, (&options, key), texts),
        call_ensures(flag, (&options, key), set),
    ensures
        ({
            let there = options@.contains_key(key@);
            &&& there && options@[key@] == ValueView::Bool(true) <==> on == Some(true)
            &&& there && options@[key@] == ValueView::Bool(false) <==> on == Some(false)
            &&& set <==> on == Some(true)
            &&& number matches Some(found) ==> there && options@[key@] == ValueView::U32(found)
            &&& number is None ==> !(there && options@[key@] is U32)
            &&& text matches Some(found) ==> there && options@[key@] == ValueView::Str(found@)
            &&& text is None ==> !(there && options@[key@] is Str)
            &&& texts is Some ==> there && options@[key@] is Array
            &&& !there ==> on is None && number is None && text is None && texts is None
        }),
{
}

/// An array that is made of texts and put into options is read as those texts.
pub proof fn texts_come_back_from_options(
    options: &mut Options,
    put: Options,
    key: &str,
    texts: Vec<String>,
    value: Value,
    read: Option<Vec<String>>,
)
    requires
        call_ensures(string_array, (texts,), value),
        call_ensures(Options::insert, (options, key, value), ()),
        put == *final(options),
        call_ensures(get_string_vec, (&put, key), read),
    ensures
        read matches Some(found) && views(found@) == views(texts@),
{
    super::options::arrays_hold_their_texts(views(texts@));
}

/// What the compositor answers is what the call gives: a value as it is, and an error as a failure
/// with its text. A call that is not answered is an internal error.
pub proof fn answers_are_passed_on<T>(
    outcome: CallOutcome<T>,
    result: Result<T, FdoError>,
    value: T,
)
    requires
        call_ensures(call_niri::<T>, (outcome,), result),
    ensures
        outcome == CallOutcome::<T>::Answered(Ok(value)) ==> result == Ok::<T, FdoError>(value),
        outcome matches CallOutcome::Answered(Err(text)) ==> (result matches Err(error) && error@
            == ErrorView::Failed(text@)),
        outcome is NotSent || outcome is Dropped ==> (result matches Err(error) && error@
            == ErrorView::Failed("internal error"@)),
{
}

/// Only the peer with the given name passes, and everybody else is denied access.
pub proof fn only_the_owner_passes(
    sender: Option<String>,
    owner: String,
    result: Result<(), FdoError>,
)
    requires
        call_ensures(check_sender, (&sender, &owner), result),
    ensures
        result is Ok <==> (sender matches Some(name) && name@ == owner@),
        result matches Err(error) ==> error@ is AccessDenied,
{
}

/// A new session object is as it was created, and not destroyed.
pub proof fn session_objects_are_as_created(
    id: RemoteDesktopSessionId,
    owner: String,
    persistent: bool,
    has_control: bool,
    disable_animations: bool,
    enable_input: bool,
    enable_clipboard: bool,
    session: Session,
)
    requires
        call_ensures(
            Session::new,
            (
                id,
                owner,
                persistent,
                has_control,
                disable_animations,
                enable_input,
                enable_clipboard,
            ),
            session,
        ),
    ensures
        session.id == id,
        session.owner@ == owner@,
        session.persistent == persistent,
        session.has_control == has_control,
        session.disable_animations == disable_animations,
        session.enable_input == enable_input,
        session.enable_clipboard == enable_clipboard,
        !session.destroyed,
{
}

/// A session object that is told whether it has control says so, and changes nothing else.
pub proof fn session_objects_say_whether_they_have_control(
    session: &mut Session,
    told: Session,
    value: bool,
    attributes: Options,
)
    requires
        call_ensures(Session::set_has_control, (session, value), ()),
        told == *final(session),
        call_ensures(Session::attributes, (&told,), attributes),
    ensures
        told.has_control == value,
        bool_of(attributes@, "has-control"@) == Some(value),
        told.id == old(session).id,
        told.owner@ == old(session).owner@,
        told.persistent == old(session).persistent,
        told.disable_animations == old(session).disable_animations,
        told.destroyed == old(session).destroyed,
        told.enable_input == old(session).enable_input,
        told.enable_clipboard == old(session).enable_clipboard,
{
}

/// The peer destroys its session once: the first call asks the compositor, for the monitors to go if
/// the peer wants that, and a second one asks nothing.
pub proof fn sessions_are_destroyed_once(
    session: &mut Session,
    again: &mut Session,
    name: String,
    options: Options,
    first: Result<Option<RemoteDesktopToNiri>, FdoError>,
    second: Result<Option<RemoteDesktopToNiri>, FdoError>,
)
    requires
        name@ == old(session).owner@,
        !old(session).destroyed,
        call_ensures(Session::destroy, (session, &Some(name), &options), first),
        *old(again) == *final(session),
        call_ensures(Session::destroy, (again, &Some(name), &options), second),
    ensures
        first matches Ok(Some(message)) && message@ == (RequestView::DestroySession {
            id: old(session).id,
            remove: bool_of(options@, "remove"@) == Some(true),
        }),
        second matches Ok(None),
        final(session).destroyed,
        final(session).id == old(session).id,
        final(session).owner@ == old(session).owner@,
{
}

/// A stranger cannot use a session: every call is denied access, and the session does not change.
pub proof fn strangers_cannot_use_a_session(
    session: &mut Session,
    same: Session,
    sender: Option<String>,
    options: Options,
    socket: Result<FdHandle, String>,
    reply: ReplyHandle,
    destroyed: Result<Option<RemoteDesktopToNiri>, FdoError>,
    checked: Result<(), FdoError>,
    connected: Result<RemoteDesktopToNiri, FdoError>,
    created: Result<RemoteDesktopToNiri, FdoError>,
    enabled: Result<RemoteDesktopToNiri, FdoError>,
)
    requires
        sender matches Some(name) ==> name@ != old(session).owner@,
        same == *old(session),
        call_ensures(Session::destroy, (session, &sender, &options), destroyed),
        call_ensures(Session::check_eis, (&same, &sender), checked),
        call_ensures(Session::connect_to_eis, (&same, &sender, socket, reply), connected),
        call_ensures(Session::create_virtual_monitor, (&same, &sender, &options, reply), created),
        call_ensures(Session::enable_clipboard, (&same, &sender, reply), enabled),
    ensures
        destroyed matches Err(error) && error@ is AccessDenied,
        checked matches Err(error) && error@ is AccessDenied,
        connected matches Err(error) && error@ is AccessDenied,
        created matches Err(error) && error@ is AccessDenied,
        enabled matches Err(error) && error@ is AccessDenied,
        final(session).destroyed == old(session).destroyed,
        final(session)@ == old(session)@,
{
}

/// The peer gets an EIS connection over its socket exactly if input is enabled; otherwise it is not
/// supported. Where there is no socket, the call fails and says why.
pub proof fn peers_connect_if_input_is_enabled(
    session: Session,
    name: String,
    socket: Result<FdHandle, String>,
    reply: ReplyHandle,
    checked: Result<(), FdoError>,
    connected: Result<RemoteDesktopToNiri, FdoError>,
)
    requires
        name@ == session.owner@,
        call_ensures(Session::check_eis, (&session, &Some(name)), checked),
        call_ensures(Session::connect_to_eis, (&session, &Some(name), socket, reply), connected),
    ensures
        checked is Ok <==> session.enable_input,
        checked matches Err(error) ==> error@ is NotSupported,
        !session.enable_input ==> (connected matches Err(error) && error@ is NotSupported),
        session.enable_input ==> match socket {
            Ok(fd) => connected matches Ok(message) && message@ == (RequestView::ConnectToEis {
                session: session.id,
                socket: fd,
                reply,
            }),
            Err(reason) => connected matches Err(error) && error@ == ErrorView::Failed(
                "error creating socket pair: "@ + reason@,
            ),
        },
{
}

/// The peer of a session asks for a monitor with the name and the persistence of the call. Only a
/// persistent session can have a persistent monitor.
pub proof fn peers_ask_for_monitors_by_name(
    session: Session,
    name: String,
    options: Options,
    reply: ReplyHandle,
    created: Result<RemoteDesktopToNiri, FdoError>,
)
    requires
        name@ == session.owner@,
        call_ensures(
            Session::create_virtual_monitor,
            (&session, &Some(name), &options, reply),
            created,
        ),
    ensures
        ({
            let persistent = bool_of(options@, "persistent"@) == Some(true);
            &&& created is Err <==> persistent && !session.persistent
            &&& created matches Err(error) ==> error@ is InvalidArgs
            &&& created matches Ok(message) ==> message@ == (RequestView::CreateVirtualMonitor {
                session: session.id,
                name: string_of(options@, "name"@),
                persistent,
                reply,
            })
        }),
{
}

/// A monitor that was created gets its object under the session that asked for it; where it was not
/// created, the call fails and says why.
pub proof fn created_monitors_get_their_object(
    session: Session,
    outcome: CallOutcome<MonitorInfo>,
    result: Result<NewMonitor, FdoError>,
)
    requires
        call_ensures(Session::monitor_created, (&session, outcome), result),
    ensures
        outcome matches CallOutcome::Answered(Ok(info)) ==> {
            &&& result matches Ok(new)
            &&& new.path@ == path_of_monitor(session.id, info.id)
            &&& new.monitor.session == session.id
            &&& new.monitor.info@ == info@
        },
        outcome matches CallOutcome::Answered(Err(text)) ==> (result matches Err(error) && error@
            == ErrorView::Failed(text@)),
        !(outcome is Answered) ==> (result matches Err(error) && error@ == ErrorView::Failed(
            "internal error"@,
        )),
{
}

/// The peer of a session turns clipboard integration on exactly if the clipboard is enabled;
/// otherwise it is not supported.
pub proof fn peers_have_a_clipboard_if_it_is_enabled(
    session: Session,
    name: String,
    reply: ReplyHandle,
    enabled: Result<RemoteDesktopToNiri, FdoError>,
)
    requires
        name@ == session.owner@,
        call_ensures(Session::enable_clipboard, (&session, &Some(name), reply), enabled),
    ensures
        session.enable_clipboard ==> (enabled matches Ok(message) && message@
            == (RequestView::EnableClipboard { session: session.id, reply })),
        !session.enable_clipboard ==> (enabled matches Err(error) && error@ is NotSupported),
{
}

/// The clipboard object of a session belongs to the session and to its peer; where it cannot be put
/// on the bus, clipboard integration is turned off again.
pub proof fn clipboard_objects_belong_to_their_session(
    session: Session,
    outcome: CallOutcome<()>,
    made: Result<NewClipboard, FdoError>,
    added: Result<bool, String>,
    result: Result<String, (RemoteDesktopToNiri, FdoError)>,
)
    requires
        call_ensures(Session::clipboard_enabled, (&session, outcome), made),
        call_ensures(Session::clipboard_added, (&session, added), result),
    ensures
        outcome matches CallOutcome::Answered(Ok(_)) ==> {
            &&& made matches Ok(new)
            &&& new.path@ == path_of_clipboard(session.id)
            &&& new.clipboard.session == session.id
            &&& new.clipboard.owner@ == session.owner@
        },
        outcome matches CallOutcome::Answered(Err(text)) ==> (made matches Err(error) && error@
            == ErrorView::Failed(text@)),
        !(outcome is Answered) ==> (made matches Err(error) && error@ == ErrorView::Failed(
            "internal error"@,
        )),
        added is Ok ==> (result matches Ok(path) && path@ == path_of_clipboard(session.id)),
        added matches Err(reason) ==> {
            &&& result matches Err(refusal)
            &&& refusal.0@ == (RequestView::DisableClipboard { session: session.id })
            &&& refusal.1@ == ErrorView::Failed("error creating clipboard object: "@ + reason@)
        },
{
}

/// The `disable-animations` option that a peer sets is what the compositor hears and what the session
/// says then; without it nothing happens.
pub proof fn options_that_are_set_are_said(
    session: &mut Session,
    set: Session,
    options: Options,
    message: Option<RemoteDesktopToNiri>,
    said: Options,
    value: bool,
)
    requires
        call_ensures(Session::set_options, (session, &options), message),
        set == *final(session),
        call_ensures(Session::options, (&set,), said),
    ensures
        bool_of(options@, "disable-animations"@) == Some(value) ==> {
            &&& message matches Some(request)
            &&& request@ == (RequestView::SetDisableAnimations { id: old(session).id, value })
            &&& set.disable_animations == value
            &&& bool_of(said@, "disable-animations"@) == Some(value)
        },
        bool_of(options@, "disable-animations"@) is None ==> {
            &&& message is None
            &&& set@ == old(session)@
            &&& bool_of(said@, "disable-animations"@) == Some(old(session).disable_animations)
        },
        set.id == old(session).id,
        set.owner@ == old(session).owner@,
        set.persistent == old(session).persistent,
        set.has_control == old(session).has_control,
        set.destroyed == old(session).destroyed,
        set.enable_input == old(session).enable_input,
        set.enable_clipboard == old(session).enable_clipboard,
{
}

/// Every interface has the same version, the first.
pub proof fn interfaces_have_the_first_version(
    session: Session,
    service: RemoteDesktop,
    monitor: Monitor,
    clipboard: Clipboard,
    a: u32,
    b: u32,
    c: u32,
    d: u32,
)
    requires
        call_ensures(Session::version, (&session,), a),
        call_ensures(RemoteDesktop::version, (&service,), b),
        call_ensures(Monitor::version, (&monitor,), c),
        call_ensures(Clipboard::version, (&clipboard,), d),
    ensures
        a == 1,
        b == 1,
        c == 1,
        d == 1,
{
}

/// The service hands out session numbers from 1 on, creates what the peer asked for, and notes the
/// peer. The compositor hears of the session as it is noted.
pub proof fn sessions_are_created_as_asked(
    enable_input: bool,
    enable_clipboard: bool,
    fresh: RemoteDesktop,
    service: &mut RemoteDesktop,
    sender: Option<String>,
    options: Options,
    session_options: Options,
    reply: ReplyHandle,
    result: Result<(PendingSession, RemoteDesktopToNiri), FdoError>,
)
    requires
        call_ensures(RemoteDesktop::new, (enable_input, enable_clipboard), fresh),
        call_ensures(
            RemoteDesktop::create_session,
            (service, sender, &options, &session_options, reply),
            result,
        ),
    ensures
        fresh.session_ids.value == 1,
        fresh.enable_input == enable_input,
        fresh.enable_clipboard == enable_clipboard,
        sender is None ==> {
            &&& result matches Err(error)
            &&& error@ == ErrorView::Failed("message has no sender"@)
            &&& final(service).session_ids.value == old(service).session_ids.value
        },
        sender matches Some(name) ==> {
            &&& result matches Ok((pending, message))
            &&& pending.id == old(service).session_ids.value
            &&& final(service).session_ids.value == pending.id + 1
            &&& pending.owner@ == name@
            &&& pending.persistent <==> bool_of(options@, "persistent"@) == Some(true)
            &&& pending.takes_control <==> bool_of(options@, "takes-control"@) == Some(true)
            &&& pending.disable_animations <==> bool_of(session_options@, "disable-animations"@)
                == Some(true)
            &&& message@ == (RequestView::CreateSession {
                id: pending.id,
                persistent: pending.persistent,
                takes_control: pending.takes_control,
                disable_animations: pending.disable_animations,
                reply,
            })
        },
        final(service).enable_input == old(service).enable_input,
        final(service).enable_clipboard == old(service).enable_clipboard,
{
}

/// A session that the compositor knows gets the object that was asked for, at its path, and the
/// monitors that exist.
pub proof fn answered_sessions_get_their_object(
    service: RemoteDesktop,
    pending: PendingSession,
    outcome: CallOutcome<Vec<MonitorInfo>>,
    result: Result<NewSession, FdoError>,
)
    requires
        call_ensures(RemoteDesktop::session_answered, (&service, &pending, outcome), result),
    ensures
        outcome matches CallOutcome::Answered(Ok(monitors)) ==> {
            &&& result matches Ok(new)
            &&& new.path@ == path_of_session(pending.id)
            &&& new.monitors == monitors
            &&& new.session.id == pending.id
            &&& new.session.owner@ == pending.owner@
            &&& new.session.persistent == pending.persistent
            &&& new.session.has_control == pending.takes_control
            &&& new.session.disable_animations == pending.disable_animations
            &&& new.session.enable_input == service.enable_input
            &&& new.session.enable_clipboard == service.enable_clipboard
            &&& !new.session.destroyed
        },
        outcome matches CallOutcome::Answered(Err(text)) ==> (result matches Err(error) && error@
            == ErrorView::Failed(text@)),
        !(outcome is Answered) ==> (result matches Err(error) && error@ == ErrorView::Failed(
            "internal error"@,
        )),
{
}

/// Where the object manager of a session cannot be put on the bus, the session is destroyed again
/// and the call fails.
pub proof fn sessions_need_their_object_manager(
    service: RemoteDesktop,
    pending: PendingSession,
    added: Result<(), String>,
    result: Result<(), Refusal>,
)
    requires
        call_ensures(RemoteDesktop::manager_added, (&service, &pending, added), result),
    ensures
        result is Ok <==> added is Ok,
        added matches Err(reason) ==> {
            &&& result matches Err(refusal)
            &&& refusal.error@ == ErrorView::Failed(
                "error creating session object manager: "@ + reason@,
            )
            &&& refusal.message matches Some(message)
            &&& message@ == (RequestView::DestroySession { id: pending.id, remove: false })
        },
{
}

/// A session whose object is new on the bus is noted with its peer, its path is given to the peer and
/// it gets an object for each monitor. One whose object cannot be put there is destroyed again, and
/// one whose path is taken is refused; neither is noted.
pub proof fn added_sessions_are_noted(
    service: RemoteDesktop,
    registry: &mut Registry,
    pending: PendingSession,
    monitors: Vec<MonitorInfo>,
    added: Result<bool, String>,
    result: Result<(String, Vec<ObjectAction>), Refusal>,
    index: int,
)
    requires
        call_ensures(
            RemoteDesktop::session_added,
            (&service, registry, pending, &monitors, added),
            result,
        ),
        0 <= index < monitors@.len(),
    ensures
        final(registry)@.monitors == old(registry)@.monitors,
        added == Ok::<bool, String>(true) ==> {
            &&& final(registry)@.sessions == old(registry)@.sessions.insert(
                pending.id,
                pending.owner@,
            )
            &&& result matches Ok((path, actions))
            &&& path@ == path_of_session(pending.id)
            &&& actions@.len() == monitors@.len()
            &&& actions@[index] matches ObjectAction::AddMonitor { path: place, monitor }
            &&& place@ == path_of_monitor(pending.id, monitors@[index].id)
            &&& monitor.session == pending.id
            &&& monitor.info@ == monitors@[index]@
        },
        added == Ok::<bool, String>(false) ==> {
            &&& final(registry)@.sessions == old(registry)@.sessions
            &&& result matches Err(refusal)
            &&& refusal.error@ == ErrorView::Failed("session path already exists"@)
            &&& refusal.message is None
        },
        added matches Err(reason) ==> {
            &&& final(registry)@.sessions == old(registry)@.sessions
            &&& result matches Err(refusal)
            &&& refusal.error@ == ErrorView::Failed("error creating session object: "@ + reason@)
            &&& refusal.message matches Some(message)
            &&& message@ == (RequestView::DestroySession { id: pending.id, remove: false })
        },
{
    if added == Ok::<bool, String>(true) {
        let actions = result->Ok_0.1;
        assert(views(actions@).len() == actions@.len());
        assert(views(actions@)[index] == actions@[index]@);
        assert(views(monitors@)[index] == monitors@[index]@);
    }
}

/// The service says that it can keep what is persistent.
pub proof fn services_can_keep_things(service: RemoteDesktop, capabilities: Options)
    requires
        call_ensures(RemoteDesktop::capabilities, (&service,), capabilities),
    ensures
        bool_of(capabilities@, "persistence"@) == Some(true),
        capabilities@.dom() == set!["persistence"@],
{
    assert(capabilities@.dom() =~= set!["persistence"@]);
}

/// A monitor object is the monitor as its session sees it, and says its name and whether the session
/// made it. Exactly the session that made it can ask for it to go; another is denied access.
pub proof fn monitor_objects_know_their_maker(
    session: RemoteDesktopSessionId,
    info: MonitorInfo,
    monitor: Monitor,
    reply: ReplyHandle,
    owned: bool,
    removed: Result<RemoteDesktopToNiri, FdoError>,
    attributes: Options,
)
    requires
        call_ensures(Monitor::new, (session, info), monitor),
        call_ensures(Monitor::is_owned, (&monitor,), owned),
        call_ensures(Monitor::remove, (&monitor, reply), removed),
        call_ensures(Monitor::attributes, (&monitor,), attributes),
    ensures
        monitor.session == session,
        monitor.info@ == info@,
        owned <==> info.owner == Some(session),
        removed is Ok <==> info.owner == Some(session),
        removed matches Ok(message) ==> message@ == (RequestView::RemoveVirtualMonitor {
            session,
            monitor: info.id,
            reply,
        }),
        removed matches Err(error) ==> error@ == ErrorView::AccessDenied(
            "this monitor belongs to another session"@,
        ),
        bool_of(attributes@, "owned"@) == Some(info.owner == Some(session)),
        string_of(attributes@, "name"@) == Some(info.name@),
{
    reveal_strlit("owned");
    reveal_strlit("name");
    assert("owned"@.len() != "name"@.len());
}

/// A stream is asked for with the cursor mode whose number the call gives, metadata if it gives none;
/// a number that is no mode's is refused. The stream is of the monitor, for the session that looks at
/// it.
pub proof fn streams_are_asked_for_with_their_cursor(
    monitor: Monitor,
    options: Options,
    reply: ReplyHandle,
    result: Result<RemoteDesktopToNiri, FdoError>,
    mode: CursorMode,
)
    requires
        call_ensures(Monitor::open_pipe_wire_stream, (&monitor, &options, reply), result),
    ensures
        u32_of(options@, "cursor-mode"@) == Some(mode.code()) || (u32_of(
            options@,
            "cursor-mode"@,
        ) is None && mode == CursorMode::Metadata) ==> (result matches Ok(message) && message@
            == (RequestView::OpenPipeWireStream {
            session: monitor.session,
            monitor: monitor.info.id,
            cursor_mode: mode,
            reply,
        })),
        u32_of(options@, "cursor-mode"@) matches Some(number) ==> (number == 0 || number > 3) ==> (
        result matches Err(error) && error@ == ErrorView::InvalidArgs(
            "bad cursor mode: "@ + decimal(number as nat),
        )),
{
}

/// The cursor modes that a stream can have are those that have a number.
pub proof fn every_cursor_mode_is_offered(monitor: Monitor, modes: Vec<u32>, mode: CursorMode)
    requires
        call_ensures(Monitor::cursor_modes, (&monitor,), modes),
    ensures
        modes@ == seq![1u32, 2u32, 3u32],
        modes@.contains(mode.code()),
{
    assert(modes@ =~= seq![1u32, 2u32, 3u32]);
    assert(modes@[0] == 1 && modes@[1] == 2 && modes@[2] == 3);
}

/// A stream that was opened is given its id, its node and its serial; where it was not opened, the
/// call fails and says why. A stream is closed by its id, on the monitor, for the session.
pub proof fn opened_streams_are_found_and_closed(
    monitor: Monitor,
    outcome: CallOutcome<StreamInfo>,
    result: Result<(String, Options), FdoError>,
    id: String,
    reply: ReplyHandle,
    message: RemoteDesktopToNiri,
)
    requires
        call_ensures(Monitor::stream_opened, (&monitor, outcome), result),
        call_ensures(Monitor::close_pipe_wire_stream, (&monitor, id, reply), message),
    ensures
        outcome matches CallOutcome::Answered(Ok(stream)) ==> {
            &&& result matches Ok((stream_id, info))
            &&& stream_id@ == stream.stream_id@
            &&& u32_of(info@, "node-id"@) == Some(stream.node_id)
            &&& info@.contains_key("serial"@)
            &&& info@["serial"@] == ValueView::U64(stream.serial)
        },
        outcome matches CallOutcome::Answered(Err(text)) ==> (result matches Err(error) && error@
            == ErrorView::Failed(text@)),
        !(outcome is Answered) ==> (result matches Err(error) && error@ == ErrorView::Failed(
            "internal error"@,
        )),
        message@ == (RequestView::ClosePipeWireStream {
            session: monitor.session,
            monitor: monitor.info.id,
            stream_id: id@,
            reply,
        }),
{
    reveal_strlit("node-id");
    reveal_strlit("serial");
    assert("node-id"@.len() != "serial"@.len());
}

/// The selection that a call speaks of is the one whose number it gives, and the clipboard if it
/// gives none.
pub proof fn calls_name_their_selection(
    options: Options,
    result: Result<ClipboardType, FdoError>,
)
    requires
        call_ensures(clipboard_type, (&options,), result),
    ensures
        match u32_of(options@, "clipboard-type"@) {
            None => result == Ok::<ClipboardType, FdoError>(ClipboardType::Clipboard),
            Some(number) => if number == 1 {
                result == Ok::<ClipboardType, FdoError>(ClipboardType::Clipboard)
            } else if number == 2 {
                result == Ok::<ClipboardType, FdoError>(ClipboardType::Primary)
            } else {
                result matches Err(error) && error@ == ErrorView::InvalidArgs(
                    "bad clipboard type: "@ + decimal(number as nat),
                )
            },
        },
{
}

/// The peer of a session asks through its clipboard for what the call says: offers go to the
/// selection that is named, with their mime types or none, reads ask for the selection that is named,
/// and writes speak of their serial.
pub proof fn clipboards_ask_for_what_the_call_says(
    clipboard: Clipboard,
    name: String,
    options: Options,
    mime_type: String,
    serial: u32,
    success: bool,
    reply: ReplyHandle,
    ty: ClipboardType,
    destroyed: Result<RemoteDesktopToNiri, FdoError>,
    set: Result<RemoteDesktopToNiri, FdoError>,
    written: Result<RemoteDesktopToNiri, FdoError>,
    done: Result<RemoteDesktopToNiri, FdoError>,
    read: Result<RemoteDesktopToNiri, FdoError>,
)
    requires
        name@ == clipboard.owner@,
        call_ensures(Clipboard::destroy, (&clipboard, &Some(name)), destroyed),
        call_ensures(Clipboard::set_selection, (&clipboard, &Some(name), &options, reply), set),
        call_ensures(Clipboard::selection_write, (&clipboard, &Some(name), serial, reply), written),
        call_ensures(
            Clipboard::selection_write_done,
            (&clipboard, &Some(name), serial, success),
            done,
        ),
        call_ensures(
            Clipboard::selection_read,
            (&clipboard, &Some(name), mime_type, &options, reply),
            read,
        ),
    ensures
        destroyed matches Ok(message) && message@ == (RequestView::DisableClipboard {
            session: clipboard.session,
        }),
        written matches Ok(message) && message@ == (RequestView::SelectionWrite {
            session: clipboard.session,
            serial,
            reply,
        }),
        done matches Ok(message) && message@ == (RequestView::SelectionWriteDone {
            session: clipboard.session,
            serial,
            success,
        }),
        u32_of(options@, "clipboard-type"@) == Some(ty.code()) || (u32_of(
            options@,
            "clipboard-type"@,
        ) is None && ty == ClipboardType::Clipboard) ==> {
            &&& read matches Ok(message)
            &&& message@ == (RequestView::SelectionRead {
                session: clipboard.session,
                ty,
                mime_type: mime_type@,
                reply,
            })
            &&& set matches Ok(offer)
            &&& offer@ matches RequestView::SetSelection {
                session,
                ty: selection,
                mime_types,
                reply: to,
            }
            &&& session == clipboard.session
            &&& selection == ty
            &&& to == reply
            &&& string_vec_of(options@, "mime-types"@) is Some ==> Some(mime_types)
                == string_vec_of(options@, "mime-types"@)
            &&& string_vec_of(options@, "mime-types"@) is None ==> mime_types.len() == 0
        },
        u32_of(options@, "clipboard-type"@) matches Some(number) ==> (number == 0 || number > 2)
            ==> {
            &&& read matches Err(error)
            &&& error@ is InvalidArgs
            &&& set matches Err(wrong)
            &&& wrong@ is InvalidArgs
        },
{
}

/// A stranger cannot use a clipboard: every call is denied access.
pub proof fn strangers_cannot_use_a_clipboard(
    clipboard: Clipboard,
    sender: Option<String>,
    options: Options,
    mime_type: String,
    serial: u32,
    success: bool,
    reply: ReplyHandle,
    destroyed: Result<RemoteDesktopToNiri, FdoError>,
    set: Result<RemoteDesktopToNiri, FdoError>,
    written: Result<RemoteDesktopToNiri, FdoError>,
    done: Result<RemoteDesktopToNiri, FdoError>,
    read: Result<RemoteDesktopToNiri, FdoError>,
)
    requires
        sender matches Some(name) ==> name@ != clipboard.owner@,
        call_ensures(Clipboard::destroy, (&clipboard, &sender), destroyed),
        call_ensures(Clipboard::set_selection, (&clipboard, &sender, &options, reply), set),
        call_ensures(Clipboard::selection_write, (&clipboard, &sender, serial, reply), written),
        call_ensures(
            Clipboard::selection_write_done,
            (&clipboard, &sender, serial, success),
            done,
        ),
        call_ensures(
            Clipboard::selection_read,
            (&clipboard, &sender, mime_type, &options, reply),
            read,
        ),
    ensures
        destroyed matches Err(error) && error@ is AccessDenied,
        set matches Err(error) && error@ is AccessDenied,
        written matches Err(error) && error@ is AccessDenied,
        done matches Err(error) && error@ is AccessDenied,
        read matches Err(error) && error@ is AccessDenied,
{
}

/// A clipboard object belongs to the session and the peer that it was made for, and supports both
/// selections.
pub proof fn clipboards_support_both_selections(
    session: RemoteDesktopSessionId,
    owner: String,
    clipboard: Clipboard,
    types: Vec<u32>,
)
    requires
        call_ensures(Clipboard::new, (session, owner), clipboard),
        call_ensures(Clipboard::supported_types, (&clipboard,), types),
    ensures
        clipboard.session == session,
        clipboard.owner@ == owner@,
        types@ == seq![1u32, 2u32],
{
    assert(types@ =~= seq![1u32, 2u32]);
}

/// A session that is noted has the peer that it was noted with, until it is forgotten; other sessions
/// and the monitors are not affected. At first nothing is noted.
pub proof fn noted_sessions_have_their_peer(
    fresh: Registry,
    registry: &mut Registry,
    noted: Registry,
    forgetful: &mut Registry,
    session: RemoteDesktopSessionId,
    name: String,
    owner: Option<String>,
    gone: Option<String>,
    other: RemoteDesktopSessionId,
)
    requires
        call_ensures(Registry::new, (), fresh),
        call_ensures(Registry::add_session, (registry, session, name), ()),
        noted == *final(registry),
        call_ensures(Registry::owner, (&noted, session), owner),
        *old(forgetful) == noted,
        call_ensures(Registry::forget_session, (forgetful, session), ()),
        call_ensures(Registry::owner, (&*final(forgetful), session), gone),
    ensures
        fresh@.sessions.dom() == Set::<u64>::empty(),
        fresh@.monitors.len() == 0,
        owner matches Some(peer) && peer@ == name@,
        gone is None,
        noted@.monitors == old(registry)@.monitors,
        final(forgetful)@.monitors == old(registry)@.monitors,
        other != session ==> {
            &&& noted@.sessions.contains_key(other) == old(registry)@.sessions.contains_key(other)
            &&& noted@.sessions[other] == old(registry)@.sessions[other]
            &&& final(forgetful)@.sessions.contains_key(other)
                == old(registry)@.sessions.contains_key(other)
            &&& final(forgetful)@.sessions[other] == old(registry)@.sessions[other]
        },
{
}

/// The objects that go with a session: those of each monitor under it, its clipboard, itself and its
/// object manager; then it is forgotten. A peer that left asks the compositor to destroy the session
/// without removing what is persistent.
pub proof fn sessions_leave_the_bus_whole(
    registry: Registry,
    session: RemoteDesktopSessionId,
    actions: Vec<ObjectAction>,
    left: (RemoteDesktopToNiri, Vec<ObjectAction>),
    index: int,
)
    requires
        call_ensures(Registry::remove_session_objects, (&registry, session), actions),
        call_ensures(Registry::peer_gone, (&registry, session), left),
    ensures
        ({
            let done = views(actions@);
            let count = registry@.monitors.len() as int;
            &&& done.len() == count + 4
            &&& 0 <= index < count ==> done[index] == (ObjectActionView::RemoveMonitor {
                path: path_of_monitor(session, registry@.monitors[index].id),
            })
            &&& done[count] == (ObjectActionView::RemoveClipboard {
                path: path_of_clipboard(session),
            })
            &&& done[count + 1] == (ObjectActionView::RemoveSession {
                path: path_of_session(session),
            })
            &&& done[count + 2] == (ObjectActionView::RemoveObjectManager {
                path: path_of_session(session),
            })
            &&& done[count + 3] == (ObjectActionView::ForgetSession { session })
            &&& views(left.1@) == done
            &&& left.0@ == (RequestView::DestroySession { id: session, remove: false })
        }),
{
    withdrawn_sessions_leave_no_object(registry@, session, index);
}

/// A peer that leaves the bus takes exactly the sessions with it that it created.
pub proof fn peers_leave_with_what_they_created(
    registry: Registry,
    peer: String,
    gone: Vec<RemoteDesktopSessionId>,
    session: RemoteDesktopSessionId,
)
    requires
        registry@.sessions.dom().finite(),
        call_ensures(Registry::sessions_of, (&registry, &peer), gone),
    ensures
        gone@.contains(session) <==> registry@.sessions.contains_key(session)
            && registry@.sessions[session] == peer@,
{
    super::laws::peers_that_leave_take_their_sessions(registry@, peer@, session);
}

/// What the compositor tells changes the registry and the bus as stated of each notice.
pub proof fn notices_do_what_is_stated(
    registry: &mut Registry,
    notice: NiriToRemoteDesktop,
    actions: Vec<ObjectAction>,
)
    requires
        call_ensures(Registry::handle_niri_event, (registry, notice), actions),
    ensures
        final(registry)@ == old(registry)@.after_notice(notice@),
        views(actions@) == old(registry)@.notice_actions(notice@),
{
}

/// A monitor's object under a session is that monitor, as that session sees it, at its path there.
pub proof fn monitor_objects_are_made_for_their_session(
    session: RemoteDesktopSessionId,
    info: MonitorInfo,
    action: ObjectAction,
)
    requires
        call_ensures(add_monitor_object, (session, &info), action),
    ensures
        action matches ObjectAction::AddMonitor { path, monitor } && path@ == path_of_monitor(
            session,
            info.id,
        ) && monitor.session == session && monitor.info@ == info@,
{
    assert(action@ matches ObjectActionView::AddMonitor { .. });
}

/// Every object has its place in the tree, and a path is accepted exactly if it is one.
pub proof fn paths_are_where_objects_are(
    session: RemoteDesktopSessionId,
    monitor: RemoteDesktopMonitorId,
    a: String,
    b: String,
    c: String,
    text: String,
    checked: Option<String>,
)
    requires
        call_ensures(session_path, (session,), a),
        call_ensures(monitor_path, (session, monitor), b),
        call_ensures(clipboard_path, (session,), c),
        call_ensures(object_path, (text,), checked),
    ensures
        a@ == "/org/freedesktop/RemoteDesktop1/Session/u"@ + decimal(session as nat),
        b@ == a@ + "/Monitor/u"@ + decimal(monitor as nat),
        c@ == a@ + "/Clipboard"@,
        checked is Some <==> valid_object_path(text@),
        checked matches Some(path) ==> path@ == text@,
{
    objects_have_their_place(session, monitor);
}


} // verus!
