//! Which devices an EIS client has, and what sessions keep of them.

use vstd::prelude::*;

use super::capabilities::{Capabilities, DeviceCapability};
use super::eis::{
    BoundDevice, DeviceKind, EisAction, EisActionView, EisConnectionState, EisEvent, EisHandle,
    EisRequest, EisView, PostAction, Region, advertised_capabilities, device_made, device_region,
    device_regions, devices_made, devices_removed, free_of, kept_capabilities, mapped,
    next_device_id, not_handled_by, provided, region_list, regions_of, seat_capabilities,
    touched_by, unbound,
};
use super::input::{EiDevice, InputCapability, InputEvent, Layout};
use super::{EisConnection, RemoteDesktopState};
use crate::niri::{NiriView, State};
use crate::utils::geometry::Rectangle;
use crate::utils::id::IdCounter;
use crate::utils::lists::{
    lemma_add_contains, lemma_filter_contains, lemma_new_of, new_of, only_added, views,
};
use crate::utils::RemoteDesktopSessionId;

verus! {

/// The seat offers everything but text.
pub proof fn seats_offer_all_but_text(capability: DeviceCapability)
    ensures
        seat_capabilities().has(capability) == (capability != DeviceCapability::Text),
{
}

/// The empty set has nothing, and a union has what either set has.
pub proof fn capability_sets_are_sets(
    a: Capabilities,
    b: Capabilities,
    capability: DeviceCapability,
)
    ensures
        !Capabilities::none().has(capability),
        a.or(b).has(capability) == (a.has(capability) || b.has(capability)),
        (forall|c: DeviceCapability| #[trigger] a.has(c) == b.has(c)) ==> a == b,
{
    if forall|c: DeviceCapability| #[trigger] a.has(c) == b.has(c) {
        assert(a.has(DeviceCapability::Pointer) == b.has(DeviceCapability::Pointer));
        assert(a.has(DeviceCapability::PointerAbsolute) == b.has(
            DeviceCapability::PointerAbsolute,
        ));
        assert(a.has(DeviceCapability::Keyboard) == b.has(DeviceCapability::Keyboard));
        assert(a.has(DeviceCapability::Touch) == b.has(DeviceCapability::Touch));
        assert(a.has(DeviceCapability::Scroll) == b.has(DeviceCapability::Scroll));
        assert(a.has(DeviceCapability::Button) == b.has(DeviceCapability::Button));
        assert(a.has(DeviceCapability::Text) == b.has(DeviceCapability::Text));
    }
}

/// Each member of a capability set stands for the capability that it is named after.
pub proof fn members_are_what_they_are_named_after(set: Capabilities)
    ensures
        set.has(DeviceCapability::Pointer) == set.pointer,
        set.has(DeviceCapability::PointerAbsolute) == set.pointer_absolute,
        set.has(DeviceCapability::Keyboard) == set.keyboard,
        set.has(DeviceCapability::Touch) == set.touch,
        set.has(DeviceCapability::Scroll) == set.scroll,
        set.has(DeviceCapability::Button) == set.button,
        set.has(DeviceCapability::Text) == set.text,
{
}

/// A device of the seat has the capabilities that it says.
pub proof fn seat_devices_have_what_they_say(device: EiDevice, output: Option<u64>)
    ensures
        device.has(InputCapability::Keyboard) == device.keyboard,
        device.has(InputCapability::Pointer) == device.pointer,
        device.has(InputCapability::Touch) == device.touch,
        ({
            let moved = device.on_output(output);
            &&& moved.output == output
            &&& moved.id == device.id
            &&& moved.name == device.name
            &&& moved.keyboard == device.keyboard
            &&& moved.pointer == device.pointer
            &&& moved.touch == device.touch
        }),
{
}

/// The capability without which a client gets no device of a kind.
pub open spec fn primary_of(kind: DeviceKind) -> DeviceCapability {
    match kind {
        DeviceKind::Pointer => DeviceCapability::Pointer,
        DeviceKind::AbsolutePointer => DeviceCapability::PointerAbsolute,
        DeviceKind::Keyboard => DeviceCapability::Keyboard,
        DeviceKind::Touchscreen => DeviceCapability::Touch,
    }
}

/// Whether devices of a kind can have a capability: the one that defines the kind, and for both
/// kinds of pointers buttons and scrolling too.
pub open spec fn belongs(kind: DeviceKind, capability: DeviceCapability) -> bool {
    ||| capability == primary_of(kind)
    ||| {
        &&& kind == DeviceKind::Pointer || kind == DeviceKind::AbsolutePointer
        &&& capability == DeviceCapability::Button || capability == DeviceCapability::Scroll
    }
}

/// A device has exactly the capabilities of its kind that the client asked for. Both kinds of
/// pointers are pointers to the seat, the keyboard is a keyboard and the touchscreen sends touches;
/// exactly the absolute pointer and the touchscreen send points. Each kind has a name of its own.
pub proof fn kinds_differ_in_what_they_do(
    kind: DeviceKind,
    asked: Capabilities,
    capability: DeviceCapability,
    other: DeviceKind,
)
    ensures
        kind.defined_by() == primary_of(kind),
        kind.granted(asked).has(capability) == (asked.has(capability) && belongs(
            kind,
            capability,
        )),
        kind.sends() == InputCapability::Keyboard <==> kind == DeviceKind::Keyboard,
        kind.sends() == InputCapability::Touch <==> kind == DeviceKind::Touchscreen,
        kind.sends_points() <==> primary_of(kind) == DeviceCapability::PointerAbsolute
            || primary_of(kind) == DeviceCapability::Touch,
        kind != other ==> kind.label() != other.label(),
        kind.label() == match kind {
            DeviceKind::Pointer => "niri remote pointer"@,
            DeviceKind::AbsolutePointer => "niri remote absolute pointer"@,
            DeviceKind::Keyboard => "niri remote keyboard"@,
            DeviceKind::Touchscreen => "niri remote touchscreen"@,
        },
{
    reveal_strlit("niri remote pointer");
    reveal_strlit("niri remote absolute pointer");
    reveal_strlit("niri remote keyboard");
    reveal_strlit("niri remote touchscreen");
    if kind != other && kind.label() == other.label() {
        assert(kind.label().len() == other.label().len());
        assert(kind.label()[12] == other.label()[12]);
    }
}

/// A length or place that is not below zero stays as it is, and one below counts as zero.
pub open spec fn clipped(value: i32, result: u32) -> bool {
    &&& value >= 0 ==> result == value
    &&& value < 0 ==> result == 0
}

/// A device that sends points has a region for each mapped output, in the order of the outputs: one
/// more mapped output adds its own region behind the others, and one that is not mapped adds none.
/// Other devices have no regions.
pub proof fn regions_follow_the_outputs(
    kind: DeviceKind,
    geometries: Seq<Option<Rectangle>>,
    geometry: Rectangle,
)
    ensures
        regions_of(kind, Seq::empty()).len() == 0,
        regions_of(kind, geometries.push(None)) == regions_of(kind, geometries),
        kind == DeviceKind::Pointer || kind == DeviceKind::Keyboard ==> regions_of(
            kind,
            geometries,
        ).len() == 0,
        kind == DeviceKind::AbsolutePointer || kind == DeviceKind::Touchscreen ==> {
            let before = regions_of(kind, geometries);
            let after = regions_of(kind, geometries.push(Some(geometry)));
            &&& after.len() == before.len() + 1
            &&& after.drop_last() == before
            &&& clipped(geometry.loc.x, after.last().x)
            &&& clipped(geometry.loc.y, after.last().y)
            &&& clipped(geometry.size.w, after.last().width)
            &&& clipped(geometry.size.h, after.last().height)
        },
{
    assert(geometries.push(None).drop_last() =~= geometries);
    assert(geometries.push(Some(geometry)).drop_last() =~= geometries);
    let before = regions_of(kind, geometries);
    let after = regions_of(kind, geometries.push(Some(geometry)));
    if kind.sends_points() {
        assert(after.drop_last() =~= before);
    }
}

/// Whether a device has a capability that was bound and is not asked for anymore.
pub open spec fn loses(device: BoundDevice, bound: Capabilities, asked: Capabilities) -> bool {
    exists|capability: DeviceCapability| #[trigger]
        device.capabilities.has(capability) && bound.has(capability) && !asked.has(capability)
}

/// A device is touched by what is unbound exactly if it loses a capability.
pub proof fn lemma_loses(device: BoundDevice, bound: Capabilities, asked: Capabilities)
    ensures
        touched_by(unbound(bound, asked))(device) == loses(device, bound, asked),
        free_of(unbound(bound, asked))(device) == !loses(device, bound, asked),
{
    let gone = unbound(bound, asked);
    assert forall|capability: DeviceCapability| gone@.contains(capability) == (bound.has(capability)
        && !asked.has(capability)) by {}
    if loses(device, bound, asked) {
        let capability = choose|capability: DeviceCapability| #[trigger]
            device.capabilities.has(capability) && bound.has(capability) && !asked.has(capability);
        assert(device.capabilities@.contains(capability));
        assert(gone@.contains(capability));
    } else {
        assert forall|capability: DeviceCapability|
            #[trigger] device.capabilities@.contains(capability) implies !gone@.contains(
            capability,
        ) by {
            assert(device.capabilities.has(capability));
        }
    }
}

/// Whether a device stays on a connection when its client asks for capabilities.
pub open spec fn stays(connection: EisView, asked: Capabilities, index: int) -> bool {
    0 <= index < connection.devices.len() && !loses(
        connection.devices[index],
        connection.bound,
        asked,
    )
}

/// Whether an action is what asking for capabilities does: a device that has a capability which is
/// not asked for anymore is removed, and a kind of device that is asked for and that no device which
/// stays is of is made, with what belongs to the kind.
pub open spec fn binds(
    connection: EisView,
    asked: Capabilities,
    geometries: Seq<Option<Rectangle>>,
    action: EisActionView,
) -> bool {
    match action {
        EisActionView::RemoveDevice { device } => exists|i: int|
            0 <= i < connection.devices.len() && (#[trigger] connection.devices[i]).handle == device
                && loses(connection.devices[i], connection.bound, asked),
        EisActionView::AddDevice { kind, capabilities, regions, keymap } => {
            &&& asked.has(primary_of(kind))
            &&& forall|i: int| #[trigger]
                stays(connection, asked, i) ==> !connection.devices[i].capabilities.has(
                    primary_of(kind),
                )
            &&& forall|capability: DeviceCapability| #[trigger]
                capabilities.has(capability) == (asked.has(capability) && belongs(kind, capability))
            &&& regions == regions_of(kind, geometries)
            &&& keymap == (kind == DeviceKind::Keyboard)
        },
        _ => false,
    }
}

/// Asking for capabilities removes exactly the devices that have one which is not asked for anymore,
/// and makes exactly the devices that are asked for and missing then.
pub proof fn binding_makes_and_removes(
    connection: EisView,
    asked: Capabilities,
    geometries: Seq<Option<Rectangle>>,
    action: EisActionView,
)
    requires
        connection.seat,
    ensures
        connection.bind_actions(asked, geometries).contains(action) == binds(
            connection,
            asked,
            geometries,
            action,
        ),
{
    let gone = unbound(connection.bound, asked);
    let lost = connection.devices.filter(touched_by(gone));
    let left = connection.devices.filter(free_of(gone));
    let removed = devices_removed(lost);
    let made = devices_made(left, asked, geometries);
    lemma_add_contains(removed, made, action);
    lemma_made(left, asked, geometries, action);
    match action {
        EisActionView::RemoveDevice { device } => {
            if removed.contains(action) {
                let k = choose|k: int| 0 <= k < removed.len() && removed[k] == action;
                assert(lost.contains(lost[k]));
                lemma_filter_contains(connection.devices, touched_by(gone), lost[k]);
                lemma_loses(lost[k], connection.bound, asked);
                let i = choose|i: int|
                    0 <= i < connection.devices.len() && connection.devices[i] == lost[k];
                assert(connection.devices[i].handle == device);
            }
            if binds(connection, asked, geometries, action) {
                let i = choose|i: int|
                    0 <= i < connection.devices.len() && (
                    #[trigger] connection.devices[i]).handle == device && loses(
                        connection.devices[i],
                        connection.bound,
                        asked,
                    );
                lemma_loses(connection.devices[i], connection.bound, asked);
                assert(connection.devices.contains(connection.devices[i]));
                lemma_filter_contains(connection.devices, touched_by(gone), connection.devices[i]);
                let k = choose|k: int| 0 <= k < lost.len() && lost[k] == connection.devices[i];
                assert(removed[k] == action);
            }
        },
        EisActionView::AddDevice { kind, capabilities, regions, keymap } => {
            assert(!removed.contains(action));
            lemma_provided(connection, asked, kind);
            if binds(connection, asked, geometries, action) {
                assert forall|capability: DeviceCapability| #[trigger]
                    capabilities.has(capability) == kind.granted(asked).has(capability) by {
                    kinds_differ_in_what_they_do(kind, asked, capability, kind);
                }
                capability_sets_are_sets(
                    capabilities,
                    kind.granted(asked),
                    DeviceCapability::Text,
                );
            }
            if made.contains(action) {
                assert forall|capability: DeviceCapability| #[trigger]
                    capabilities.has(capability) == (asked.has(capability) && belongs(
                        kind,
                        capability,
                    )) by {
                    kinds_differ_in_what_they_do(kind, asked, capability, kind);
                }
            }
        },
        _ => {
            assert(!removed.contains(action));
        },
    }
}

/// Whether a device of a kind stays.
proof fn lemma_provided(connection: EisView, asked: Capabilities, kind: DeviceKind)
    ensures
        ({
            let left = connection.devices.filter(free_of(unbound(connection.bound, asked)));
            provided(left, primary_of(kind)) == exists|i: int| #[trigger]
                stays(connection, asked, i) && connection.devices[i].capabilities.has(
                    primary_of(kind),
                )
        }),
{
    let keep = free_of(unbound(connection.bound, asked));
    let left = connection.devices.filter(keep);
    let capability = primary_of(kind);
    if provided(left, capability) {
        let k = choose|k: int|
            0 <= k < left.len() && (#[trigger] left[k]).capabilities.has(capability);
        assert(left.contains(left[k]));
        lemma_filter_contains(connection.devices, keep, left[k]);
        lemma_loses(left[k], connection.bound, asked);
        let i = choose|i: int| 0 <= i < connection.devices.len() && connection.devices[i] == left[k];
        assert(stays(connection, asked, i));
    }
    if exists|i: int| #[trigger]
        stays(connection, asked, i) && connection.devices[i].capabilities.has(capability) {
        let i = choose|i: int| #[trigger]
            stays(connection, asked, i) && connection.devices[i].capabilities.has(capability);
        lemma_loses(connection.devices[i], connection.bound, asked);
        assert(connection.devices.contains(connection.devices[i]));
        lemma_filter_contains(connection.devices, keep, connection.devices[i]);
        let k = choose|k: int| 0 <= k < left.len() && left[k] == connection.devices[i];
        assert(left[k].capabilities.has(capability));
    }
}

/// Which devices are made.
proof fn lemma_made(
    devices: Seq<BoundDevice>,
    asked: Capabilities,
    geometries: Seq<Option<Rectangle>>,
    action: EisActionView,
)
    ensures
        devices_made(devices, asked, geometries).contains(action) == (
        action matches EisActionView::AddDevice { kind, capabilities, regions, keymap }
            && asked.has(primary_of(kind)) && !provided(devices, primary_of(kind)) && capabilities
            == kind.granted(asked) && regions == regions_of(kind, geometries) && keymap == (kind
            == DeviceKind::Keyboard)),
{
    let a = device_made(DeviceKind::Pointer, devices, asked, geometries);
    let b = device_made(DeviceKind::AbsolutePointer, devices, asked, geometries);
    let c = device_made(DeviceKind::Keyboard, devices, asked, geometries);
    let d = device_made(DeviceKind::Touchscreen, devices, asked, geometries);
    lemma_add_contains(a, b, action);
    lemma_add_contains(a + b, c, action);
    lemma_add_contains(a + b + c, d, action);
    lemma_one_made(DeviceKind::Pointer, devices, asked, geometries, action);
    lemma_one_made(DeviceKind::AbsolutePointer, devices, asked, geometries, action);
    lemma_one_made(DeviceKind::Keyboard, devices, asked, geometries, action);
    lemma_one_made(DeviceKind::Touchscreen, devices, asked, geometries, action);
}

proof fn lemma_one_made(
    kind: DeviceKind,
    devices: Seq<BoundDevice>,
    asked: Capabilities,
    geometries: Seq<Option<Rectangle>>,
    action: EisActionView,
)
    ensures
        device_made(kind, devices, asked, geometries).contains(action) == (asked.has(
            primary_of(kind),
        ) && !provided(devices, primary_of(kind)) && action == (EisActionView::AddDevice {
            kind,
            capabilities: kind.granted(asked),
            regions: regions_of(kind, geometries),
            keymap: kind == DeviceKind::Keyboard,
        })),
{
    let made = device_made(kind, devices, asked, geometries);
    if made.contains(action) {
        let k = choose|k: int| 0 <= k < made.len() && made[k] == action;
        assert(made[k] == made[0]);
    }
    if asked.has(primary_of(kind)) && !provided(devices, primary_of(kind)) {
        assert(made.contains(made[0]));
    }
}

/// Devices are removed before others are made, and none is made twice.
pub proof fn devices_are_made_once(
    connection: EisView,
    asked: Capabilities,
    geometries: Seq<Option<Rectangle>>,
)
    ensures
        ({
            let actions = connection.bind_actions(asked, geometries);
            forall|i: int, j: int|
                0 <= i < j < actions.len() && (#[trigger] actions[i]) is AddDevice ==> (
                #[trigger] actions[j]) is AddDevice && actions[i]->AddDevice_kind
                    != actions[j]->AddDevice_kind
        }),
{
}

/// Once capabilities were asked for they are what is bound, exactly the devices that have none that
/// went are left, and nothing else changed.
pub proof fn binding_keeps_the_other_devices(
    connection: EisView,
    asked: Capabilities,
    device: BoundDevice,
)
    requires
        connection.seat,
    ensures
        ({
            let after = connection.after_bind(asked);
            &&& after.bound == asked
            &&& after.seat
            &&& after.axis_frames == connection.axis_frames
            &&& after.touch_frames == connection.touch_frames
            &&& after.devices.contains(device) == (connection.devices.contains(device) && !loses(
                device,
                connection.bound,
                asked,
            ))
        }),
{
    lemma_loses(device, connection.bound, asked);
    lemma_filter_contains(connection.devices, free_of(unbound(connection.bound, asked)), device);
}

/// Without a seat nothing is bound.
pub proof fn nothing_is_bound_without_a_seat(
    connection: EisView,
    asked: Capabilities,
    geometries: Seq<Option<Rectangle>>,
)
    requires
        !connection.seat,
    ensures
        connection.after_bind(asked) == connection,
        connection.bind_actions(asked, geometries).len() == 0,
{
}

/// A device that the client closed is gone, every other one stays, and nothing else changed.
pub proof fn closed_devices_are_gone(connection: EisView, handle: EisHandle, device: BoundDevice)
    ensures
        ({
            let after = connection.after_close(handle);
            &&& after.devices.contains(device) == (connection.devices.contains(device)
                && device.handle != handle)
            &&& after.seat == connection.seat
            &&& after.bound == connection.bound
            &&& after.axis_frames == connection.axis_frames
            &&& after.touch_frames == connection.touch_frames
        }),
{
    lemma_filter_contains(connection.devices, not_handled_by(handle), device);
}

/// The end of the handshake adds the seat, with all but text, and then does what asking for the
/// capabilities that come back does, if any do.
pub proof fn handshakes_add_the_seat(
    connection: EisView,
    kept: Capabilities,
    geometries: Seq<Option<Rectangle>>,
    capability: DeviceCapability,
)
    ensures
        ({
            let actions = connection.connect_actions(kept, geometries);
            let after = connection.after_connect(kept);
            let seated = EisView { seat: true, ..connection };
            let nothing = forall|c: DeviceCapability| !(#[trigger] kept.has(c));
            &&& actions.len() > 0
            &&& actions[0] matches EisActionView::AddSeat { capabilities }
            &&& capabilities.has(capability) == (capability != DeviceCapability::Text)
            &&& after.seat
            &&& nothing ==> actions.len() == 1 && after == seated
            &&& !nothing ==> actions.skip(1) == seated.bind_actions(kept, geometries) && after
                == seated.after_bind(kept)
        }),
{
    let actions = connection.connect_actions(kept, geometries);
    let seated = EisView { seat: true, ..connection };
    assert(forall|c: DeviceCapability| !(#[trigger] Capabilities::none().has(c)));
    if forall|c: DeviceCapability| !(#[trigger] kept.has(c)) {
        assert forall|c: DeviceCapability| #[trigger] kept.has(c) == Capabilities::none().has(
            c,
        ) by {}
        capability_sets_are_sets(kept, Capabilities::none(), capability);
    } else {
        assert(actions.skip(1) =~= seated.bind_actions(kept, geometries));
    }
}

/// A connection begins without a seat, without devices and with nothing bound.
pub proof fn connections_begin_with_nothing(capability: DeviceCapability)
    ensures
        !EisView::fresh().seat,
        EisView::fresh().devices.len() == 0,
        EisView::fresh().touch_frames.len() == 0,
        EisView::fresh().axis_frames.dom() == Set::<u64>::empty(),
        !EisView::fresh().bound.has(capability),
{
}

/// What comes back when a client connects: for a persistent session what its last client had bound,
/// or, where that is nothing, what ended sessions left. Nothing comes back for any other session.
pub proof fn only_persistent_sessions_get_capabilities_back(
    niri: NiriView,
    session: RemoteDesktopSessionId,
    capability: DeviceCapability,
)
    ensures
        ({
            let kept = kept_capabilities(niri, session);
            let record = niri.remote_desktop.sessions[session];
            if niri.remote_desktop.sessions.contains_key(session) && record.persistent {
                if exists|c: DeviceCapability| #[trigger] record.eis_bound.has(c) {
                    kept == record.eis_bound
                } else {
                    kept == niri.remote_desktop.eis_left
                }
            } else {
                !kept.has(capability)
            }
        }),
{
    let record = niri.remote_desktop.sessions[session];
    if exists|c: DeviceCapability| #[trigger] record.eis_bound.has(c) {
        let c = choose|c: DeviceCapability| #[trigger] record.eis_bound.has(c);
        assert(!Capabilities::none().has(c));
    } else {
        assert forall|c: DeviceCapability| #[trigger] record.eis_bound.has(c)
            == Capabilities::none().has(c) by {}
        capability_sets_are_sets(record.eis_bound, Capabilities::none(), capability);
    }
}

/// What a client binds is noted in its session, and with the connection if there is one; nothing
/// else of the session changes, and no other session does.
pub proof fn bound_capabilities_are_noted(
    niri: NiriView,
    session: RemoteDesktopSessionId,
    bound: Capabilities,
    other: RemoteDesktopSessionId,
)
    ensures
        ({
            let before = niri.remote_desktop.sessions;
            let after = niri.eis_bound(session, bound).remote_desktop.sessions;
            &&& after.contains_key(other) == before.contains_key(other)
            &&& other != session ==> after[other] == before[other]
            &&& before.contains_key(session) ==> {
                &&& after[session].eis_bound == bound
                &&& match before[session].eis {
                    Some(eis) => after[session].eis == Some(
                        EisConnection { token: eis.token, bound },
                    ),
                    None => after[session].eis is None,
                }
                &&& after[session].persistent == before[session].persistent
                &&& after[session].has_control == before[session].has_control
                &&& after[session].disable_animations == before[session].disable_animations
                &&& after[session].clipboard == before[session].clipboard
                &&& after[session].streams == before[session].streams
            }
            &&& niri.eis_bound(session, bound) == niri.with_sessions(after)
        }),
{
    assert(niri.eis_bound(session, bound) =~= niri.with_sessions(
        niri.eis_bound(session, bound).remote_desktop.sessions,
    ));
}

/// A client that goes away leaves its session without a connection; a persistent session keeps what
/// it had bound, and any other keeps nothing. Nothing else of the session changes, and no other
/// session does.
pub proof fn clients_leave_their_session(
    niri: NiriView,
    session: RemoteDesktopSessionId,
    bound: Capabilities,
    other: RemoteDesktopSessionId,
    capability: DeviceCapability,
)
    ensures
        ({
            let before = niri.remote_desktop.sessions;
            let after = niri.eis_taken(session, bound).remote_desktop.sessions;
            &&& after.contains_key(other) == before.contains_key(other)
            &&& other != session ==> after[other] == before[other]
            &&& before.contains_key(session) ==> {
                &&& after[session].eis is None
                &&& after[session].eis_bound.has(capability) == (before[session].persistent
                    && bound.has(capability))
                &&& after[session].persistent == before[session].persistent
                &&& after[session].has_control == before[session].has_control
                &&& after[session].disable_animations == before[session].disable_animations
                &&& after[session].clipboard == before[session].clipboard
                &&& after[session].streams == before[session].streams
            }
            &&& niri.eis_taken(session, bound) == niri.with_sessions(after)
        }),
{
    assert(niri.eis_taken(session, bound) =~= niri.with_sessions(
        niri.eis_taken(session, bound).remote_desktop.sessions,
    ));
}

/// What comes back when a client connects is bound in its session. What ended sessions left stays,
/// unless it is what came back: then nothing is left.
pub proof fn capabilities_that_come_back_are_bound(
    niri: NiriView,
    session: RemoteDesktopSessionId,
    capability: DeviceCapability,
)
    requires
        niri.remote_desktop.sessions.contains_key(session),
        kept_capabilities(niri, session).has(capability),
    ensures
        ({
            let kept = kept_capabilities(niri, session);
            let after = niri.eis_resumed(session);
            &&& after.remote_desktop.sessions == niri.eis_bound(
                session,
                kept,
            ).remote_desktop.sessions
            &&& after.remote_desktop.sessions[session].eis_bound.has(capability)
            &&& niri.remote_desktop.sessions[session].eis_bound.has(capability)
                ==> after.remote_desktop.eis_left == niri.remote_desktop.eis_left
            &&& !niri.remote_desktop.sessions[session].eis_bound.has(capability)
                ==> !after.remote_desktop.eis_left.has(capability)
            &&& after.remote_desktop.monitors == niri.remote_desktop.monitors
            &&& after.remote_desktop.controlling == niri.remote_desktop.controlling
            &&& after.remote_desktop.to_dbus == niri.remote_desktop.to_dbus
            &&& after.remote_desktop.default_mode == niri.remote_desktop.default_mode
            &&& after.casts == niri.casts
            &&& after.complete_instantly == niri.complete_instantly
            &&& after.animations_off == niri.animations_off
            &&& after.next_monitor == niri.next_monitor
            &&& after.next_cast_session == niri.next_cast_session
            &&& after.next_cast_stream == niri.next_cast_stream
            &&& after.next_device == niri.next_device
        }),
{
    assert(!Capabilities::none().has(capability));
}

/// Where nothing comes back, a client that connects changes nothing in the compositor.
pub proof fn nothing_that_comes_back_changes_nothing(
    niri: NiriView,
    session: RemoteDesktopSessionId,
)
    requires
        forall|c: DeviceCapability| !(#[trigger] kept_capabilities(niri, session).has(c)),
    ensures
        niri.eis_resumed(session) == niri,
{
    let kept = kept_capabilities(niri, session);
    assert forall|c: DeviceCapability| #[trigger] kept.has(c) == Capabilities::none().has(c) by {}
    capability_sets_are_sets(kept, Capabilities::none(), DeviceCapability::Text);
}

/// The capability sets that are computed are the sets that they are named after.
pub proof fn capability_sets_compute_as_sets(
    a: Capabilities,
    b: Capabilities,
    capability: DeviceCapability,
    added: DeviceCapability,
    none: Capabilities,
    empty: bool,
    found: bool,
    more: Capabilities,
    either: Capabilities,
    both: Capabilities,
    rest: Capabilities,
    common: bool,
)
    requires
        call_ensures(Capabilities::empty, (), none),
        call_ensures(Capabilities::is_empty, (a,), empty),
        call_ensures(Capabilities::contains, (a, capability), found),
        call_ensures(Capabilities::with, (a, added), more),
        call_ensures(Capabilities::union, (a, b), either),
        call_ensures(Capabilities::intersection, (a, b), both),
        call_ensures(Capabilities::difference, (a, b), rest),
        call_ensures(Capabilities::intersects, (a, b), common),
    ensures
        !none.has(capability),
        found <==> a.has(capability),
        empty ==> !a.has(capability),
        a == none ==> empty,
        more.has(capability) <==> a.has(capability) || capability == added,
        either.has(capability) <==> a.has(capability) || b.has(capability),
        both.has(capability) <==> a.has(capability) && b.has(capability),
        rest.has(capability) <==> a.has(capability) && !b.has(capability),
        a.has(capability) && b.has(capability) ==> common,
        common ==> exists|c: DeviceCapability| #[trigger] a.has(c) && b.has(c),
{
    assert(more@.contains(capability) == more.has(capability));
    assert(both@.contains(capability) == both.has(capability));
    assert(rest@.contains(capability) == rest.has(capability));
    assert(a@.contains(capability) == a.has(capability));
    assert(b@.contains(capability) == b.has(capability));
    if common {
        assert(exists|c: DeviceCapability| a@.contains(c) && b@.contains(c)) by {
            if forall|c: DeviceCapability| !(a@.contains(c) && b@.contains(c)) {
                assert(a@.disjoint(b@));
            }
        }
        let c = choose|c: DeviceCapability| a@.contains(c) && b@.contains(c);
        assert(a.has(c) && b.has(c));
    }
}

/// A kind of device is defined by its own capability, is granted what belongs to it of what was
/// asked for, and does for the seat what it is named after. Only keyboards have a keymap, and only
/// devices that send points are absolute.
pub proof fn kinds_of_devices_are_what_they_are_named_after(
    kind: DeviceKind,
    asked: Capabilities,
    capability: DeviceCapability,
    name: &'static str,
    primary: DeviceCapability,
    seat: InputCapability,
    absolute: bool,
    keymap: bool,
    granted: Capabilities,
    advertised: Capabilities,
)
    requires
        call_ensures(DeviceKind::name, (kind,), name),
        call_ensures(DeviceKind::primary, (kind,), primary),
        call_ensures(DeviceKind::input_capability, (kind,), seat),
        call_ensures(DeviceKind::is_absolute, (kind,), absolute),
        call_ensures(DeviceKind::has_keymap, (kind,), keymap),
        call_ensures(DeviceKind::capabilities, (kind, asked), granted),
        call_ensures(advertised_capabilities, (), advertised),
    ensures
        primary == primary_of(kind),
        granted.has(capability) <==> asked.has(capability) && belongs(kind, capability),
        advertised.has(capability) <==> capability != DeviceCapability::Text,
        keymap <==> kind == DeviceKind::Keyboard,
        absolute <==> kind == DeviceKind::AbsolutePointer || kind == DeviceKind::Touchscreen,
        seat == InputCapability::Keyboard <==> kind == DeviceKind::Keyboard,
        seat == InputCapability::Touch <==> kind == DeviceKind::Touchscreen,
        name@ == match kind {
            DeviceKind::Pointer => "niri remote pointer"@,
            DeviceKind::AbsolutePointer => "niri remote absolute pointer"@,
            DeviceKind::Keyboard => "niri remote keyboard"@,
            DeviceKind::Touchscreen => "niri remote touchscreen"@,
        },
{
    kinds_differ_in_what_they_do(kind, asked, capability, kind);
}

/// Where an output lies is its region, with what is below zero counted as zero; outputs that are not
/// mapped have none, and neither do devices that send no points.
pub proof fn regions_are_where_outputs_lie(
    geometry: Rectangle,
    region: Region,
    kind: DeviceKind,
    geometries: Vec<Option<Rectangle>>,
    regions: Vec<Region>,
)
    requires
        call_ensures(device_region, (geometry,), region),
        call_ensures(device_regions, (kind, &geometries), regions),
    ensures
        clipped(geometry.loc.x, region.x),
        clipped(geometry.loc.y, region.y),
        clipped(geometry.size.w, region.width),
        clipped(geometry.size.h, region.height),
        regions@ == regions_of(kind, geometries@),
{
}

/// The outputs that are mapped, in order.
pub proof fn mapped_outputs_are_listed(
    geometries: Vec<Option<Rectangle>>,
    regions: Vec<Rectangle>,
    geometry: Rectangle,
)
    requires
        call_ensures(region_list, (&geometries,), regions),
    ensures
        regions@.len() <= geometries@.len(),
        regions@.contains(geometry) <==> geometries@.contains(Some(geometry)),
{
    lemma_mapped(geometries@, geometry);
}

proof fn lemma_mapped(geometries: Seq<Option<Rectangle>>, geometry: Rectangle)
    ensures
        mapped(geometries).len() <= geometries.len(),
        mapped(geometries).contains(geometry) == geometries.contains(Some(geometry)),
    decreases geometries.len(),
{
    if geometries.len() > 0 {
        let rest = geometries.drop_last();
        lemma_mapped(rest, geometry);
        assert(rest.push(geometries.last()) =~= geometries);
        crate::utils::lists::lemma_push_contains(rest, geometries.last(), Some(geometry));
        if let Some(last) = geometries.last() {
            crate::utils::lists::lemma_push_contains(mapped(rest), last, geometry);
        }
    }
}

/// A request for capabilities, as an event of its connection: what is stated of binding happens, the
/// session notes what is bound, and what is queued is sent. Without a seat nothing else happens. The
/// connection goes on.
pub proof fn bind_events_do_what_is_stated(
    connection: &mut EisConnectionState,
    state: &mut State,
    session: RemoteDesktopSessionId,
    capabilities: Capabilities,
    layout: Layout,
    geometries: Vec<Option<Rectangle>>,
    result: (PostAction, Vec<EisAction>),
)
    requires
        call_ensures(
            EisConnectionState::handle_event,
            (
                connection,
                state,
                session,
                EisEvent::Request(EisRequest::Bind { capabilities }),
                layout,
                &geometries,
            ),
            result,
        ),
    ensures
        result.0 == PostAction::Continue,
        views(result.1@).len() > 0,
        views(result.1@).last() == EisActionView::Flush,
        views(result.1@).drop_last() == old(connection)@.bind_actions(capabilities, geometries@),
        final(connection)@ == old(connection)@.after_bind(capabilities),
        old(connection)@.seat ==> final(state)@ == old(state)@.eis_bound(session, capabilities),
        !old(connection)@.seat ==> final(state)@ == old(state)@,
{
    assert(views(result.1@).drop_last() =~= old(connection)@.bind_actions(
        capabilities,
        geometries@,
    ));
}

/// The same holds of capabilities that are bound directly.
pub proof fn binding_does_what_is_stated(
    connection: &mut EisConnectionState,
    state: &mut State,
    session: RemoteDesktopSessionId,
    capabilities: Capabilities,
    geometries: Vec<Option<Rectangle>>,
    actions: &mut Vec<EisAction>,
)
    requires
        call_ensures(
            EisConnectionState::bind,
            (connection, state, session, capabilities, &geometries, actions),
            (),
        ),
    ensures
        only_added(old(actions)@, final(actions)@),
        new_of(old(actions)@, final(actions)@) == old(connection)@.bind_actions(
            capabilities,
            geometries@,
        ),
        final(connection)@ == old(connection)@.after_bind(capabilities),
        old(connection)@.seat ==> final(state)@ == old(state)@.eis_bound(session, capabilities),
        !old(connection)@.seat ==> final(state)@ == old(state)@,
{
    lemma_new_of(
        old(actions)@,
        final(actions)@,
        old(connection)@.bind_actions(capabilities, geometries@),
    );
}

/// The end of the handshake, as an event: the seat is added, what comes back is bound, the session
/// notes it, and what is queued is sent. The connection goes on.
pub proof fn handshake_events_do_what_is_stated(
    connection: &mut EisConnectionState,
    state: &mut State,
    session: RemoteDesktopSessionId,
    layout: Layout,
    geometries: Vec<Option<Rectangle>>,
    result: (PostAction, Vec<EisAction>),
)
    requires
        call_ensures(
            EisConnectionState::handle_event,
            (connection, state, session, EisEvent::Connected, layout, &geometries),
            result,
        ),
    ensures
        ({
            let kept = kept_capabilities(old(state)@, session);
            &&& result.0 == PostAction::Continue
            &&& views(result.1@).len() > 0
            &&& views(result.1@).last() == EisActionView::Flush
            &&& views(result.1@).drop_last() == old(connection)@.connect_actions(kept, geometries@)
            &&& final(connection)@ == old(connection)@.after_connect(kept)
            &&& final(state)@ == old(state)@.eis_resumed(session)
        }),
{
    assert(views(result.1@).drop_last() =~= old(connection)@.connect_actions(
        kept_capabilities(old(state)@, session),
        geometries@,
    ));
}

/// A connection that the client ends, or that breaks, is taken down: its source is removed, it has no
/// seat and no devices, and its session is left as by a client that goes away. A device that the
/// client closes is gone, and the connection goes on.
pub proof fn connections_end_and_devices_close(
    ended: &mut EisConnectionState,
    broken: &mut EisConnectionState,
    closing: &mut EisConnectionState,
    state: &mut State,
    second: &mut State,
    third: &mut State,
    session: RemoteDesktopSessionId,
    device: EisHandle,
    layout: Layout,
    geometries: Vec<Option<Rectangle>>,
    end: (PostAction, Vec<EisAction>),
    failure: (PostAction, Vec<EisAction>),
    closed: (PostAction, Vec<EisAction>),
)
    requires
        call_ensures(
            EisConnectionState::handle_event,
            (
                ended,
                state,
                session,
                EisEvent::Request(EisRequest::Disconnect),
                layout,
                &geometries,
            ),
            end,
        ),
        call_ensures(
            EisConnectionState::handle_event,
            (broken, second, session, EisEvent::Failed, layout, &geometries),
            failure,
        ),
        call_ensures(
            EisConnectionState::handle_event,
            (
                closing,
                third,
                session,
                EisEvent::Request(EisRequest::DeviceClosed { device }),
                layout,
                &geometries,
            ),
            closed,
        ),
    ensures
        end.0 == PostAction::Remove,
        end.1@.len() == 0,
        !final(ended)@.seat,
        final(ended)@.devices.len() == 0,
        final(state)@ == old(state)@.eis_taken(session, old(ended)@.bound),
        failure.0 == PostAction::Remove,
        failure.1@.len() == 0,
        !final(broken)@.seat,
        final(broken)@.devices.len() == 0,
        final(second)@ == old(second)@.eis_taken(session, old(broken)@.bound),
        closed.0 == PostAction::Continue,
        closed.1@.len() == 1,
        closed.1@[0] == EisAction::Flush,
        final(closing)@ == old(closing)@.after_close(device),
        final(third)@ == old(third)@,
{
    assert(views(end.1@).len() == end.1@.len());
    assert(views(failure.1@).len() == failure.1@.len());
    assert(views(closed.1@).len() == closed.1@.len());
    assert(views(closed.1@)[0] == closed.1@[0]@);
}

/// A connection that is taken down directly is left the same way, and a new one has nothing.
pub proof fn taken_down_connections_have_nothing(
    fresh: EisConnectionState,
    connection: &mut EisConnectionState,
    state: &mut State,
    session: RemoteDesktopSessionId,
)
    requires
        call_ensures(EisConnectionState::new, (), fresh),
        call_ensures(EisConnectionState::destroy, (connection, state, session), ()),
    ensures
        !fresh.seat,
        fresh.devices@.len() == 0,
        fresh.touch_frames@.len() == 0,
        fresh@.axis_frames.dom() == Set::<u64>::empty(),
        fresh.bound == Capabilities::none(),
        !final(connection).seat,
        final(connection).devices@.len() == 0,
        final(connection).bound == old(connection).bound,
        final(state)@ == old(state)@.eis_taken(session, old(connection).bound),
{
}

/// A device that was added for a sender is the last one of its connection, with the handle and the
/// capabilities that it was added with; it has the next number and the name of its kind, and the seat
/// hears of it. One that was added for a receiver is removed again, and nothing changes.
pub proof fn added_devices_are_announced(
    connection: &mut EisConnectionState,
    state: &mut State,
    kind: DeviceKind,
    capabilities: Capabilities,
    handle: EisHandle,
    receiver: bool,
    actions: Vec<EisAction>,
    index: int,
)
    requires
        !receiver ==> old(state).niri.device_ids.can_supply(1),
        call_ensures(
            EisConnectionState::device_added,
            (connection, state, kind, capabilities, handle, receiver),
            actions,
        ),
    ensures
        receiver ==> {
            &&& final(connection)@ == old(connection)@
            &&& final(state)@ == old(state)@
            &&& actions@.len() == 1
            &&& actions@[0] matches EisAction::RemoveDevice { device }
            &&& device == handle
        },
        !receiver ==> {
            let before = old(connection)@.devices;
            let after = final(connection)@.devices;
            let made = after.last();
            &&& after.len() == before.len() + 1
            &&& 0 <= index < before.len() ==> after[index] == before[index]
            &&& made.handle == handle
            &&& made.capabilities == capabilities
            &&& made.device.id == old(state)@.next_device
            &&& final(state)@.next_device == made.device.id + 1
            &&& made.device.output is None
            &&& made.device.keyboard <==> kind == DeviceKind::Keyboard
            &&& made.device.touch <==> kind == DeviceKind::Touchscreen
            &&& made.device.pointer <==> kind == DeviceKind::Pointer || kind
                == DeviceKind::AbsolutePointer
            &&& made.device.name@ == kind.label()
            &&& actions@.len() == 1
            &&& actions@[0] matches EisAction::Input(InputEvent::DeviceAdded { device })
            &&& device == made.device
            &&& final(connection)@.seat == old(connection)@.seat
            &&& final(connection)@.bound == old(connection)@.bound
            &&& final(connection)@.axis_frames == old(connection)@.axis_frames
            &&& final(connection)@.touch_frames == old(connection)@.touch_frames
        },
{
    assert(views(actions@).len() == actions@.len());
    assert(views(actions@)[0] == actions@[0]@);
    let made = final(connection)@.devices.last();
    assert(made.device.has(InputCapability::Keyboard) == made.device.keyboard);
    assert(made.device.has(InputCapability::Pointer) == made.device.pointer);
    assert(made.device.has(InputCapability::Touch) == made.device.touch);
}

/// Device numbers are handed out in order, each of them once.
pub proof fn device_numbers_are_handed_out_once(
    first: &mut IdCounter,
    second: &mut IdCounter,
    a: u64,
    b: u64,
)
    requires
        old(first).can_supply(2),
        call_ensures(next_device_id, (first,), a),
        *old(second) == *final(first),
        call_ensures(next_device_id, (second,), b),
    ensures
        a == old(first).value,
        b == a + 1,
{
}

/// What a session keeps of its connection: the connection itself, what its client bound, and, once
/// the client is gone, what a persistent session had bound. What the connection was is handed back.
pub proof fn sessions_keep_their_connection(
    set: &mut RemoteDesktopState,
    bind: &mut RemoteDesktopState,
    take: &mut RemoteDesktopState,
    session: RemoteDesktopSessionId,
    eis: EisConnection,
    bound: Capabilities,
    taken: Option<EisConnection>,
)
    requires
        old(set)@.sessions.contains_key(session),
        call_ensures(RemoteDesktopState::set_eis, (set, session, eis), ()),
        *old(bind) == *final(set),
        call_ensures(RemoteDesktopState::set_eis_bound, (bind, session, bound), ()),
        *old(take) == *final(bind),
        call_ensures(RemoteDesktopState::take_eis, (take, session, bound), taken),
    ensures
        final(set)@.sessions[session].eis == Some(eis),
        final(bind)@.sessions[session].eis == Some(EisConnection { token: eis.token, bound }),
        final(bind)@.sessions[session].eis_bound == bound,
        taken == Some(EisConnection { token: eis.token, bound }),
        final(take)@.sessions[session].eis is None,
        old(set)@.sessions[session].persistent ==> final(take)@.sessions[session].eis_bound == bound,
        !old(set)@.sessions[session].persistent ==> final(take)@.sessions[session].eis_bound
            == Capabilities::none(),
        final(take)@.sessions[session].streams == old(set)@.sessions[session].streams,
        final(take)@.sessions[session].clipboard == old(set)@.sessions[session].clipboard,
        final(take)@.sessions[session].persistent == old(set)@.sessions[session].persistent,
        final(take)@.sessions[session].has_control == old(set)@.sessions[session].has_control,
{
}

} // verus!
