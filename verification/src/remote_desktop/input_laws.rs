//! What the requests of an EIS client do on the seat.

use vstd::prelude::*;

use super::eis::{
    EisAction, EisActionView, EisConnectionState, EisEvent, EisHandle, EisRequest, EisView,
    PostAction, handled_by, other_id,
};
use super::input::{
    AbsolutePosition, Axis, AxisFrame, AxisFrameView, AxisRelativeDirection, AxisSource, Coordinate,
    EiDevice, EiKeyboardKeyEvent, EiPointerAxisEvent, FloatBits, GlobalPoint, InputCapability,
    InputEvent, Layout, PressState, TouchTarget, along, global_position, output_position,
};
use crate::niri::State;
use crate::utils::geometry::{Rectangle, Transform};
use crate::utils::lists::{lemma_filter_contains, lemma_first_index, lemma_is_first, views};
use crate::utils::RemoteDesktopSessionId;

verus! {

/// Whether the device with a handle stands at an index, and is the first one with the handle.
pub open spec fn known(connection: EisView, handle: EisHandle, index: int) -> bool {
    &&& 0 <= index < connection.devices.len()
    &&& connection.devices[index].handle == handle
    &&& forall|i: int| 0 <= i < index ==> (#[trigger] connection.devices[i]).handle != handle
}

/// Whether no device has a handle.
pub open spec fn unknown(connection: EisView, handle: EisHandle) -> bool {
    forall|i: int|
        0 <= i < connection.devices.len() ==> (#[trigger] connection.devices[i]).handle != handle
}

proof fn lemma_known(connection: EisView, handle: EisHandle, index: int)
    requires
        known(connection, handle, index),
    ensures
        connection.device_for(handle) == Some(index),
{
    lemma_is_first(connection.devices, handled_by(handle), index);
}

proof fn lemma_unknown(connection: EisView, handle: EisHandle)
    requires
        unknown(connection, handle),
    ensures
        connection.device_for(handle) is None,
{
    lemma_first_index(connection.devices, handled_by(handle));
}

/// Whether two values are the same device of the seat, whatever output their events map into.
pub open spec fn same_device(a: EiDevice, b: EiDevice) -> bool {
    &&& a.id == b.id
    &&& a.name == b.name
    &&& a.keyboard == b.keyboard
    &&& a.pointer == b.pointer
    &&& a.touch == b.touch
}

/// Whether a device is one that the connection has at an index, with events that map into the given
/// output.
pub open spec fn is_device(
    device: EiDevice,
    connection: EisView,
    index: int,
    output: Option<u64>,
) -> bool {
    same_device(device, connection.devices[index].device) && device.output == output
}

/// The device that a request for input is about.
pub open spec fn device_of(request: EisRequest) -> Option<EisHandle> {
    match request {
        EisRequest::PointerMotion { device, .. } => Some(device),
        EisRequest::PointerMotionAbsolute { device, .. } => Some(device),
        EisRequest::Button { device, .. } => Some(device),
        EisRequest::ScrollDelta { device, .. } => Some(device),
        EisRequest::ScrollDiscrete { device, .. } => Some(device),
        EisRequest::ScrollStop { device, .. } => Some(device),
        EisRequest::ScrollCancel { device, .. } => Some(device),
        EisRequest::KeyboardKey { device, .. } => Some(device),
        EisRequest::TouchDown { device, .. } => Some(device),
        EisRequest::TouchMotion { device, .. } => Some(device),
        EisRequest::TouchUp { device, .. } => Some(device),
        EisRequest::TouchCancel { device, .. } => Some(device),
        _ => None,
    }
}

/// Whether a request is about scrolling.
pub open spec fn scrolls(request: EisRequest) -> bool {
    request is ScrollDelta || request is ScrollDiscrete || request is ScrollStop
        || request is ScrollCancel
}

/// Whether a request is about a finger.
pub open spec fn touches(request: EisRequest) -> bool {
    request is TouchDown || request is TouchMotion || request is TouchUp || request is TouchCancel
}

/// For every button request of a known device, the one event that is handed to the seat says which
/// button it is, whether it went down or up, and when, as the request does. It comes from that
/// device, and maps into no output.
pub proof fn buttons_reach_the_seat_as_sent(
    connection: EisView,
    device: EisHandle,
    index: int,
    time: u64,
    button: u32,
    state: PressState,
    layout: Layout,
)
    requires
        known(connection, device, index),
    ensures
        ({
            let actions = connection.input_actions(
                EisRequest::Button { device, time, button, state },
                layout,
            );
            &&& actions.len() == 1
            &&& actions[0] matches EisActionView::Input(InputEvent::PointerButton { event })
            &&& event.button == button
            &&& event.state == state
            &&& event.time == time
            &&& is_device(event.device, connection, index, None)
        }),
{
    lemma_known(connection, device, index);
}

/// The buttons that are down on the seat once it took what it was handed.
pub open spec fn buttons_down(down: Set<u32>, actions: Seq<EisActionView>) -> Set<u32>
    decreases actions.len(),
{
    if actions.len() == 0 {
        down
    } else {
        let before = buttons_down(down, actions.drop_last());
        match actions.last() {
            EisActionView::Input(InputEvent::PointerButton { event }) => match event.state {
                PressState::Pressed => before.insert(event.button),
                PressState::Released => before.remove(event.button),
            },
            _ => before,
        }
    }
}

/// The keys that are down on the seat once it took what it was handed.
pub open spec fn keys_down(down: Set<u32>, actions: Seq<EisActionView>) -> Set<u32>
    decreases actions.len(),
{
    if actions.len() == 0 {
        down
    } else {
        let before = keys_down(down, actions.drop_last());
        match actions.last() {
            EisActionView::Input(InputEvent::Keyboard { event }) => match event.state {
                PressState::Pressed => before.insert(event.key),
                PressState::Released => before.remove(event.key),
            },
            _ => before,
        }
    }
}

/// A press leaves the button down on the seat, and a release that follows leaves it up; no other
/// button goes down or up.
pub proof fn released_buttons_are_up(
    connection: EisView,
    device: EisHandle,
    index: int,
    pressed: u64,
    released: u64,
    button: u32,
    other: u32,
    layout: Layout,
    next: Layout,
    down: Set<u32>,
)
    requires
        known(connection, device, index),
    ensures
        ({
            let press = EisRequest::Button {
                device,
                time: pressed,
                button,
                state: PressState::Pressed,
            };
            let release = EisRequest::Button {
                device,
                time: released,
                button,
                state: PressState::Released,
            };
            let first = buttons_down(down, connection.input_actions(press, layout));
            let second = buttons_down(
                first,
                connection.after_input(press, layout).input_actions(release, next),
            );
            &&& first.contains(button)
            &&& !second.contains(button)
            &&& other != button ==> first.contains(other) == down.contains(other)
                && second.contains(other) == down.contains(other)
        }),
{
    let press = EisRequest::Button { device, time: pressed, button, state: PressState::Pressed };
    let release = EisRequest::Button { device, time: released, button, state: PressState::Released };
    let after = connection.after_input(press, layout);
    buttons_reach_the_seat_as_sent(
        connection,
        device,
        index,
        pressed,
        button,
        PressState::Pressed,
        layout,
    );
    input_leaves_the_rest(connection, press, layout);
    assert(known(after, device, index));
    buttons_reach_the_seat_as_sent(
        after,
        device,
        index,
        released,
        button,
        PressState::Released,
        next,
    );
    let one = connection.input_actions(press, layout);
    let two = after.input_actions(release, next);
    assert(one.drop_last() =~= Seq::<EisActionView>::empty());
    assert(two.drop_last() =~= Seq::<EisActionView>::empty());
    reveal_with_fuel(buttons_down, 2);
}

/// For every key request of a known device, the one event that is handed to the seat says which
/// key it is, whether it went down or up, and when, as the request does, and that it counts once.
pub proof fn keys_reach_the_seat_as_sent(
    connection: EisView,
    device: EisHandle,
    index: int,
    time: u64,
    key: u32,
    state: PressState,
    layout: Layout,
)
    requires
        known(connection, device, index),
    ensures
        ({
            let request = EisRequest::KeyboardKey { device, time, key, state };
            let actions = connection.input_actions(request, layout);
            &&& connection.after_input(request, layout) == connection
            &&& actions.len() == 1
            &&& actions[0] matches EisActionView::Input(InputEvent::Keyboard { event })
            &&& event.key == key
            &&& event.state == state
            &&& event.count == 1
            &&& event.time == time
            &&& event.device == connection.devices[index].device
        }),
{
    lemma_known(connection, device, index);
}

/// A press leaves the key down on the seat, and a release that follows leaves it up; no other key
/// goes down or up.
pub proof fn released_keys_are_up(
    connection: EisView,
    device: EisHandle,
    index: int,
    pressed: u64,
    released: u64,
    key: u32,
    other: u32,
    layout: Layout,
    next: Layout,
    down: Set<u32>,
)
    requires
        known(connection, device, index),
    ensures
        ({
            let press = EisRequest::KeyboardKey {
                device,
                time: pressed,
                key,
                state: PressState::Pressed,
            };
            let release = EisRequest::KeyboardKey {
                device,
                time: released,
                key,
                state: PressState::Released,
            };
            let first = keys_down(down, connection.input_actions(press, layout));
            let second = keys_down(
                first,
                connection.after_input(press, layout).input_actions(release, next),
            );
            &&& first.contains(key)
            &&& !second.contains(key)
            &&& other != key ==> first.contains(other) == down.contains(other) && second.contains(
                other,
            ) == down.contains(other)
        }),
{
    keys_reach_the_seat_as_sent(
        connection,
        device,
        index,
        pressed,
        key,
        PressState::Pressed,
        layout,
    );
    keys_reach_the_seat_as_sent(
        connection,
        device,
        index,
        released,
        key,
        PressState::Released,
        next,
    );
    let press = EisRequest::KeyboardKey { device, time: pressed, key, state: PressState::Pressed };
    let release = EisRequest::KeyboardKey {
        device,
        time: released,
        key,
        state: PressState::Released,
    };
    let one = connection.input_actions(press, layout);
    let two = connection.input_actions(release, next);
    assert(one.drop_last() =~= Seq::<EisActionView>::empty());
    assert(two.drop_last() =~= Seq::<EisActionView>::empty());
    reveal_with_fuel(keys_down, 2);
}

/// A relative motion moves the pointer by the distance of the request.
pub proof fn motions_reach_the_seat_as_sent(
    connection: EisView,
    device: EisHandle,
    index: int,
    time: u64,
    dx: FloatBits,
    dy: FloatBits,
    layout: Layout,
)
    requires
        known(connection, device, index),
    ensures
        ({
            let actions = connection.input_actions(
                EisRequest::PointerMotion { device, time, dx, dy },
                layout,
            );
            &&& actions.len() == 1
            &&& actions[0] matches EisActionView::Input(InputEvent::PointerMotion { event })
            &&& event.dx == dx
            &&& event.dy == dy
            &&& event.time == time
            &&& is_device(event.device, connection, index, None)
        }),
{
    lemma_known(connection, device, index);
}

/// A motion to a point moves the pointer to that point, counted from where the bounding rectangle
/// of all outputs begins. Without outputs nothing happens.
pub proof fn pointers_go_to_their_point(
    connection: EisView,
    device: EisHandle,
    index: int,
    time: u64,
    x: FloatBits,
    y: FloatBits,
    layout: Layout,
)
    requires
        known(connection, device, index),
    ensures
        ({
            let request = EisRequest::PointerMotionAbsolute { device, time, x, y };
            let actions = connection.input_actions(request, layout);
            match layout.bounds {
                Some(bounds) => {
                    &&& actions.len() == 1
                    &&& actions[0] matches EisActionView::Input(
                        InputEvent::PointerMotionAbsolute { event },
                    )
                    &&& event.time == time
                    &&& is_device(event.device, connection, index, None)
                    &&& event.pos.global.x == x
                    &&& event.pos.global.y == y
                    &&& event.pos.space == bounds.size
                    &&& !event.pos.x.vertical
                    &&& event.pos.x.origin == bounds.loc.x
                    &&& event.pos.x.mirrored_in is None
                    &&& event.pos.y.vertical
                    &&& event.pos.y.origin == bounds.loc.y
                    &&& event.pos.y.mirrored_in is None
                },
                None => actions.len() == 0 && connection.after_input(request, layout) == connection,
            }
        }),
{
    lemma_known(connection, device, index);
}

/// A coordinate is taken from its own axis of the global point, with the origin taken off; a
/// mirrored one counts from the far end.
pub proof fn coordinates_are_what_they_say(coordinate: Coordinate, x: int, y: int)
    ensures
        ({
            let from = if coordinate.vertical {
                y
            } else {
                x
            };
            match coordinate.mirrored_in {
                None => coordinate.of(x, y) + coordinate.origin == from,
                Some(length) => length - coordinate.of(x, y) + coordinate.origin == from,
            }
        }),
{
}

/// Whether undoing an output's transform on a position gives every global point again.
pub open spec fn comes_back(
    position: AbsolutePosition,
    geometry: Rectangle,
    transform: Transform,
) -> bool {
    forall|a: int, b: int| #[trigger]
        transform.placed(position.x.of(a, b), position.y.of(a, b), position.space) == (
            a - geometry.loc.x,
            b - geometry.loc.y,
        )
}

/// Whether the position of a touch is that of the global point on an output, before the output's
/// transform.
pub open spec fn touches_at(
    position: AbsolutePosition,
    geometry: Rectangle,
    transform: Transform,
    x: FloatBits,
    y: FloatBits,
) -> bool {
    let turned = transform == Transform::_90 || transform == Transform::_270 || transform
        == Transform::Flipped90 || transform == Transform::Flipped270;
    &&& position.global.x == x
    &&& position.global.y == y
    &&& comes_back(position, geometry, transform)
    &&& turned ==> position.space.w == geometry.size.h && position.space.h == geometry.size.w
    &&& !turned ==> position.space == geometry.size
}

proof fn lemma_touches_at(
    geometry: Rectangle,
    transform: Transform,
    x: FloatBits,
    y: FloatBits,
)
    ensures
        touches_at(
            super::input::position_on(geometry, transform, GlobalPoint { x, y }),
            geometry,
            transform,
            x,
            y,
        ),
{
    let position = super::input::position_on(geometry, transform, GlobalPoint { x, y });
    assert forall|a: int, b: int| #[trigger]
        transform.placed(position.x.of(a, b), position.y.of(a, b), position.space) == (
            a - geometry.loc.x,
            b - geometry.loc.y,
        ) by {
        super::input::touches_reach_their_point(
            geometry,
            transform,
            GlobalPoint { x, y },
            a,
            b,
        );
    }
}

/// A finger that touches the screen touches it under its own number, at its point on the output
/// under it, and the device points at that output. Where no mapped output is under it, nothing
/// happens. The same holds of a finger that moves.
pub proof fn fingers_touch_their_point(
    connection: EisView,
    device: EisHandle,
    index: int,
    time: u64,
    touch_id: u32,
    x: FloatBits,
    y: FloatBits,
    layout: Layout,
)
    requires
        known(connection, device, index),
    ensures
        ({
            let down = EisRequest::TouchDown { device, time, touch_id, x, y };
            let motion = EisRequest::TouchMotion { device, time, touch_id, x, y };
            let downs = connection.input_actions(down, layout);
            let motions = connection.input_actions(motion, layout);
            match layout.target {
                Some(TouchTarget { output, geometry: Some(geometry), transform }) => {
                    &&& downs.len() == 1
                    &&& motions.len() == 1
                    &&& downs[0] matches EisActionView::Input(InputEvent::TouchDown { event })
                    &&& event.slot == touch_id
                    &&& event.time == time
                    &&& is_device(event.device, connection, index, Some(output))
                    &&& touches_at(event.pos, geometry, transform, x, y)
                    &&& motions[0] matches EisActionView::Input(
                        InputEvent::TouchMotion { event: moved },
                    )
                    &&& moved.slot == touch_id
                    &&& moved.time == time
                    &&& moved.device == event.device
                    &&& moved.pos == event.pos
                    &&& connection.after_input(down, layout).devices[index].device == event.device
                    &&& connection.after_input(motion, layout).devices[index].device
                        == event.device
                },
                _ => {
                    &&& downs.len() == 0
                    &&& motions.len() == 0
                    &&& connection.after_input(down, layout) == connection
                    &&& connection.after_input(motion, layout) == connection
                },
            }
        }),
{
    lemma_known(connection, device, index);
    if let Some(TouchTarget { output, geometry: Some(geometry), transform }) = layout.target {
        lemma_touches_at(geometry, transform, x, y);
    }
}

/// A finger leaves the screen, or its touch is taken back, under its own number; the two are told
/// apart.
pub proof fn fingers_leave_under_their_number(
    connection: EisView,
    device: EisHandle,
    index: int,
    time: u64,
    touch_id: u32,
    layout: Layout,
)
    requires
        known(connection, device, index),
    ensures
        ({
            let ups = connection.input_actions(
                EisRequest::TouchUp { device, time, touch_id },
                layout,
            );
            let cancels = connection.input_actions(
                EisRequest::TouchCancel { device, time, touch_id },
                layout,
            );
            &&& ups.len() == 1
            &&& cancels.len() == 1
            &&& ups[0] matches EisActionView::Input(InputEvent::TouchUp { event })
            &&& event.slot == touch_id
            &&& event.time == time
            &&& event.device == connection.devices[index].device
            &&& cancels[0] matches EisActionView::Input(InputEvent::TouchCancel { event: back })
            &&& back.slot == touch_id
            &&& back.time == time
            &&& back.device == connection.devices[index].device
        }),
{
    lemma_known(connection, device, index);
}

/// A request of a device that is not known does nothing, and neither does one that is not about
/// input.
pub proof fn other_requests_do_nothing(connection: EisView, request: EisRequest, layout: Layout)
    requires
        device_of(request) matches Some(device) ==> unknown(connection, device),
    ensures
        connection.input_actions(request, layout).len() == 0,
        connection.after_input(request, layout) == connection,
{
    if let Some(device) = device_of(request) {
        lemma_unknown(connection, device);
    }
}

/// Input leaves the connection otherwise as it is: the seat, what is bound, which devices there are
/// and what they can do. Only the device of the request may map into another output, only scrolling
/// touches what was scrolled, and only fingers touch which devices were touched.
pub proof fn input_leaves_the_rest(connection: EisView, request: EisRequest, layout: Layout)
    ensures
        ({
            let after = connection.after_input(request, layout);
            &&& after.seat == connection.seat
            &&& after.bound == connection.bound
            &&& after.devices.len() == connection.devices.len()
            &&& forall|i: int|
                0 <= i < connection.devices.len() ==> {
                    &&& (#[trigger] after.devices[i]).handle == connection.devices[i].handle
                    &&& after.devices[i].capabilities == connection.devices[i].capabilities
                    &&& same_device(after.devices[i].device, connection.devices[i].device)
                    &&& device_of(request) != Some(connection.devices[i].handle)
                        ==> after.devices[i] == connection.devices[i]
                }
            &&& !scrolls(request) ==> after.axis_frames == connection.axis_frames
            &&& !touches(request) ==> after.touch_frames == connection.touch_frames
        }),
{
    if let Some(device) = device_of(request) {
        lemma_first_index(connection.devices, handled_by(device));
    }
}

/// A pointer that moved or pressed a button maps into no output anymore.
pub proof fn pointers_map_into_no_output(
    connection: EisView,
    request: EisRequest,
    layout: Layout,
    index: int,
)
    requires
        device_of(request) matches Some(device) && known(connection, device, index),
        request is PointerMotion || request is Button || (request is PointerMotionAbsolute
            && layout.bounds is Some),
    ensures
        connection.after_input(request, layout).devices[index].device.output is None,
{
    lemma_known(connection, device_of(request)->0, index);
}

/// A device that a finger touched, moved on or left, is remembered until the end of its frame.
pub proof fn touched_devices_are_remembered(
    connection: EisView,
    request: EisRequest,
    layout: Layout,
    index: int,
)
    requires
        device_of(request) matches Some(device) && known(connection, device, index),
        touches(request),
        request is TouchDown || request is TouchMotion ==> (layout.target matches Some(target)
            && target.geometry is Some),
    ensures
        ({
            let after = connection.after_input(request, layout);
            after.touch_frames == connection.touch_frames.push(connection.devices[index].device.id)
        }),
{
    lemma_known(connection, device_of(request)->0, index);
}

/// Scrolling waits for the end of the frame: nothing is handed to the seat, and the scrolling of no
/// other device changes.
pub proof fn scrolling_waits(
    connection: EisView,
    request: EisRequest,
    layout: Layout,
    index: int,
    other: u64,
)
    requires
        scrolls(request),
        device_of(request) matches Some(device) && known(connection, device, index),
    ensures
        ({
            let after = connection.after_input(request, layout);
            let id = connection.devices[index].device.id;
            &&& connection.input_actions(request, layout).len() == 0
            &&& after.devices == connection.devices
            &&& after.axis_frames.contains_key(id)
            &&& other != id ==> {
                &&& after.axis_frames.contains_key(other) == connection.axis_frames.contains_key(
                    other,
                )
                &&& after.axis_frames[other] == connection.axis_frames[other]
            }
        }),
{
    lemma_known(connection, device_of(request)->0, index);
}

/// What a device scrolled in its frame before a request that came at a time in microseconds. A frame
/// that begins with the request has its time in milliseconds, as far as 32 bits go, and nothing was
/// scrolled in it.
pub open spec fn scrolled_before(connection: EisView, id: u64, time: u64) -> AxisFrameView {
    if connection.axis_frames.contains_key(id) {
        connection.axis_frames[id]
    } else {
        AxisFrameView {
            time: (time / 1000 % 4_294_967_296) as u32,
            source: Some(AxisSource::Continuous),
            relative_direction: (
                AxisRelativeDirection::Identical,
                AxisRelativeDirection::Identical,
            ),
            deltas: Seq::empty(),
            v120: None,
            stop: (false, false),
        }
    }
}

/// A distance that is scrolled comes behind those of the same frame, and changes nothing else of
/// it.
pub proof fn distances_are_gathered(
    connection: EisView,
    device: EisHandle,
    index: int,
    time: u64,
    dx: FloatBits,
    dy: FloatBits,
    layout: Layout,
)
    requires
        known(connection, device, index),
    ensures
        ({
            let id = connection.devices[index].device.id;
            let before = scrolled_before(connection, id, time);
            let after = connection.after_input(
                EisRequest::ScrollDelta { device, time, dx, dy },
                layout,
            ).axis_frames[id];
            &&& after.deltas.len() == before.deltas.len() + 1
            &&& after.deltas.last() == (dx, dy)
            &&& after.deltas.drop_last() == before.deltas
            &&& after.time == before.time
            &&& after.source == before.source
            &&& after.relative_direction == before.relative_direction
            &&& after.v120 == before.v120
            &&& after.stop == before.stop
        }),
{
    lemma_known(connection, device, index);
    let id = connection.devices[index].device.id;
    let before = scrolled_before(connection, id, time);
    assert(before.deltas.push((dx, dy)).drop_last() =~= before.deltas);
}

/// Steps come from a wheel. An axis that stepped has its new steps, one that did not keeps what it
/// had, and nothing else of the frame changes.
pub proof fn steps_are_gathered(
    connection: EisView,
    device: EisHandle,
    index: int,
    time: u64,
    discrete_dx: i32,
    discrete_dy: i32,
    layout: Layout,
)
    requires
        known(connection, device, index),
    ensures
        ({
            let id = connection.devices[index].device.id;
            let before = scrolled_before(connection, id, time);
            let after = connection.after_input(
                EisRequest::ScrollDiscrete { device, time, discrete_dx, discrete_dy },
                layout,
            ).axis_frames[id];
            let (x, y) = match before.v120 {
                Some(steps) => steps,
                None => (0, 0),
            };
            &&& after.source == Some(AxisSource::Wheel)
            &&& discrete_dx == 0 && discrete_dy == 0 ==> after.v120 == before.v120
            &&& discrete_dx != 0 && discrete_dy == 0 ==> after.v120 == Some((discrete_dx, y))
            &&& discrete_dx == 0 && discrete_dy != 0 ==> after.v120 == Some((x, discrete_dy))
            &&& discrete_dx != 0 && discrete_dy != 0 ==> after.v120 == Some(
                (discrete_dx, discrete_dy),
            )
            &&& after.time == before.time
            &&& after.relative_direction == before.relative_direction
            &&& after.deltas == before.deltas
            &&& after.stop == before.stop
        }),
{
    lemma_known(connection, device, index);
}

/// Scrolling that stops, or is taken back, stops on the axes of the request; an axis that stopped
/// before stays stopped, and nothing else of the frame changes.
pub proof fn stops_are_gathered(
    connection: EisView,
    device: EisHandle,
    index: int,
    time: u64,
    x: bool,
    y: bool,
    layout: Layout,
)
    requires
        known(connection, device, index),
    ensures
        ({
            let id = connection.devices[index].device.id;
            let before = scrolled_before(connection, id, time);
            let after = connection.after_input(
                EisRequest::ScrollStop { device, time, x, y },
                layout,
            ).axis_frames[id];
            &&& after.stop.0 == (before.stop.0 || x)
            &&& after.stop.1 == (before.stop.1 || y)
            &&& after.time == before.time
            &&& after.source == before.source
            &&& after.relative_direction == before.relative_direction
            &&& after.deltas == before.deltas
            &&& after.v120 == before.v120
            &&& connection.after_input(
                EisRequest::ScrollCancel { device, time, x, y },
                layout,
            ).axis_frames[id] == after
        }),
{
    lemma_known(connection, device, index);
}

/// Of a pair, the first belongs to the horizontal axis and the second to the vertical one.
pub proof fn axes_are_told_apart<T>(pair: (T, T))
    ensures
        along(pair, Axis::Horizontal) == pair.0,
        along(pair, Axis::Vertical) == pair.1,
{
}

/// The end of a frame hands on what the device scrolled since its last frame, with the time of the
/// end, and then that its touches ended, if it was touched. Nothing else is handed on.
pub proof fn frames_hand_on_what_happened(
    connection: EisView,
    device: EisHandle,
    index: int,
    time: u64,
    actions: Seq<EisActionView>,
)
    requires
        known(connection, device, index),
        connection.frame_actions(device, time, actions),
    ensures
        ({
            let own = connection.devices[index].device;
            let scrolled = connection.axis_frames.contains_key(own.id);
            let touched = connection.touch_frames.contains(own.id);
            &&& scrolled ==> {
                &&& actions.len() > 0
                &&& actions[0] matches EisActionView::Input(InputEvent::PointerAxis { event })
                &&& event.time == time
                &&& is_device(event.device, connection, index, None)
                &&& event.frame.time == connection.axis_frames[own.id].time
                &&& event.frame.source == connection.axis_frames[own.id].source
                &&& event.frame.relative_direction
                    == connection.axis_frames[own.id].relative_direction
                &&& event.frame.deltas@ == connection.axis_frames[own.id].deltas
                &&& event.frame.v120 == connection.axis_frames[own.id].v120
                &&& event.frame.stop == connection.axis_frames[own.id].stop
            }
            &&& touched ==> {
                &&& actions.len() > 0
                &&& actions.last() matches EisActionView::Input(InputEvent::TouchFrame { event })
                &&& event.time == time
                &&& is_device(
                    event.device,
                    connection,
                    index,
                    if scrolled {
                        None
                    } else {
                        own.output
                    },
                )
            }
            &&& actions.len() == 2 <==> scrolled && touched
            &&& actions.len() == 1 <==> scrolled != touched
            &&& actions.len() <= 2
        }),
{
    lemma_known(connection, device, index);
}

/// The end of a frame forgets what was handed on: the device scrolled nothing and was not touched
/// anymore. What other devices did stays, and the devices stay.
pub proof fn frames_forget_what_happened(
    connection: EisView,
    device: EisHandle,
    index: int,
    other: u64,
)
    requires
        known(connection, device, index),
    ensures
        ({
            let id = connection.devices[index].device.id;
            let after = connection.after_frame(device);
            &&& !after.axis_frames.contains_key(id)
            &&& !after.touch_frames.contains(id)
            &&& other != id ==> {
                &&& after.axis_frames.contains_key(other) == connection.axis_frames.contains_key(
                    other,
                )
                &&& after.axis_frames[other] == connection.axis_frames[other]
                &&& after.touch_frames.contains(other) == connection.touch_frames.contains(other)
            }
            &&& after.seat == connection.seat
            &&& after.bound == connection.bound
            &&& after.devices.len() == connection.devices.len()
            &&& forall|i: int|
                0 <= i < after.devices.len() ==> {
                    &&& (#[trigger] after.devices[i]).handle == connection.devices[i].handle
                    &&& after.devices[i].capabilities == connection.devices[i].capabilities
                    &&& same_device(after.devices[i].device, connection.devices[i].device)
                    &&& after.devices[i].device.output == if i == index
                        && connection.axis_frames.contains_key(id) {
                        None
                    } else {
                        connection.devices[i].device.output
                    }
                }
        }),
{
    lemma_known(connection, device, index);
    let id = connection.devices[index].device.id;
    lemma_filter_contains(connection.touch_frames, other_id(id), id);
    lemma_filter_contains(connection.touch_frames, other_id(id), other);
}

/// The frame of a device that is not known ends without anything happening.
pub proof fn unknown_frames_do_nothing(
    connection: EisView,
    device: EisHandle,
    time: u64,
    actions: Seq<EisActionView>,
)
    requires
        unknown(connection, device),
        connection.frame_actions(device, time, actions),
    ensures
        actions.len() == 0,
        connection.after_frame(device) == connection,
{
    lemma_unknown(connection, device);
}

/// The connection once a device scrolled some distances, one after the other.
pub open spec fn after_scrolling(
    connection: EisView,
    device: EisHandle,
    time: u64,
    deltas: Seq<(FloatBits, FloatBits)>,
    layout: Layout,
) -> EisView
    decreases deltas.len(),
{
    if deltas.len() == 0 {
        connection
    } else {
        let (dx, dy) = deltas.last();
        after_scrolling(connection, device, time, deltas.drop_last(), layout).after_input(
            EisRequest::ScrollDelta { device, time, dx, dy },
            layout,
        )
    }
}

proof fn lemma_after_scrolling(
    connection: EisView,
    device: EisHandle,
    index: int,
    time: u64,
    deltas: Seq<(FloatBits, FloatBits)>,
    layout: Layout,
)
    requires
        known(connection, device, index),
    ensures
        ({
            let id = connection.devices[index].device.id;
            let after = after_scrolling(connection, device, time, deltas, layout);
            &&& after.devices == connection.devices
            &&& after.axis_frames.contains_key(id) == (connection.axis_frames.contains_key(id)
                || deltas.len() > 0)
            &&& scrolled_before(after, id, time).deltas == scrolled_before(
                connection,
                id,
                time,
            ).deltas + deltas
        }),
    decreases deltas.len(),
{
    let id = connection.devices[index].device.id;
    let before = scrolled_before(connection, id, time).deltas;
    if deltas.len() > 0 {
        let rest = deltas.drop_last();
        let (dx, dy) = deltas.last();
        lemma_after_scrolling(connection, device, index, time, rest, layout);
        let middle = after_scrolling(connection, device, time, rest, layout);
        assert(known(middle, device, index));
        let request = EisRequest::ScrollDelta { device, time, dx, dy };
        scrolling_waits(middle, request, layout, index, id);
        distances_are_gathered(middle, device, index, time, dx, dy, layout);
        let after = after_scrolling(connection, device, time, deltas, layout);
        let gathered = after.axis_frames[id].deltas;
        assert(gathered =~= gathered.drop_last().push(gathered.last()));
        assert((before + rest).push(deltas.last()) =~= before + deltas);
    } else {
        assert(before + deltas =~= before);
    }
}

/// What a device scrolls within a frame reaches the seat at the end of the frame: one event with
/// every distance, in order, and nothing else.
pub proof fn scrolled_distances_reach_the_seat(
    connection: EisView,
    device: EisHandle,
    index: int,
    time: u64,
    deltas: Seq<(FloatBits, FloatBits)>,
    layout: Layout,
    end: u64,
    actions: Seq<EisActionView>,
)
    requires
        known(connection, device, index),
        !connection.axis_frames.contains_key(connection.devices[index].device.id),
        !connection.touch_frames.contains(connection.devices[index].device.id),
        deltas.len() > 0,
        after_scrolling(connection, device, time, deltas, layout).frame_actions(
            device,
            end,
            actions,
        ),
    ensures
        actions.len() == 1,
        actions[0] matches EisActionView::Input(InputEvent::PointerAxis { event })
            && event.frame.deltas@ == deltas && event.time == end,
{
    let id = connection.devices[index].device.id;
    let after = after_scrolling(connection, device, time, deltas, layout);
    lemma_after_scrolling(connection, device, index, time, deltas, layout);
    lemma_scrolling_touches_nothing(connection, device, time, deltas, layout);
    assert(known(after, device, index));
    frames_hand_on_what_happened(after, device, index, end, actions);
    assert(scrolled_before(connection, id, time).deltas + deltas =~= deltas);
}

proof fn lemma_scrolling_touches_nothing(
    connection: EisView,
    device: EisHandle,
    time: u64,
    deltas: Seq<(FloatBits, FloatBits)>,
    layout: Layout,
)
    ensures
        after_scrolling(connection, device, time, deltas, layout).touch_frames
            == connection.touch_frames,
    decreases deltas.len(),
{
    if deltas.len() > 0 {
        let rest = deltas.drop_last();
        let (dx, dy) = deltas.last();
        lemma_scrolling_touches_nothing(connection, device, time, rest, layout);
        input_leaves_the_rest(
            after_scrolling(connection, device, time, rest, layout),
            EisRequest::ScrollDelta { device, time, dx, dy },
            layout,
        );
    }
}

/// A button request of a known device, as an event of its connection: the seat is handed the button,
/// whether it went down or up, and when, as the request says; then what is queued is sent, and the
/// connection goes on. Nothing in the compositor changes.
pub proof fn button_events_reach_the_seat(
    connection: &mut EisConnectionState,
    state: &mut State,
    session: RemoteDesktopSessionId,
    device: EisHandle,
    index: int,
    time: u64,
    button: u32,
    pressed: PressState,
    layout: Layout,
    geometries: Vec<Option<Rectangle>>,
    result: (PostAction, Vec<EisAction>),
)
    requires
        known(old(connection)@, device, index),
        call_ensures(
            EisConnectionState::handle_event,
            (
                connection,
                state,
                session,
                EisEvent::Request(EisRequest::Button { device, time, button, state: pressed }),
                layout,
                &geometries,
            ),
            result,
        ),
    ensures
        result.0 == PostAction::Continue,
        result.1@.len() == 2,
        result.1@[1] == EisAction::Flush,
        result.1@[0] matches EisAction::Input(InputEvent::PointerButton { event }) && event.button
            == button && event.state == pressed && event.time == time && is_device(
            event.device,
            old(connection)@,
            index,
            None,
        ),
        final(state)@ == old(state)@,
{
    buttons_reach_the_seat_as_sent(
        old(connection)@,
        device,
        index,
        time,
        button,
        pressed,
        layout,
    );
    let actions = result.1@;
    assert(views(actions).len() == actions.len());
    assert(views(actions)[0] == actions[0]@);
    assert(views(actions)[1] == actions[1]@);
    assert(actions[0]@ == old(connection)@.input_actions(
        EisRequest::Button { device, time, button, state: pressed },
        layout,
    )[0]);
}

/// A key request of a known device, as an event of its connection, reaches the seat as it was sent.
pub proof fn key_events_reach_the_seat(
    connection: &mut EisConnectionState,
    state: &mut State,
    session: RemoteDesktopSessionId,
    device: EisHandle,
    index: int,
    time: u64,
    key: u32,
    pressed: PressState,
    layout: Layout,
    geometries: Vec<Option<Rectangle>>,
    result: (PostAction, Vec<EisAction>),
)
    requires
        known(old(connection)@, device, index),
        call_ensures(
            EisConnectionState::handle_event,
            (
                connection,
                state,
                session,
                EisEvent::Request(EisRequest::KeyboardKey { device, time, key, state: pressed }),
                layout,
                &geometries,
            ),
            result,
        ),
    ensures
        result.0 == PostAction::Continue,
        result.1@.len() == 2,
        result.1@[1] == EisAction::Flush,
        result.1@[0] matches EisAction::Input(InputEvent::Keyboard { event }) && event.key == key
            && event.state == pressed && event.count == 1 && event.time == time && event.device
            == old(connection)@.devices[index].device,
        final(connection)@ == old(connection)@,
        final(state)@ == old(state)@,
{
    keys_reach_the_seat_as_sent(old(connection)@, device, index, time, key, pressed, layout);
    let actions = result.1@;
    assert(views(actions).len() == actions.len());
    assert(views(actions)[0] == actions[0]@);
    assert(views(actions)[1] == actions[1]@);
    assert(actions[0]@ == old(connection)@.input_actions(
        EisRequest::KeyboardKey { device, time, key, state: pressed },
        layout,
    )[0]);
}

/// Every request for input does on its connection what is stated of that request, and then what is
/// queued is sent. The connection goes on, and nothing in the compositor changes.
pub proof fn input_events_do_what_is_stated(
    connection: &mut EisConnectionState,
    state: &mut State,
    session: RemoteDesktopSessionId,
    request: EisRequest,
    layout: Layout,
    geometries: Vec<Option<Rectangle>>,
    result: (PostAction, Vec<EisAction>),
)
    requires
        device_of(request) is Some || request is Other,
        call_ensures(
            EisConnectionState::handle_event,
            (connection, state, session, EisEvent::Request(request), layout, &geometries),
            result,
        ),
    ensures
        result.0 == PostAction::Continue,
        views(result.1@).len() > 0,
        views(result.1@).last() == EisActionView::Flush,
        views(result.1@).drop_last() == old(connection)@.input_actions(request, layout),
        final(connection)@ == old(connection)@.after_input(request, layout),
        final(state)@ == old(state)@,
{
    assert(views(result.1@).drop_last() =~= old(connection)@.input_actions(request, layout));
}

/// The same holds of a request for input that is handed to the connection directly.
pub proof fn input_is_handled_as_stated(
    connection: &mut EisConnectionState,
    request: EisRequest,
    layout: Layout,
    actions: Vec<EisAction>,
)
    requires
        call_ensures(EisConnectionState::handle_input, (connection, request, layout), actions),
    ensures
        views(actions@) == old(connection)@.input_actions(request, layout),
        final(connection)@ == old(connection)@.after_input(request, layout),
{
}

/// The end of a frame hands on what happened in it, forgets it, and sends what is queued. The
/// connection goes on, and nothing in the compositor changes.
pub proof fn frame_events_do_what_is_stated(
    connection: &mut EisConnectionState,
    direct: &mut EisConnectionState,
    state: &mut State,
    session: RemoteDesktopSessionId,
    device: EisHandle,
    time: u64,
    layout: Layout,
    geometries: Vec<Option<Rectangle>>,
    result: (PostAction, Vec<EisAction>),
    actions: Vec<EisAction>,
)
    requires
        call_ensures(
            EisConnectionState::handle_event,
            (
                connection,
                state,
                session,
                EisEvent::Request(EisRequest::Frame { device, time }),
                layout,
                &geometries,
            ),
            result,
        ),
        *old(direct) == *old(connection),
        call_ensures(EisConnectionState::flush_frame, (direct, device, time), actions),
    ensures
        result.0 == PostAction::Continue,
        views(result.1@).len() > 0,
        views(result.1@).last() == EisActionView::Flush,
        old(connection)@.frame_actions(device, time, views(result.1@).drop_last()),
        old(connection)@.frame_actions(device, time, views(actions@)),
        final(connection)@ == old(connection)@.after_frame(device),
        final(direct)@ == final(connection)@,
        final(state)@ == old(state)@,
{
}

/// A new frame has its time and nothing else; distances come behind each other, steps come from a
/// wheel and replace those of their axis, and an axis that stopped stays stopped.
pub proof fn frames_gather_what_is_scrolled(
    time: u32,
    fresh: AxisFrame,
    scrolled: &mut AxisFrame,
    dx: FloatBits,
    dy: FloatBits,
    stepped: &mut AxisFrame,
    x: i32,
    y: i32,
    stopped: &mut AxisFrame,
    horizontal: bool,
    vertical: bool,
)
    requires
        call_ensures(AxisFrame::new, (time,), fresh),
        call_ensures(AxisFrame::scroll, (scrolled, dx, dy), ()),
        call_ensures(AxisFrame::step, (stepped, x, y), ()),
        call_ensures(AxisFrame::stop, (stopped, horizontal, vertical), ()),
    ensures
        fresh.time == time,
        fresh.source == Some(AxisSource::Continuous),
        fresh.relative_direction == (
            AxisRelativeDirection::Identical,
            AxisRelativeDirection::Identical,
        ),
        fresh.deltas@.len() == 0,
        fresh.v120 is None,
        fresh.stop == (false, false),
        final(scrolled)@ == (AxisFrameView {
            deltas: old(scrolled)@.deltas.push((dx, dy)),
            ..old(scrolled)@
        }),
        final(stepped).source == Some(AxisSource::Wheel),
        x != 0 ==> (final(stepped).v120 matches Some(steps) && steps.0 == x),
        y != 0 ==> (final(stepped).v120 matches Some(steps) && steps.1 == y),
        x == 0 && y == 0 ==> final(stepped).v120 == old(stepped).v120,
        x == 0 && y != 0 ==> (final(stepped).v120 matches Some(steps) && steps.0 == (
        match old(stepped).v120 {
            Some(before) => before.0,
            None => 0,
        })),
        x != 0 && y == 0 ==> (final(stepped).v120 matches Some(steps) && steps.1 == (
        match old(stepped).v120 {
            Some(before) => before.1,
            None => 0,
        })),
        final(stepped)@ == (AxisFrameView {
            source: final(stepped).source,
            v120: final(stepped).v120,
            ..old(stepped)@
        }),
        final(stopped)@ == (AxisFrameView {
            stop: (old(stopped).stop.0 || horizontal, old(stopped).stop.1 || vertical),
            ..old(stopped)@
        }),
{
}

/// What an axis event says of an axis is what its frame holds for that axis: the first of each pair
/// horizontally, and the second vertically. A frame without a source is continuous.
pub proof fn axis_events_say_what_their_frame_holds(
    event: EiPointerAxisEvent,
    across: Vec<FloatBits>,
    along_it: Vec<FloatBits>,
    horizontal: Option<i32>,
    vertical: Option<i32>,
    source: AxisSource,
    x: AxisRelativeDirection,
    y: AxisRelativeDirection,
    index: int,
)
    requires
        call_ensures(EiPointerAxisEvent::amounts, (&event, Axis::Horizontal), across),
        call_ensures(EiPointerAxisEvent::amounts, (&event, Axis::Vertical), along_it),
        call_ensures(EiPointerAxisEvent::amount_v120, (&event, Axis::Horizontal), horizontal),
        call_ensures(EiPointerAxisEvent::amount_v120, (&event, Axis::Vertical), vertical),
        call_ensures(EiPointerAxisEvent::source, (&event,), source),
        call_ensures(EiPointerAxisEvent::relative_direction, (&event, Axis::Horizontal), x),
        call_ensures(EiPointerAxisEvent::relative_direction, (&event, Axis::Vertical), y),
        0 <= index < event.frame.deltas@.len(),
    ensures
        across@.len() == event.frame.deltas@.len(),
        along_it@.len() == event.frame.deltas@.len(),
        across@[index] == event.frame.deltas@[index].0,
        along_it@[index] == event.frame.deltas@[index].1,
        match event.frame.v120 {
            Some(steps) => horizontal == Some(steps.0) && vertical == Some(steps.1),
            None => horizontal is None && vertical is None,
        },
        event.frame.source is Some ==> Some(source) == event.frame.source,
        event.frame.source is None ==> source == AxisSource::Continuous,
        x == event.frame.relative_direction.0,
        y == event.frame.relative_direction.1,
{
}

/// The xkb code of a key is 8 above its evdev code.
pub proof fn xkb_codes_are_shifted(event: EiKeyboardKeyEvent, code: u32)
    requires
        event.key + 8 <= u32::MAX,
        call_ensures(EiKeyboardKeyEvent::key_code, (&event,), code),
    ensures
        code - event.key == 8,
{
}

/// A point is mapped into the bounding rectangle of all outputs, if there are outputs: counted from
/// where the rectangle begins, in its size.
pub proof fn global_points_are_counted_from_the_bounds(
    bounds: Option<Rectangle>,
    global: GlobalPoint,
    position: Option<AbsolutePosition>,
)
    requires
        call_ensures(global_position, (bounds, global), position),
    ensures
        position is Some <==> bounds is Some,
        position matches Some(place) ==> {
            &&& place.global == global
            &&& place.space == bounds->0.size
            &&& !place.x.vertical
            &&& place.y.vertical
            &&& place.x.origin == bounds->0.loc.x
            &&& place.y.origin == bounds->0.loc.y
            &&& place.x.mirrored_in is None
            &&& place.y.mirrored_in is None
        },
{
}

/// A touch is mapped onto the output under it, if that is mapped, and the device points at the
/// output then; otherwise the device stays as it is.
pub proof fn touch_points_are_mapped_onto_their_output(
    target: Option<TouchTarget>,
    device: &mut EiDevice,
    global: GlobalPoint,
    position: Option<AbsolutePosition>,
)
    requires
        call_ensures(output_position, (target, device, global), position),
    ensures
        match target {
            Some(TouchTarget { output, geometry: Some(geometry), transform }) => {
                &&& position matches Some(place)
                &&& touches_at(place, geometry, transform, global.x, global.y)
                &&& final(device).output == Some(output)
                &&& same_device(*final(device), *old(device))
            },
            _ => position is None && *final(device) == *old(device),
        },
{
    if let Some(TouchTarget { output, geometry: Some(geometry), transform }) = target {
        lemma_touches_at(geometry, transform, global.x, global.y);
    }
}

/// A device of the seat has the number, the name and the capabilities that it was made with, and maps
/// into no output until it is set.
pub proof fn seat_devices_are_as_made(
    id: u64,
    name: String,
    capabilities: Vec<InputCapability>,
    device: EiDevice,
    capability: InputCapability,
    found: bool,
    key: u64,
    shown: String,
    text: String,
    moved: &mut EiDevice,
    target: Option<u64>,
    output: Option<u64>,
)
    requires
        call_ensures(EiDevice::new, (id, name, capabilities), device),
        call_ensures(EiDevice::has_capability, (&device, capability), found),
        call_ensures(EiDevice::key, (&device,), key),
        call_ensures(EiDevice::name, (&device,), shown),
        call_ensures(EiDevice::id, (&device,), text),
        *old(moved) == device,
        call_ensures(EiDevice::set_output, (moved, target), ()),
        call_ensures(EiDevice::output, (&*final(moved),), output),
    ensures
        key == id,
        shown@ == name@,
        text@ == "eis device "@ + crate::utils::text::decimal(id as nat),
        found <==> capabilities@.contains(capability),
        device.output is None,
        output == target,
        same_device(*final(moved), device),
{
}

} // verus!
