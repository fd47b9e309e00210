//! Input events that come from an EIS client.
//!
//! Injected events go through the compositor's input path like any other input, so remote input
//! triggers keybinds, wakes monitors, notifies the idle notifier and updates focus-follows-mouse
//! exactly like local input does.
//!
//! Coordinates and distances arrive as 32-bit floating point numbers. They pass through this module
//! as they are, each as the pattern of its bits.

use vstd::prelude::*;

use super::actions::OutputHandle;
use crate::utils::geometry::{Rectangle, Size, Transform};
use crate::utils::text::{decimal, decimal_text, join};

verus! {

/// Input backend for events emitted by an EIS client.
#[derive(Debug)]
pub struct EiInputBackend;

/// The bits of a 32-bit floating point number.
pub type FloatBits = u32;

/// A point in global logical coordinates.
#[derive(Debug, Clone, Copy, PartialEq, Eq, Structural)]
pub struct GlobalPoint {
    pub x: FloatBits,
    pub y: FloatBits,
}

/// What kind of events a device of the seat sends.
#[derive(Debug, Clone, Copy, PartialEq, Eq, Structural)]
pub enum InputCapability {
    Keyboard,
    Pointer,
    Touch,
}

/// One EIS device (a pointer, keyboard or touchscreen bound by the client).
#[derive(Debug)]
pub struct EiDevice {
    pub id: u64,
    pub name: String,
    pub keyboard: bool,
    pub pointer: bool,
    pub touch: bool,
    /// Output the absolute event being dispatched right now maps into.
    ///
    /// EIS clients send absolute coordinates in one flat region that covers all outputs, so which
    /// output an event lands on is a property of the event, not the device. The compositor asks the
    /// device, so this is set immediately before dispatching each event.
    pub output: Option<OutputHandle>,
}

impl EiDevice {
    /// Whether the device has a capability.
    pub open spec fn has(self, capability: InputCapability) -> bool {
        match capability {
            InputCapability::Keyboard => self.keyboard,
            InputCapability::Pointer => self.pointer,
            InputCapability::Touch => self.touch,
        }
    }

    /// The device with events that map into another output.
    pub open spec fn on_output(self, output: Option<OutputHandle>) -> EiDevice {
        EiDevice { output, ..self }
    }

    /// A device with the given capabilities that maps into no output.
    pub fn new(id: u64, name: String, capabilities: Vec<InputCapability>) -> (device: Self)
        ensures
            device.id == id,
            device.name == name,
            device.output is None,
            forall|capability: InputCapability| #[trigger]
                device.has(capability) == capabilities@.contains(capability),
    {
        let mut device = EiDevice {
            id,
            name,
            keyboard: false,
            pointer: false,
            touch: false,
            output: None,
        };
        for i in 0..capabilities.len()
            invariant
                device.id == id,
                device.name == name,
                device.output is None,
                forall|capability: InputCapability| #[trigger]
                    device.has(capability) == exists|j: int|
                        0 <= j < i && capabilities@[j] == capability,
        {
            let ghost before = device;
            match capabilities[i] {
                InputCapability::Keyboard => {
                    device.keyboard = true;
                },
                InputCapability::Pointer => {
                    device.pointer = true;
                },
                InputCapability::Touch => {
                    device.touch = true;
                },
            }
            assert forall|capability: InputCapability| #[trigger]
                device.has(capability) == exists|j: int|
                    0 <= j < i + 1 && capabilities@[j] == capability by {
                assert(before.has(capability) == exists|j: int|
                    0 <= j < i && capabilities@[j] == capability);
                assert(device.has(capability) == (before.has(capability)
                    || capabilities@[i as int] == capability));
            }
        }
        device
    }

    /// Makes the device's events map into an output, or into none.
    pub fn set_output(&mut self, output: Option<OutputHandle>)
        ensures
            *final(self) == old(self).on_output(output),
    {
        self.output = output;
    }

    /// Output the event being dispatched maps into.
    pub fn output(&self) -> (output: Option<OutputHandle>)
        ensures
            output == self.output,
    {
        self.output
    }

    /// Stable per-device key, for keeping per-device state on the side.
    pub fn key(&self) -> (key: u64)
        ensures
            key == self.id,
    {
        self.id
    }

    /// The name that tells devices apart.
    pub fn id(&self) -> (id: String)
        ensures
            id@ == "eis device "@ + decimal(self.id as nat),
    {
        let number = decimal_text(self.id);
        join("eis device ", number.as_str())
    }

    /// The name that is shown.
    pub fn name(&self) -> (name: String)
        ensures
            name == self.name,
    {
        self.name.clone()
    }

    /// Whether the device has a capability.
    pub fn has_capability(&self, capability: InputCapability) -> (found: bool)
        ensures
            found == self.has(capability),
    {
        match capability {
            InputCapability::Keyboard => self.keyboard,
            InputCapability::Pointer => self.pointer,
            InputCapability::Touch => self.touch,
        }
    }
}

impl Clone for EiDevice {
    fn clone(&self) -> (device: Self)
        ensures
            device == *self,
    {
        EiDevice {
            id: self.id,
            name: self.name.clone(),
            keyboard: self.keyboard,
            pointer: self.pointer,
            touch: self.touch,
            output: self.output,
        }
    }
}

impl PartialEq for EiDevice {
    fn eq(&self, other: &Self) -> (equal: bool) {
        self.id == other.id
    }
}

impl vstd::std_specs::cmp::PartialEqSpecImpl for EiDevice {
    open spec fn obeys_eq_spec() -> bool {
        true
    }

    open spec fn eq_spec(&self, other: &Self) -> bool {
        self.id == other.id
    }
}

impl Eq for EiDevice {

}

/// Where one coordinate of a position comes from.
#[derive(Debug, Clone, Copy, PartialEq, Eq, Structural)]
pub struct Coordinate {
    /// Whether it comes from the vertical coordinate of the global point.
    pub vertical: bool,
    /// Where the target begins on that axis; it is taken off.
    pub origin: i32,
    /// The length that the rest is taken off, if the target is mirrored on that axis.
    pub mirrored_in: Option<i32>,
}

impl Coordinate {
    /// The coordinate that comes of a global point.
    pub open spec fn of(self, x: int, y: int) -> int {
        let local = (if self.vertical {
            y
        } else {
            x
        }) - self.origin;
        match self.mirrored_in {
            Some(length) => length - local,
            None => local,
        }
    }
}

/// Position of an absolute event, already resolved to a coordinate space.
///
/// The position is expressed in `space`, which is the untransformed size of the target: either an
/// output (for touch, where the compositor needs a specific output) or the bounding rectangle of
/// all outputs (for the absolute pointer, which is mapped in global coordinates).
#[derive(Debug, Clone, Copy, PartialEq, Eq, Structural)]
pub struct AbsolutePosition {
    /// The global point.
    pub global: GlobalPoint,
    /// How the position comes of the global point.
    pub x: Coordinate,
    pub y: Coordinate,
    pub space: Size,
}

impl AbsolutePosition {
    /// The position that a global point would be mapped to.
    pub open spec fn position_of(self, x: int, y: int) -> (int, int) {
        (self.x.of(x, y), self.y.of(x, y))
    }
}

/// The output under a touch point.
#[derive(Debug, Clone, Copy, PartialEq, Eq, Structural)]
pub struct TouchTarget {
    pub output: OutputHandle,
    /// Where the output lies, if it is mapped.
    pub geometry: Option<Rectangle>,
    pub transform: Transform,
}

/// What the compositor knows of the outputs while an event is handled.
#[derive(Debug, Clone, Copy, PartialEq, Eq, Structural)]
pub struct Layout {
    /// The bounding rectangle of all outputs, if there are any.
    pub bounds: Option<Rectangle>,
    /// The output under the point of the event, if the event has a point and there is one.
    pub target: Option<TouchTarget>,
}

/// Where a global point lies in the bounding rectangle of all outputs.
pub open spec fn in_bounds(bounds: Rectangle, global: GlobalPoint) -> AbsolutePosition {
    AbsolutePosition {
        global,
        x: Coordinate { vertical: false, origin: bounds.loc.x, mirrored_in: None },
        y: Coordinate { vertical: true, origin: bounds.loc.y, mirrored_in: None },
        space: bounds.size,
    }
}

/// Maps a global logical point into the coordinate space used for absolute pointer events.
///
/// An absolute event of a device without an output is mapped over the bounding rectangle of all
/// outputs, so the position is relative to that.
pub fn global_position(bounds: Option<Rectangle>, global: GlobalPoint) -> (position:
    Option<AbsolutePosition>)
    ensures
        position == match bounds {
            Some(bounds) => Some(in_bounds(bounds, global)),
            None => None,
        },
{
    match bounds {
        Some(bounds) => Some(
            AbsolutePosition {
                global,
                x: Coordinate { vertical: false, origin: bounds.loc.x, mirrored_in: None },
                y: Coordinate { vertical: true, origin: bounds.loc.y, mirrored_in: None },
                space: bounds.size,
            },
        ),
        None => None,
    }
}

/// Whether two coordinates put a local point where a transform puts it.
pub open spec fn follows(
    x: Coordinate,
    y: Coordinate,
    transform: Transform,
    geometry: Rectangle,
) -> bool {
    forall|a: int, b: int| #[trigger]
        transform.placed(a - geometry.loc.x, b - geometry.loc.y, geometry.size) == (
            x.of(a, b),
            y.of(a, b),
        )
}

/// Where a global point lies on an output, before the output's transform.
pub open spec fn on_target(
    geometry: Rectangle,
    transform: Transform,
    global: GlobalPoint,
    position: AbsolutePosition,
) -> bool {
    &&& position.global == global
    &&& position.space == transform.undoing().sized(geometry.size)
    &&& follows(position.x, position.y, transform.undoing(), geometry)
}

/// The coordinates that put a local point where a transform puts it.
pub open spec fn coordinates(transform: Transform, geometry: Rectangle) -> (Coordinate, Coordinate) {
    let x = Coordinate { vertical: false, origin: geometry.loc.x, mirrored_in: None };
    let y = Coordinate { vertical: true, origin: geometry.loc.y, mirrored_in: None };
    let far_x = Coordinate { mirrored_in: Some(geometry.size.w), ..x };
    let far_y = Coordinate { mirrored_in: Some(geometry.size.h), ..y };
    match transform {
        Transform::Normal => (x, y),
        Transform::_90 => (far_y, x),
        Transform::_180 => (far_x, far_y),
        Transform::_270 => (y, far_x),
        Transform::Flipped => (far_x, y),
        Transform::Flipped90 => (y, x),
        Transform::Flipped180 => (x, far_y),
        Transform::Flipped270 => (far_y, far_x),
    }
}

/// The position of a global point on an output.
pub open spec fn position_on(
    geometry: Rectangle,
    transform: Transform,
    global: GlobalPoint,
) -> AbsolutePosition {
    let (x, y) = coordinates(transform.undoing(), geometry);
    AbsolutePosition { global, x, y, space: transform.undoing().sized(geometry.size) }
}

/// The coordinates put every point where the transform puts it.
pub proof fn coordinates_follow_the_transform(
    transform: Transform,
    geometry: Rectangle,
    global: GlobalPoint,
)
    ensures
        follows(
            coordinates(transform, geometry).0,
            coordinates(transform, geometry).1,
            transform,
            geometry,
        ),
        on_target(geometry, transform, global, position_on(geometry, transform, global)),
{
}

fn transformed_coordinates(transform: Transform, geometry: Rectangle) -> (result: (
    Coordinate,
    Coordinate,
))
    ensures
        result == coordinates(transform, geometry),
{
    let x = Coordinate { vertical: false, origin: geometry.loc.x, mirrored_in: None };
    let y = Coordinate { vertical: true, origin: geometry.loc.y, mirrored_in: None };
    let far_x = Coordinate {
        vertical: false,
        origin: geometry.loc.x,
        mirrored_in: Some(geometry.size.w),
    };
    let far_y = Coordinate {
        vertical: true,
        origin: geometry.loc.y,
        mirrored_in: Some(geometry.size.h),
    };
    match transform {
        Transform::Normal => (x, y),
        Transform::_90 => (far_y, x),
        Transform::_180 => (far_x, far_y),
        Transform::_270 => (y, far_x),
        Transform::Flipped => (far_x, y),
        Transform::Flipped90 => (y, x),
        Transform::Flipped180 => (x, far_y),
        Transform::Flipped270 => (far_y, far_x),
    }
}

/// Maps a global logical point onto the output that contains it, for touch.
///
/// Touch needs a specific output. The compositor undoes the output's transform on the position, so
/// the position is given in the untransformed space. The device points at the output afterwards.
pub fn output_position(
    target: Option<TouchTarget>,
    device: &mut EiDevice,
    global: GlobalPoint,
) -> (position: Option<AbsolutePosition>)
    ensures
        match target {
            Some(TouchTarget { output, geometry: Some(geometry), transform }) => {
                &&& position == Some(position_on(geometry, transform, global))
                &&& *final(device) == old(device).on_output(Some(output))
            },
            _ => position is None && *final(device) == *old(device),
        },
{
    let Some(target) = target else {
        return None;
    };
    let Some(geometry) = target.geometry else {
        return None;
    };
    let space = target.transform.undo().transform_size(geometry.size);
    let (x, y) = transformed_coordinates(target.transform.undo(), geometry);
    device.set_output(Some(target.output));
    Some(AbsolutePosition { global, x, y, space })
}

/// Mapping an absolute pointer event back over the bounding rectangle gives the global point.
pub proof fn absolute_pointers_reach_their_point(
    bounds: Rectangle,
    global: GlobalPoint,
    x: int,
    y: int,
)
    ensures
        ({
            let (a, b) = in_bounds(bounds, global).position_of(x, y);
            (a + bounds.loc.x, b + bounds.loc.y) == (x, y)
        }),
{
}

/// Undoing the transform of the output on the position of a touch event gives the global point.
pub proof fn touches_reach_their_point(
    geometry: Rectangle,
    transform: Transform,
    global: GlobalPoint,
    x: int,
    y: int,
)
    ensures
        ({
            let position = position_on(geometry, transform, global);
            let (a, b) = position.position_of(x, y);
            let (c, d) = transform.placed(a, b, position.space);
            (c + geometry.loc.x, d + geometry.loc.y) == (x, y)
        }),
{
    coordinates_follow_the_transform(transform.undoing(), geometry, global);
    crate::utils::geometry::undoing_gives_points_back(
        transform,
        x - geometry.loc.x,
        y - geometry.loc.y,
        geometry.size,
    );
    let placed = transform.undoing().placed(
        x - geometry.loc.x,
        y - geometry.loc.y,
        geometry.size,
    );
    assert(placed == position_on(geometry, transform, global).position_of(x, y));
}

/// Whether a button or a key is down.
#[derive(Debug, Clone, Copy, PartialEq, Eq, Structural)]
pub enum PressState {
    Released,
    Pressed,
}

/// An axis of a scroll device.
#[derive(Debug, Clone, Copy, PartialEq, Eq, Structural)]
pub enum Axis {
    Vertical,
    Horizontal,
}

/// What a scroll event comes from.
#[derive(Debug, Clone, Copy, PartialEq, Eq, Structural)]
pub enum AxisSource {
    Finger,
    Continuous,
    Wheel,
    WheelTilt,
}

/// Whether content moves with the finger or against it.
#[derive(Debug, Clone, Copy, PartialEq, Eq, Structural)]
pub enum AxisRelativeDirection {
    Identical,
    Inverted,
}

/// Scrolling that happened within one frame.
#[derive(Debug)]
pub struct AxisFrame {
    /// Milliseconds.
    pub time: u32,
    pub source: Option<AxisSource>,
    /// Whether content moves with the finger, horizontally and vertically.
    pub relative_direction: (AxisRelativeDirection, AxisRelativeDirection),
    /// The distances that were scrolled, one after another, horizontally and vertically.
    pub deltas: Vec<(FloatBits, FloatBits)>,
    /// Steps in fractions of 120.
    pub v120: Option<(i32, i32)>,
    pub stop: (bool, bool),
}

/// What an `AxisFrame` holds.
#[verifier::ext_equal]
pub struct AxisFrameView {
    pub time: u32,
    pub source: Option<AxisSource>,
    pub relative_direction: (AxisRelativeDirection, AxisRelativeDirection),
    pub deltas: Seq<(FloatBits, FloatBits)>,
    pub v120: Option<(i32, i32)>,
    pub stop: (bool, bool),
}

impl View for AxisFrame {
    type V = AxisFrameView;

    open spec fn view(&self) -> AxisFrameView {
        AxisFrameView {
            time: self.time,
            source: self.source,
            relative_direction: self.relative_direction,
            deltas: self.deltas@,
            v120: self.v120,
            stop: self.stop,
        }
    }
}

impl AxisFrameView {
    /// A frame in which nothing was scrolled yet.
    pub open spec fn fresh(time: u32) -> AxisFrameView {
        AxisFrameView {
            time,
            source: Some(AxisSource::Continuous),
            relative_direction: (
                AxisRelativeDirection::Identical,
                AxisRelativeDirection::Identical,
            ),
            deltas: Seq::empty(),
            v120: None,
            stop: (false, false),
        }
    }

    /// The frame with some scrolling more.
    pub open spec fn scrolled(self, dx: FloatBits, dy: FloatBits) -> AxisFrameView {
        AxisFrameView { deltas: self.deltas.push((dx, dy)), ..self }
    }

    /// The frame with the steps of a wheel. An axis that did not step keeps its steps.
    pub open spec fn stepped(self, dx: i32, dy: i32) -> AxisFrameView {
        let before = match self.v120 {
            Some(v120) => v120,
            None => (0, 0),
        };
        AxisFrameView {
            source: Some(AxisSource::Wheel),
            v120: if dx == 0 && dy == 0 {
                self.v120
            } else {
                Some(
                    (
                        if dx != 0 {
                            dx
                        } else {
                            before.0
                        },
                        if dy != 0 {
                            dy
                        } else {
                            before.1
                        },
                    ),
                )
            },
            ..self
        }
    }

    /// The frame with scrolling stopped on some axes.
    pub open spec fn stopped(self, x: bool, y: bool) -> AxisFrameView {
        AxisFrameView { stop: (self.stop.0 || x, self.stop.1 || y), ..self }
    }
}

impl AxisFrame {
    /// A frame in which nothing was scrolled yet.
    pub fn new(time: u32) -> (frame: Self)
        ensures
            frame@ == AxisFrameView::fresh(time),
    {
        AxisFrame {
            time,
            source: Some(AxisSource::Continuous),
            relative_direction: (
                AxisRelativeDirection::Identical,
                AxisRelativeDirection::Identical,
            ),
            deltas: Vec::new(),
            v120: None,
            stop: (false, false),
        }
    }

    /// Notes some scrolling.
    pub fn scroll(&mut self, dx: FloatBits, dy: FloatBits)
        ensures
            final(self)@ == old(self)@.scrolled(dx, dy),
    {
        self.deltas.push((dx, dy));
    }

    /// Notes the steps of a wheel.
    pub fn step(&mut self, dx: i32, dy: i32)
        ensures
            final(self)@ == old(self)@.stepped(dx, dy),
    {
        self.source = Some(AxisSource::Wheel);
        if dx != 0 {
            let vertical: i32 = match self.v120 {
                Some(v120) => v120.1,
                None => 0,
            };
            self.v120 = Some((dx, vertical));
        }
        if dy != 0 {
            let horizontal: i32 = match self.v120 {
                Some(v120) => v120.0,
                None => 0,
            };
            self.v120 = Some((horizontal, dy));
        }
    }

    /// Notes that scrolling stopped on some axes.
    pub fn stop(&mut self, x: bool, y: bool)
        ensures
            final(self)@ == old(self)@.stopped(x, y),
    {
        self.stop = (self.stop.0 || x, self.stop.1 || y);
    }
}

/// What belongs to an axis.
pub open spec fn along<T>(tuple: (T, T), axis: Axis) -> T {
    match axis {
        Axis::Horizontal => tuple.0,
        Axis::Vertical => tuple.1,
    }
}

/// Picks what belongs to an axis.
pub fn tuple_axis<T>(tuple: (T, T), axis: Axis) -> (value: T)
    ensures
        value == along(tuple, axis),
{
    match axis {
        Axis::Horizontal => tuple.0,
        Axis::Vertical => tuple.1,
    }
}

/// Relative motion of a pointer.
#[derive(Debug)]
pub struct EiPointerMotionEvent {
    pub device: EiDevice,
    /// Microseconds.
    pub time: u64,
    pub dx: FloatBits,
    pub dy: FloatBits,
}

/// Motion of a pointer to a position.
#[derive(Debug)]
pub struct EiPointerMotionAbsoluteEvent {
    pub device: EiDevice,
    pub time: u64,
    pub pos: AbsolutePosition,
}

/// A button that goes down or up.
#[derive(Debug)]
pub struct EiButtonEvent {
    pub device: EiDevice,
    pub time: u64,
    pub button: u32,
    pub state: PressState,
}

/// Scrolling.
#[derive(Debug)]
pub struct EiPointerAxisEvent {
    pub device: EiDevice,
    pub time: u64,
    pub frame: AxisFrame,
}

impl EiPointerAxisEvent {
    /// The distances that were scrolled on an axis, one after another.
    pub fn amounts(&self, axis: Axis) -> (amounts: Vec<FloatBits>)
        ensures
            amounts@ == self.frame@.deltas.map_values(
                |delta: (FloatBits, FloatBits)| along(delta, axis),
            ),
    {
        let mut amounts: Vec<FloatBits> = Vec::new();
        for i in 0..self.frame.deltas.len()
            invariant
                amounts.len() == i,
                forall|j: int|
                    0 <= j < i ==> #[trigger] amounts@[j] == along(self.frame@.deltas[j], axis),
        {
            amounts.push(tuple_axis(self.frame.deltas[i], axis));
        }
        assert(amounts@ =~= self.frame@.deltas.map_values(
            |delta: (FloatBits, FloatBits)| along(delta, axis),
        ));
        amounts
    }

    /// The steps on an axis, if the device has steps.
    pub fn amount_v120(&self, axis: Axis) -> (amount: Option<i32>)
        ensures
            amount == match self.frame.v120 {
                Some(v120) => Some(along(v120, axis)),
                None => None,
            },
    {
        match self.frame.v120 {
            Some(v120) => Some(tuple_axis(v120, axis)),
            None => None,
        }
    }

    /// What the scrolling comes from.
    pub fn source(&self) -> (source: AxisSource)
        ensures
            source == match self.frame.source {
                Some(source) => source,
                None => AxisSource::Continuous,
            },
    {
        match self.frame.source {
            Some(source) => source,
            None => AxisSource::Continuous,
        }
    }

    /// Whether content moves with the finger on an axis.
    pub fn relative_direction(&self, axis: Axis) -> (direction: AxisRelativeDirection)
        ensures
            direction == along(self.frame.relative_direction, axis),
    {
        tuple_axis(self.frame.relative_direction, axis)
    }
}

/// A key that goes down or up.
#[derive(Debug)]
pub struct EiKeyboardKeyEvent {
    pub device: EiDevice,
    pub time: u64,
    /// Evdev key code, as sent by the client.
    pub key: u32,
    pub state: PressState,
    pub count: u32,
}

impl EiKeyboardKeyEvent {
    /// The xkb key code. Evdev codes are offset by 8 in xkb space.
    pub fn key_code(&self) -> (code: u32)
        requires
            self.key + 8 <= u32::MAX,
        ensures
            code == self.key + 8,
    {
        self.key + 8
    }
}

/// A finger that touches the screen.
#[derive(Debug)]
pub struct EiTouchDownEvent {
    pub device: EiDevice,
    pub time: u64,
    pub slot: u32,
    pub pos: AbsolutePosition,
}

/// A finger that moves on the screen.
#[derive(Debug)]
pub struct EiTouchMotionEvent {
    pub device: EiDevice,
    pub time: u64,
    pub slot: u32,
    pub pos: AbsolutePosition,
}

/// A finger that leaves the screen.
#[derive(Debug)]
pub struct EiTouchUpEvent {
    pub device: EiDevice,
    pub time: u64,
    pub slot: u32,
}

/// A touch that does not count.
#[derive(Debug)]
pub struct EiTouchCancelEvent {
    pub device: EiDevice,
    pub time: u64,
    pub slot: u32,
}

/// The end of what happened at once on a touchscreen.
#[derive(Debug)]
pub struct EiTouchFrameEvent {
    pub device: EiDevice,
    pub time: u64,
}

/// An event for the compositor's input path.
#[allow(inconsistent_fields)]
#[derive(Debug)]
pub enum InputEvent {
    DeviceAdded { device: EiDevice },
    PointerMotion { event: EiPointerMotionEvent },
    PointerMotionAbsolute { event: EiPointerMotionAbsoluteEvent },
    PointerButton { event: EiButtonEvent },
    PointerAxis { event: EiPointerAxisEvent },
    Keyboard { event: EiKeyboardKeyEvent },
    TouchDown { event: EiTouchDownEvent },
    TouchMotion { event: EiTouchMotionEvent },
    TouchUp { event: EiTouchUpEvent },
    TouchCancel { event: EiTouchCancelEvent },
    TouchFrame { event: EiTouchFrameEvent },
}

} // verus!
