//! EIS (Emulated Input Server) side of `Session.ConnectToEIS`.
//!
//! A remote desktop service gets a socket from `ConnectToEIS` and speaks the libei protocol over
//! it. The device capabilities it asks for are bound, and the events it emits are turned into
//! [`InputEvent`]s, which go through the normal input path.

use std::collections::BTreeMap;
use vstd::prelude::*;
use vstd::string::*;

use super::actions::SourceToken;
use super::capabilities::{Capabilities, DeviceCapability};
use super::input::{
    AxisFrame, AxisFrameView, EiButtonEvent, EiDevice, EiKeyboardKeyEvent, EiPointerAxisEvent,
    EiPointerMotionAbsoluteEvent, EiPointerMotionEvent, EiTouchCancelEvent, EiTouchDownEvent,
    EiTouchFrameEvent, EiTouchMotionEvent, EiTouchUpEvent, FloatBits, GlobalPoint, InputCapability,
    InputEvent, Layout, PressState, TouchTarget, global_position, in_bounds, output_position,
    position_on,
};
use super::laws::{eis_events_keep_valid, other_changes_keep_valid};
use super::{EisConnection, RemoteDesktopView, SessionView};
use crate::niri::{NiriView, State};
use crate::utils::geometry::Rectangle;
use crate::utils::id::IdCounter;
use crate::utils::lists::{
    first_index, group_map_views, group_views, lemma_filter_empty, lemma_filter_push,
    lemma_first_index, lemma_is_first, lemma_take_push, map_views, views,
};
use crate::utils::RemoteDesktopSessionId;

verus! {

broadcast use group_views;

/// Identifies a device or a seat of the EIS library.
pub type EisHandle = u64;

/// The kinds of devices that are made for a client.
///
/// A pointer and a keyboard are separate devices; a relative and an absolute pointer are too,
/// because they are handled through different code paths.
#[derive(Debug, Clone, Copy, PartialEq, Eq, Structural)]
pub enum DeviceKind {
    Pointer,
    AbsolutePointer,
    Keyboard,
    Touchscreen,
}

impl DeviceKind {
    /// The name that is shown for the device.
    pub open spec fn label(self) -> Seq<char> {
        match self {
            DeviceKind::Pointer => "niri remote pointer"@,
            DeviceKind::AbsolutePointer => "niri remote absolute pointer"@,
            DeviceKind::Keyboard => "niri remote keyboard"@,
            DeviceKind::Touchscreen => "niri remote touchscreen"@,
        }
    }

    /// The capability that defines the device.
    pub open spec fn defined_by(self) -> DeviceCapability {
        match self {
            DeviceKind::Pointer => DeviceCapability::Pointer,
            DeviceKind::AbsolutePointer => DeviceCapability::PointerAbsolute,
            DeviceKind::Keyboard => DeviceCapability::Keyboard,
            DeviceKind::Touchscreen => DeviceCapability::Touch,
        }
    }

    /// What the device can do for the seat.
    pub open spec fn sends(self) -> InputCapability {
        match self {
            DeviceKind::Pointer => InputCapability::Pointer,
            DeviceKind::AbsolutePointer => InputCapability::Pointer,
            DeviceKind::Keyboard => InputCapability::Keyboard,
            DeviceKind::Touchscreen => InputCapability::Touch,
        }
    }

    /// The capabilities of the device: the one that defines it, and those that ride along when the
    /// client asked for them.
    pub open spec fn granted(self, asked: Capabilities) -> Capabilities {
        match self {
            DeviceKind::Pointer => Capabilities {
                pointer: asked.pointer,
                button: asked.button,
                scroll: asked.scroll,
                ..Capabilities::none()
            },
            DeviceKind::AbsolutePointer => Capabilities {
                pointer_absolute: asked.pointer_absolute,
                button: asked.button,
                scroll: asked.scroll,
                ..Capabilities::none()
            },
            DeviceKind::Keyboard => Capabilities {
                keyboard: asked.keyboard,
                ..Capabilities::none()
            },
            DeviceKind::Touchscreen => Capabilities { touch: asked.touch, ..Capabilities::none() },
        }
    }

    /// The name that is shown for the device.
    pub fn name(self) -> (name: &'static str)
        ensures
            name@ == self.label(),
    {
        match self {
            DeviceKind::Pointer => "niri remote pointer",
            DeviceKind::AbsolutePointer => "niri remote absolute pointer",
            DeviceKind::Keyboard => "niri remote keyboard",
            DeviceKind::Touchscreen => "niri remote touchscreen",
        }
    }

    /// The capability that defines the device.
    pub fn primary(self) -> (capability: DeviceCapability)
        ensures
            capability == self.defined_by(),
    {
        match self {
            DeviceKind::Pointer => DeviceCapability::Pointer,
            DeviceKind::AbsolutePointer => DeviceCapability::PointerAbsolute,
            DeviceKind::Keyboard => DeviceCapability::Keyboard,
            DeviceKind::Touchscreen => DeviceCapability::Touch,
        }
    }

    /// What the device can do for the seat.
    pub fn input_capability(self) -> (capability: InputCapability)
        ensures
            capability == self.sends(),
    {
        match self {
            DeviceKind::Pointer => InputCapability::Pointer,
            DeviceKind::AbsolutePointer => InputCapability::Pointer,
            DeviceKind::Keyboard => InputCapability::Keyboard,
            DeviceKind::Touchscreen => InputCapability::Touch,
        }
    }

    /// Whether the device sends points, and so has regions: the absolute pointer and the
    /// touchscreen do.
    pub open spec fn sends_points(self) -> bool {
        self == DeviceKind::AbsolutePointer || self == DeviceKind::Touchscreen
    }

    /// Whether the device sends points, and so has regions.
    pub fn is_absolute(self) -> (absolute: bool)
        ensures
            absolute == self.sends_points(),
    {
        match self {
            DeviceKind::AbsolutePointer | DeviceKind::Touchscreen => true,
            _ => false,
        }
    }

    /// Whether the device comes with a keymap.
    pub fn has_keymap(self) -> (keymap: bool)
        ensures
            keymap == (self == DeviceKind::Keyboard),
    {
        match self {
            DeviceKind::Keyboard => true,
            _ => false,
        }
    }

    /// The capabilities of the device.
    pub fn capabilities(self, asked: Capabilities) -> (granted: Capabilities)
        ensures
            granted == self.granted(asked),
    {
        let mut kind = Capabilities::empty().with(self.primary());
        match self {
            DeviceKind::Pointer | DeviceKind::AbsolutePointer => {
                kind = kind.with(DeviceCapability::Button).with(DeviceCapability::Scroll);
            },
            _ => {},
        }
        let granted = kind.intersection(asked);
        proof {
            assert forall|capability: DeviceCapability|
                granted@.contains(capability) == self.granted(asked)@.contains(capability) by {}
            assert(granted@ =~= self.granted(asked)@);
            super::capabilities::lemma_capabilities_equal(granted, self.granted(asked));
        }
        granted
    }
}

/// Everything that the seat can do.
pub open spec fn seat_capabilities() -> Capabilities {
    Capabilities {
        pointer: true,
        pointer_absolute: true,
        keyboard: true,
        touch: true,
        scroll: true,
        button: true,
        text: false,
    }
}

/// Capabilities we advertise on the seat.
pub fn advertised_capabilities() -> (capabilities: Capabilities)
    ensures
        capabilities == seat_capabilities(),
{
    Capabilities {
        pointer: true,
        pointer_absolute: true,
        keyboard: true,
        touch: true,
        scroll: true,
        button: true,
        text: false,
    }
}

/// Every device that is made for a client has capabilities that the seat advertises.
pub proof fn devices_keep_to_the_seat(
    kind: DeviceKind,
    asked: Capabilities,
    capability: DeviceCapability,
)
    requires
        kind.granted(asked).has(capability),
    ensures
        seat_capabilities().has(capability),
        asked.has(capability),
{
}

/// Hands out the number of a device.
pub fn next_device_id(counter: &mut IdCounter) -> (id: u64)
    requires
        old(counter).can_supply(1),
    ensures
        id == old(counter).value,
        final(counter).value == id + 1,
{
    counter.next()
}

/// Part of the screen that a device covers.
#[derive(Debug, Clone, Copy, PartialEq, Eq, Structural)]
pub struct Region {
    pub x: u32,
    pub y: u32,
    pub width: u32,
    pub height: u32,
}

/// A number, or zero if it is below.
pub open spec fn at_least_zero(value: i32) -> u32 {
    if value < 0 {
        0
    } else {
        value as u32
    }
}

fn clamped(value: i32) -> (result: u32)
    ensures
        result == at_least_zero(value),
{
    if value < 0 {
        0
    } else {
        value as u32
    }
}

/// The region that an output with the given geometry makes on a device.
pub open spec fn region_of(geometry: Rectangle) -> Region {
    Region {
        x: at_least_zero(geometry.loc.x),
        y: at_least_zero(geometry.loc.y),
        width: at_least_zero(geometry.size.w),
        height: at_least_zero(geometry.size.h),
    }
}

/// The region that an output makes on a device.
///
/// Absolute coordinates are global logical coordinates, so the regions are just the output
/// geometries.
pub fn device_region(geometry: Rectangle) -> (region: Region)
    ensures
        region == region_of(geometry),
{
    Region {
        x: clamped(geometry.loc.x),
        y: clamped(geometry.loc.y),
        width: clamped(geometry.size.w),
        height: clamped(geometry.size.h),
    }
}

/// The geometries of the outputs that are mapped.
pub open spec fn mapped(geometries: Seq<Option<Rectangle>>) -> Seq<Rectangle>
    decreases geometries.len(),
{
    if geometries.len() == 0 {
        Seq::empty()
    } else {
        match geometries.last() {
            Some(geometry) => mapped(geometries.drop_last()).push(geometry),
            None => mapped(geometries.drop_last()),
        }
    }
}

/// The regions we advertise: one per output, in global logical coordinates.
pub fn region_list(geometries: &Vec<Option<Rectangle>>) -> (regions: Vec<Rectangle>)
    ensures
        regions@ == mapped(geometries@),
{
    let mut regions: Vec<Rectangle> = Vec::new();
    for i in 0..geometries.len()
        invariant
            regions@ == mapped(geometries@.take(i as int)),
    {
        proof {
            lemma_take_push(geometries@, i as int);
            assert(geometries@.take(i + 1).drop_last() =~= geometries@.take(i as int));
        }
        if let Some(geometry) = geometries[i] {
            regions.push(geometry);
        }
    }
    assert(geometries@.take(geometries.len() as int) =~= geometries@);
    regions
}

/// The regions of a new device: one for each output that is mapped, in order, if the device sends
/// points, and none otherwise.
pub open spec fn regions_of(kind: DeviceKind, geometries: Seq<Option<Rectangle>>) -> Seq<Region> {
    if kind.sends_points() {
        mapped(geometries).map_values(|geometry: Rectangle| region_of(geometry))
    } else {
        Seq::empty()
    }
}

/// The regions of a new device, given where the outputs lie.
pub fn device_regions(kind: DeviceKind, geometries: &Vec<Option<Rectangle>>) -> (regions: Vec<
    Region,
>)
    ensures
        regions@ == regions_of(kind, geometries@),
{
    let mut regions: Vec<Region> = Vec::new();
    if kind.is_absolute() {
        let outputs = region_list(geometries);
        for i in 0..outputs.len()
            invariant
                regions.len() == i,
                forall|j: int| 0 <= j < i ==> #[trigger] regions@[j] == region_of(outputs@[j]),
        {
            regions.push(device_region(outputs[i]));
        }
    }
    assert(regions@ =~= regions_of(kind, geometries@));
    regions
}

/// Where every output is mapped at a point that is not negative, an absolute device has one region
/// for each output: its geometry, in global logical coordinates.
pub proof fn regions_are_the_outputs(kind: DeviceKind, geometries: Seq<Option<Rectangle>>)
    requires
        kind.sends_points(),
        forall|i: int|
            0 <= i < geometries.len() ==> ((#[trigger] geometries[i]) matches Some(geometry)
                && geometry.loc.x >= 0 && geometry.loc.y >= 0 && geometry.size.w >= 0
                && geometry.size.h >= 0),
    ensures
        regions_of(kind, geometries).len() == geometries.len(),
        forall|i: int|
            0 <= i < geometries.len() ==> {
                let region = #[trigger] regions_of(kind, geometries)[i];
                let geometry = geometries[i]->0;
                &&& region.x == geometry.loc.x
                &&& region.y == geometry.loc.y
                &&& region.width == geometry.size.w
                &&& region.height == geometry.size.h
            },
{
    lemma_all_mapped(geometries);
}

proof fn lemma_all_mapped(geometries: Seq<Option<Rectangle>>)
    requires
        forall|i: int| 0 <= i < geometries.len() ==> (#[trigger] geometries[i]) is Some,
    ensures
        mapped(geometries).len() == geometries.len(),
        forall|i: int|
            0 <= i < geometries.len() ==> #[trigger] mapped(geometries)[i] == geometries[i]->0,
    decreases geometries.len(),
{
    if geometries.len() > 0 {
        let rest = geometries.drop_last();
        assert forall|i: int| 0 <= i < rest.len() implies (#[trigger] rest[i]) is Some by {
            assert(geometries[i] is Some);
        }
        lemma_all_mapped(rest);
        assert(geometries[geometries.len() - 1] is Some);
        assert forall|i: int| 0 <= i < geometries.len() implies #[trigger] mapped(geometries)[i]
            == geometries[i]->0 by {
            if i < rest.len() {
                assert(mapped(geometries)[i] == mapped(rest)[i]);
            }
        }
    }
}

/// What an EIS client asks for.
#[allow(inconsistent_fields)]
#[derive(Debug, Clone, Copy)]
pub enum EisRequest {
    Disconnect,
    Bind { capabilities: Capabilities },
    DeviceClosed { device: EisHandle },
    Frame { device: EisHandle, time: u64 },
    PointerMotion { device: EisHandle, time: u64, dx: FloatBits, dy: FloatBits },
    PointerMotionAbsolute { device: EisHandle, time: u64, x: FloatBits, y: FloatBits },
    Button { device: EisHandle, time: u64, button: u32, state: PressState },
    ScrollDelta { device: EisHandle, time: u64, dx: FloatBits, dy: FloatBits },
    ScrollDiscrete { device: EisHandle, time: u64, discrete_dx: i32, discrete_dy: i32 },
    ScrollStop { device: EisHandle, time: u64, x: bool, y: bool },
    ScrollCancel { device: EisHandle, time: u64, x: bool, y: bool },
    KeyboardKey { device: EisHandle, time: u64, key: u32, state: PressState },
    TouchDown { device: EisHandle, time: u64, touch_id: u32, x: FloatBits, y: FloatBits },
    TouchMotion { device: EisHandle, time: u64, touch_id: u32, x: FloatBits, y: FloatBits },
    TouchUp { device: EisHandle, time: u64, touch_id: u32 },
    TouchCancel { device: EisHandle, time: u64, touch_id: u32 },
    /// Anything else, which means nothing to the compositor.
    Other,
}

/// What happens on an EIS connection.
#[derive(Debug, Clone, Copy)]
pub enum EisEvent {
    /// The handshake is done.
    Connected,
    /// The client asks for something.
    Request(EisRequest),
    /// The connection broke.
    Failed,
}

/// Whether the source of an EIS connection stays in the event loop.
#[derive(Debug, Clone, Copy, PartialEq, Eq, Structural)]
pub enum PostAction {
    Continue,
    Remove,
}

/// One thing to do on an EIS connection.
#[allow(inconsistent_fields)]
#[derive(Debug)]
pub enum EisAction {
    /// Add the seat, with the capabilities that are advertised.
    AddSeat { capabilities: Capabilities },
    /// Add a device to the seat and resume it, and call `EisConnectionState::device_added`. The
    /// device is announced with these regions at scale 1, and with the seat's keymap if it says so.
    AddDevice {
        kind: DeviceKind,
        capabilities: Capabilities,
        regions: Vec<Region>,
        keymap: bool,
    },
    /// Remove a device from the seat.
    RemoveDevice { device: EisHandle },
    /// Hand an event to the input path.
    Input(InputEvent),
    /// Send to the client what is queued.
    Flush,
}

/// What an `EisAction` says.
#[allow(inconsistent_fields)]
pub enum EisActionView {
    AddSeat { capabilities: Capabilities },
    AddDevice {
        kind: DeviceKind,
        capabilities: Capabilities,
        regions: Seq<Region>,
        keymap: bool,
    },
    RemoveDevice { device: EisHandle },
    Input(InputEvent),
    Flush,
}

impl View for EisAction {
    type V = EisActionView;

    open spec fn view(&self) -> EisActionView {
        match *self {
            EisAction::AddSeat { capabilities } => EisActionView::AddSeat { capabilities },
            EisAction::AddDevice { kind, capabilities, regions, keymap } => {
                EisActionView::AddDevice { kind, capabilities, regions: regions@, keymap }
            },
            EisAction::RemoveDevice { device } => EisActionView::RemoveDevice { device },
            EisAction::Input(event) => EisActionView::Input(event),
            EisAction::Flush => EisActionView::Flush,
        }
    }
}

/// A device of a client.
#[derive(Debug)]
pub struct BoundDevice {
    /// The device of the EIS library.
    pub handle: EisHandle,
    pub capabilities: Capabilities,
    /// The device of the seat.
    pub device: EiDevice,
}

/// Per-connection EIS state.
#[derive(Debug)]
pub struct EisConnectionState {
    /// Whether the seat was added.
    pub seat: bool,
    /// Devices we created.
    pub devices: Vec<BoundDevice>,
    /// Scroll deltas accumulated since the last frame, per device.
    pub axis_frames: BTreeMap<u64, AxisFrame>,
    /// The devices on which a touch event happened since their last frame.
    pub touch_frames: Vec<u64>,
    /// Capabilities the client bound, remembered so a persistent session can recreate them.
    pub bound: Capabilities,
}

/// What an `EisConnectionState` holds.
#[verifier::ext_equal]
pub struct EisView {
    pub seat: bool,
    pub devices: Seq<BoundDevice>,
    pub axis_frames: Map<u64, AxisFrameView>,
    pub touch_frames: Seq<u64>,
    pub bound: Capabilities,
}

impl View for EisConnectionState {
    type V = EisView;

    open spec fn view(&self) -> EisView {
        EisView {
            seat: self.seat,
            devices: self.devices@,
            axis_frames: map_views(self.axis_frames@),
            touch_frames: self.touch_frames@,
            bound: self.bound,
        }
    }
}

/// Whether a device is the one of the EIS library with the given handle.
pub open spec fn handled_by(handle: EisHandle) -> spec_fn(BoundDevice) -> bool {
    |device: BoundDevice| device.handle == handle
}

/// Whether a device is another one than that with the given handle.
pub open spec fn not_handled_by(handle: EisHandle) -> spec_fn(BoundDevice) -> bool {
    |device: BoundDevice| device.handle != handle
}

/// Whether a device has none of the given capabilities.
pub open spec fn free_of(capabilities: Capabilities) -> spec_fn(BoundDevice) -> bool {
    |device: BoundDevice| device.capabilities@.disjoint(capabilities@)
}

/// Whether a device has one of the given capabilities.
pub open spec fn touched_by(capabilities: Capabilities) -> spec_fn(BoundDevice) -> bool {
    |device: BoundDevice| !device.capabilities@.disjoint(capabilities@)
}

/// Whether a number is another one.
pub open spec fn other_id(id: u64) -> spec_fn(u64) -> bool {
    |other: u64| other != id
}

/// Removing some devices.
pub open spec fn devices_removed(devices: Seq<BoundDevice>) -> Seq<EisActionView> {
    devices.map_values(|device: BoundDevice| EisActionView::RemoveDevice { device: device.handle })
}

/// Whether some device has a capability.
pub open spec fn provided(devices: Seq<BoundDevice>, capability: DeviceCapability) -> bool {
    exists|i: int| 0 <= i < devices.len() && (#[trigger] devices[i]).capabilities.has(capability)
}

/// Making a device of a kind, if the client asked for it and has none.
///
/// A device that sends points is announced with the regions of the outputs, and the keyboard with
/// the keymap.
pub open spec fn device_made(
    kind: DeviceKind,
    devices: Seq<BoundDevice>,
    asked: Capabilities,
    geometries: Seq<Option<Rectangle>>,
) -> Seq<EisActionView> {
    if asked.has(kind.defined_by()) && !provided(devices, kind.defined_by()) {
        seq![
            EisActionView::AddDevice {
                kind,
                capabilities: kind.granted(asked),
                regions: regions_of(kind, geometries),
                keymap: kind == DeviceKind::Keyboard,
            },
        ]
    } else {
        Seq::empty()
    }
}

/// Making the devices that the client asked for and has not.
pub open spec fn devices_made(
    devices: Seq<BoundDevice>,
    asked: Capabilities,
    geometries: Seq<Option<Rectangle>>,
) -> Seq<EisActionView> {
    device_made(DeviceKind::Pointer, devices, asked, geometries) + device_made(
        DeviceKind::AbsolutePointer,
        devices,
        asked,
        geometries,
    ) + device_made(DeviceKind::Keyboard, devices, asked, geometries) + device_made(
        DeviceKind::Touchscreen,
        devices,
        asked,
        geometries,
    )
}

/// The capabilities that were bound and are not asked for anymore.
pub open spec fn unbound(bound: Capabilities, asked: Capabilities) -> Capabilities {
    Capabilities {
        pointer: bound.pointer && !asked.pointer,
        pointer_absolute: bound.pointer_absolute && !asked.pointer_absolute,
        keyboard: bound.keyboard && !asked.keyboard,
        touch: bound.touch && !asked.touch,
        scroll: bound.scroll && !asked.scroll,
        button: bound.button && !asked.button,
        text: bound.text && !asked.text,
    }
}

/// A time in microseconds, in milliseconds of 32 bits.
pub open spec fn milliseconds(time: u64) -> u32 {
    ((time / 1000) % 0x1_0000_0000) as u32
}

impl EisView {
    /// A connection on which nothing happened.
    pub open spec fn fresh() -> EisView {
        EisView {
            seat: false,
            devices: Seq::empty(),
            axis_frames: Map::empty(),
            touch_frames: Seq::empty(),
            bound: Capabilities::none(),
        }
    }

    /// Whether every device has bound capabilities only, and no two devices share one that defines
    /// a kind.
    pub open spec fn orderly(self) -> bool {
        &&& forall|i: int, capability: DeviceCapability|
            0 <= i < self.devices.len() && #[trigger] self.devices[i].capabilities.has(capability)
                ==> self.bound.has(capability)
        &&& forall|i: int, j: int, kind: DeviceKind|
            #![trigger self.devices[i].capabilities.has(kind.defined_by()), self.devices[j].capabilities.has(kind.defined_by())]
            0 <= i < j < self.devices.len() && self.devices[i].capabilities.has(kind.defined_by())
                ==> !self.devices[j].capabilities.has(kind.defined_by())
    }

    /// Whether another state of the connection has one device more, with the given capabilities,
    /// and is otherwise the same.
    pub open spec fn gains(self, capabilities: Capabilities, after: EisView) -> bool {
        &&& after == (EisView { devices: self.devices.push(after.devices.last()), ..self })
        &&& after.devices.last().capabilities == capabilities
    }

    /// Where the device with the given handle stands.
    pub open spec fn device_for(self, handle: EisHandle) -> Option<int> {
        first_index(self.devices, handled_by(handle))
    }

    /// The connection with a device whose events map into another output.
    pub open spec fn with_output(self, index: int, output: Option<u64>) -> EisView {
        let device = self.devices[index];
        EisView {
            devices: self.devices.update(
                index,
                BoundDevice { device: device.device.on_output(output), ..device },
            ),
            ..self
        }
    }

    /// The scrolling of a device since its last frame.
    pub open spec fn axis_frame(self, key: u64, time: u64) -> AxisFrameView {
        if self.axis_frames.contains_key(key) {
            self.axis_frames[key]
        } else {
            AxisFrameView::fresh(milliseconds(time))
        }
    }

    /// The connection with some scrolling more.
    pub open spec fn with_axis_frame(self, key: u64, frame: AxisFrameView) -> EisView {
        EisView { axis_frames: self.axis_frames.insert(key, frame), ..self }
    }

    /// The connection with a device that was touched.
    pub open spec fn with_touch(self, key: u64) -> EisView {
        EisView { touch_frames: self.touch_frames.push(key), ..self }
    }

    /// The connection once the client asked for capabilities.
    pub open spec fn after_bind(self, asked: Capabilities) -> EisView {
        if self.seat {
            EisView {
                devices: self.devices.filter(free_of(unbound(self.bound, asked))),
                bound: asked,
                ..self
            }
        } else {
            self
        }
    }

    /// What asking for capabilities does: unbinding a capability removes the devices that provided
    /// it, and a new one adds its device.
    pub open spec fn bind_actions(
        self,
        asked: Capabilities,
        geometries: Seq<Option<Rectangle>>,
    ) -> Seq<EisActionView> {
        if self.seat {
            devices_removed(self.devices.filter(touched_by(unbound(self.bound, asked))))
                + devices_made(
                self.devices.filter(free_of(unbound(self.bound, asked))),
                asked,
                geometries,
            )
        } else {
            Seq::empty()
        }
    }

    /// The connection once a device was closed by the client.
    pub open spec fn after_close(self, handle: EisHandle) -> EisView {
        EisView { devices: self.devices.filter(not_handled_by(handle)), ..self }
    }

    /// The connection once the client asked for input.
    pub open spec fn after_input(self, request: EisRequest, layout: Layout) -> EisView {
        match request {
            EisRequest::PointerMotion { device, time, dx, dy } => match self.device_for(device) {
                Some(index) => self.with_output(index, None),
                None => self,
            },
            EisRequest::PointerMotionAbsolute { device, time, x, y } => match (
                self.device_for(device),
                layout.bounds,
            ) {
                (Some(index), Some(bounds)) => self.with_output(index, None),
                _ => self,
            },
            EisRequest::Button { device, time, button, state } => match self.device_for(device) {
                Some(index) => self.with_output(index, None),
                None => self,
            },
            EisRequest::ScrollDelta { device, time, dx, dy } => match self.device_for(device) {
                Some(index) => {
                    let key = self.devices[index].device.id;
                    self.with_axis_frame(key, self.axis_frame(key, time).scrolled(dx, dy))
                },
                None => self,
            },
            EisRequest::ScrollDiscrete { device, time, discrete_dx, discrete_dy } => {
                match self.device_for(device) {
                    Some(index) => {
                        let key = self.devices[index].device.id;
                        self.with_axis_frame(
                            key,
                            self.axis_frame(key, time).stepped(discrete_dx, discrete_dy),
                        )
                    },
                    None => self,
                }
            },
            EisRequest::ScrollStop { device, time, x, y } => match self.device_for(device) {
                Some(index) => {
                    let key = self.devices[index].device.id;
                    self.with_axis_frame(key, self.axis_frame(key, time).stopped(x, y))
                },
                None => self,
            },
            EisRequest::ScrollCancel { device, time, x, y } => match self.device_for(device) {
                Some(index) => {
                    let key = self.devices[index].device.id;
                    self.with_axis_frame(key, self.axis_frame(key, time).stopped(x, y))
                },
                None => self,
            },
            EisRequest::TouchDown { device, time, touch_id, x, y } => self.after_touch(
                device,
                layout,
            ),
            EisRequest::TouchMotion { device, time, touch_id, x, y } => self.after_touch(
                device,
                layout,
            ),
            EisRequest::TouchUp { device, time, touch_id } => match self.device_for(device) {
                Some(index) => self.with_touch(self.devices[index].device.id),
                None => self,
            },
            EisRequest::TouchCancel { device, time, touch_id } => match self.device_for(device) {
                Some(index) => self.with_touch(self.devices[index].device.id),
                None => self,
            },
            _ => self,
        }
    }

    /// The connection once a finger touched a point, where there is an output under it.
    pub open spec fn after_touch(self, device: EisHandle, layout: Layout) -> EisView {
        match (self.device_for(device), layout.target) {
            (
                Some(index),
                Some(TouchTarget { output, geometry: Some(geometry), transform }),
            ) => self.with_output(index, Some(output)).with_touch(self.devices[index].device.id),
            _ => self,
        }
    }

    /// What asking for input does. A device that is not known does nothing.
    pub open spec fn input_actions(self, request: EisRequest, layout: Layout) -> Seq<EisActionView> {
        match request {
            EisRequest::PointerMotion { device, time, dx, dy } => match self.device_for(device) {
                Some(index) => seq![
                    EisActionView::Input(
                        InputEvent::PointerMotion {
                            event: EiPointerMotionEvent {
                                device: self.devices[index].device.on_output(None),
                                time,
                                dx,
                                dy,
                            },
                        },
                    ),
                ],
                None => Seq::empty(),
            },
            EisRequest::PointerMotionAbsolute { device, time, x, y } => match (
                self.device_for(device),
                layout.bounds,
            ) {
                (Some(index), Some(bounds)) => seq![
                    EisActionView::Input(
                        InputEvent::PointerMotionAbsolute {
                            event: EiPointerMotionAbsoluteEvent {
                                device: self.devices[index].device.on_output(None),
                                time,
                                pos: in_bounds(bounds, GlobalPoint { x, y }),
                            },
                        },
                    ),
                ],
                _ => Seq::empty(),
            },
            EisRequest::Button { device, time, button, state } => match self.device_for(device) {
                Some(index) => seq![
                    EisActionView::Input(
                        InputEvent::PointerButton {
                            event: EiButtonEvent {
                                device: self.devices[index].device.on_output(None),
                                time,
                                button,
                                state,
                            },
                        },
                    ),
                ],
                None => Seq::empty(),
            },
            EisRequest::KeyboardKey { device, time, key, state } => match self.device_for(device) {
                Some(index) => seq![
                    EisActionView::Input(
                        InputEvent::Keyboard {
                            event: EiKeyboardKeyEvent {
                                device: self.devices[index].device,
                                time,
                                key,
                                state,
                                count: 1,
                            },
                        },
                    ),
                ],
                None => Seq::empty(),
            },
            EisRequest::TouchDown { device, time, touch_id, x, y } => match (
                self.device_for(device),
                layout.target,
            ) {
                (
                    Some(index),
                    Some(TouchTarget { output, geometry: Some(geometry), transform }),
                ) => seq![
                    EisActionView::Input(
                        InputEvent::TouchDown {
                            event: EiTouchDownEvent {
                                device: self.devices[index].device.on_output(Some(output)),
                                time,
                                slot: touch_id,
                                pos: position_on(geometry, transform, GlobalPoint { x, y }),
                            },
                        },
                    ),
                ],
                _ => Seq::empty(),
            },
            EisRequest::TouchMotion { device, time, touch_id, x, y } => match (
                self.device_for(device),
                layout.target,
            ) {
                (
                    Some(index),
                    Some(TouchTarget { output, geometry: Some(geometry), transform }),
                ) => seq![
                    EisActionView::Input(
                        InputEvent::TouchMotion {
                            event: EiTouchMotionEvent {
                                device: self.devices[index].device.on_output(Some(output)),
                                time,
                                slot: touch_id,
                                pos: position_on(geometry, transform, GlobalPoint { x, y }),
                            },
                        },
                    ),
                ],
                _ => Seq::empty(),
            },
            EisRequest::TouchUp { device, time, touch_id } => match self.device_for(device) {
                Some(index) => seq![
                    EisActionView::Input(
                        InputEvent::TouchUp {
                            event: EiTouchUpEvent {
                                device: self.devices[index].device,
                                time,
                                slot: touch_id,
                            },
                        },
                    ),
                ],
                None => Seq::empty(),
            },
            EisRequest::TouchCancel { device, time, touch_id } => match self.device_for(device) {
                Some(index) => seq![
                    EisActionView::Input(
                        InputEvent::TouchCancel {
                            event: EiTouchCancelEvent {
                                device: self.devices[index].device,
                                time,
                                slot: touch_id,
                            },
                        },
                    ),
                ],
                None => Seq::empty(),
            },
            _ => Seq::empty(),
        }
    }

    /// The connection once a device ended its frame.
    pub open spec fn after_frame(self, handle: EisHandle) -> EisView {
        match self.device_for(handle) {
            Some(index) => {
                let key = self.devices[index].device.id;
                let scrolled = if self.axis_frames.contains_key(key) {
                    EisView {
                        axis_frames: self.axis_frames.remove(key),
                        ..self.with_output(index, None)
                    }
                } else {
                    self
                };
                EisView { touch_frames: self.touch_frames.filter(other_id(key)), ..scrolled }
            },
            None => self,
        }
    }

    /// Whether the given actions are what the end of a device's frame does: the scrolling since the
    /// last frame is handed on, and then the end of the touches, if there were any.
    pub open spec fn frame_actions(
        self,
        handle: EisHandle,
        time: u64,
        actions: Seq<EisActionView>,
    ) -> bool {
        match self.device_for(handle) {
            Some(index) => {
                let device = self.devices[index].device;
                let scrolled = self.axis_frames.contains_key(device.id);
                let touched = self.touch_frames.contains(device.id);
                let first: int = if scrolled {
                    1
                } else {
                    0
                };
                &&& actions.len() == first + (if touched {
                    1int
                } else {
                    0
                })
                &&& scrolled ==> {
                    &&& actions[0] matches EisActionView::Input(InputEvent::PointerAxis { event })
                    &&& event.device == device.on_output(None)
                    &&& event.time == time
                    &&& event.frame@ == self.axis_frames[device.id]
                }
                &&& touched ==> actions[first] == EisActionView::Input(
                    InputEvent::TouchFrame {
                        event: EiTouchFrameEvent {
                            device: if scrolled {
                                device.on_output(None)
                            } else {
                                device
                            },
                            time,
                        },
                    },
                )
            },
            None => actions.len() == 0,
        }
    }
}

impl NiriView {
    /// The compositor once the client of a session went away.
    pub open spec fn eis_taken(
        self,
        session: RemoteDesktopSessionId,
        bound: Capabilities,
    ) -> NiriView {
        NiriView {
            remote_desktop: self.remote_desktop.with_session(
                session,
                self.remote_desktop.sessions[session].without_eis(bound),
            ),
            ..self
        }
    }

    /// The compositor once the client of a session has bound capabilities.
    pub open spec fn eis_bound(
        self,
        session: RemoteDesktopSessionId,
        bound: Capabilities,
    ) -> NiriView {
        NiriView {
            remote_desktop: self.remote_desktop.with_session(
                session,
                self.remote_desktop.sessions[session].with_eis_bound(bound),
            ),
            ..self
        }
    }
}

/// A time in microseconds, in milliseconds of 32 bits.
fn to_milliseconds(time: u64) -> (result: u32)
    ensures
        result == milliseconds(time),
{
    let whole: u64 = time / 1000;
    let result: u32 = (whole % 0x1_0000_0000) as u32;
    result
}

impl EisConnectionState {
    /// A connection on which nothing happened.
    pub fn new() -> (connection: Self)
        ensures
            connection@ == EisView::fresh(),
            connection@.orderly(),
    {
        let connection = EisConnectionState {
            seat: false,
            devices: Vec::new(),
            axis_frames: BTreeMap::new(),
            touch_frames: Vec::new(),
            bound: Capabilities::empty(),
        };
        assert(connection@.axis_frames =~= Map::<u64, AxisFrameView>::empty());
        connection
    }

    /// Tears the connection down. The session keeps the bound capabilities if it is persistent.
    pub fn destroy(&mut self, state: &mut State, session: RemoteDesktopSessionId)
        ensures
            final(self)@ == (EisView { seat: false, devices: Seq::empty(), ..old(self)@ }),
            final(state)@ == old(state)@.eis_taken(session, old(self)@.bound),
            old(state)@.valid() ==> final(state)@.valid(),
    {
        proof {
            if state@.valid() {
                eis_events_keep_valid(state@, session, self@.bound);
            }
        }
        self.devices.clear();
        self.seat = false;
        state.niri.remote_desktop.take_eis(session, self.bound);
    }

    /// Where the device with the given handle stands.
    fn device_for(&self, handle: EisHandle) -> (found: Option<usize>)
        ensures
            match found {
                Some(index) => self@.device_for(handle) == Some(index as int) && index
                    < self.devices.len(),
                None => self@.device_for(handle) is None,
            },
    {
        let ghost wanted = handled_by(handle);
        for i in 0..self.devices.len()
            invariant
                wanted == handled_by(handle),
                forall|j: int| 0 <= j < i ==> !wanted(#[trigger] self.devices@[j]),
        {
            if self.devices[i].handle == handle {
                proof {
                    lemma_is_first(self.devices@, wanted, i as int);
                }
                return Some(i);
            }
        }
        proof {
            lemma_first_index(self.devices@, wanted);
        }
        None
    }

    /// Whether some device has a capability.
    fn has_device(&self, capability: DeviceCapability) -> (found: bool)
        ensures
            found == provided(self@.devices, capability),
    {
        for i in 0..self.devices.len()
            invariant
                forall|j: int|
                    0 <= j < i ==> !(#[trigger] self.devices@[j]).capabilities.has(capability),
        {
            if self.devices[i].capabilities.contains(capability) {
                return true;
            }
        }
        false
    }

    /// Removes the devices that have one of the given capabilities.
    fn remove_devices(&mut self, removed: Capabilities, actions: &mut Vec<EisAction>)
        ensures
            final(self)@ == (EisView {
                devices: old(self)@.devices.filter(free_of(removed)),
                ..old(self)@
            }),
            views(final(actions)@) == views(old(actions)@) + devices_removed(
                old(self)@.devices.filter(touched_by(removed)),
            ),
    {
        let ghost before = self@;
        let ghost start = views(actions@);
        let ghost all = before.devices;
        let ghost keep = free_of(removed);
        let ghost gone = touched_by(removed);
        let ghost mut seen: int = 0;
        let mut i: usize = 0;
        proof {
            lemma_filter_empty(keep);
            lemma_filter_empty(gone);
            assert(all.take(0) =~= Seq::<BoundDevice>::empty());
            assert(all.skip(0) =~= all);
            assert(Seq::<BoundDevice>::empty() + all =~= all);
            assert(devices_removed(Seq::empty()) =~= Seq::<EisActionView>::empty());
        }
        while i < self.devices.len()
            invariant
                before == old(self)@,
                all == before.devices,
                keep == free_of(removed),
                gone == touched_by(removed),
                0 <= seen <= all.len(),
                i == all.take(seen).filter(keep).len(),
                i + all.len() - seen == self.devices.len(),
                self@ == (EisView {
                    devices: all.take(seen).filter(keep) + all.skip(seen),
                    ..before
                }),
                views(actions@) == start + devices_removed(all.take(seen).filter(gone)),
            decreases all.len() - seen,
        {
            let ghost left = all.take(seen).filter(keep);
            let ghost lost = all.take(seen).filter(gone);
            proof {
                lemma_take_push(all, seen);
                lemma_filter_push(all.take(seen), all[seen], keep);
                lemma_filter_push(all.take(seen), all[seen], gone);
                assert(all.skip(seen) =~= seq![all[seen]] + all.skip(seen + 1));
                assert(self@.devices[i as int] == all[seen]);
            }
            if self.devices[i].capabilities.intersects(removed) {
                let device = self.devices.remove(i);
                actions.push(EisAction::RemoveDevice { device: device.handle });
                assert(self@.devices =~= left + all.skip(seen + 1));
                assert(views(actions@) =~= start + devices_removed(lost.push(all[seen])));
            } else {
                assert(self@.devices =~= left.push(all[seen]) + all.skip(seen + 1));
                i = i + 1;
            }
            proof {
                seen = seen + 1;
            }
        }
        assert(all.take(seen) =~= all);
        assert(all.filter(keep) + all.skip(seen) =~= all.filter(keep));
    }

    /// Asks for a device of a kind, if the client asked for it and has none.
    fn make_device(
        &self,
        kind: DeviceKind,
        asked: Capabilities,
        geometries: &Vec<Option<Rectangle>>,
        actions: &mut Vec<EisAction>,
    )
        ensures
            views(final(actions)@) == views(old(actions)@) + device_made(
                kind,
                self@.devices,
                asked,
                geometries@,
            ),
    {
        if asked.contains(kind.primary()) && !self.has_device(kind.primary()) {
            actions.push(
                EisAction::AddDevice {
                    kind,
                    capabilities: kind.capabilities(asked),
                    regions: device_regions(kind, geometries),
                    keymap: kind.has_keymap(),
                },
            );
        }
        assert(views(actions@) =~= views(old(actions)@) + device_made(
            kind,
            self@.devices,
            asked,
            geometries@,
        ));
    }

    /// Binds the capabilities that the client asks for.
    pub fn bind(
        &mut self,
        state: &mut State,
        session: RemoteDesktopSessionId,
        capabilities: Capabilities,
        geometries: &Vec<Option<Rectangle>>,
        actions: &mut Vec<EisAction>,
    )
        ensures
            final(self)@ == old(self)@.after_bind(capabilities),
            final(state)@ == if old(self)@.seat {
                old(state)@.eis_bound(session, capabilities)
            } else {
                old(state)@
            },
            views(final(actions)@) == views(old(actions)@) + old(self)@.bind_actions(
                capabilities,
                geometries@,
            ),
            old(state)@.valid() ==> final(state)@.valid(),
    {
        let ghost before = self@;
        let ghost start = views(actions@);
        if !self.seat {
            assert(views(actions@) =~= start + before.bind_actions(capabilities, geometries@));
            return;
        }

        // Unbinding a capability removes the devices that provided it.
        let removed = self.bound.difference(capabilities);
        proof {
            let expected = unbound(before.bound, capabilities);
            assert forall|capability: DeviceCapability|
                removed@.contains(capability) == expected@.contains(capability) by {}
            assert(removed@ =~= expected@);
            super::capabilities::lemma_capabilities_equal(removed, expected);
        }
        self.remove_devices(removed, actions);

        self.bound = capabilities;
        state.niri.remote_desktop.set_eis_bound(session, capabilities);
        assert(old(state)@.valid() ==> state@.valid()) by {
            if old(state)@.valid() {
                eis_events_keep_valid(old(state)@, session, capabilities);
            }
        }

        self.make_device(DeviceKind::Pointer, capabilities, geometries, actions);
        self.make_device(DeviceKind::AbsolutePointer, capabilities, geometries, actions);
        self.make_device(DeviceKind::Keyboard, capabilities, geometries, actions);
        self.make_device(DeviceKind::Touchscreen, capabilities, geometries, actions);
        assert(views(actions@) =~= start + before.bind_actions(capabilities, geometries@));
    }

    /// Called with a device that was added to the seat.
    ///
    /// A receiver context means the client wants us to send it events, which is input capture, not
    /// what this API does; such a device is removed again.
    pub fn device_added(
        &mut self,
        state: &mut State,
        kind: DeviceKind,
        capabilities: Capabilities,
        handle: EisHandle,
        receiver: bool,
    ) -> (actions: Vec<EisAction>)
        requires
            !receiver ==> old(state).niri.device_ids.can_supply(1),
        ensures
            if receiver {
                &&& final(self)@ == old(self)@
                &&& final(state)@ == old(state)@
                &&& views(actions@) == seq![EisActionView::RemoveDevice { device: handle }]
            } else {
                let made = final(self)@.devices.last();
                &&& old(self)@.gains(capabilities, final(self)@)
                &&& made.handle == handle
                &&& made.device.id == old(state)@.next_device
                &&& made.device.name@ == kind.label()
                &&& made.device.output is None
                &&& forall|capability: InputCapability| #[trigger]
                    made.device.has(capability) == (capability == kind.sends())
                &&& final(state)@ == (NiriView {
                    next_device: (old(state)@.next_device + 1) as u64,
                    ..old(state)@
                })
                &&& views(actions@) == seq![
                    EisActionView::Input(InputEvent::DeviceAdded { device: made.device }),
                ]
            },
            old(state)@.valid() ==> final(state)@.valid(),
    {
        proof {
            if state@.valid() {
                let after = NiriView { next_device: (state@.next_device + 1) as u64, ..state@ };
                other_changes_keep_valid(state@, after);
            }
        }
        let mut actions: Vec<EisAction> = Vec::new();
        if receiver {
            actions.push(EisAction::RemoveDevice { device: handle });
            assert(views(actions@) =~= seq![EisActionView::RemoveDevice { device: handle }]);
            return actions;
        }
        let id: u64 = next_device_id(&mut state.niri.device_ids);
        let mut sends: Vec<InputCapability> = Vec::new();
        sends.push(kind.input_capability());
        assert forall|capability: InputCapability| sends@.contains(capability) == (capability
            == kind.sends()) by {
            assert(sends@[0] == kind.sends());
        }
        let device = EiDevice::new(id, kind.name().to_owned(), sends);
        actions.push(EisAction::Input(InputEvent::DeviceAdded { device: device.clone() }));
        assert(views(actions@) =~= seq![EisActionView::Input(InputEvent::DeviceAdded { device })]);
        self.devices.push(BoundDevice { handle, capabilities, device });
        assert(old(self)@.gains(capabilities, self@));
        actions
    }

    /// Makes the events of a device map into an output, or into none.
    fn set_output(&mut self, index: usize, output: Option<u64>)
        requires
            index < old(self).devices.len(),
        ensures
            final(self)@ == old(self)@.with_output(index as int, output),
    {
        self.devices[index].device.set_output(output);
        assert(self@.devices =~= old(self)@.with_output(index as int, output).devices);
    }

    /// Takes the scrolling of a device since its last frame out.
    fn take_axis_frame(&mut self, key: u64, time: u64) -> (frame: AxisFrame)
        ensures
            frame@ == old(self)@.axis_frame(key, time),
            final(self)@ == (EisView {
                axis_frames: old(self)@.axis_frames.remove(key),
                ..old(self)@
            }),
    {
        broadcast use group_map_views;

        match self.axis_frames.remove(&key) {
            Some(frame) => frame,
            None => {
                assert(old(self)@.axis_frames.remove(key) =~= old(self)@.axis_frames);
                AxisFrame::new(to_milliseconds(time))
            },
        }
    }

    /// Puts the scrolling of a device since its last frame in.
    fn put_axis_frame(&mut self, key: u64, frame: AxisFrame)
        ensures
            final(self)@ == (EisView {
                axis_frames: old(self)@.axis_frames.insert(key, frame@),
                ..old(self)@
            }),
    {
        broadcast use group_map_views;

        self.axis_frames.insert(key, frame);
    }

    /// Moves a pointer.
    fn pointer_motion(
        &mut self,
        device: EisHandle,
        time: u64,
        dx: FloatBits,
        dy: FloatBits,
        layout: Layout,
    ) -> (actions: Vec<EisAction>)
        ensures
            ({
                let request = EisRequest::PointerMotion { device, time, dx, dy };
                &&& final(self)@ == old(self)@.after_input(request, layout)
                &&& views(actions@) == old(self)@.input_actions(request, layout)
            }),
    {
        let mut actions: Vec<EisAction> = Vec::new();
        if let Some(index) = self.device_for(device) {
            self.set_output(index, None);
            let event = EiPointerMotionEvent {
                device: self.devices[index].device.clone(),
                time,
                dx,
                dy,
            };
            actions.push(EisAction::Input(InputEvent::PointerMotion { event }));
        }
        assert(views(actions@) =~= old(self)@.input_actions(
            EisRequest::PointerMotion { device, time, dx, dy },
            layout,
        ));
        actions
    }

    /// Moves a pointer to a point.
    fn pointer_motion_absolute(
        &mut self,
        device: EisHandle,
        time: u64,
        x: FloatBits,
        y: FloatBits,
        layout: Layout,
    ) -> (actions: Vec<EisAction>)
        ensures
            ({
                let request = EisRequest::PointerMotionAbsolute { device, time, x, y };
                &&& final(self)@ == old(self)@.after_input(request, layout)
                &&& views(actions@) == old(self)@.input_actions(request, layout)
            }),
    {
        let mut actions: Vec<EisAction> = Vec::new();
        if let Some(index) = self.device_for(device) {
            if let Some(pos) = global_position(layout.bounds, GlobalPoint { x, y }) {
                // The absolute pointer is mapped over the bounding rectangle of all outputs, so
                // the device deliberately has no output of its own.
                self.set_output(index, None);
                let event = EiPointerMotionAbsoluteEvent {
                    device: self.devices[index].device.clone(),
                    time,
                    pos,
                };
                actions.push(EisAction::Input(InputEvent::PointerMotionAbsolute { event }));
            }
        }
        assert(views(actions@) =~= old(self)@.input_actions(
            EisRequest::PointerMotionAbsolute { device, time, x, y },
            layout,
        ));
        actions
    }

    /// Presses or releases a button.
    fn button(
        &mut self,
        device: EisHandle,
        time: u64,
        button: u32,
        state: PressState,
        layout: Layout,
    ) -> (actions: Vec<EisAction>)
        ensures
            ({
                let request = EisRequest::Button { device, time, button, state };
                &&& final(self)@ == old(self)@.after_input(request, layout)
                &&& views(actions@) == old(self)@.input_actions(request, layout)
            }),
    {
        let mut actions: Vec<EisAction> = Vec::new();
        if let Some(index) = self.device_for(device) {
            self.set_output(index, None);
            let event = EiButtonEvent {
                device: self.devices[index].device.clone(),
                time,
                button,
                state,
            };
            actions.push(EisAction::Input(InputEvent::PointerButton { event }));
        }
        assert(views(actions@) =~= old(self)@.input_actions(
            EisRequest::Button { device, time, button, state },
            layout,
        ));
        actions
    }

    /// Presses or releases a key.
    fn key(
        &mut self,
        device: EisHandle,
        time: u64,
        key: u32,
        state: PressState,
        layout: Layout,
    ) -> (actions: Vec<EisAction>)
        ensures
            ({
                let request = EisRequest::KeyboardKey { device, time, key, state };
                &&& final(self)@ == old(self)@.after_input(request, layout)
                &&& views(actions@) == old(self)@.input_actions(request, layout)
            }),
    {
        let mut actions: Vec<EisAction> = Vec::new();
        if let Some(index) = self.device_for(device) {
            let event = EiKeyboardKeyEvent {
                device: self.devices[index].device.clone(),
                time,
                key,
                state,
                count: 1,
            };
            actions.push(EisAction::Input(InputEvent::Keyboard { event }));
        }
        assert(views(actions@) =~= old(self)@.input_actions(
            EisRequest::KeyboardKey { device, time, key, state },
            layout,
        ));
        actions
    }

    /// Puts a finger down or moves it, where there is an output under it.
    fn touch(
        &mut self,
        device: EisHandle,
        time: u64,
        touch_id: u32,
        x: FloatBits,
        y: FloatBits,
        down: bool,
        layout: Layout,
    ) -> (actions: Vec<EisAction>)
        ensures
            ({
                let request = if down {
                    EisRequest::TouchDown { device, time, touch_id, x, y }
                } else {
                    EisRequest::TouchMotion { device, time, touch_id, x, y }
                };
                &&& final(self)@ == old(self)@.after_input(request, layout)
                &&& views(actions@) == old(self)@.input_actions(request, layout)
            }),
    {
        let ghost request = if down {
            EisRequest::TouchDown { device, time, touch_id, x, y }
        } else {
            EisRequest::TouchMotion { device, time, touch_id, x, y }
        };
        let mut actions: Vec<EisAction> = Vec::new();
        if let Some(index) = self.device_for(device) {
            let mut ei_device = self.devices[index].device.clone();
            let global = GlobalPoint { x, y };
            if let Some(pos) = output_position(layout.target, &mut ei_device, global) {
                self.set_output(index, ei_device.output());
                self.touch_frames.push(ei_device.key());
                if down {
                    let event = EiTouchDownEvent { device: ei_device, time, slot: touch_id, pos };
                    actions.push(EisAction::Input(InputEvent::TouchDown { event }));
                } else {
                    let event = EiTouchMotionEvent { device: ei_device, time, slot: touch_id, pos };
                    actions.push(EisAction::Input(InputEvent::TouchMotion { event }));
                }
            }
        }
        assert(self@ =~= old(self)@.after_input(request, layout));
        assert(views(actions@) =~= old(self)@.input_actions(request, layout));
        actions
    }

    /// Takes a finger off, or takes a touch back.
    fn touch_end(
        &mut self,
        device: EisHandle,
        time: u64,
        touch_id: u32,
        cancelled: bool,
        layout: Layout,
    ) -> (actions: Vec<EisAction>)
        ensures
            ({
                let request = if cancelled {
                    EisRequest::TouchCancel { device, time, touch_id }
                } else {
                    EisRequest::TouchUp { device, time, touch_id }
                };
                &&& final(self)@ == old(self)@.after_input(request, layout)
                &&& views(actions@) == old(self)@.input_actions(request, layout)
            }),
    {
        let ghost request = if cancelled {
            EisRequest::TouchCancel { device, time, touch_id }
        } else {
            EisRequest::TouchUp { device, time, touch_id }
        };
        let mut actions: Vec<EisAction> = Vec::new();
        if let Some(index) = self.device_for(device) {
            let ei_device = self.devices[index].device.clone();
            self.touch_frames.push(ei_device.key());
            if cancelled {
                let event = EiTouchCancelEvent { device: ei_device, time, slot: touch_id };
                actions.push(EisAction::Input(InputEvent::TouchCancel { event }));
            } else {
                let event = EiTouchUpEvent { device: ei_device, time, slot: touch_id };
                actions.push(EisAction::Input(InputEvent::TouchUp { event }));
            }
        }
        assert(self@ =~= old(self)@.after_input(request, layout));
        assert(views(actions@) =~= old(self)@.input_actions(request, layout));
        actions
    }

    /// Turns what the client emits into input events. Scrolling waits for the end of the frame.
    pub fn handle_input(&mut self, request: EisRequest, layout: Layout) -> (actions: Vec<EisAction>)
        ensures
            final(self)@ == old(self)@.after_input(request, layout),
            views(actions@) == old(self)@.input_actions(request, layout),
    {
        let mut actions: Vec<EisAction> = Vec::new();
        match request {
            EisRequest::PointerMotion { device, time, dx, dy } => {
                actions = self.pointer_motion(device, time, dx, dy, layout);
            },
            EisRequest::PointerMotionAbsolute { device, time, x, y } => {
                actions = self.pointer_motion_absolute(device, time, x, y, layout);
            },
            EisRequest::Button { device, time, button, state } => {
                actions = self.button(device, time, button, state, layout);
            },
            EisRequest::ScrollDelta { device, time, dx, dy } => {
                if let Some(index) = self.device_for(device) {
                    let key: u64 = self.devices[index].device.key();
                    let mut frame = self.take_axis_frame(key, time);
                    frame.scroll(dx, dy);
                    self.put_axis_frame(key, frame);
                }
                assert(self@ =~= old(self)@.after_input(request, layout));
            },
            EisRequest::ScrollDiscrete { device, time, discrete_dx, discrete_dy } => {
                if let Some(index) = self.device_for(device) {
                    let key: u64 = self.devices[index].device.key();
                    let mut frame = self.take_axis_frame(key, time);
                    frame.step(discrete_dx, discrete_dy);
                    self.put_axis_frame(key, frame);
                }
                assert(self@ =~= old(self)@.after_input(request, layout));
            },
            EisRequest::ScrollStop { device, time, x, y } => {
                if let Some(index) = self.device_for(device) {
                    let key: u64 = self.devices[index].device.key();
                    let mut frame = self.take_axis_frame(key, time);
                    frame.stop(x, y);
                    self.put_axis_frame(key, frame);
                }
                assert(self@ =~= old(self)@.after_input(request, layout));
            },
            EisRequest::ScrollCancel { device, time, x, y } => {
                if let Some(index) = self.device_for(device) {
                    let key: u64 = self.devices[index].device.key();
                    let mut frame = self.take_axis_frame(key, time);
                    frame.stop(x, y);
                    self.put_axis_frame(key, frame);
                }
                assert(self@ =~= old(self)@.after_input(request, layout));
            },
            EisRequest::KeyboardKey { device, time, key, state } => {
                actions = self.key(device, time, key, state, layout);
            },
            EisRequest::TouchDown { device, time, touch_id, x, y } => {
                actions = self.touch(device, time, touch_id, x, y, true, layout);
            },
            EisRequest::TouchMotion { device, time, touch_id, x, y } => {
                actions = self.touch(device, time, touch_id, x, y, false, layout);
            },
            EisRequest::TouchUp { device, time, touch_id } => {
                actions = self.touch_end(device, time, touch_id, false, layout);
            },
            EisRequest::TouchCancel { device, time, touch_id } => {
                actions = self.touch_end(device, time, touch_id, true, layout);
            },
            _ => {},
        }
        actions
    }

    /// Forgets that a device was touched, and tells whether it was.
    fn take_touches(&mut self, key: u64) -> (touched: bool)
        ensures
            touched == old(self)@.touch_frames.contains(key),
            final(self)@ == (EisView {
                touch_frames: old(self)@.touch_frames.filter(other_id(key)),
                ..old(self)@
            }),
    {
        let ghost before = self@;
        let ghost all = before.touch_frames;
        let ghost keep = other_id(key);
        let mut kept: Vec<u64> = Vec::new();
        let mut touched = false;
        proof {
            lemma_filter_empty(keep);
            assert(all.take(0) =~= Seq::<u64>::empty());
        }
        for i in 0..self.touch_frames.len()
            invariant
                before == old(self)@,
                self@ == before,
                all == before.touch_frames,
                keep == other_id(key),
                kept@ == all.take(i as int).filter(keep),
                touched == exists|j: int| 0 <= j < i && all[j] == key,
        {
            proof {
                lemma_take_push(all, i as int);
                lemma_filter_push(all.take(i as int), all[i as int], keep);
            }
            if self.touch_frames[i] == key {
                touched = true;
            } else {
                kept.push(self.touch_frames[i]);
            }
        }
        assert(all.take(all.len() as int) =~= all);
        self.touch_frames = kept;
        touched
    }

    /// Emits the events that libei groups into a frame.
    pub fn flush_frame(&mut self, handle: EisHandle, time: u64) -> (actions: Vec<EisAction>)
        ensures
            final(self)@ == old(self)@.after_frame(handle),
            old(self)@.frame_actions(handle, time, views(actions@)),
    {
        broadcast use group_map_views;

        let ghost before = self@;
        let mut actions: Vec<EisAction> = Vec::new();
        let Some(index) = self.device_for(handle) else {
            return actions;
        };
        let key: u64 = self.devices[index].device.key();
        if let Some(frame) = self.axis_frames.remove(&key) {
            self.set_output(index, None);
            let event = EiPointerAxisEvent {
                device: self.devices[index].device.clone(),
                time,
                frame,
            };
            actions.push(EisAction::Input(InputEvent::PointerAxis { event }));
        } else {
            assert(self@ =~= before);
        }
        if self.take_touches(key) {
            let event = EiTouchFrameEvent { device: self.devices[index].device.clone(), time };
            actions.push(EisAction::Input(InputEvent::TouchFrame { event }));
        }
        assert(self@ =~= before.after_frame(handle));
        actions
    }
}

/// The capabilities that come back when a client of a session connects.
///
/// For a persistent session those are the ones that its last client had bound, or, if there are
/// none, the ones that persistent sessions left when they ended.
pub open spec fn kept_capabilities(
    niri: NiriView,
    session: RemoteDesktopSessionId,
) -> Capabilities {
    let sessions = niri.remote_desktop.sessions;
    if sessions.contains_key(session) && sessions[session].persistent {
        if sessions[session].eis_bound == Capabilities::none() {
            niri.remote_desktop.eis_left
        } else {
            sessions[session].eis_bound
        }
    } else {
        Capabilities::none()
    }
}

impl NiriView {
    /// The compositor once the capabilities that come back for a session are bound. What ended
    /// sessions left is taken once.
    pub open spec fn eis_resumed(self, session: RemoteDesktopSessionId) -> NiriView {
        let kept = kept_capabilities(self, session);
        if kept == Capabilities::none() {
            self
        } else {
            NiriView {
                remote_desktop: RemoteDesktopView {
                    eis_left: if self.remote_desktop.sessions[session].eis_bound
                        == Capabilities::none() {
                        Capabilities::none()
                    } else {
                        self.remote_desktop.eis_left
                    },
                    ..self.remote_desktop
                },
                ..self
            }.eis_bound(session, kept)
        }
    }
}

impl EisView {
    /// The connection once the handshake is done. What a persistent session kept is bound again.
    pub open spec fn after_connect(self, kept: Capabilities) -> EisView {
        let seated = EisView { seat: true, ..self };
        if kept == Capabilities::none() {
            seated
        } else {
            seated.after_bind(kept)
        }
    }

    /// What the end of the handshake does.
    pub open spec fn connect_actions(
        self,
        kept: Capabilities,
        geometries: Seq<Option<Rectangle>>,
    ) -> Seq<EisActionView> {
        let seated = EisView { seat: true, ..self };
        seq![EisActionView::AddSeat { capabilities: seat_capabilities() }] + (if kept
            == Capabilities::none() {
            Seq::empty()
        } else {
            seated.bind_actions(kept, geometries)
        })
    }
}

impl EisConnectionState {
    /// Handles the end of the handshake.
    fn connected(
        &mut self,
        state: &mut State,
        session: RemoteDesktopSessionId,
        geometries: &Vec<Option<Rectangle>>,
    ) -> (actions: Vec<EisAction>)
        ensures
            ({
                let kept = kept_capabilities(old(state)@, session);
                &&& final(self)@ == old(self)@.after_connect(kept)
                &&& final(state)@ == old(state)@.eis_resumed(session)
                &&& views(actions@) == old(self)@.connect_actions(kept, geometries@)
            }),
            old(state)@.valid() ==> final(state)@.valid(),
    {
        broadcast use group_map_views;

        let ghost before = state@;
        proof {
            if before.valid() {
                eis_events_keep_valid(before, session, Capabilities::none());
            }
        }
        let mut actions: Vec<EisAction> = Vec::new();
        actions.push(EisAction::AddSeat { capabilities: advertised_capabilities() });
        self.seat = true;
        let mut kept = Capabilities::empty();
        let mut own = true;
        if let Some(record) = state.niri.remote_desktop.sessions.get(&session) {
            assert(record@ == before.remote_desktop.sessions[session]);
            if record.persistent {
                kept = record.eis_bound;
                own = !kept.is_empty();
            }
        }
        if !own {
            kept = state.niri.remote_desktop.eis_left;
            state.niri.remote_desktop.eis_left = Capabilities::empty();
        }
        assert(kept == kept_capabilities(before, session));
        if !kept.is_empty() {
            self.bind(state, session, kept, geometries, &mut actions);
        }
        assert(state@ =~= before.eis_resumed(session));
        assert(views(actions@) =~= old(self)@.connect_actions(kept, geometries@));
        actions
    }

    /// Forgets the devices that the client closed.
    fn close_device(&mut self, handle: EisHandle)
        ensures
            final(self)@ == old(self)@.after_close(handle),
    {
        let ghost before = self@;
        let ghost all = before.devices;
        let ghost keep = not_handled_by(handle);
        let ghost mut seen: int = 0;
        let mut i: usize = 0;
        proof {
            lemma_filter_empty(keep);
            assert(all.take(0) =~= Seq::<BoundDevice>::empty());
            assert(all.skip(0) =~= all);
            assert(Seq::<BoundDevice>::empty() + all =~= all);
        }
        while i < self.devices.len()
            invariant
                before == old(self)@,
                all == before.devices,
                keep == not_handled_by(handle),
                0 <= seen <= all.len(),
                i == all.take(seen).filter(keep).len(),
                i + all.len() - seen == self.devices.len(),
                self@ == (EisView {
                    devices: all.take(seen).filter(keep) + all.skip(seen),
                    ..before
                }),
            decreases all.len() - seen,
        {
            let ghost left = all.take(seen).filter(keep);
            proof {
                lemma_take_push(all, seen);
                lemma_filter_push(all.take(seen), all[seen], keep);
                assert(all.skip(seen) =~= seq![all[seen]] + all.skip(seen + 1));
                assert(self@.devices[i as int] == all[seen]);
            }
            if self.devices[i].handle == handle {
                self.devices.remove(i);
                assert(self@.devices =~= left + all.skip(seen + 1));
            } else {
                assert(self@.devices =~= left.push(all[seen]) + all.skip(seen + 1));
                i = i + 1;
            }
            proof {
                seen = seen + 1;
            }
        }
        assert(all.take(seen) =~= all);
        assert(all.filter(keep) + all.skip(seen) =~= all.filter(keep));
    }

    /// Handles what happens on the connection, and tells whether it goes on. A connection that does
    /// not is torn down. `geometries` says where each output lies, if it is mapped.
    pub fn handle_event(
        &mut self,
        state: &mut State,
        session: RemoteDesktopSessionId,
        event: EisEvent,
        layout: Layout,
        geometries: &Vec<Option<Rectangle>>,
    ) -> (result: (PostAction, Vec<EisAction>))
        ensures
            ({
                let before = old(self)@;
                let after = final(self)@;
                let (post, actions) = (result.0, views(result.1@));
                match event {
                    EisEvent::Connected => {
                        let kept = kept_capabilities(old(state)@, session);
                        &&& post == PostAction::Continue
                        &&& after == before.after_connect(kept)
                        &&& final(state)@ == old(state)@.eis_resumed(session)
                        &&& actions == before.connect_actions(kept, geometries@).push(
                            EisActionView::Flush,
                        )
                    },
                    EisEvent::Request(EisRequest::Bind { capabilities }) => {
                        &&& post == PostAction::Continue
                        &&& after == before.after_bind(capabilities)
                        &&& final(state)@ == if before.seat {
                            old(state)@.eis_bound(session, capabilities)
                        } else {
                            old(state)@
                        }
                        &&& actions == before.bind_actions(capabilities, geometries@).push(
                            EisActionView::Flush,
                        )
                    },
                    EisEvent::Request(EisRequest::DeviceClosed { device }) => {
                        &&& post == PostAction::Continue
                        &&& after == before.after_close(device)
                        &&& final(state)@ == old(state)@
                        &&& actions == seq![EisActionView::Flush]
                    },
                    EisEvent::Request(EisRequest::Frame { device, time }) => {
                        &&& post == PostAction::Continue
                        &&& after == before.after_frame(device)
                        &&& final(state)@ == old(state)@
                        &&& actions.len() > 0
                        &&& actions.last() == EisActionView::Flush
                        &&& before.frame_actions(device, time, actions.drop_last())
                    },
                    EisEvent::Request(EisRequest::Disconnect) | EisEvent::Failed => {
                        &&& post == PostAction::Remove
                        &&& after == (EisView { seat: false, devices: Seq::empty(), ..before })
                        &&& final(state)@ == old(state)@.eis_taken(session, before.bound)
                        &&& actions.len() == 0
                    },
                    EisEvent::Request(request) => {
                        &&& post == PostAction::Continue
                        &&& after == before.after_input(request, layout)
                        &&& final(state)@ == old(state)@
                        &&& actions == before.input_actions(request, layout).push(
                            EisActionView::Flush,
                        )
                    },
                }
            }),
            old(state)@.valid() ==> final(state)@.valid(),
            old(self)@.orderly() ==> final(self)@.orderly(),
    {
        let ghost kept = kept_capabilities(state@, session);
        proof {
            if self@.orderly() {
                match event {
                    EisEvent::Connected => {
                        connections_stay_orderly(self@, kept, 0, EisRequest::Disconnect, layout);
                    },
                    EisEvent::Request(request) => {
                        let capabilities = match request {
                            EisRequest::Bind { capabilities } => capabilities,
                            _ => kept,
                        };
                        let device = match request {
                            EisRequest::DeviceClosed { device } => device,
                            EisRequest::Frame { device, .. } => device,
                            _ => 0,
                        };
                        connections_stay_orderly(self@, capabilities, device, request, layout);
                    },
                    EisEvent::Failed => {
                        connections_stay_orderly(self@, kept, 0, EisRequest::Disconnect, layout);
                    },
                }
            }
        }
        let mut actions: Vec<EisAction> = Vec::new();
        match event {
            EisEvent::Connected => {
                actions = self.connected(state, session, geometries);
            },
            EisEvent::Request(EisRequest::Bind { capabilities }) => {
                self.bind(state, session, capabilities, geometries, &mut actions);
                assert(views(actions@) =~= old(self)@.bind_actions(capabilities, geometries@));
            },
            EisEvent::Request(EisRequest::DeviceClosed { device }) => {
                self.close_device(device);
            },
            EisEvent::Request(EisRequest::Frame { device, time }) => {
                actions = self.flush_frame(device, time);
            },
            EisEvent::Request(EisRequest::Disconnect) | EisEvent::Failed => {
                self.destroy(state, session);
                return (PostAction::Remove, actions);
            },
            EisEvent::Request(request) => {
                actions = self.handle_input(request, layout);
            },
        }
        let ghost done = views(actions@);
        actions.push(EisAction::Flush);
        assert(views(actions@).drop_last() =~= done);
        assert(done.len() == 0 ==> views(actions@) =~= seq![EisActionView::Flush]);
        (PostAction::Continue, actions)
    }
}

impl Default for EisConnectionState {
    fn default() -> (connection: Self)
        ensures
            connection@ == EisView::fresh(),
            connection@.orderly(),
    {
        EisConnectionState::new()
    }
}

/// Unbinding a capability removes every device that provided it.
pub proof fn unbinding_removes_devices(
    connection: EisView,
    asked: Capabilities,
    capability: DeviceCapability,
)
    requires
        connection.seat,
        connection.bound.has(capability),
        !asked.has(capability),
    ensures
        !provided(connection.after_bind(asked).devices, capability),
        connection.after_bind(asked).bound == asked,
{
    let gone = unbound(connection.bound, asked);
    let left = connection.after_bind(asked).devices;
    lemma_kept_devices(connection.devices, free_of(gone));
    assert(gone@.contains(capability));
    assert forall|i: int| 0 <= i < left.len() implies !(#[trigger] left[i]).capabilities.has(
        capability,
    ) by {
        assert(free_of(gone)(left[i]));
        if left[i].capabilities.has(capability) {
            assert(left[i].capabilities@.contains(capability));
        }
    }
}

/// A kept device was let through.
proof fn lemma_kept_devices(devices: Seq<BoundDevice>, keep: spec_fn(BoundDevice) -> bool)
    ensures
        forall|i: int| 0 <= i < devices.filter(keep).len() ==> keep(#[trigger] devices.filter(keep)[i]),
    decreases devices.len(),
{
    reveal(Seq::filter);
    if devices.len() > 0 {
        lemma_kept_devices(devices.drop_last(), keep);
        let rest = devices.drop_last().filter(keep);
        let all = devices.filter(keep);
        assert forall|i: int| 0 <= i < all.len() implies keep(#[trigger] all[i]) by {
            if i < rest.len() {
                assert(all[i] == rest[i]);
            }
        }
    }
}

/// Whether the states of a connection follow each other as the devices that are to be added are
/// added, one after the other.
pub open spec fn gained_along(states: Seq<EisView>, made: Seq<EisActionView>) -> bool {
    &&& states.len() == made.len() + 1
    &&& forall|i: int|
        0 <= i < made.len() ==> ((#[trigger] made[i]) matches EisActionView::AddDevice {
            capabilities,
            ..
        } && states[i].gains(capabilities, states[i + 1]))
}

proof fn lemma_gained(states: Seq<EisView>, made: Seq<EisActionView>, count: int)
    requires
        gained_along(states, made),
        0 <= count <= made.len(),
    ensures
        states[count].devices.len() == states[0].devices.len() + count,
        forall|i: int|
            0 <= i < states[0].devices.len() ==> #[trigger] states[count].devices[i]
                == states[0].devices[i],
        forall|i: int|
            0 <= i < count ==> (#[trigger] made[i]) is AddDevice
                && states[count].devices[states[0].devices.len() + i].capabilities
                == made[i]->AddDevice_capabilities,
    decreases count,
{
    if count > 0 {
        lemma_gained(states, made, count - 1);
        assert(made[count - 1] is AddDevice);
        let before = states[count - 1];
        assert(before.gains(made[count - 1]->AddDevice_capabilities, states[count]));
        assert forall|i: int| 0 <= i < count implies (#[trigger] made[i]) is AddDevice
            && states[count].devices[states[0].devices.len() + i].capabilities
            == made[i]->AddDevice_capabilities by {
            if i < count - 1 {
                assert(before.devices[states[0].devices.len() + i].capabilities
                    == made[i]->AddDevice_capabilities);
            }
        }
    }
}

/// Once the devices that a client asked for are added, each capability that defines a kind of
/// device and that the client asked for has a device.
pub proof fn asked_capabilities_get_devices(
    connection: EisView,
    asked: Capabilities,
    geometries: Seq<Option<Rectangle>>,
    states: Seq<EisView>,
)
    requires
        connection.seat,
        states.len() > 0,
        states[0] == connection.after_bind(asked),
        gained_along(states, devices_made(states[0].devices, asked, geometries)),
    ensures
        states.last().bound == asked,
        forall|kind: DeviceKind| #[trigger]
            asked.has(kind.defined_by()) ==> provided(states.last().devices, kind.defined_by()),
{
    let had = states[0].devices;
    let made = devices_made(had, asked, geometries);
    let last = states.last();
    lemma_gained(states, made, made.len() as int);
    lemma_gained_bound(states, made, made.len() as int);
    let pointer = device_made(DeviceKind::Pointer, had, asked, geometries);
    let absolute = device_made(DeviceKind::AbsolutePointer, had, asked, geometries);
    let keyboard = device_made(DeviceKind::Keyboard, had, asked, geometries);
    let touchscreen = device_made(DeviceKind::Touchscreen, had, asked, geometries);
    assert forall|kind: DeviceKind| #[trigger] asked.has(kind.defined_by()) implies provided(
        last.devices,
        kind.defined_by(),
    ) by {
        let capability = kind.defined_by();
        if provided(had, capability) {
            let i = choose|i: int|
                0 <= i < had.len() && (#[trigger] had[i]).capabilities.has(capability);
            assert(last.devices[i].capabilities.has(capability));
        } else {
            let place = match kind {
                DeviceKind::Pointer => 0,
                DeviceKind::AbsolutePointer => pointer.len() as int,
                DeviceKind::Keyboard => (pointer + absolute).len() as int,
                DeviceKind::Touchscreen => (pointer + absolute + keyboard).len() as int,
            };
            let own = device_made(kind, had, asked, geometries);
            assert(own.len() == 1);
            assert(made[place] == own[0]);
            assert(own[0]->AddDevice_capabilities == kind.granted(asked));
            assert(last.devices[had.len() + place].capabilities.has(capability));
        }
    }
}

proof fn lemma_gained_bound(states: Seq<EisView>, made: Seq<EisActionView>, count: int)
    requires
        gained_along(states, made),
        0 <= count <= made.len(),
    ensures
        states[count].bound == states[0].bound,
    decreases count,
{
    if count > 0 {
        lemma_gained_bound(states, made, count - 1);
        assert(made[count - 1] is AddDevice);
        assert(states[count - 1].gains(made[count - 1]->AddDevice_capabilities, states[count]));
    }
}

/// Whether devices that are to be added are of different kinds, and of kinds that the client asked
/// for and has not.
spec fn missing_kinds(
    made: Seq<EisActionView>,
    had: Seq<BoundDevice>,
    asked: Capabilities,
) -> bool {
    &&& forall|i: int|
        0 <= i < made.len() ==> ((#[trigger] made[i]) matches EisActionView::AddDevice {
            kind,
            capabilities,
            ..
        } && capabilities == kind.granted(asked) && asked.has(kind.defined_by()) && !provided(
            had,
            kind.defined_by(),
        ))
    &&& forall|i: int, j: int|
        0 <= i < j < made.len() ==> (#[trigger] made[i])->AddDevice_kind != (
        #[trigger] made[j])->AddDevice_kind
}

proof fn lemma_devices_made(
    had: Seq<BoundDevice>,
    asked: Capabilities,
    geometries: Seq<Option<Rectangle>>,
)
    ensures
        missing_kinds(devices_made(had, asked, geometries), had, asked),
{
}

/// Adding devices of missing kinds keeps a connection orderly.
proof fn lemma_joined_orderly(before: EisView, after: EisView, made: Seq<EisActionView>)
    requires
        before.orderly(),
        after.bound == before.bound,
        missing_kinds(made, before.devices, before.bound),
        after.devices.len() == before.devices.len() + made.len(),
        forall|i: int|
            0 <= i < before.devices.len() ==> #[trigger] after.devices[i] == before.devices[i],
        forall|i: int|
            0 <= i < made.len() ==> (#[trigger] made[i]) is AddDevice
                && after.devices[before.devices.len() + i].capabilities
                == made[i]->AddDevice_capabilities,
    ensures
        after.orderly(),
{
    let count = before.devices.len() as int;
    assert forall|i: int, capability: DeviceCapability|
        0 <= i < after.devices.len() && #[trigger] after.devices[i].capabilities.has(
            capability,
        ) implies after.bound.has(capability) by {
        if i < count {
            assert(before.devices[i].capabilities.has(capability));
        } else {
            assert(made[i - count] is AddDevice);
        }
    }
    assert forall|i: int, j: int, kind: DeviceKind|
        #![trigger after.devices[i].capabilities.has(kind.defined_by()), after.devices[j].capabilities.has(kind.defined_by())]
        0 <= i < j < after.devices.len() && after.devices[i].capabilities.has(
            kind.defined_by(),
        ) implies !after.devices[j].capabilities.has(kind.defined_by()) by {
        if after.devices[j].capabilities.has(kind.defined_by()) {
            if j < count {
                assert(before.devices[i].capabilities.has(kind.defined_by()));
                assert(before.devices[j].capabilities.has(kind.defined_by()));
            } else {
                assert(made[j - count] is AddDevice);
                assert(made[j - count]->AddDevice_kind == kind);
                if i < count {
                    assert(before.devices[i].capabilities.has(kind.defined_by()));
                    assert(provided(before.devices, kind.defined_by()));
                } else {
                    assert(made[i - count] is AddDevice);
                    assert(made[i - count]->AddDevice_kind == kind);
                }
            }
        }
    }
}

/// In an orderly connection a kind of device is there at most once, and only if it is bound.
proof fn lemma_at_most_once(connection: EisView, kind: DeviceKind)
    requires
        connection.orderly(),
    ensures
        provided(connection.devices, kind.defined_by()) ==> provided_once(
            connection.devices,
            kind.defined_by(),
        ) && connection.bound.has(kind.defined_by()),
{
    let devices = connection.devices;
    let capability = kind.defined_by();
    if provided(devices, capability) {
        let i = choose|i: int|
            0 <= i < devices.len() && (#[trigger] devices[i]).capabilities.has(capability);
        assert forall|j: int|
            0 <= j < devices.len() && (#[trigger] devices[j]).capabilities.has(
                capability,
            ) implies j == i by {
            assert(connection.devices[i].capabilities.has(kind.defined_by()));
            assert(connection.devices[j].capabilities.has(kind.defined_by()));
        }
        assert(connection.devices[i].capabilities.has(capability));
    }
}

/// Whether exactly one device has a capability.
pub open spec fn provided_once(devices: Seq<BoundDevice>, capability: DeviceCapability) -> bool {
    exists|i: int|
        0 <= i < devices.len() && (#[trigger] devices[i]).capabilities.has(capability) && forall|
            j: int,
        |
            0 <= j < devices.len() && (#[trigger] devices[j]).capabilities.has(capability) ==> j
                == i
}

/// Once the devices that a client asked for are added, there is exactly one device of each kind
/// that the client asked for, and none of any other kind.
pub proof fn each_asked_kind_has_one_device(
    connection: EisView,
    asked: Capabilities,
    geometries: Seq<Option<Rectangle>>,
    states: Seq<EisView>,
)
    requires
        connection.seat,
        connection.orderly(),
        states.len() > 0,
        states[0] == connection.after_bind(asked),
        gained_along(states, devices_made(states[0].devices, asked, geometries)),
    ensures
        states.last().orderly(),
        forall|kind: DeviceKind| #[trigger]
            asked.has(kind.defined_by()) ==> provided_once(
                states.last().devices,
                kind.defined_by(),
            ),
        forall|kind: DeviceKind|
            !(#[trigger] asked.has(kind.defined_by())) ==> !provided(
                states.last().devices,
                kind.defined_by(),
            ),
{
    let had = states[0].devices;
    let made = devices_made(had, asked, geometries);
    let last = states.last();
    lemma_bound_orderly(connection, asked);
    lemma_gained(states, made, made.len() as int);
    lemma_gained_bound(states, made, made.len() as int);
    lemma_devices_made(had, asked, geometries);
    lemma_joined_orderly(states[0], last, made);
    asked_capabilities_get_devices(connection, asked, geometries, states);
    assert forall|kind: DeviceKind| #[trigger] asked.has(kind.defined_by()) implies provided_once(
        last.devices,
        kind.defined_by(),
    ) by {
        lemma_at_most_once(last, kind);
    }
    assert forall|kind: DeviceKind| !(#[trigger] asked.has(kind.defined_by())) implies !provided(
        last.devices,
        kind.defined_by(),
    ) by {
        lemma_at_most_once(last, kind);
    }
}

/// Asking for capabilities keeps a connection orderly.
proof fn lemma_bound_orderly(connection: EisView, asked: Capabilities)
    requires
        connection.orderly(),
    ensures
        connection.after_bind(asked).orderly(),
{
    if connection.seat {
        let gone = unbound(connection.bound, asked);
        let after = connection.after_bind(asked);
        lemma_kept_orderly(connection.devices, free_of(gone), connection.bound);
        lemma_kept_devices(connection.devices, free_of(gone));
        assert forall|i: int, capability: DeviceCapability|
            0 <= i < after.devices.len() && #[trigger] after.devices[i].capabilities.has(
                capability,
            ) implies asked.has(capability) by {
            assert(free_of(gone)(after.devices[i]));
            if !asked.has(capability) {
                assert(gone@.contains(capability));
                assert(after.devices[i].capabilities@.contains(capability));
            }
        }
    }
}

/// Leaving devices out keeps a connection orderly.
proof fn lemma_kept_orderly(
    devices: Seq<BoundDevice>,
    keep: spec_fn(BoundDevice) -> bool,
    bound: Capabilities,
)
    requires
        (EisView { devices, bound, ..EisView::fresh() }).orderly(),
    ensures
        (EisView { devices: devices.filter(keep), bound, ..EisView::fresh() }).orderly(),
        forall|i: int|
            0 <= i < devices.filter(keep).len() ==> devices.contains(
                #[trigger] devices.filter(keep)[i],
            ),
    decreases devices.len(),
{
    reveal(Seq::filter);
    if devices.len() > 0 {
        let rest = devices.drop_last();
        let whole = EisView { devices, bound, ..EisView::fresh() };
        let part = EisView { devices: rest, bound, ..EisView::fresh() };
        assert(part.orderly()) by {
            assert forall|i: int, capability: DeviceCapability|
                0 <= i < rest.len() && #[trigger] part.devices[i].capabilities.has(
                    capability,
                ) implies bound.has(capability) by {
                assert(whole.devices[i].capabilities.has(capability));
            }
            assert forall|i: int, j: int, kind: DeviceKind|
                #![trigger part.devices[i].capabilities.has(kind.defined_by()), part.devices[j].capabilities.has(kind.defined_by())]
                0 <= i < j < rest.len() && part.devices[i].capabilities.has(
                    kind.defined_by(),
                ) implies !part.devices[j].capabilities.has(kind.defined_by()) by {
                assert(whole.devices[i].capabilities.has(kind.defined_by()));
                assert(whole.devices[j] == part.devices[j]);
                if part.devices[j].capabilities.has(kind.defined_by()) {
                    assert(whole.devices[j].capabilities.has(kind.defined_by()));
                }
            }
        }
        lemma_kept_orderly(rest, keep, bound);
        let before = rest.filter(keep);
        let after = EisView { devices: devices.filter(keep), bound, ..EisView::fresh() };
        let kept = EisView { devices: before, bound, ..EisView::fresh() };
        assert forall|i: int| 0 <= i < after.devices.len() implies devices.contains(
            #[trigger] after.devices[i],
        ) by {
            if i < before.len() {
                assert(after.devices[i] == before[i]);
                let k = choose|k: int| 0 <= k < rest.len() && rest[k] == before[i];
                assert(devices[k] == before[i]);
            } else {
                assert(devices[devices.len() - 1] == after.devices[i]);
            }
        }
        assert forall|i: int, capability: DeviceCapability|
            0 <= i < after.devices.len() && #[trigger] after.devices[i].capabilities.has(
                capability,
            ) implies bound.has(capability) by {
            let k = choose|k: int| 0 <= k < devices.len() && devices[k] == after.devices[i];
            assert(whole.devices[k].capabilities.has(capability));
        }
        assert forall|i: int, j: int, kind: DeviceKind|
            #![trigger after.devices[i].capabilities.has(kind.defined_by()), after.devices[j].capabilities.has(kind.defined_by())]
            0 <= i < j < after.devices.len() && after.devices[i].capabilities.has(
                kind.defined_by(),
            ) implies !after.devices[j].capabilities.has(kind.defined_by()) by {
            assert(after.devices[i] == before[i]);
            assert(kept.devices[i].capabilities.has(kind.defined_by()));
            if j < before.len() {
                assert(after.devices[j] == kept.devices[j]);
                if after.devices[j].capabilities.has(kind.defined_by()) {
                    assert(kept.devices[j].capabilities.has(kind.defined_by()));
                }
            } else {
                let k = choose|k: int| 0 <= k < rest.len() && rest[k] == before[i];
                assert(whole.devices[k].capabilities.has(kind.defined_by()));
                assert(whole.devices[devices.len() - 1] == after.devices[j]);
                if after.devices[j].capabilities.has(kind.defined_by()) {
                    assert(whole.devices[devices.len() - 1].capabilities.has(kind.defined_by()));
                }
            }
        }
    }
}

/// What changes neither the capabilities of the devices nor what is bound keeps a connection
/// orderly.
proof fn lemma_same_capabilities(before: EisView, after: EisView)
    requires
        before.orderly(),
        after.bound == before.bound,
        after.devices.len() == before.devices.len(),
        forall|i: int|
            0 <= i < before.devices.len() ==> (#[trigger] after.devices[i]).capabilities
                == before.devices[i].capabilities,
    ensures
        after.orderly(),
{
    assert forall|i: int, capability: DeviceCapability|
        0 <= i < after.devices.len() && #[trigger] after.devices[i].capabilities.has(
            capability,
        ) implies after.bound.has(capability) by {
        assert(before.devices[i].capabilities.has(capability));
    }
    assert forall|i: int, j: int, kind: DeviceKind|
        #![trigger after.devices[i].capabilities.has(kind.defined_by()), after.devices[j].capabilities.has(kind.defined_by())]
        0 <= i < j < after.devices.len() && after.devices[i].capabilities.has(
            kind.defined_by(),
        ) implies !after.devices[j].capabilities.has(kind.defined_by()) by {
        assert(before.devices[i].capabilities.has(kind.defined_by()));
        if after.devices[j].capabilities.has(kind.defined_by()) {
            assert(before.devices[j].capabilities.has(kind.defined_by()));
        }
    }
}

/// A new connection is orderly, and whatever happens on a connection keeps it so: every device has
/// bound capabilities only, and no two devices are of the same kind.
pub proof fn connections_stay_orderly(
    connection: EisView,
    capabilities: Capabilities,
    handle: EisHandle,
    request: EisRequest,
    layout: Layout,
)
    requires
        connection.orderly(),
    ensures
        EisView::fresh().orderly(),
        connection.after_bind(capabilities).orderly(),
        connection.after_connect(capabilities).orderly(),
        connection.after_close(handle).orderly(),
        connection.after_frame(handle).orderly(),
        connection.after_input(request, layout).orderly(),
        (EisView { seat: false, devices: Seq::empty(), ..connection }).orderly(),
{
    lemma_bound_orderly(connection, capabilities);
    let seated = EisView { seat: true, ..connection };
    lemma_same_capabilities(connection, seated);
    lemma_bound_orderly(seated, capabilities);
    lemma_closed_orderly(connection, handle);
    lemma_first_index(connection.devices, handled_by(handle));
    lemma_same_capabilities(connection, connection.after_frame(handle));
    lemma_input_orderly(connection, request, layout);
}

proof fn lemma_closed_orderly(connection: EisView, handle: EisHandle)
    requires
        connection.orderly(),
    ensures
        connection.after_close(handle).orderly(),
{
    let bare = EisView {
        devices: connection.devices,
        bound: connection.bound,
        ..EisView::fresh()
    };
    lemma_same_capabilities(connection, bare);
    lemma_kept_orderly(connection.devices, not_handled_by(handle), connection.bound);
    let left = EisView {
        devices: connection.after_close(handle).devices,
        bound: connection.bound,
        ..EisView::fresh()
    };
    lemma_same_capabilities(left, connection.after_close(handle));
}

proof fn lemma_input_orderly(connection: EisView, request: EisRequest, layout: Layout)
    requires
        connection.orderly(),
    ensures
        connection.after_input(request, layout).orderly(),
{
    let after = connection.after_input(request, layout);
    match request {
        EisRequest::PointerMotion { device, .. } => {
            lemma_first_index(connection.devices, handled_by(device));
        },
        EisRequest::PointerMotionAbsolute { device, .. } => {
            lemma_first_index(connection.devices, handled_by(device));
        },
        EisRequest::Button { device, .. } => {
            lemma_first_index(connection.devices, handled_by(device));
        },
        EisRequest::TouchDown { device, .. } => {
            lemma_first_index(connection.devices, handled_by(device));
        },
        EisRequest::TouchMotion { device, .. } => {
            lemma_first_index(connection.devices, handled_by(device));
        },
        _ => {},
    }
    lemma_same_capabilities(connection, after);
}

/// The capabilities that come back when a client connects get their devices: those that binding
/// them on a new connection makes. Once they are added, each of the capabilities that defines a
/// kind of device has a device.
pub proof fn kept_capabilities_get_devices(
    niri: NiriView,
    session: RemoteDesktopSessionId,
    geometries: Seq<Option<Rectangle>>,
    states: Seq<EisView>,
)
    requires
        kept_capabilities(niri, session) != Capabilities::none(),
        states.len() > 0,
        states[0] == EisView::fresh().after_connect(kept_capabilities(niri, session)),
        gained_along(
            states,
            devices_made(Seq::empty(), kept_capabilities(niri, session), geometries),
        ),
    ensures
        ({
            let kept = kept_capabilities(niri, session);
            &&& EisView::fresh().connect_actions(kept, geometries) == seq![
                EisActionView::AddSeat { capabilities: seat_capabilities() },
            ] + devices_made(Seq::empty(), kept, geometries)
            &&& states.last().bound == kept
            &&& forall|kind: DeviceKind| #[trigger]
                kept.has(kind.defined_by()) ==> provided(states.last().devices, kind.defined_by())
        }),
{
    let kept = kept_capabilities(niri, session);
    let seated = EisView { seat: true, ..EisView::fresh() };
    let none = Seq::<BoundDevice>::empty();
    reveal(Seq::filter);
    assert(EisView::fresh().connect_actions(kept, geometries) =~= seq![
        EisActionView::AddSeat { capabilities: seat_capabilities() },
    ] + devices_made(none, kept, geometries)) by {
        assert(devices_removed(none) =~= Seq::<EisActionView>::empty());
        assert(seated.bind_actions(kept, geometries) =~= devices_made(none, kept, geometries));
    }
    assert(states[0].devices =~= none);
    asked_capabilities_get_devices(seated, kept, geometries, states);
}

/// A persistent session that keeps its bound capabilities gets the same devices back when its
/// client connects again: those that binding the same capabilities on a new connection makes. Once
/// they are added, each bound capability that defines a kind of device has a device again.
pub proof fn persistent_devices_come_back(
    niri: NiriView,
    session: RemoteDesktopSessionId,
    bound: Capabilities,
    geometries: Seq<Option<Rectangle>>,
    states: Seq<EisView>,
)
    requires
        niri.remote_desktop.sessions.contains_key(session),
        niri.remote_desktop.sessions[session].persistent,
        bound != Capabilities::none(),
        states.len() > 0,
        states[0] == EisView::fresh().after_connect(
            kept_capabilities(niri.eis_taken(session, bound), session),
        ),
        gained_along(states, devices_made(Seq::empty(), bound, geometries)),
    ensures
        ({
            let gone = niri.eis_taken(session, bound);
            let kept = kept_capabilities(gone, session);
            &&& kept == bound
            &&& EisView::fresh().connect_actions(kept, geometries) == seq![
                EisActionView::AddSeat { capabilities: seat_capabilities() },
            ] + devices_made(Seq::empty(), bound, geometries)
            &&& states.last().bound == bound
            &&& forall|kind: DeviceKind| #[trigger]
                bound.has(kind.defined_by()) ==> provided(states.last().devices, kind.defined_by())
        }),
{
    kept_capabilities_get_devices(niri.eis_taken(session, bound), session, geometries, states);
}

/// The compositor once a peer created a persistent session, its monitors are known, and its client
/// has an EIS connection.
pub open spec fn peer_returned(
    niri: NiriView,
    session: RemoteDesktopSessionId,
    takes_control: bool,
    disable_animations: bool,
    outputs: Seq<Seq<char>>,
    token: SourceToken,
) -> NiriView {
    let added = niri.session_added(session, true, takes_control, disable_animations);
    let created = added.monitors_refreshed(outputs).animations_refreshed();
    NiriView {
        remote_desktop: created.remote_desktop.with_session(
            session,
            SessionView {
                eis: Some(EisConnection { token, bound: Capabilities::none() }),
                ..created.remote_desktop.sessions[session]
            },
        ),
        ..created
    }
}

/// The devices that the client of a persistent session had bound survive its peer leaving the bus
/// and coming back: once the peer has a persistent session again and its client connects, each
/// bound capability that defines a kind of device has a device again.
pub proof fn devices_survive_the_peer(
    niri: NiriView,
    session: RemoteDesktopSessionId,
    next: RemoteDesktopSessionId,
    takes_control: bool,
    disable_animations: bool,
    outputs: Seq<Seq<char>>,
    token: SourceToken,
    geometries: Seq<Option<Rectangle>>,
    states: Seq<EisView>,
)
    requires
        niri.remote_desktop.sessions.contains_key(session),
        niri.remote_desktop.sessions[session].persistent,
        states.len() > 0,
        ({
            let left = niri.session_destroyed(session, false);
            let back = peer_returned(
                left,
                next,
                takes_control,
                disable_animations,
                outputs,
                token,
            );
            let kept = kept_capabilities(back, next);
            &&& states[0] == EisView::fresh().after_connect(kept)
            &&& gained_along(states, devices_made(Seq::empty(), kept, geometries))
        }),
    ensures
        forall|kind: DeviceKind| #[trigger]
            niri.remote_desktop.sessions[session].eis_bound.has(kind.defined_by()) ==> provided(
                states.last().devices,
                kind.defined_by(),
            ),
{
    let left = niri.session_destroyed(session, false);
    let bound = niri.remote_desktop.sessions[session].eis_bound;
    let back = peer_returned(left, next, takes_control, disable_animations, outputs, token);
    let kept = kept_capabilities(back, next);
    let added = left.session_added(next, true, takes_control, disable_animations);
    assert forall|capability: DeviceCapability| #[trigger] bound.has(capability) implies kept.has(
        capability,
    ) by {
        assert(left.remote_desktop.eis_left.has(capability));
        assert(added.remote_desktop.eis_left.has(capability));
    }
    assert forall|kind: DeviceKind| #[trigger] bound.has(kind.defined_by()) implies provided(
        states.last().devices,
        kind.defined_by(),
    ) by {
        assert(kept.has(kind.defined_by()));
        assert(kept != Capabilities::none());
        kept_capabilities_get_devices(back, next, geometries, states);
    }
}

/// Any other session forgets what its client had bound.
pub proof fn other_devices_do_not_come_back(
    niri: NiriView,
    session: RemoteDesktopSessionId,
    bound: Capabilities,
)
    requires
        niri.remote_desktop.sessions.contains_key(session) ==> !niri.remote_desktop.sessions[session].persistent,
    ensures
        kept_capabilities(niri.eis_taken(session, bound), session) == Capabilities::none(),
{
}

/// The end of a frame leaves nothing of the frame behind: a second end does nothing.
pub proof fn frames_end_once(
    connection: EisView,
    handle: EisHandle,
    time: u64,
    actions: Seq<EisActionView>,
)
    requires
        connection.after_frame(handle).frame_actions(handle, time, actions),
    ensures
        actions.len() == 0,
{
    let after = connection.after_frame(handle);
    lemma_first_index(connection.devices, handled_by(handle));
    match connection.device_for(handle) {
        Some(index) => {
            assert forall|i: int| 0 <= i < after.devices.len() implies after.devices[i].handle
                == connection.devices[i].handle && after.devices[i].device.id
                == connection.devices[i].device.id by {}
            lemma_is_first(after.devices, handled_by(handle), index);
            let key = connection.devices[index].device.id;
            lemma_filtered_out(connection.touch_frames, key);
        },
        None => {},
    }
}

proof fn lemma_filtered_out(keys: Seq<u64>, key: u64)
    ensures
        !keys.filter(other_id(key)).contains(key),
    decreases keys.len(),
{
    reveal(Seq::filter);
    if keys.len() > 0 {
        lemma_filtered_out(keys.drop_last(), key);
        let rest = keys.drop_last().filter(other_id(key));
        let all = keys.filter(other_id(key));
        if all.contains(key) {
            let i = choose|i: int| 0 <= i < all.len() && all[i] == key;
            if i < rest.len() {
                assert(rest[i] == key);
            }
        }
    }
}

/// Binding what is bound already removes no device, and makes none of a kind that is there.
pub proof fn binding_again_changes_nothing(
    connection: EisView,
    kind: DeviceKind,
    geometries: Seq<Option<Rectangle>>,
)
    requires
        connection.seat,
        provided(connection.devices, kind.defined_by()),
    ensures
        connection.after_bind(connection.bound).devices == connection.devices,
        device_made(kind, connection.devices, connection.bound, geometries) == Seq::<
            EisActionView,
        >::empty(),
{
    let gone = unbound(connection.bound, connection.bound);
    assert(gone@ =~= Set::<DeviceCapability>::empty());
    lemma_all_kept(connection.devices, free_of(gone));
}

proof fn lemma_all_kept(devices: Seq<BoundDevice>, keep: spec_fn(BoundDevice) -> bool)
    requires
        forall|i: int| 0 <= i < devices.len() ==> keep(#[trigger] devices[i]),
    ensures
        devices.filter(keep) == devices,
    decreases devices.len(),
{
    reveal(Seq::filter);
    if devices.len() > 0 {
        lemma_all_kept(devices.drop_last(), keep);
        assert(devices.drop_last().push(devices.last()) =~= devices);
    } else {
        assert(devices.filter(keep) =~= devices);
    }
}

} // verus!
