use niri::dbus::remote_desktop::messages::{ClipboardType, CursorMode};
use niri::niri::{Niri, State};
use niri::remote_desktop::actions::Action;
use niri::remote_desktop::capabilities::{Capabilities, DeviceCapability};
use niri::remote_desktop::clipboard::{clipboard_type_of, SelectionTarget};
use niri::remote_desktop::eis::{
    advertised_capabilities, device_region, device_regions, region_list, DeviceKind, EisAction,
    EisConnectionState, EisEvent, EisRequest, PostAction, Region,
};
use niri::remote_desktop::input::{
    global_position, output_position, AbsolutePosition, Axis, AxisFrame, AxisRelativeDirection,
    AxisSource, Coordinate, EiButtonEvent, EiDevice, EiKeyboardKeyEvent, EiPointerAxisEvent,
    GlobalPoint, InputCapability, InputEvent, Layout, PressState, TouchTarget,
};
use niri::utils::geometry::{Point, Rectangle, Size, Transform};

fn rectangle(x: i32, y: i32, w: i32, h: i32) -> Rectangle {
    Rectangle {
        loc: Point { x, y },
        size: Size { w, h },
    }
}

fn point(x: f32, y: f32) -> GlobalPoint {
    GlobalPoint {
        x: x.to_bits(),
        y: y.to_bits(),
    }
}

/// The value of a coordinate, as the compositor computes it.
fn coordinate(coordinate: Coordinate, global: GlobalPoint) -> f64 {
    let bits = if coordinate.vertical {
        global.y
    } else {
        global.x
    };
    let local = f64::from(f32::from_bits(bits)) - f64::from(coordinate.origin);
    match coordinate.mirrored_in {
        Some(length) => f64::from(length) - local,
        None => local,
    }
}

fn position(pos: &AbsolutePosition) -> (f64, f64) {
    (coordinate(pos.x, pos.global), coordinate(pos.y, pos.global))
}

fn caps(list: &[DeviceCapability]) -> Capabilities {
    let mut caps = Capabilities::empty();
    for cap in list {
        caps = caps.with(*cap);
    }
    caps
}

/// A seat that takes input events.
#[derive(Default)]
struct Seat {
    keys: Vec<u32>,
    buttons: Vec<u32>,
    pointer: (f64, f64),
    devices: Vec<String>,
    events: Vec<InputEvent>,
}

impl Seat {
    fn process(&mut self, event: InputEvent) {
        match &event {
            InputEvent::DeviceAdded { device } => self.devices.push(device.name()),
            InputEvent::Keyboard { event } => match event.state {
                PressState::Pressed => self.keys.push(event.key_code()),
                PressState::Released => self.keys.retain(|key| *key != event.key_code()),
            },
            InputEvent::PointerButton { event } => match event.state {
                PressState::Pressed => self.buttons.push(event.button),
                PressState::Released => self.buttons.retain(|button| *button != event.button),
            },
            InputEvent::PointerMotion { event } => {
                self.pointer.0 += f64::from(f32::from_bits(event.dx));
                self.pointer.1 += f64::from(f32::from_bits(event.dy));
            }
            _ => (),
        }
        self.events.push(event);
    }
}

/// A client of an EIS connection, and the seat behind it.
struct Fixture {
    state: State,
    connection: EisConnectionState,
    session: u64,
    layout: Layout,
    geometries: Vec<Option<Rectangle>>,
    keymap: &'static str,
    seat: Seat,
    advertised: Option<Capabilities>,
    made: Vec<(u64, DeviceKind, Capabilities)>,
    /// The regions that each device was announced with.
    regions: Vec<(DeviceKind, Vec<Region>)>,
    /// The keymaps that the client received.
    keymaps: Vec<(DeviceKind, &'static str)>,
    removed: Vec<u64>,
    flushes: u32,
    receiver: bool,
    next_handle: u64,
}

impl Fixture {
    fn new(persistent: bool) -> Self {
        let mut state = State { niri: Niri::new() };
        let mut actions = Vec::new();
        state.create_remote_desktop_session(1, persistent, false, false, 0, &mut actions);
        let mut f = Fixture {
            state,
            connection: EisConnectionState::new(),
            session: 1,
            layout: Layout {
                bounds: Some(rectangle(0, 0, 1280, 720)),
                target: Some(TouchTarget {
                    output: 5,
                    geometry: Some(rectangle(0, 0, 1280, 720)),
                    transform: Transform::Normal,
                }),
            },
            geometries: vec![Some(rectangle(0, 0, 1280, 720))],
            keymap: "xkb_keymap {};",
            seat: Seat::default(),
            advertised: None,
            made: Vec::new(),
            regions: Vec::new(),
            keymaps: Vec::new(),
            removed: Vec::new(),
            flushes: 0,
            receiver: false,
            next_handle: 100,
        };
        f.connect();
        f
    }

    /// The peer leaves the bus, or destroys its session, and comes back with another one.
    fn come_back(&mut self, remove: bool, persistent: bool) {
        let mut actions = Vec::new();
        self.state
            .destroy_remote_desktop_session(self.session, remove, false, &mut actions);
        self.session += 1;
        self.state
            .create_remote_desktop_session(self.session, persistent, false, false, 0, &mut actions);
        self.state.session_created(&vec![], 0);
        self.made.clear();
        self.connection = EisConnectionState::new();
        self.connect();
        self.event(EisEvent::Connected);
    }

    fn kinds(&self) -> Vec<DeviceKind> {
        self.made.iter().map(|(_, kind, _)| *kind).collect()
    }

    fn connect(&mut self) {
        let answers = self.state.eis_connected(self.session, Ok(77), 0);
        assert!(matches!(answers[0], Action::Reply { .. }));
    }

    fn event(&mut self, event: EisEvent) -> PostAction {
        let (post, actions) = self.connection.handle_event(
            &mut self.state,
            self.session,
            event,
            self.layout,
            &self.geometries,
        );
        self.run(actions);
        post
    }

    fn request(&mut self, request: EisRequest) {
        assert_eq!(self.event(EisEvent::Request(request)), PostAction::Continue);
    }

    fn run(&mut self, actions: Vec<EisAction>) {
        for action in actions {
            match action {
                EisAction::AddSeat { capabilities } => self.advertised = Some(capabilities),
                EisAction::AddDevice {
                    kind,
                    capabilities,
                    regions,
                    keymap,
                } => {
                    self.next_handle += 1;
                    let handle = self.next_handle;
                    self.made.push((handle, kind, capabilities));
                    self.regions.push((kind, regions));
                    if keymap {
                        self.keymaps.push((kind, self.keymap));
                    }
                    let more = self.connection.device_added(
                        &mut self.state,
                        kind,
                        capabilities,
                        handle,
                        self.receiver,
                    );
                    self.run(more);
                }
                EisAction::RemoveDevice { device } => self.removed.push(device),
                EisAction::Input(event) => self.seat.process(event),
                EisAction::Flush => self.flushes += 1,
            }
        }
    }

    fn bind(&mut self, list: &[DeviceCapability]) {
        self.request(EisRequest::Bind {
            capabilities: caps(list),
        });
    }

    fn device(&self, kind: DeviceKind) -> u64 {
        self.made
            .iter()
            .rev()
            .find(|(_, made, _)| *made == kind)
            .expect("the device should have been made")
            .0
    }

    fn ready() -> Self {
        let mut f = Self::new(false);
        f.event(EisEvent::Connected);
        f.bind(&[
            DeviceCapability::Pointer,
            DeviceCapability::PointerAbsolute,
            DeviceCapability::Keyboard,
            DeviceCapability::Touch,
            DeviceCapability::Scroll,
            DeviceCapability::Button,
        ]);
        f.seat.events.clear();
        f
    }
}

#[test]
fn absolute_pointer_maps_over_the_whole_layout() {
    // Outputs of 1280x720 and 1920x1080 side by side.
    let bounds = rectangle(0, 0, 1280 + 1920, 1080);

    // A point on the second output.
    let global = point(1400., 300.);
    let pos = global_position(Some(bounds), global).unwrap();

    // An absolute event with no device output is mapped over the bounding rectangle, so feeding
    // the bounding rectangle's size back must return the original global point.
    let (x, y) = position(&pos);
    let x = x * f64::from(bounds.size.w) / f64::from(pos.space.w) + f64::from(bounds.loc.x);
    let y = y * f64::from(bounds.size.h) / f64::from(pos.space.h) + f64::from(bounds.loc.y);
    assert!((x - 1400.).abs() < 0.001, "{x}");
    assert!((y - 300.).abs() < 0.001, "{y}");
}

#[test]
fn touch_maps_onto_the_output_under_the_point() {
    let second = 2;
    let geo = rectangle(1280, 0, 1920, 1080);

    let mut device = EiDevice::new(1, "test".to_owned(), vec![]);

    let global = point(geo.loc.x as f32 + 100., geo.loc.y as f32 + 50.);
    let target = TouchTarget {
        output: second,
        geometry: Some(geo),
        transform: Transform::Normal,
    };
    let pos = output_position(Some(target), &mut device, global).unwrap();

    // The device now points at the output the event landed on...
    assert_eq!(device.output(), Some(second));

    // ...and the position is relative to it.
    let (x, y) = position(&pos);
    assert!((x - 100.).abs() < 0.001, "{pos:?}");
    assert!((y - 50.).abs() < 0.001, "{pos:?}");
}

#[test]
fn injected_input_goes_through_the_normal_pipeline() {
    let device = EiDevice::new(1, "test".to_owned(), vec![]);
    let mut seat = Seat::default();

    // A button press must reach the seat's pointer, which tracks pressed buttons.
    seat.process(InputEvent::PointerButton {
        event: EiButtonEvent {
            device: device.clone(),
            time: 0,
            button: 0x110, // BTN_LEFT
            state: PressState::Pressed,
        },
    });
    assert_eq!(seat.buttons, vec![0x110]);
    // A key press must update the keyboard's pressed-keys set.
    let event = EiKeyboardKeyEvent {
        device,
        time: 0,
        key: 30, // KEY_A
        state: PressState::Pressed,
        count: 1,
    };
    // evdev codes are offset by 8 in xkb space.
    assert_eq!(event.key_code(), 38);

    seat.process(InputEvent::Keyboard { event });

    assert!(
        seat.keys.iter().any(|k| *k == 38),
        "the injected key should be pressed on the seat: {:?}",
        seat.keys
    );

    // What a client sends comes to the seat as the same events.
    let mut f = Fixture::ready();
    let pointer = f.device(DeviceKind::Pointer);
    let keyboard = f.device(DeviceKind::Keyboard);
    f.request(EisRequest::Button {
        device: pointer,
        time: 0,
        button: 0x110,
        state: PressState::Pressed,
    });
    f.request(EisRequest::KeyboardKey {
        device: keyboard,
        time: 0,
        key: 30,
        state: PressState::Pressed,
    });
    assert_eq!(f.seat.buttons, seat.buttons);
    assert_eq!(f.seat.keys, seat.keys);
}

#[test]
fn devices_that_send_points_have_the_outputs_as_regions() {
    let mut f = Fixture::new(false);
    f.geometries = vec![
        Some(rectangle(0, 0, 1280, 720)),
        None,
        Some(rectangle(1280, -10, 1920, 1080)),
    ];
    f.event(EisEvent::Connected);
    f.bind(&[
        DeviceCapability::Pointer,
        DeviceCapability::PointerAbsolute,
        DeviceCapability::Keyboard,
        DeviceCapability::Touch,
    ]);

    let regions = vec![
        Region {
            x: 0,
            y: 0,
            width: 1280,
            height: 720,
        },
        Region {
            x: 1280,
            y: 0,
            width: 1920,
            height: 1080,
        },
    ];
    assert_eq!(
        f.regions,
        vec![
            (DeviceKind::Pointer, vec![]),
            (DeviceKind::AbsolutePointer, regions.clone()),
            (DeviceKind::Keyboard, vec![]),
            (DeviceKind::Touchscreen, regions.clone()),
        ]
    );
    assert_eq!(f.keymaps, vec![(DeviceKind::Keyboard, f.keymap)]);
    assert_eq!(device_regions(DeviceKind::Touchscreen, &f.geometries), regions);
    assert!(device_regions(DeviceKind::Keyboard, &f.geometries).is_empty());
}

#[test]
fn clipboard_round_trip_types() {
    // The D-Bus clipboard-type values map onto the selection targets.
    assert_eq!(
        SelectionTarget::from(ClipboardType::Clipboard),
        SelectionTarget::Clipboard
    );
    assert_eq!(
        SelectionTarget::from(ClipboardType::Primary),
        SelectionTarget::Primary
    );
    assert_eq!(ClipboardType::from_dbus(1), Some(ClipboardType::Clipboard));
    assert_eq!(ClipboardType::from_dbus(2), Some(ClipboardType::Primary));
    assert_eq!(ClipboardType::from_dbus(3), None);

    // Cursor modes are shifted by one compared to org.gnome.Mutter.ScreenCast.
    assert_eq!(CursorMode::from_dbus(1), Some(CursorMode::Hidden));
    assert_eq!(CursorMode::from_dbus(3), Some(CursorMode::Metadata));
    assert_eq!(CursorMode::from_dbus(0), None);
    assert_eq!(CursorMode::default(), CursorMode::Metadata);
}

#[test]
fn eis_input_reaches_the_seat() {
    let mut f = Fixture::new(false);

    // The seat, the bind round-trip and the devices.
    assert_eq!(f.event(EisEvent::Connected), PostAction::Continue);
    assert_eq!(f.advertised, Some(advertised_capabilities()));
    f.bind(&[
        DeviceCapability::Keyboard,
        DeviceCapability::Pointer,
        DeviceCapability::PointerAbsolute,
        DeviceCapability::Button,
        DeviceCapability::Scroll,
    ]);
    let bound = f.seat.devices.iter().any(|name| name == "niri remote keyboard")
        && f.seat.devices.iter().any(|name| name == "niri remote pointer");
    assert!(bound, "the client should get a keyboard and a pointer");
    let keyboard = f.device(DeviceKind::Keyboard);
    let pointer = f.device(DeviceKind::Pointer);
    let keymap_size = f
        .keymaps
        .iter()
        .find(|(kind, _)| *kind == DeviceKind::Keyboard)
        .map(|(_, keymap)| keymap.len());
    assert!(
        keymap_size.is_some_and(|size| size > 0),
        "the keyboard device should come with a keymap"
    );

    // A key press must land on the seat's keyboard.
    f.request(EisRequest::KeyboardKey {
        device: keyboard,
        time: 1000,
        key: 30, // KEY_A
        state: PressState::Pressed,
    });
    f.request(EisRequest::Frame {
        device: keyboard,
        time: 1000,
    });
    assert!(
        f.seat.keys.iter().any(|k| *k == 38),
        "the injected key should be pressed on the seat"
    );

    f.request(EisRequest::KeyboardKey {
        device: keyboard,
        time: 2000,
        key: 30,
        state: PressState::Released,
    });
    f.request(EisRequest::Frame {
        device: keyboard,
        time: 2000,
    });
    assert!(
        f.seat.keys.is_empty(),
        "the injected key should be released again"
    );

    // And pointer motion must move the cursor.
    let before = f.seat.pointer;
    f.request(EisRequest::PointerMotion {
        device: pointer,
        time: 3000,
        dx: 37f32.to_bits(),
        dy: 23f32.to_bits(),
    });
    f.request(EisRequest::Frame {
        device: pointer,
        time: 3000,
    });
    let after = f.seat.pointer;
    assert!(after != before, "the injected motion should move the pointer");
    assert!(
        (after.0 - before.0 - 37.).abs() < 1.,
        "{before:?} -> {after:?}"
    );
    assert!(
        (after.1 - before.1 - 23.).abs() < 1.,
        "{before:?} -> {after:?}"
    );
}

#[test]
fn binding_makes_one_device_per_kind() {
    let f = Fixture::ready();
    let kinds: Vec<DeviceKind> = f.made.iter().map(|(_, kind, _)| *kind).collect();
    assert_eq!(
        kinds,
        vec![
            DeviceKind::Pointer,
            DeviceKind::AbsolutePointer,
            DeviceKind::Keyboard,
            DeviceKind::Touchscreen,
        ]
    );
    assert_eq!(
        f.made[0].2,
        caps(&[
            DeviceCapability::Pointer,
            DeviceCapability::Button,
            DeviceCapability::Scroll
        ])
    );
    assert_eq!(f.made[2].2, caps(&[DeviceCapability::Keyboard]));
    assert_eq!(
        f.seat.devices,
        vec![
            "niri remote pointer",
            "niri remote absolute pointer",
            "niri remote keyboard",
            "niri remote touchscreen",
        ]
    );
    let ids: Vec<u64> = f.connection.devices.iter().map(|d| d.device.key()).collect();
    assert_eq!(ids, vec![1, 2, 3, 4]);
    assert!(f.connection.devices[2]
        .device
        .has_capability(InputCapability::Keyboard));
    assert!(!f.connection.devices[2]
        .device
        .has_capability(InputCapability::Pointer));
    assert!(DeviceKind::AbsolutePointer.is_absolute());
    assert!(DeviceKind::Touchscreen.is_absolute());
    assert!(!DeviceKind::Pointer.is_absolute());
    assert!(!DeviceKind::Pointer.has_keymap());
}

#[test]
fn extras_ride_along_only_when_asked_for() {
    let mut f = Fixture::new(false);
    f.event(EisEvent::Connected);
    f.bind(&[DeviceCapability::Pointer, DeviceCapability::Text]);
    assert_eq!(f.made.len(), 1);
    assert_eq!(f.made[0].2, caps(&[DeviceCapability::Pointer]));
}

#[test]
fn binding_before_the_seat_does_nothing() {
    let mut f = Fixture::new(false);
    f.bind(&[DeviceCapability::Pointer]);
    assert!(f.made.is_empty());
    assert!(f.connection.bound.is_empty());
    assert_eq!(f.flushes, 1);
}

#[test]
fn unbinding_removes_the_devices_that_provided_it() {
    let mut f = Fixture::ready();
    let pointer = f.device(DeviceKind::Pointer);
    let absolute = f.device(DeviceKind::AbsolutePointer);
    // Both pointers had buttons.
    f.bind(&[
        DeviceCapability::Pointer,
        DeviceCapability::PointerAbsolute,
        DeviceCapability::Keyboard,
        DeviceCapability::Scroll,
    ]);
    assert_eq!(f.removed[..2], [pointer, absolute]);
    assert_eq!(f.removed.len(), 3);
    // The pointers come back without them.
    let again = f.made.last().unwrap();
    assert_eq!(again.1, DeviceKind::AbsolutePointer);
    assert_eq!(
        again.2,
        caps(&[DeviceCapability::PointerAbsolute, DeviceCapability::Scroll])
    );
    // Binding the same again changes nothing.
    let made = f.made.len();
    f.bind(&[
        DeviceCapability::Pointer,
        DeviceCapability::PointerAbsolute,
        DeviceCapability::Keyboard,
        DeviceCapability::Scroll,
    ]);
    assert_eq!(f.made.len(), made);
    assert_eq!(f.removed.len(), 3);
}

#[test]
fn receivers_get_no_devices() {
    let mut f = Fixture::new(false);
    f.receiver = true;
    f.event(EisEvent::Connected);
    f.bind(&[DeviceCapability::Keyboard]);
    assert_eq!(f.removed, vec![f.device(DeviceKind::Keyboard)]);
    assert!(f.connection.devices.is_empty());
    assert!(f.seat.devices.is_empty());
    assert_eq!(f.state.niri.device_ids.value, 1);
}

#[test]
fn a_persistent_session_gets_its_devices_back() {
    let mut f = Fixture::new(true);
    f.event(EisEvent::Connected);
    f.bind(&[DeviceCapability::Keyboard, DeviceCapability::Touch]);
    let first: Vec<_> = f.made.iter().map(|(_, kind, caps)| (*kind, *caps)).collect();
    assert_eq!(
        f.event(EisEvent::Request(EisRequest::Disconnect)),
        PostAction::Remove
    );
    assert!(f.connection.devices.is_empty());
    assert!(f.state.niri.remote_desktop.sessions[&1].eis.is_none());

    f.made.clear();
    f.connection = EisConnectionState::new();
    f.connect();
    f.event(EisEvent::Connected);
    let second: Vec<_> = f.made.iter().map(|(_, kind, caps)| (*kind, *caps)).collect();
    assert_eq!(first, second);

    // Unbinding a capability removes it for good.
    f.bind(&[DeviceCapability::Touch]);
    assert_eq!(f.event(EisEvent::Failed), PostAction::Remove);
    f.made.clear();
    f.connection = EisConnectionState::new();
    f.connect();
    f.event(EisEvent::Connected);
    let third: Vec<_> = f.made.iter().map(|(_, kind, _)| *kind).collect();
    assert_eq!(third, vec![DeviceKind::Touchscreen]);
}

#[test]
fn bound_devices_survive_the_peer_of_a_persistent_session() {
    let bound = [DeviceCapability::Keyboard, DeviceCapability::Touch];
    let kinds = vec![DeviceKind::Keyboard, DeviceKind::Touchscreen];

    // While the client is connected, and after it went away.
    for connected in [true, false] {
        let mut f = Fixture::new(true);
        f.event(EisEvent::Connected);
        f.bind(&bound);
        if !connected {
            f.event(EisEvent::Request(EisRequest::Disconnect));
        }
        f.come_back(false, true);
        assert_eq!(f.kinds(), kinds);
        assert_eq!(f.state.niri.remote_desktop.sessions[&2].eis_bound, caps(&bound));

        // They were taken; another session starts without them.
        assert!(f.state.niri.remote_desktop.eis_left.is_empty());
        let mut actions = Vec::new();
        f.state
            .create_remote_desktop_session(3, true, false, false, 0, &mut actions);
        f.session = 3;
        f.made.clear();
        f.connection = EisConnectionState::new();
        f.connect();
        f.event(EisEvent::Connected);
        assert!(f.made.is_empty());
    }

    // Not if the peer asks for its things to go, nor for a session that is not persistent.
    let mut f = Fixture::new(true);
    f.event(EisEvent::Connected);
    f.bind(&bound);
    f.come_back(true, true);
    assert!(f.made.is_empty());

    let mut f = Fixture::new(false);
    f.event(EisEvent::Connected);
    f.bind(&bound);
    f.come_back(false, true);
    assert!(f.made.is_empty());

    // They wait for a persistent session.
    let mut f = Fixture::new(true);
    f.event(EisEvent::Connected);
    f.bind(&bound);
    f.come_back(false, false);
    assert!(f.made.is_empty());
    assert_eq!(f.state.niri.remote_desktop.eis_left, caps(&bound));
    f.come_back(false, true);
    assert_eq!(f.kinds(), kinds);
}

#[test]
fn any_other_session_starts_without_devices() {
    let mut f = Fixture::new(false);
    f.event(EisEvent::Connected);
    f.bind(&[DeviceCapability::Keyboard]);
    f.event(EisEvent::Request(EisRequest::Disconnect));
    assert!(f.state.niri.remote_desktop.sessions[&1].eis_bound.is_empty());
    f.made.clear();
    f.connection = EisConnectionState::new();
    f.connect();
    f.event(EisEvent::Connected);
    assert!(f.made.is_empty());
}

#[test]
fn closed_devices_are_forgotten() {
    let mut f = Fixture::ready();
    let keyboard = f.device(DeviceKind::Keyboard);
    f.request(EisRequest::DeviceClosed { device: keyboard });
    assert_eq!(f.connection.devices.len(), 3);
    f.request(EisRequest::KeyboardKey {
        device: keyboard,
        time: 0,
        key: 30,
        state: PressState::Pressed,
    });
    assert!(f.seat.events.is_empty());
}

#[test]
fn scrolling_is_gathered_until_the_frame() {
    let mut f = Fixture::ready();
    let pointer = f.device(DeviceKind::Pointer);
    let delta = |dx: f32, dy: f32| EisRequest::ScrollDelta {
        device: pointer,
        time: 5_000_123,
        dx: dx.to_bits(),
        dy: dy.to_bits(),
    };
    f.request(delta(1., 2.));
    f.request(delta(3., -1.));
    f.request(EisRequest::ScrollDiscrete {
        device: pointer,
        time: 6_000_000,
        discrete_dx: 0,
        discrete_dy: 120,
    });
    f.request(EisRequest::ScrollStop {
        device: pointer,
        time: 6_000_000,
        x: true,
        y: false,
    });
    assert!(f.seat.events.is_empty());
    f.request(EisRequest::Frame {
        device: pointer,
        time: 7_000_000,
    });
    assert_eq!(f.seat.events.len(), 1);
    let InputEvent::PointerAxis { event } = &f.seat.events[0] else {
        panic!("unexpected event");
    };
    assert_eq!(event.time, 7_000_000);
    assert_eq!(event.frame.time, 5000);
    let sum = |axis| -> f64 {
        event
            .amounts(axis)
            .iter()
            .map(|bits| f64::from(f32::from_bits(*bits)))
            .sum()
    };
    assert_eq!(sum(Axis::Horizontal), 4.);
    assert_eq!(sum(Axis::Vertical), 1.);
    assert_eq!(event.amount_v120(Axis::Horizontal), Some(0));
    assert_eq!(event.amount_v120(Axis::Vertical), Some(120));
    assert_eq!(event.source(), AxisSource::Wheel);
    assert_eq!(
        event.relative_direction(Axis::Vertical),
        AxisRelativeDirection::Identical
    );
    assert_eq!(event.frame.stop, (true, false));

    // A second frame has nothing to hand on.
    f.request(EisRequest::Frame {
        device: pointer,
        time: 8_000_000,
    });
    assert_eq!(f.seat.events.len(), 1);
}

#[test]
fn every_axis_has_its_own_direction() {
    let mut frame = AxisFrame::new(7);
    assert_eq!(
        frame.relative_direction,
        (
            AxisRelativeDirection::Identical,
            AxisRelativeDirection::Identical
        )
    );
    frame.relative_direction.1 = AxisRelativeDirection::Inverted;
    let event = EiPointerAxisEvent {
        device: EiDevice::new(1, "test".to_owned(), vec![InputCapability::Pointer]),
        time: 7000,
        frame,
    };
    assert_eq!(
        event.relative_direction(Axis::Horizontal),
        AxisRelativeDirection::Identical
    );
    assert_eq!(
        event.relative_direction(Axis::Vertical),
        AxisRelativeDirection::Inverted
    );
}

#[test]
fn smooth_scrolling_has_no_steps() {
    let mut f = Fixture::ready();
    let pointer = f.device(DeviceKind::Pointer);
    f.request(EisRequest::ScrollCancel {
        device: pointer,
        time: 4_294_967_296_000,
        x: false,
        y: true,
    });
    f.request(EisRequest::Frame {
        device: pointer,
        time: 1,
    });
    let InputEvent::PointerAxis { event } = &f.seat.events[0] else {
        panic!("unexpected event");
    };
    // Milliseconds wrap around at 32 bits.
    assert_eq!(event.frame.time, 0);
    assert_eq!(event.amount_v120(Axis::Vertical), None);
    assert_eq!(event.source(), AxisSource::Continuous);
    assert_eq!(event.frame.stop, (false, true));
}

#[test]
fn touches_end_with_a_frame() {
    let mut f = Fixture::ready();
    let touch = f.device(DeviceKind::Touchscreen);
    f.request(EisRequest::TouchDown {
        device: touch,
        time: 1,
        touch_id: 3,
        x: 10f32.to_bits(),
        y: 20f32.to_bits(),
    });
    f.request(EisRequest::TouchMotion {
        device: touch,
        time: 2,
        touch_id: 3,
        x: 11f32.to_bits(),
        y: 21f32.to_bits(),
    });
    f.request(EisRequest::Frame {
        device: touch,
        time: 3,
    });
    f.request(EisRequest::TouchUp {
        device: touch,
        time: 4,
        touch_id: 3,
    });
    f.request(EisRequest::TouchCancel {
        device: touch,
        time: 5,
        touch_id: 4,
    });
    f.request(EisRequest::Frame {
        device: touch,
        time: 6,
    });
    f.request(EisRequest::Frame {
        device: touch,
        time: 7,
    });
    let names: Vec<&str> = f
        .seat
        .events
        .iter()
        .map(|event| match event {
            InputEvent::TouchDown { event } => {
                assert_eq!(event.slot, 3);
                assert_eq!(event.device.output(), Some(5));
                assert_eq!(position(&event.pos), (10., 20.));
                "down"
            }
            InputEvent::TouchMotion { event } => {
                assert_eq!(position(&event.pos), (11., 21.));
                "motion"
            }
            InputEvent::TouchUp { event } => {
                assert_eq!(event.device.output(), Some(5));
                "up"
            }
            InputEvent::TouchCancel { event } => {
                assert_eq!(event.slot, 4);
                "cancel"
            }
            InputEvent::TouchFrame { .. } => "frame",
            other => panic!("unexpected event: {other:?}"),
        })
        .collect();
    assert_eq!(names, vec!["down", "motion", "frame", "up", "cancel", "frame"]);
}

#[test]
fn points_outside_of_every_output_are_dropped() {
    let mut f = Fixture::ready();
    let touch = f.device(DeviceKind::Touchscreen);
    let absolute = f.device(DeviceKind::AbsolutePointer);
    f.layout = Layout {
        bounds: None,
        target: None,
    };
    let down = EisRequest::TouchDown {
        device: touch,
        time: 1,
        touch_id: 3,
        x: 0,
        y: 0,
    };
    f.request(down);
    f.request(EisRequest::PointerMotionAbsolute {
        device: absolute,
        time: 1,
        x: 0,
        y: 0,
    });
    // An output that is not mapped takes no touches either.
    f.layout.target = Some(TouchTarget {
        output: 5,
        geometry: None,
        transform: Transform::Normal,
    });
    f.request(down);
    assert!(f.seat.events.is_empty());
    assert!(f.connection.touch_frames.is_empty());
}

#[test]
fn pointers_have_no_output_of_their_own() {
    let mut f = Fixture::ready();
    let absolute = f.device(DeviceKind::AbsolutePointer);
    let index = f
        .connection
        .devices
        .iter()
        .position(|d| d.handle == absolute)
        .unwrap();
    f.connection.devices[index].device.set_output(Some(9));
    f.request(EisRequest::PointerMotionAbsolute {
        device: absolute,
        time: 1,
        x: 640f32.to_bits(),
        y: 360f32.to_bits(),
    });
    let InputEvent::PointerMotionAbsolute { event } = &f.seat.events[0] else {
        panic!("unexpected event");
    };
    assert_eq!(event.device.output(), None);
    assert_eq!(position(&event.pos), (640., 360.));
    assert_eq!(event.pos.space, Size { w: 1280, h: 720 });
    f.request(EisRequest::Button {
        device: absolute,
        time: 2,
        button: 0x111,
        state: PressState::Pressed,
    });
    assert_eq!(f.seat.buttons, vec![0x111]);
}

#[test]
fn unknown_requests_and_devices_do_nothing() {
    let mut f = Fixture::ready();
    let flushes = f.flushes;
    f.request(EisRequest::Other);
    f.request(EisRequest::Frame {
        device: 1,
        time: 1,
    });
    f.request(EisRequest::PointerMotion {
        device: 1,
        time: 1,
        dx: 0,
        dy: 0,
    });
    assert!(f.seat.events.is_empty());
    assert_eq!(f.flushes, flushes + 3);
}

#[test]
fn regions_are_the_mapped_outputs() {
    let regions = region_list(&vec![
        Some(rectangle(0, 0, 1280, 720)),
        None,
        Some(rectangle(-1920, -10, 1920, 1080)),
    ]);
    assert_eq!(
        regions,
        vec![rectangle(0, 0, 1280, 720), rectangle(-1920, -10, 1920, 1080)]
    );
    assert_eq!(
        device_region(regions[1]),
        Region {
            x: 0,
            y: 0,
            width: 1920,
            height: 1080
        }
    );
}

#[test]
fn touch_positions_undo_the_transform_of_their_output() {
    // What the compositor makes of a position, per transform.
    let placed = |transform: Transform, (x, y): (f64, f64), area: Size| {
        let (w, h) = (f64::from(area.w), f64::from(area.h));
        match transform {
            Transform::Normal => (x, y),
            Transform::_90 => (h - y, x),
            Transform::_180 => (w - x, h - y),
            Transform::_270 => (y, w - x),
            Transform::Flipped => (w - x, y),
            Transform::Flipped90 => (y, x),
            Transform::Flipped180 => (x, h - y),
            Transform::Flipped270 => (h - y, w - x),
        }
    };
    let geo = rectangle(300, 100, 1920, 1080);
    let mapped = |transform: Transform| {
        let mut device = EiDevice::new(1, "test".to_owned(), vec![InputCapability::Touch]);
        let target = TouchTarget {
            output: 1,
            geometry: Some(geo),
            transform,
        };
        let pos = output_position(Some(target), &mut device, point(400., 150.)).unwrap();
        let (x, y) = placed(transform, position(&pos), pos.space);
        (x + f64::from(geo.loc.x), y + f64::from(geo.loc.y))
    };
    for transform in [
        Transform::Normal,
        Transform::_90,
        Transform::_180,
        Transform::_270,
        Transform::Flipped,
        Transform::Flipped90,
        Transform::Flipped180,
        Transform::Flipped270,
    ] {
        assert_eq!(mapped(transform), (400., 150.), "{transform:?}");
    }
}

#[test]
fn devices_are_told_apart_by_their_number() {
    let a = EiDevice::new(7, "a".to_owned(), vec![InputCapability::Touch]);
    let b = EiDevice::new(7, "b".to_owned(), vec![]);
    let c = EiDevice::new(8, "a".to_owned(), vec![]);
    assert_eq!(a, b);
    assert_ne!(a, c);
    assert_eq!(a.id(), "eis device 7");
    assert_eq!(a.name(), "a");
    assert!(a.has_capability(InputCapability::Touch));
    assert!(!b.has_capability(InputCapability::Touch));
}

#[test]
fn targets_name_their_selection() {
    assert_eq!(
        clipboard_type_of(SelectionTarget::Clipboard),
        ClipboardType::Clipboard
    );
    assert_eq!(
        clipboard_type_of(SelectionTarget::Primary),
        ClipboardType::Primary
    );
}
