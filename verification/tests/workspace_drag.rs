use niri::input::workspace_drag_grab::{
    AnyStartData, Cursor, GrabAction, Location, WorkspaceDragGrab,
};

fn at(x: f64, y: f64) -> Location {
    Location {
        x: x.to_bits(),
        y: y.to_bits(),
    }
}

fn pointer() -> AnyStartData {
    AnyStartData::Pointer {
        button: 0x110,
        location: at(1., 2.),
    }
}

fn touch() -> AnyStartData {
    AnyStartData::Touch {
        slot: Some(3),
        location: at(1., 2.),
    }
}

#[test]
fn a_drag_starts_where_the_grab_does() {
    assert!(WorkspaceDragGrab::new(false, pointer()).is_none());
    let (grab, actions) = WorkspaceDragGrab::new(true, pointer()).unwrap();
    assert_eq!(grab.new_location, at(1., 2.));
    assert_eq!(
        actions,
        vec![
            GrabAction::SetCursor {
                cursor: Cursor::Grabbing
            },
            GrabAction::QueueRedraw
        ]
    );
    // Fingers have no cursor.
    let (_, actions) = WorkspaceDragGrab::new(true, touch()).unwrap();
    assert_eq!(actions, vec![GrabAction::QueueRedraw]);
}

#[test]
fn motion_counts_once_at_the_end_of_the_frame() {
    let (mut grab, _) = WorkspaceDragGrab::new(true, pointer()).unwrap();
    assert_eq!(grab.on_frame(), None);
    grab.motion(at(3., 4.), 10);
    grab.motion(at(5., 6.), 11);
    assert_eq!(grab.on_frame(), Some(at(5., 6.)));
    assert_eq!(grab.on_frame(), None);
}

#[test]
fn a_drag_goes_on_until_the_layout_ends_it() {
    let (grab, _) = WorkspaceDragGrab::new(true, pointer()).unwrap();
    assert_eq!(grab.on_drag_update(None), (true, vec![]));
    assert_eq!(
        grab.on_drag_update(Some(true)),
        (true, vec![GrabAction::QueueRedraw])
    );
    assert_eq!(grab.on_drag_update(Some(false)), (false, vec![]));
}

#[test]
fn the_button_that_started_the_grab_ends_it() {
    let (grab, _) = WorkspaceDragGrab::new(true, pointer()).unwrap();
    assert!(grab.button(true, &vec![]));
    assert!(grab.button(true, &vec![0x111]));
    assert!(!grab.button(true, &vec![0x111, 0x110]));
    assert!(!grab.button(false, &vec![]));
}

#[test]
fn only_the_finger_that_started_the_grab_counts() {
    let (mut grab, _) = WorkspaceDragGrab::new(true, touch()).unwrap();
    grab.touch_motion(Some(4), at(9., 9.), 1);
    assert_eq!(grab.on_frame(), None);
    grab.touch_motion(Some(3), at(7., 8.), 2);
    assert_eq!(grab.on_frame(), Some(at(7., 8.)));
    assert!(!grab.touch_up(Some(4)));
    assert!(!grab.touch_up(None));
    assert!(grab.touch_up(Some(3)));
}

#[test]
fn cancelled_drags_are_taken_back() {
    let (mut grab, _) = WorkspaceDragGrab::new(true, touch()).unwrap();
    assert_eq!(
        grab.on_ungrab(),
        vec![GrabAction::EndDrag { accept: true }, GrabAction::QueueRedraw]
    );
    grab.touch_cancel();
    assert_eq!(
        grab.on_ungrab(),
        vec![
            GrabAction::EndDrag { accept: false },
            GrabAction::QueueRedraw
        ]
    );
    let tool = AnyStartData::TabletTool {
        location: at(0., 0.),
    };
    let (grab, _) = WorkspaceDragGrab::new(true, tool).unwrap();
    assert_eq!(
        grab.on_ungrab()[1],
        GrabAction::SetCursor {
            cursor: Cursor::Default
        }
    );
}
