//! Dragging a workspace by its handle in the overview.

use vstd::prelude::*;

verus! {

/// A location in logical coordinates. Each coordinate is a 64-bit floating point number, given as
/// the pattern of its bits.
#[derive(Debug, Clone, Copy, PartialEq, Eq, Structural)]
pub struct Location {
    pub x: u64,
    pub y: u64,
}

/// What started a grab.
#[allow(inconsistent_fields)]
#[derive(Debug, Clone, Copy, PartialEq, Eq, Structural)]
pub enum AnyStartData {
    Pointer { button: u32, location: Location },
    Touch { slot: Option<u32>, location: Location },
    TabletTool { location: Location },
}

impl AnyStartData {
    /// Where the grab started.
    pub open spec fn start(self) -> Location {
        match self {
            AnyStartData::Pointer { location, .. } => location,
            AnyStartData::Touch { location, .. } => location,
            AnyStartData::TabletTool { location } => location,
        }
    }

    /// Whether a finger started the grab.
    pub fn is_touch(&self) -> (touch: bool)
        ensures
            touch == (*self is Touch),
    {
        match self {
            AnyStartData::Touch { .. } => true,
            _ => false,
        }
    }

    /// Where the grab started.
    pub fn location(&self) -> (location: Location)
        ensures
            location == self.start(),
    {
        match self {
            AnyStartData::Pointer { location, .. } => *location,
            AnyStartData::Touch { location, .. } => *location,
            AnyStartData::TabletTool { location } => *location,
        }
    }
}

/// The cursor that is shown.
#[derive(Debug, Clone, Copy, PartialEq, Eq, Structural)]
pub enum Cursor {
    Default,
    Grabbing,
}

/// One thing for the compositor to do during a drag.
#[derive(Debug, Clone, Copy, PartialEq, Eq, Structural)]
pub enum GrabAction {
    /// End the drag. The workspace moves only if the drag was not taken back.
    EndDrag { accept: bool },
    SetCursor { cursor: Cursor },
    QueueRedraw,
}

/// Showing a cursor. Fingers have none.
pub open spec fn cursor_shown(start: AnyStartData, cursor: Cursor) -> Seq<GrabAction> {
    if start is Touch {
        Seq::empty()
    } else {
        seq![GrabAction::SetCursor { cursor }]
    }
}

/// Grab for dragging a workspace by its handle in the overview.
#[derive(Debug, Clone, Copy, PartialEq, Eq, Structural)]
pub struct WorkspaceDragGrab {
    pub start_data: AnyStartData,
    pub cancelled: bool,
    /// Accumulated, and applied at the end of a frame.
    pub new_location: Location,
    /// Microseconds.
    pub event_timestamp: Option<u64>,
}

impl WorkspaceDragGrab {
    /// Starts the grab, if the layout began a drag.
    pub fn new(drag_begun: bool, start_data: AnyStartData) -> (result: Option<
        (WorkspaceDragGrab, Vec<GrabAction>),
    >)
        ensures
            match result {
                Some((grab, actions)) => {
                    &&& drag_begun
                    &&& grab == (WorkspaceDragGrab {
                        start_data,
                        cancelled: false,
                        new_location: start_data.start(),
                        event_timestamp: None,
                    })
                    &&& actions@ == cursor_shown(start_data, Cursor::Grabbing).push(
                        GrabAction::QueueRedraw,
                    )
                },
                None => !drag_begun,
            },
    {
        if !drag_begun {
            return None;
        }
        let mut actions: Vec<GrabAction> = Vec::new();
        if !start_data.is_touch() {
            actions.push(GrabAction::SetCursor { cursor: Cursor::Grabbing });
        }
        assert(actions@ =~= cursor_shown(start_data, Cursor::Grabbing));
        actions.push(GrabAction::QueueRedraw);
        let grab = WorkspaceDragGrab {
            start_data,
            cancelled: false,
            new_location: start_data.location(),
            event_timestamp: None,
        };
        Some((grab, actions))
    }

    /// What the end of the grab does.
    pub open spec fn ending(self) -> Seq<GrabAction> {
        (seq![GrabAction::EndDrag { accept: !self.cancelled }] + cursor_shown(
            self.start_data,
            Cursor::Default,
        )).push(GrabAction::QueueRedraw)
    }

    /// What ends the drag. The workspace moves, unless the drag was cancelled.
    pub fn on_ungrab(&self) -> (actions: Vec<GrabAction>)
        ensures
            actions@ == self.ending(),
    {
        let mut actions: Vec<GrabAction> = Vec::new();
        actions.push(GrabAction::EndDrag { accept: !self.cancelled });
        if !self.start_data.is_touch() {
            actions.push(GrabAction::SetCursor { cursor: Cursor::Default });
        }
        assert(actions@ =~= seq![GrabAction::EndDrag { accept: !self.cancelled }] + cursor_shown(
            self.start_data,
            Cursor::Default,
        ));
        actions.push(GrabAction::QueueRedraw);
        actions
    }

    /// Called at the end of a frame. Gives the location to drag the workspace to, if anything moved
    /// since the last frame.
    pub fn on_frame(&mut self) -> (location: Option<Location>)
        ensures
            *final(self) == (WorkspaceDragGrab { event_timestamp: None, ..*old(self) }),
            location == if old(self).event_timestamp is Some {
                Some(old(self).new_location)
            } else {
                None
            },
    {
        if self.event_timestamp.take().is_none() {
            return None;
        }
        Some(self.new_location)
    }

    /// Called with what came of dragging the workspace: nothing if no output is under the location,
    /// and otherwise whether the drag is still ongoing. Tells whether the grab goes on.
    pub fn on_drag_update(&self, updated: Option<bool>) -> (result: (bool, Vec<GrabAction>))
        ensures
            result.0 == (updated != Some(false)),
            result.1@ == if updated == Some(true) {
                seq![GrabAction::QueueRedraw]
            } else {
                Seq::empty()
            },
    {
        let mut actions: Vec<GrabAction> = Vec::new();
        match updated {
            None => (true, actions),
            Some(false) => (false, actions),
            Some(true) => {
                actions.push(GrabAction::QueueRedraw);
                assert(actions@ =~= seq![GrabAction::QueueRedraw]);
                (true, actions)
            },
        }
    }

    /// The pointer or the tablet tool moved. It counts at the end of the frame.
    pub fn motion(&mut self, location: Location, time: u64)
        ensures
            *final(self) == (WorkspaceDragGrab {
                new_location: location,
                event_timestamp: Some(time),
                ..*old(self)
            }),
    {
        self.new_location = location;
        self.event_timestamp = Some(time);
    }

    /// A button of the pointer went down or up, with these buttons down now. Tells whether the grab
    /// ends: it does when the button that initiated it is up.
    pub fn button(&self, released: bool, pressed: &Vec<u32>) -> (ends: bool)
        requires
            self.start_data is Pointer,
        ensures
            ends == (released && !pressed@.contains(self.start_data->button)),
    {
        if !released {
            return false;
        }
        match self.start_data {
            AnyStartData::Pointer { button, .. } => {
                for i in 0..pressed.len()
                    invariant
                        released,
                        button == self.start_data->button,
                        forall|j: int| 0 <= j < i ==> pressed@[j] != button,
                {
                    if pressed[i] == button {
                        return false;
                    }
                }
                true
            },
            _ => false,
        }
    }

    /// A finger left the screen. Tells whether the grab ends: it does when it is the finger that
    /// initiated it.
    pub fn touch_up(&self, slot: Option<u32>) -> (ends: bool)
        requires
            self.start_data is Touch,
        ensures
            ends == (slot == self.start_data->slot),
    {
        self.follows(slot)
    }

    /// A finger moved. Only the one that initiated the grab counts, at the end of the frame.
    pub fn touch_motion(&mut self, slot: Option<u32>, location: Location, time: u64)
        requires
            old(self).start_data is Touch,
        ensures
            *final(self) == if slot == old(self).start_data->slot {
                WorkspaceDragGrab {
                    new_location: location,
                    event_timestamp: Some(time),
                    ..*old(self)
                }
            } else {
                *old(self)
            },
    {
        if self.follows(slot) {
            self.motion(location, time);
        }
    }

    /// The touch is taken back, and the drag with it.
    pub fn touch_cancel(&mut self)
        ensures
            *final(self) == (WorkspaceDragGrab { cancelled: true, ..*old(self) }),
    {
        self.cancelled = true;
    }

    /// Whether a finger initiated the grab.
    fn follows(&self, slot: Option<u32>) -> (own: bool)
        requires
            self.start_data is Touch,
        ensures
            own == (slot == self.start_data->slot),
    {
        match self.start_data {
            AnyStartData::Touch { slot: own, .. } => match (slot, own) {
                (Some(a), Some(b)) => a == b,
                (None, None) => true,
                _ => false,
            },
            _ => false,
        }
    }
}

/// A drag that was taken back does not move the workspace, and every other drag does.
pub proof fn only_cancelled_drags_are_taken_back(grab: WorkspaceDragGrab)
    ensures
        (WorkspaceDragGrab { cancelled: true, ..grab }).ending()[0] == (GrabAction::EndDrag {
            accept: false,
        }),
        !grab.cancelled ==> grab.ending()[0] == (GrabAction::EndDrag { accept: true }),
{
}

/// Every grab starts where what started it is.
pub proof fn grabs_start_where_they_were_started(
    location: Location,
    button: u32,
    slot: Option<u32>,
)
    ensures
        (AnyStartData::Pointer { button, location }).start() == location,
        (AnyStartData::Touch { slot, location }).start() == location,
        (AnyStartData::TabletTool { location }).start() == location,
{
}

/// Fingers show no cursor; a pointer and a tablet tool show the cursor that is asked for.
pub proof fn fingers_show_no_cursor(start: AnyStartData, cursor: Cursor)
    ensures
        start is Touch ==> cursor_shown(start, cursor).len() == 0,
        !(start is Touch) ==> cursor_shown(start, cursor) == seq![GrabAction::SetCursor { cursor }],
{
}

/// The end of a grab ends the drag first, shows the default cursor again unless it was a finger's,
/// and redraws last.
pub proof fn grabs_end_with_a_redraw(grab: WorkspaceDragGrab)
    ensures
        grab.start_data is Touch ==> grab.ending() == seq![
            GrabAction::EndDrag { accept: !grab.cancelled },
            GrabAction::QueueRedraw,
        ],
        !(grab.start_data is Touch) ==> grab.ending() == seq![
            GrabAction::EndDrag { accept: !grab.cancelled },
            GrabAction::SetCursor { cursor: Cursor::Default },
            GrabAction::QueueRedraw,
        ],
{
    if grab.start_data is Touch {
        assert(grab.ending() =~= seq![
            GrabAction::EndDrag { accept: !grab.cancelled },
            GrabAction::QueueRedraw,
        ]);
    } else {
        assert(grab.ending() =~= seq![
            GrabAction::EndDrag { accept: !grab.cancelled },
            GrabAction::SetCursor { cursor: Cursor::Default },
            GrabAction::QueueRedraw,
        ]);
    }
}

/// A grab begins exactly if the layout began a drag: not cancelled, where it was started, with
/// nothing to apply yet. All but fingers show the grabbing cursor, and then there is a redraw.
pub proof fn grabs_begin_with_the_drag(
    drag_begun: bool,
    start_data: AnyStartData,
    result: Option<(WorkspaceDragGrab, Vec<GrabAction>)>,
)
    requires
        call_ensures(WorkspaceDragGrab::new, (drag_begun, start_data), result),
    ensures
        result is Some <==> drag_begun,
        result matches Some((grab, actions)) ==> {
            &&& grab.start_data == start_data
            &&& !grab.cancelled
            &&& grab.event_timestamp is None
            &&& start_data matches AnyStartData::Pointer { location, .. } ==> grab.new_location
                == location
            &&& start_data matches AnyStartData::Touch { location, .. } ==> grab.new_location
                == location
            &&& start_data matches AnyStartData::TabletTool { location } ==> grab.new_location
                == location
            &&& actions@.last() == GrabAction::QueueRedraw
            &&& start_data is Touch ==> actions@.len() == 1
            &&& !(start_data is Touch) ==> actions@.len() == 2 && actions@[0]
                == (GrabAction::SetCursor { cursor: Cursor::Grabbing })
        },
{
}

/// A workspace is dragged, at the end of a frame, to where the pointer went last; a frame in which
/// nothing moved drags it nowhere.
pub proof fn frames_drag_to_the_last_location(
    moved: &mut WorkspaceDragGrab,
    framed: &mut WorkspaceDragGrab,
    idle: &mut WorkspaceDragGrab,
    location: Location,
    time: u64,
    first: Option<Location>,
    second: Option<Location>,
)
    requires
        call_ensures(WorkspaceDragGrab::motion, (moved, location, time), ()),
        *old(framed) == *final(moved),
        call_ensures(WorkspaceDragGrab::on_frame, (framed,), first),
        *old(idle) == *final(framed),
        call_ensures(WorkspaceDragGrab::on_frame, (idle,), second),
    ensures
        first == Some(location),
        second is None,
        final(idle).start_data == old(moved).start_data,
        final(idle).cancelled == old(moved).cancelled,
        final(idle).new_location == location,
{
}

/// The finger that started a grab drags like a pointer, and no other finger does anything.
pub proof fn only_the_own_finger_drags(
    touched: &mut WorkspaceDragGrab,
    moved: &mut WorkspaceDragGrab,
    slot: Option<u32>,
    own: Option<u32>,
    start: Location,
    location: Location,
    time: u64,
)
    requires
        old(touched).start_data == (AnyStartData::Touch { slot: own, location: start }),
        *old(moved) == *old(touched),
        call_ensures(WorkspaceDragGrab::touch_motion, (touched, slot, location, time), ()),
        call_ensures(WorkspaceDragGrab::motion, (moved, location, time), ()),
    ensures
        slot == own ==> *final(touched) == *final(moved),
        slot != own ==> *final(touched) == *old(touched),
{
}

/// A grab ends with the finger that started it, and with no other.
pub proof fn grabs_end_with_the_own_finger(
    grab: WorkspaceDragGrab,
    slot: Option<u32>,
    own: Option<u32>,
    location: Location,
    ends: bool,
)
    requires
        grab.start_data == (AnyStartData::Touch { slot: own, location }),
        call_ensures(WorkspaceDragGrab::touch_up, (&grab, slot), ends),
    ensures
        ends <==> slot == own,
{
}

/// A grab of the pointer ends when a button goes up and the one that started the grab is not down
/// anymore.
pub proof fn grabs_end_with_the_own_button(
    grab: WorkspaceDragGrab,
    released: bool,
    pressed: Vec<u32>,
    button: u32,
    location: Location,
    ends: bool,
)
    requires
        grab.start_data == (AnyStartData::Pointer { button, location }),
        call_ensures(WorkspaceDragGrab::button, (&grab, released, &pressed), ends),
    ensures
        !released ==> !ends,
        pressed@.contains(button) ==> !ends,
        released && !pressed@.contains(button) ==> ends,
{
}

/// A touch that is taken back takes the drag back: at the end of the grab the workspace does not
/// move. Nothing else of the grab changes.
pub proof fn cancelled_touches_take_the_drag_back(
    grab: &mut WorkspaceDragGrab,
    ended: WorkspaceDragGrab,
    actions: Vec<GrabAction>,
)
    requires
        call_ensures(WorkspaceDragGrab::touch_cancel, (grab,), ()),
        ended == *final(grab),
        call_ensures(WorkspaceDragGrab::on_ungrab, (&ended,), actions),
    ensures
        actions@[0] == (GrabAction::EndDrag { accept: false }),
        ended == (WorkspaceDragGrab { cancelled: true, ..*old(grab) }),
{
}

/// The end of a grab that was not cancelled moves the workspace, shows the default cursor again
/// unless it was a finger's, and redraws.
pub proof fn ended_grabs_move_the_workspace(grab: WorkspaceDragGrab, actions: Vec<GrabAction>)
    requires
        call_ensures(WorkspaceDragGrab::on_ungrab, (&grab,), actions),
    ensures
        actions@.len() >= 2,
        actions@[0] == (GrabAction::EndDrag { accept: !grab.cancelled }),
        actions@.last() == GrabAction::QueueRedraw,
        grab.start_data is Touch ==> actions@.len() == 2,
        !(grab.start_data is Touch) ==> actions@.len() == 3 && actions@[1]
            == (GrabAction::SetCursor { cursor: Cursor::Default }),
{
}

/// A grab goes on unless the drag is over, and a drag that went on is redrawn.
pub proof fn grabs_go_on_with_the_drag(
    grab: WorkspaceDragGrab,
    updated: Option<bool>,
    result: (bool, Vec<GrabAction>),
)
    requires
        call_ensures(WorkspaceDragGrab::on_drag_update, (&grab, updated), result),
    ensures
        updated == Some(false) ==> !result.0 && result.1@.len() == 0,
        updated == Some(true) ==> result.0 && result.1@ == seq![GrabAction::QueueRedraw],
        updated is None ==> result.0 && result.1@.len() == 0,
{
}

/// What a grab was started by says where it was and whether it was a finger.
pub proof fn start_data_says_where_it_was(start: AnyStartData, location: Location, touch: bool)
    requires
        call_ensures(AnyStartData::location, (&start,), location),
        call_ensures(AnyStartData::is_touch, (&start,), touch),
    ensures
        match start {
            AnyStartData::Pointer { location: place, .. } => location == place && !touch,
            AnyStartData::Touch { location: place, .. } => location == place && touch,
            AnyStartData::TabletTool { location: place } => location == place && !touch,
        },
{
}

} // verus!
