//! Splitting a physical output into independent workspace zones.
//!
//! A zoned output is subdivided into rectangular zones. Each zone gets its own output, with its own
//! monitor and its own workspaces, so from the layout's point of view a zone is just another
//! monitor.
//!
//! The physical output itself stops being a workspace area. It stays around only as a render
//! target: the zones' contents are composited into its image.

use vstd::prelude::*;
use vstd::string::*;

use crate::remote_desktop::actions::OutputHandle;
use crate::utils::geometry::{Point, Rectangle, Size, Transform};
use crate::utils::lists::{
    lemma_filter_empty, lemma_filter_push, lemma_take_push, view_of, views,
};
use crate::utils::text::join;

verus! {

/// The edges of a zone in its output's logical coordinates, each rounded to a whole number.
#[derive(Debug, Clone, Copy, PartialEq, Eq, Structural)]
pub struct ZoneEdges {
    pub left: i32,
    pub top: i32,
    pub right: i32,
    pub bottom: i32,
}

/// A length, or one if it is below.
pub open spec fn at_least_one(length: int) -> int {
    if length < 1 {
        1
    } else {
        length
    }
}

impl ZoneEdges {
    /// Whether the distances between the edges are numbers of 32 bits.
    pub open spec fn measurable(self) -> bool {
        &&& i32::MIN <= self.right - self.left <= i32::MAX
        &&& i32::MIN <= self.bottom - self.top <= i32::MAX
    }

    /// The rectangle between the edges.
    ///
    /// Rounding on a very small output can collapse a zone, and an output of size zero is not
    /// something that the rest of the compositor copes with.
    pub open spec fn rectangle(self) -> Rectangle {
        Rectangle {
            loc: Point { x: self.left, y: self.top },
            size: Size {
                w: at_least_one(self.right - self.left) as i32,
                h: at_least_one(self.bottom - self.top) as i32,
            },
        }
    }

    /// Resolves the zone in its output.
    ///
    /// Edges are rounded rather than the size, so that zones sharing an edge tile exactly, with no
    /// gap or overlap between them.
    pub fn resolve(self) -> (geometry: Rectangle)
        requires
            self.measurable(),
        ensures
            geometry == self.rectangle(),
    {
        let mut width: i32 = self.right - self.left;
        if width < 1 {
            width = 1;
        }
        let mut height: i32 = self.bottom - self.top;
        if height < 1 {
            height = 1;
        }
        Rectangle {
            loc: Point { x: self.left, y: self.top },
            size: Size { w: width, h: height },
        }
    }
}

/// A zone is never zero-sized.
pub proof fn zones_have_a_size(zone: ZoneEdges)
    requires
        zone.measurable(),
    ensures
        zone.rectangle().size.w >= 1,
        zone.rectangle().size.h >= 1,
{
}

/// Zones that share an edge tile exactly, side by side or one above the other: the second begins
/// where the first ends, unless the first is collapsed.
pub proof fn adjacent_zones_tile(a: ZoneEdges, b: ZoneEdges)
    requires
        a.measurable(),
        b.measurable(),
    ensures
        a.right == b.left && a.left < a.right ==> b.rectangle().loc.x == a.rectangle().loc.x
            + a.rectangle().size.w,
        a.bottom == b.top && a.top < a.bottom ==> b.rectangle().loc.y == a.rectangle().loc.y
            + a.rectangle().size.h,
{
}

/// Two zones that share an edge cover what lies between their outer edges exactly, unless one of
/// them is collapsed.
pub proof fn adjacent_zones_cover(a: ZoneEdges, b: ZoneEdges)
    requires
        a.measurable(),
        b.measurable(),
    ensures
        a.left < a.right && a.right == b.left && b.left < b.right ==> a.rectangle().size.w
            + b.rectangle().size.w == b.right - a.left,
        a.top < a.bottom && a.bottom == b.top && b.top < b.bottom ==> a.rectangle().size.h
            + b.rectangle().size.h == b.bottom - a.top,
{
}

/// What makes an output a zone.
#[derive(Debug, Clone, Copy, PartialEq, Eq, Structural)]
pub struct ZoneOutputMarker {
    /// The physical output this zone is composited into.
    pub parent: OutputHandle,
    /// Where this zone sits in the parent output.
    pub rect: ZoneEdges,
}

/// An output of the compositor.
#[derive(Debug, Clone, Copy, PartialEq, Eq, Structural)]
pub struct Output {
    pub handle: OutputHandle,
    /// Its presence is what makes an output a zone output.
    pub zone: Option<ZoneOutputMarker>,
}

/// Returns whether this output is a zone of some physical output.
pub fn is_zone_output(output: &Output) -> (zone: bool)
    ensures
        zone == output.zone is Some,
{
    output.zone.is_some()
}

/// Returns the physical output that this zone output is composited into.
pub fn parent_of_zone(output: &Output) -> (parent: Option<OutputHandle>)
    ensures
        parent == match output.zone {
            Some(marker) => Some(marker.parent),
            None => None,
        },
{
    match output.zone {
        Some(marker) => Some(marker.parent),
        None => None,
    }
}

/// Returns the output that actually gets rendered and presented for this output.
///
/// For a zone output that is its parent physical output, since zones don't have a scanout pipeline
/// of their own. For anything else it's the output itself.
pub fn render_target_of(output: &Output) -> (target: OutputHandle)
    ensures
        target == match output.zone {
            Some(marker) => marker.parent,
            None => output.handle,
        },
{
    match parent_of_zone(output) {
        Some(parent) => parent,
        None => output.handle,
    }
}

/// Returns this zone's rectangle within its parent output, in the parent's logical coordinates.
pub fn zone_geometry(output: &Output) -> (geometry: Option<Rectangle>)
    requires
        output.zone matches Some(marker) ==> marker.rect.measurable(),
    ensures
        geometry == match output.zone {
            Some(marker) => Some(marker.rect.rectangle()),
            None => None,
        },
{
    match output.zone {
        Some(marker) => Some(marker.rect.resolve()),
        None => None,
    }
}

/// The name of a zone's output.
pub open spec fn zone_name(parent_name: Seq<char>, zone_name: Seq<char>) -> Seq<char> {
    parent_name + ":"@ + zone_name
}

/// The name of the zone output for `zone_name` on `parent_name`.
pub fn zone_output_name(parent_name: &str, zone_name: &str) -> (name: String)
    ensures
        name@ == self::zone_name(parent_name@, zone_name@),
{
    let front = join(parent_name, ":");
    join(front.as_str(), zone_name)
}

/// Different zones of an output have outputs with different names.
pub proof fn zone_names_are_distinct(parent_name: Seq<char>, a: Seq<char>, b: Seq<char>)
    requires
        zone_name(parent_name, a) == zone_name(parent_name, b),
    ensures
        a == b,
{
    let x = zone_name(parent_name, a);
    let y = zone_name(parent_name, b);
    let front = parent_name + ":"@;
    assert(a =~= x.skip(front.len() as int));
    assert(b =~= y.skip(front.len() as int));
}

/// The bits of a fractional scale, a 64-bit floating point number.
pub type ScaleBits = u64;

/// What zones take over from the output they are composited into.
#[derive(Debug)]
pub struct ZoneParent {
    pub handle: OutputHandle,
    pub connector: String,
    pub make: String,
    pub model: String,
    /// The refresh rate of its current mode in millihertz, if it has a mode.
    pub refresh: Option<i32>,
    pub scale: ScaleBits,
}

/// A configured zone.
#[derive(Debug)]
pub struct Zone {
    pub name: String,
    pub edges: ZoneEdges,
}

/// An output to make for a zone.
#[derive(Debug)]
pub struct ZoneOutput {
    pub name: String,
    pub make: String,
    pub model: String,
    pub serial: String,
    /// A zone covers part of a physical screen, so there is no meaningful physical size to report.
    pub physical_size: Size,
    /// The size in logical coordinates; the mode is this size at the parent's scale.
    pub size: Size,
    /// Refresh rate in millihertz.
    pub refresh: i32,
    /// The parent's scale, as it is.
    pub scale: ScaleBits,
    /// The parent's logical size already has its transform applied, and zones are laid out in that
    /// logical space, so applying it again would rotate each zone within itself.
    pub transform: Transform,
    /// Whether the output has no scanout pipeline of its own, same as headless virtual outputs.
    pub virtual_output: bool,
    pub marker: ZoneOutputMarker,
}

/// What a `ZoneOutput` says.
pub struct ZoneOutputView {
    pub name: Seq<char>,
    pub make: Seq<char>,
    pub model: Seq<char>,
    pub serial: Seq<char>,
    pub physical_size: Size,
    pub size: Size,
    pub refresh: i32,
    pub scale: ScaleBits,
    pub transform: Transform,
    pub virtual_output: bool,
    pub marker: ZoneOutputMarker,
}

impl View for ZoneOutput {
    type V = ZoneOutputView;

    open spec fn view(&self) -> ZoneOutputView {
        ZoneOutputView {
            name: self.name@,
            make: self.make@,
            model: self.model@,
            serial: self.serial@,
            physical_size: self.physical_size,
            size: self.size,
            refresh: self.refresh,
            scale: self.scale,
            transform: self.transform,
            virtual_output: self.virtual_output,
            marker: self.marker,
        }
    }
}

/// The refresh rate of a zone: that of its parent, or 60 Hz if the parent has no mode.
pub open spec fn zone_refresh(parent_refresh: Option<i32>) -> i32 {
    match parent_refresh {
        Some(refresh) => refresh,
        None => 60_000,
    }
}

fn refresh_of(parent_refresh: Option<i32>) -> (refresh: i32)
    ensures
        refresh == zone_refresh(parent_refresh),
{
    match parent_refresh {
        Some(refresh) => refresh,
        None => 60_000,
    }
}

/// The output of a zone.
pub open spec fn output_of(parent: ZoneParent, zone: Zone) -> ZoneOutputView {
    ZoneOutputView {
        name: zone_name(parent.connector@, zone.name@),
        make: parent.make@,
        model: parent.model@,
        serial: zone.name@,
        physical_size: Size { w: 0, h: 0 },
        size: zone.edges.rectangle().size,
        refresh: zone_refresh(parent.refresh),
        scale: parent.scale,
        transform: Transform::Normal,
        virtual_output: true,
        marker: ZoneOutputMarker { parent: parent.handle, rect: zone.edges },
    }
}

/// Builds the zone outputs for a physical output, one for each zone, in order.
pub fn build_zone_outputs(parent: &ZoneParent, zones: &Vec<Zone>) -> (outputs: Vec<ZoneOutput>)
    requires
        forall|i: int| 0 <= i < zones@.len() ==> (#[trigger] zones@[i]).edges.measurable(),
    ensures
        views(outputs@) == zones@.map_values(|zone: Zone| output_of(*parent, zone)),
{
    let mut outputs: Vec<ZoneOutput> = Vec::new();
    for i in 0..zones.len()
        invariant
            forall|j: int| 0 <= j < zones@.len() ==> (#[trigger] zones@[j]).edges.measurable(),
            outputs.len() == i,
            forall|j: int| 0 <= j < i ==> #[trigger] outputs@[j]@ == output_of(*parent, zones@[j]),
    {
        let zone = &zones[i];
        let geometry = zone.edges.resolve();
        outputs.push(
            ZoneOutput {
                name: zone_output_name(parent.connector.as_str(), zone.name.as_str()),
                make: parent.make.clone(),
                model: parent.model.clone(),
                serial: zone.name.clone(),
                physical_size: Size { w: 0, h: 0 },
                size: geometry.size,
                refresh: refresh_of(parent.refresh),
                scale: parent.scale,
                transform: Transform::Normal,
                virtual_output: true,
                marker: ZoneOutputMarker { parent: parent.handle, rect: zone.edges },
            },
        );
    }
    assert(views(outputs@) =~= zones@.map_values(|zone: Zone| output_of(*parent, zone)));
    outputs
}

/// A mode of an output.
#[derive(Debug, Clone, Copy, PartialEq, Eq, Structural)]
pub struct Mode {
    pub width: i32,
    pub height: i32,
    /// Millihertz.
    pub refresh: i32,
}

/// The mode of a zone whose size at the parent's scale is given.
pub open spec fn mode_of(width: i32, height: i32, parent_refresh: Option<i32>) -> Mode {
    Mode { width, height, refresh: zone_refresh(parent_refresh) }
}

/// The mode of a zone whose size at the parent's scale is given.
pub fn zone_mode(width: i32, height: i32, parent_refresh: Option<i32>) -> (mode: Mode)
    ensures
        mode == mode_of(width, height, parent_refresh),
{
    Mode { width, height, refresh: refresh_of(parent_refresh) }
}

/// How the modes and the scale of a zone output change.
#[derive(Debug)]
pub struct ZoneUpdate {
    /// The mode to prefer and to set.
    pub mode: Mode,
    /// The scale to set.
    pub scale: ScaleBits,
    /// The modes to delete once the mode is set.
    pub delete: Vec<Mode>,
}

/// What a `ZoneUpdate` says.
pub struct ZoneUpdateView {
    pub mode: Mode,
    pub scale: ScaleBits,
    pub delete: Seq<Mode>,
}

impl View for ZoneUpdate {
    type V = ZoneUpdateView;

    open spec fn view(&self) -> ZoneUpdateView {
        ZoneUpdateView { mode: self.mode, scale: self.scale, delete: self.delete@ }
    }
}

/// Whether a mode is another one.
pub open spec fn other_mode(mode: Mode) -> spec_fn(Mode) -> bool {
    |other: Mode| other != mode
}

/// How a zone output changes: not at all while it has the mode and the scale already, and
/// otherwise so that the mode is the only one that it has.
pub open spec fn zone_update(
    output: Output,
    mode: Mode,
    scale: ScaleBits,
    current_mode: Option<Mode>,
    same_scale: bool,
    modes: Seq<Mode>,
) -> Option<ZoneUpdateView> {
    if output.zone is None || (current_mode == Some(mode) && same_scale) {
        None
    } else {
        Some(ZoneUpdateView { mode, scale, delete: modes.filter(other_mode(mode)) })
    }
}

/// Updates a zone output's mode and scale after its parent output changed size or scale.
///
/// An output keeps every mode it ever had, which is right for a real connector, but a zone only ever
/// has the one derived from its parent. `same_scale` says whether the output has the scale already.
pub fn update_zone_output_size(
    output: &Output,
    mode: Mode,
    scale: ScaleBits,
    current_mode: Option<Mode>,
    same_scale: bool,
    modes: &Vec<Mode>,
) -> (update: Option<ZoneUpdate>)
    ensures
        view_of(update) == zone_update(*output, mode, scale, current_mode, same_scale, modes@),
{
    if !is_zone_output(output) {
        return None;
    }
    if let Some(current) = current_mode {
        if current == mode && same_scale {
            return None;
        }
    }
    let mut delete: Vec<Mode> = Vec::new();
    proof {
        lemma_filter_empty(other_mode(mode));
        assert(modes@.take(0) =~= Seq::<Mode>::empty());
    }
    for i in 0..modes.len()
        invariant
            delete@ == modes@.take(i as int).filter(other_mode(mode)),
    {
        proof {
            lemma_take_push(modes@, i as int);
            lemma_filter_push(modes@.take(i as int), modes@[i as int], other_mode(mode));
        }
        if modes[i] != mode {
            delete.push(modes[i]);
        }
    }
    assert(modes@.take(modes.len() as int) =~= modes@);
    Some(ZoneUpdate { mode, scale, delete })
}

/// The modes and the scale of an output. No mode is there twice.
pub struct OutputState {
    pub modes: Seq<Mode>,
    pub preferred: Option<Mode>,
    pub current: Option<Mode>,
    pub scale: ScaleBits,
}

impl OutputState {
    /// A new output, with one mode that is preferred and set.
    pub open spec fn fresh(mode: Mode, scale: ScaleBits) -> OutputState {
        OutputState { modes: seq![mode], preferred: Some(mode), current: Some(mode), scale }
    }

    /// The output of a zone as it is built, where its size at the parent's scale is given.
    pub open spec fn built(output: ZoneOutputView, width: i32, height: i32) -> OutputState {
        OutputState::fresh(Mode { width, height, refresh: output.refresh }, output.scale)
    }

    /// The output once it was updated. The mode is added if it was not there; one that is deleted
    /// is neither preferred nor set anymore.
    pub open spec fn updated(self, update: Option<ZoneUpdateView>) -> OutputState {
        match update {
            Some(update) => {
                let known = if self.modes.contains(update.mode) {
                    self.modes
                } else {
                    self.modes.push(update.mode)
                };
                let chosen = if update.delete.contains(update.mode) {
                    None
                } else {
                    Some(update.mode)
                };
                OutputState {
                    modes: known.filter(|mode: Mode| !update.delete.contains(mode)),
                    preferred: chosen,
                    current: chosen,
                    scale: update.scale,
                }
            },
            None => self,
        }
    }

    /// How the output changes for a mode and a scale, if it is that of a zone.
    pub open spec fn zone_update(
        self,
        output: Output,
        mode: Mode,
        scale: ScaleBits,
    ) -> Option<ZoneUpdateView> {
        zone_update(output, mode, scale, self.current, self.scale == scale, self.modes)
    }
}

/// Once a zone output was changed, the mode that was derived from its parent is the only one that
/// it has, whatever modes it had before: it is as if it was built anew.
pub proof fn changed_zones_have_one_mode(
    state: OutputState,
    output: Output,
    mode: Mode,
    scale: ScaleBits,
)
    requires
        state.modes.no_duplicates(),
        state.zone_update(output, mode, scale) is Some,
    ensures
        state.updated(state.zone_update(output, mode, scale)) == OutputState::fresh(mode, scale),
{
    let delete = state.modes.filter(other_mode(mode));
    let known = if state.modes.contains(mode) {
        state.modes
    } else {
        state.modes.push(mode)
    };
    let kept = |other: Mode| !delete.contains(other);
    assert forall|other: Mode| delete.contains(other) == (state.modes.contains(other) && other
        != mode) by {
        lemma_filter_contains(state.modes, other_mode(mode), other);
    }
    if !state.modes.contains(mode) {
        assert(known[known.len() - 1] == mode);
    }
    assert(known.contains(mode));
    assert forall|i: int| 0 <= i < known.len() implies kept(#[trigger] known[i]) == (known[i]
        == mode) by {
        if i < state.modes.len() {
            assert(state.modes.contains(state.modes[i]));
        }
    }
    lemma_one_left(known, kept, mode);
}

proof fn lemma_filter_contains(modes: Seq<Mode>, keep: spec_fn(Mode) -> bool, mode: Mode)
    ensures
        modes.filter(keep).contains(mode) == (modes.contains(mode) && keep(mode)),
    decreases modes.len(),
{
    reveal(Seq::filter);
    if modes.len() > 0 {
        let rest = modes.drop_last();
        lemma_filter_contains(rest, keep, mode);
        assert(rest.push(modes.last()) =~= modes);
        assert(modes.contains(mode) == (rest.contains(mode) || modes.last() == mode)) by {
            lemma_push_contains(rest, modes.last(), mode);
        }
        lemma_push_contains(rest.filter(keep), modes.last(), mode);
    }
}

proof fn lemma_push_contains(modes: Seq<Mode>, last: Mode, mode: Mode)
    ensures
        modes.push(last).contains(mode) == (modes.contains(mode) || last == mode),
{
    if modes.contains(mode) {
        let i = choose|i: int| 0 <= i < modes.len() && modes[i] == mode;
        assert(modes.push(last)[i] == mode);
    }
    if last == mode {
        assert(modes.push(last)[modes.len() as int] == mode);
    }
}

proof fn lemma_one_left(modes: Seq<Mode>, keep: spec_fn(Mode) -> bool, mode: Mode)
    requires
        modes.no_duplicates(),
        forall|i: int| 0 <= i < modes.len() ==> keep(#[trigger] modes[i]) == (modes[i] == mode),
    ensures
        modes.filter(keep) == if modes.contains(mode) {
            seq![mode]
        } else {
            Seq::<Mode>::empty()
        },
    decreases modes.len(),
{
    reveal(Seq::filter);
    if modes.len() > 0 {
        let rest = modes.drop_last();
        assert forall|i: int| 0 <= i < rest.len() implies keep(#[trigger] rest[i]) == (rest[i]
            == mode) by {
            assert(rest[i] == modes[i]);
        }
        lemma_one_left(rest, keep, mode);
        assert(rest.push(modes.last()) =~= modes);
        lemma_push_contains(rest, modes.last(), mode);
        assert(keep(modes[modes.len() - 1]) == (modes[modes.len() - 1] == mode));
        if modes.last() == mode && rest.contains(mode) {
            let i = choose|i: int| 0 <= i < rest.len() && rest[i] == mode;
            assert(modes[i] == modes[modes.len() - 1]);
        }
        assert(modes.filter(keep) =~= if modes.contains(mode) {
            seq![mode]
        } else {
            Seq::<Mode>::empty()
        });
    } else {
        assert(modes.filter(keep) =~= Seq::<Mode>::empty());
    }
}

/// A zone output follows its parent: as it was built or left by an update for any other parent, an
/// update makes it what building it for the parent makes.
pub proof fn updated_zones_are_as_built(
    parent: ZoneParent,
    zone: Zone,
    output: Output,
    mode: Mode,
    scale: ScaleBits,
    width: i32,
    height: i32,
)
    requires
        output.zone is Some,
    ensures
        ({
            let before = OutputState::fresh(mode, scale);
            let update = before.zone_update(
                output,
                mode_of(width, height, parent.refresh),
                parent.scale,
            );
            before.updated(update) == OutputState::built(output_of(parent, zone), width, height)
        }),
{
    let before = OutputState::fresh(mode, scale);
    let new = mode_of(width, height, parent.refresh);
    assert(before.modes.no_duplicates());
    if before.zone_update(output, new, parent.scale) is Some {
        changed_zones_have_one_mode(before, output, new, parent.scale);
    }
}

/// A second update finds nothing to change.
pub proof fn zones_are_updated_once(
    state: OutputState,
    output: Output,
    mode: Mode,
    scale: ScaleBits,
)
    requires
        state.modes.no_duplicates(),
    ensures
        state.updated(state.zone_update(output, mode, scale)).zone_update(output, mode, scale)
            is None,
{
    if state.zone_update(output, mode, scale) is Some {
        changed_zones_have_one_mode(state, output, mode, scale);
    }
}

/// A zone begins at its left and top edges and, unless it is collapsed, ends at its right and bottom
/// edges. A collapsed one is one wide or one high.
pub proof fn zones_lie_between_their_edges(zone: ZoneEdges)
    requires
        zone.measurable(),
    ensures
        zone.rectangle().loc.x == zone.left,
        zone.rectangle().loc.y == zone.top,
        zone.left < zone.right ==> zone.rectangle().loc.x + zone.rectangle().size.w == zone.right,
        zone.top < zone.bottom ==> zone.rectangle().loc.y + zone.rectangle().size.h == zone.bottom,
        zone.left >= zone.right ==> zone.rectangle().size.w == 1,
        zone.top >= zone.bottom ==> zone.rectangle().size.h == 1,
{
}

/// The output of a zone is named after its parent and the zone, is as large as the zone, and takes
/// everything else that it has from its parent, but for the transform: the zones lie in the parent's
/// space as it is turned already.
pub proof fn zone_outputs_follow_their_parent(parent: ZoneParent, zone: Zone)
    ensures
        ({
            let output = output_of(parent, zone);
            &&& output.name == parent.connector@ + ":"@ + zone.name@
            &&& output.serial == zone.name@
            &&& output.make == parent.make@
            &&& output.model == parent.model@
            &&& output.scale == parent.scale
            &&& parent.refresh is Some ==> Some(output.refresh) == parent.refresh
            &&& parent.refresh is None ==> output.refresh == 60_000
            &&& output.size == zone.edges.rectangle().size
            &&& output.physical_size.w == 0
            &&& output.physical_size.h == 0
            &&& output.transform == Transform::Normal
            &&& output.virtual_output
            &&& output.marker.parent == parent.handle
            &&& output.marker.rect == zone.edges
        }),
{
}

/// The mode of a zone has the size that is given and the refresh rate of the parent, 60 Hz where
/// that has none.
pub proof fn zone_modes_follow_their_parent(width: i32, height: i32, refresh: i32)
    ensures
        mode_of(width, height, Some(refresh)) == (Mode { width, height, refresh }),
        mode_of(width, height, None) == (Mode { width, height, refresh: 60_000 }),
{
}

/// An output that is no zone is not changed, and neither is a zone that has the mode and the scale
/// already. Any other is given both, and loses exactly its other modes.
pub proof fn zones_change_if_they_have_to(
    output: Output,
    mode: Mode,
    scale: ScaleBits,
    current_mode: Option<Mode>,
    same_scale: bool,
    modes: Seq<Mode>,
    other: Mode,
)
    ensures
        ({
            let update = zone_update(output, mode, scale, current_mode, same_scale, modes);
            &&& output.zone is None ==> update is None
            &&& current_mode == Some(mode) && same_scale ==> update is None
            &&& output.zone is Some && (current_mode != Some(mode) || !same_scale) ==> {
                &&& update matches Some(change)
                &&& change.mode == mode
                &&& change.scale == scale
                &&& change.delete.contains(other) == (modes.contains(other) && other != mode)
            }
        }),
{
    lemma_filter_contains(modes, other_mode(mode), other);
}

/// Whether two rectangles have no point in common.
pub open spec fn apart(a: Rectangle, b: Rectangle) -> bool {
    ||| a.loc.x + a.size.w <= b.loc.x
    ||| b.loc.x + b.size.w <= a.loc.x
    ||| a.loc.y + a.size.h <= b.loc.y
    ||| b.loc.y + b.size.h <= a.loc.y
}

/// A resolved zone begins at its left and top edges and ends at its right and bottom edges, one
/// further where it is collapsed.
pub proof fn resolved_zones_fill_their_edges(zone: ZoneEdges, geometry: Rectangle)
    requires
        zone.measurable(),
        call_ensures(ZoneEdges::resolve, (zone,), geometry),
    ensures
        geometry.loc.x == zone.left,
        geometry.loc.y == zone.top,
        zone.left < zone.right ==> geometry.loc.x + geometry.size.w == zone.right,
        zone.top < zone.bottom ==> geometry.loc.y + geometry.size.h == zone.bottom,
        zone.left >= zone.right ==> geometry.size.w == 1,
        zone.top >= zone.bottom ==> geometry.size.h == 1,
{
}

/// Zones that share an edge, side by side or one above the other, neither overlap nor leave a gap,
/// unless the first is collapsed.
pub proof fn resolved_neighbours_do_not_overlap(
    a: ZoneEdges,
    b: ZoneEdges,
    first: Rectangle,
    second: Rectangle,
)
    requires
        a.measurable(),
        b.measurable(),
        call_ensures(ZoneEdges::resolve, (a,), first),
        call_ensures(ZoneEdges::resolve, (b,), second),
        a.left < a.right,
        a.top < a.bottom,
    ensures
        a.right == b.left ==> apart(first, second) && first.loc.x + first.size.w == second.loc.x,
        a.bottom == b.top ==> apart(first, second) && first.loc.y + first.size.h == second.loc.y,
{
}

/// An output is a zone exactly if it is marked as one: then its parent is the one that the mark
/// names, it is rendered there, and it lies where the mark says. Any other output has no parent and
/// is rendered itself.
pub proof fn zones_are_rendered_by_their_parent(
    output: Output,
    zone: bool,
    parent: Option<OutputHandle>,
    target: OutputHandle,
    geometry: Option<Rectangle>,
    resolved: Rectangle,
)
    requires
        call_ensures(is_zone_output, (&output,), zone),
        call_ensures(parent_of_zone, (&output,), parent),
        call_ensures(render_target_of, (&output,), target),
        call_ensures(zone_geometry, (&output,), geometry),
        output.zone matches Some(marker) ==> marker.rect.measurable() && call_ensures(
            ZoneEdges::resolve,
            (marker.rect,),
            resolved,
        ),
    ensures
        match output.zone {
            Some(marker) => {
                &&& zone
                &&& parent == Some(marker.parent)
                &&& target == marker.parent
                &&& geometry == Some(resolved)
            },
            None => !zone && parent is None && target == output.handle && geometry is None,
        },
{
}

/// Building the outputs of a parent's zones gives one for each zone, in order, named after the parent
/// and the zone, and as large as the zone. Everything else comes from the parent.
pub proof fn built_outputs_follow_their_parent(
    parent: ZoneParent,
    zones: Vec<Zone>,
    outputs: Vec<ZoneOutput>,
    index: int,
)
    requires
        call_ensures(build_zone_outputs, (&parent, &zones), outputs),
        0 <= index < zones@.len(),
    ensures
        outputs@.len() == zones@.len(),
        ({
            let zone = zones@[index];
            let output = outputs@[index];
            &&& output.name@ == parent.connector@ + ":"@ + zone.name@
            &&& output.serial@ == zone.name@
            &&& output.make@ == parent.make@
            &&& output.model@ == parent.model@
            &&& output.scale == parent.scale
            &&& parent.refresh is Some ==> Some(output.refresh) == parent.refresh
            &&& parent.refresh is None ==> output.refresh == 60_000
            &&& output.size == zone.edges.rectangle().size
            &&& output.physical_size.w == 0
            &&& output.physical_size.h == 0
            &&& output.transform == Transform::Normal
            &&& output.virtual_output
            &&& output.marker.parent == parent.handle
            &&& output.marker.rect == zone.edges
        }),
{
    assert(views(outputs@).len() == outputs@.len());
    assert(views(outputs@)[index] == outputs@[index]@);
    zone_outputs_follow_their_parent(parent, zones@[index]);
}

/// The name of a zone's output is that of its parent, a colon and that of the zone.
pub proof fn zone_outputs_are_named_after_both(parent: &str, zone: &str, name: String)
    requires
        call_ensures(zone_output_name, (parent, zone), name),
    ensures
        name@ == parent@ + ":"@ + zone@,
{
}

/// The mode of a zone has the size that is given and the refresh rate of the parent, 60 Hz where
/// that has none.
pub proof fn zone_modes_are_as_given(width: i32, height: i32, refresh: Option<i32>, mode: Mode)
    requires
        call_ensures(zone_mode, (width, height, refresh), mode),
    ensures
        mode.width == width,
        mode.height == height,
        refresh is Some ==> Some(mode.refresh) == refresh,
        refresh is None ==> mode.refresh == 60_000,
{
}

/// An output that is no zone is not updated, and neither is a zone that has the mode and the scale
/// already. Any other is given both, and loses exactly its other modes.
pub proof fn zones_are_updated_if_they_have_to(
    output: Output,
    mode: Mode,
    scale: ScaleBits,
    current_mode: Option<Mode>,
    same_scale: bool,
    modes: Vec<Mode>,
    update: Option<ZoneUpdate>,
    other: Mode,
)
    requires
        call_ensures(
            update_zone_output_size,
            (&output, mode, scale, current_mode, same_scale, &modes),
            update,
        ),
    ensures
        update is None <==> output.zone is None || (current_mode == Some(mode) && same_scale),
        update matches Some(change) ==> {
            &&& change.mode == mode
            &&& change.scale == scale
            &&& change.delete@.contains(other) == (modes@.contains(other) && other != mode)
            &&& change.delete@ == modes@.filter(|known: Mode| known != mode)
        },
{
    assert(other_mode(mode) =~= |known: Mode| known != mode);
    zones_change_if_they_have_to(output, mode, scale, current_mode, same_scale, modes@, other);
}

} // verus!
