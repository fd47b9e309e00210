use niri::utils::geometry::{Point, Rectangle, Size, Transform};
use niri::zone::{
    build_zone_outputs, is_zone_output, parent_of_zone, render_target_of, update_zone_output_size,
    zone_geometry, zone_mode, zone_output_name, Mode, Output, Zone, ZoneEdges, ZoneOutputMarker,
    ZoneParent,
};

/// A zone's rectangle, as fractions of its output's logical size.
#[derive(Debug, Clone, Copy)]
struct ZoneRect {
    x: f64,
    y: f64,
    width: f64,
    height: f64,
}

impl ZoneRect {
    fn edges(self, (w, h): (f64, f64)) -> ZoneEdges {
        ZoneEdges {
            left: (self.x * w).round() as i32,
            top: (self.y * h).round() as i32,
            right: ((self.x + self.width) * w).round() as i32,
            bottom: ((self.y + self.height) * h).round() as i32,
        }
    }

    fn resolve(self, size: (f64, f64)) -> Rectangle {
        self.edges(size).resolve()
    }
}

fn rect(x: f64, y: f64, width: f64, height: f64) -> ZoneRect {
    ZoneRect {
        x,
        y,
        width,
        height,
    }
}

/// `headless-1` split into a left and a right half.
fn halves(size: (f64, f64), refresh: Option<i32>) -> Vec<niri::zone::ZoneOutput> {
    halves_at(size, refresh, 1.)
}

fn halves_at(
    size: (f64, f64),
    refresh: Option<i32>,
    scale: f64,
) -> Vec<niri::zone::ZoneOutput> {
    build_zone_outputs(
        &ZoneParent {
            handle: 1,
            connector: "headless-1".to_owned(),
            make: "niri".to_owned(),
            model: "headless".to_owned(),
            refresh,
            scale: scale.to_bits(),
        },
        &vec![
            Zone {
                name: "left".to_owned(),
                edges: rect(0., 0., 0.5, 1.).edges(size),
            },
            Zone {
                name: "right".to_owned(),
                edges: rect(0.5, 0., 0.5, 1.).edges(size),
            },
        ],
    )
}

#[test]
fn zones_cover_their_output_exactly() {
    let size = (1920., 1080.);

    let left = rect(0., 0., 0.5, 1.).resolve(size);
    let right = rect(0.5, 0., 0.5, 1.).resolve(size);

    assert_eq!(left.loc.x, 0);
    assert_eq!(left.size.w, 960);
    assert_eq!(right.loc.x, 960);
    assert_eq!(left.size.w + right.size.w, 1920);
}

#[test]
fn adjacent_zones_tile_an_odd_sized_output() {
    // 1365 doesn't divide into thirds, so rounding has to land somewhere. Rounding the shared
    // edges rather than the widths is what keeps the zones touching.
    let size = (1365., 768.);

    let a = rect(0., 0., 1. / 3., 1.).resolve(size);
    let b = rect(1. / 3., 0., 1. / 3., 1.).resolve(size);
    let c = rect(2. / 3., 0., 1. / 3., 1.).resolve(size);

    assert_eq!(b.loc.x, a.loc.x + a.size.w);
    assert_eq!(c.loc.x, b.loc.x + b.size.w);
    assert_eq!(a.size.w + b.size.w + c.size.w, 1365);
}

#[test]
fn a_zone_is_never_zero_sized() {
    // Small enough that this zone rounds away entirely.
    let zone = rect(0., 0., 0.001, 0.001).resolve((100., 100.));
    assert_eq!(zone.size.w, 1);
    assert_eq!(zone.size.h, 1);
}

#[test]
fn zones_can_be_stacked_vertically() {
    let size = (1920., 1080.);

    let top = rect(0., 0., 1., 0.7).resolve(size);
    let bottom = rect(0., 0.7, 1., 0.3).resolve(size);

    assert_eq!(top.size, Size { w: 1920, h: 756 });
    assert_eq!(bottom.loc.y, top.loc.y + top.size.h);
    assert_eq!(top.size.h + bottom.size.h, 1080);
}

#[test]
fn zones_tile_their_output() {
    let outputs = halves((1920., 1080.), None);
    let physical_geo = Rectangle {
        loc: Point { x: 0, y: 0 },
        size: Size { w: 1920, h: 1080 },
    };
    let geometry = |index: usize| {
        zone_geometry(&Output {
            handle: 2,
            zone: Some(outputs[index].marker),
        })
        .unwrap()
    };
    let left_geo = geometry(0);
    let right_geo = geometry(1);

    assert_eq!(left_geo.loc, physical_geo.loc);
    assert_eq!(left_geo.size.w, 960);
    assert_eq!(left_geo.size.h, 1080);

    // The right zone starts exactly where the left one ends: no gap, no overlap.
    assert_eq!(right_geo.loc.x, left_geo.loc.x + left_geo.size.w);
    assert_eq!(right_geo.loc.y, physical_geo.loc.y);
    assert_eq!(right_geo.size, left_geo.size);

    // Together they cover the output exactly.
    assert_eq!(left_geo.size.w + right_geo.size.w, physical_geo.size.w);
}

#[test]
fn zones_follow_their_output_across_a_resize() {
    let before = halves((1920., 1080.), Some(60_000));
    let after = halves((3840., 2160.), Some(60_000));
    let left_geo = after[0].marker.rect.resolve();
    let right_geo = after[1].marker.rect.resolve();

    assert_eq!(left_geo.size.w, 1920);
    assert_eq!(left_geo.size.h, 2160);
    assert_eq!(right_geo.loc.x, left_geo.loc.x + left_geo.size.w);
    assert_eq!(right_geo.size, left_geo.size);

    // The old mode goes, and the new one is all that is left.
    let old = zone_mode(before[0].size.w, before[0].size.h, Some(60_000));
    let new = zone_mode(left_geo.size.w, left_geo.size.h, Some(60_000));
    let output = Output {
        handle: 2,
        zone: Some(after[0].marker),
    };
    let scale = 1f64.to_bits();
    let update =
        update_zone_output_size(&output, new, scale, Some(old), true, &vec![old]).unwrap();
    assert_eq!(update.mode, new);
    assert_eq!(update.scale, after[0].scale);
    assert_eq!(update.delete, vec![old]);

    // From then on there is nothing to change.
    let again = update_zone_output_size(&output, new, scale, Some(new), true, &vec![new]);
    assert!(again.is_none());
}

#[test]
fn zones_inherit_their_output_scale() {
    // An output of 1920x1080 at scale 2 has 960 logical points.
    let scale = 2.;
    let outputs = halves_at((1920. / scale, 1080. / scale), None, scale);

    // A zone reports no physical size, so if it went through the usual scale guessing it would
    // come out as 1 and the zone would be drawn at the wrong size.
    assert_eq!(f64::from_bits(outputs[0].scale), 2.);

    // Half of the output's 960 logical points, at scale 2.
    assert_eq!(outputs[0].size.w, 480);
    assert_eq!(outputs[0].physical_size, Size { w: 0, h: 0 });
    let scale = f64::from_bits(outputs[0].scale);
    let width = (f64::from(outputs[0].size.w) * scale).round() as i32;
    let height = (f64::from(outputs[0].size.h) * scale).round() as i32;
    assert_eq!(zone_mode(width, height, None).width, 960);
}

#[test]
fn zone_outputs_are_named_after_their_zone() {
    let outputs = halves((1920., 1080.), Some(144_000));
    assert_eq!(outputs.len(), 2);
    assert_eq!(outputs[0].name, "headless-1:left");
    assert_eq!(outputs[1].name, "headless-1:right");
    assert_eq!(outputs[1].serial, "right");
    assert_eq!(outputs[1].make, "niri");
    assert_eq!(outputs[1].model, "headless");
    assert_eq!(outputs[1].refresh, 144_000);
    assert_eq!(outputs[1].transform, Transform::Normal);
    assert!(outputs.iter().all(|output| output.virtual_output));
    assert_eq!(outputs[1].marker.parent, 1);
    assert_eq!(halves((10., 10.), None)[0].refresh, 60_000);
    assert_eq!(zone_output_name("", ""), ":");
}

#[test]
fn zones_are_rendered_into_their_parent() {
    let marker = ZoneOutputMarker {
        parent: 1,
        rect: rect(0., 0., 1., 1.).edges((10., 20.)),
    };
    let zone = Output {
        handle: 2,
        zone: Some(marker),
    };
    let plain = Output {
        handle: 3,
        zone: None,
    };
    assert!(is_zone_output(&zone));
    assert!(!is_zone_output(&plain));
    assert_eq!(parent_of_zone(&zone), Some(1));
    assert_eq!(parent_of_zone(&plain), None);
    assert_eq!(render_target_of(&zone), 1);
    assert_eq!(render_target_of(&plain), 3);
    assert_eq!(zone_geometry(&plain), None);
    assert_eq!(
        zone_geometry(&zone),
        Some(Rectangle {
            loc: Point { x: 0, y: 0 },
            size: Size { w: 10, h: 20 }
        })
    );
}

#[test]
fn unchanged_zones_are_left_alone() {
    let mode = Mode {
        width: 10,
        height: 20,
        refresh: 60_000,
    };
    let zone = Output {
        handle: 2,
        zone: Some(ZoneOutputMarker {
            parent: 1,
            rect: rect(0., 0., 1., 1.).edges((10., 20.)),
        }),
    };
    let plain = Output {
        handle: 3,
        zone: None,
    };
    let modes = vec![mode];
    let scale = 2f64.to_bits();
    assert!(update_zone_output_size(&zone, mode, scale, Some(mode), true, &modes).is_none());
    assert!(update_zone_output_size(&plain, mode, scale, None, false, &modes).is_none());
    let update =
        update_zone_output_size(&zone, mode, scale, Some(mode), false, &modes).unwrap();
    assert_eq!(update.mode, mode);
    assert_eq!(update.scale, scale);
    assert!(update.delete.is_empty());
    assert!(update_zone_output_size(&zone, mode, scale, None, true, &modes).is_some());
}

/// The modes and the scale of an output, which keeps every mode it ever had.
#[derive(Debug, Clone, PartialEq)]
struct OutputState {
    modes: Vec<Mode>,
    preferred: Option<Mode>,
    current: Option<Mode>,
    scale: u64,
}

impl OutputState {
    fn set(&mut self, mode: Mode, scale: u64) {
        if !self.modes.contains(&mode) {
            self.modes.push(mode);
        }
        self.preferred = Some(mode);
        self.current = Some(mode);
        self.scale = scale;
    }

    fn built(zone: &niri::zone::ZoneOutput) -> Self {
        let mut state = Self {
            modes: vec![],
            preferred: None,
            current: None,
            scale: 1f64.to_bits(),
        };
        let (mode, scale) = zone_state(zone);
        state.set(mode, scale);
        state
    }

    /// Updates the zone, and tells whether it changed.
    fn update(&mut self, zone: &niri::zone::ZoneOutput) -> bool {
        let output = Output {
            handle: 2,
            zone: Some(zone.marker),
        };
        let (mode, scale) = zone_state(zone);
        let same = f64::from_bits(self.scale) == f64::from_bits(scale);
        let update =
            update_zone_output_size(&output, mode, scale, self.current, same, &self.modes);
        let Some(update) = update else {
            return false;
        };
        self.set(update.mode, update.scale);
        self.modes.retain(|mode| !update.delete.contains(mode));
        true
    }
}

fn zone_state(zone: &niri::zone::ZoneOutput) -> (Mode, u64) {
    let scale = f64::from_bits(zone.scale);
    let mode = zone_mode(
        (f64::from(zone.size.w) * scale).round() as i32,
        (f64::from(zone.size.h) * scale).round() as i32,
        Some(zone.refresh),
    );
    (mode, zone.scale)
}

#[test]
fn updated_zones_are_like_new_ones() {
    let parents = [
        halves_at((1920., 1080.), Some(60_000), 1.),
        halves_at((3840., 2160.), Some(60_000), 1.),
        halves_at((1920., 1080.), Some(60_000), 2.),
        halves_at((1920., 1080.), Some(144_000), 2.),
        halves_at((1280., 720.), None, 1.5),
    ];
    let mut followed = OutputState::built(&parents[0][1]);
    for parent in &parents {
        let fresh = OutputState::built(&parent[1]);
        let changed = followed != fresh;
        assert_eq!(followed.update(&parent[1]), changed);
        assert_eq!(followed, fresh);
        assert_eq!(followed.modes.len(), 1);
        assert!(!followed.update(&parent[1]));
    }

    // A zone that came to have other modes loses them.
    let mut cluttered = OutputState::built(&parents[0][0]);
    for parent in &parents[1..] {
        let (mode, scale) = zone_state(&parent[0]);
        cluttered.set(mode, scale);
    }
    assert!(cluttered.modes.len() > 1);
    assert!(cluttered.update(&parents[0][0]));
    assert_eq!(cluttered, OutputState::built(&parents[0][0]));
}
