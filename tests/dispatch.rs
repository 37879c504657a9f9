use std::cell::RefCell;

use v_log::dispatch::{
    clear, enabled, label_record, line_record, message_record, point_record, polyline_segments,
    vlog_label, vlog_line, vlog_message, vlog_point, vlog_polyline, CallSite,
};
use v_log::visual::coord;
use v_log::{Color, LineStyle, Metadata, NopVLogger, PointStyle, Record, TextAlignment, VLog, Visual};

fn bits(x: f64) -> u64 {
    x.to_bits()
}

#[derive(Debug, Clone, PartialEq)]
struct Seen {
    visual: Visual,
    size: u64,
    color: Color,
    surface: String,
    target: String,
    text: String,
    module_name: Option<String>,
    file: Option<String>,
    line: Option<u32>,
}

struct Spy {
    on: bool,
    asked: RefCell<Vec<(String, String)>>,
    seen: RefCell<Vec<Seen>>,
    cleared: RefCell<Vec<String>>,
}

impl Spy {
    fn new(on: bool) -> Spy {
        Spy { on, asked: RefCell::new(vec![]), seen: RefCell::new(vec![]), cleared: RefCell::new(vec![]) }
    }
}

impl VLog for Spy {
    fn enabled(&self, metadata: &Metadata) -> bool {
        self.asked.borrow_mut().push((metadata.surface().to_string(), metadata.target().to_string()));
        self.on
    }

    fn vlog(&self, record: &Record) {
        self.seen.borrow_mut().push(Seen {
            visual: *record.visual(),
            size: record.size(),
            color: *record.color(),
            surface: record.surface().to_string(),
            target: record.target().to_string(),
            text: record.args().to_string(),
            module_name: record.module_name().map(|s| s.to_string()),
            file: record.file().map(|s| s.to_string()),
            line: record.line(),
        });
    }

    fn clear(&self, surface: &str) {
        self.cleared.borrow_mut().push(surface.to_string());
    }
}

const SITE: CallSite<'static> = ("app::geo", "app::geo", "src/geo.rs", 42);

#[test]
fn disabled_backend_gets_no_record() {
    let spy = Spy::new(false);
    vlog_point(&spy, "p", &[bits(1.0), bits(2.0)], bits(5.0), Color::Base, PointStyle::Point, "S", &SITE);
    vlog_line(&spy, "l", &[0, 0], &[bits(1.0), 0], bits(1.0), Color::Info, LineStyle::Simple, "S", &SITE);
    vlog_label(&spy, "t", &[0, 0], bits(12.0), Color::Warn, TextAlignment::Left, "S", &SITE);
    vlog_message(&spy, "m", Color::Error, "S", &SITE);
    vlog_polyline(&spy, &[vec![0, 0], vec![bits(1.0), 0], vec![bits(1.0), bits(1.0)]], true, bits(1.0), Color::Base, LineStyle::Dashed, "S", &SITE);
    clear(&spy, "app::geo", "S");
    assert_eq!(spy.seen.borrow().len(), 0);
    assert_eq!(spy.cleared.borrow().len(), 0);
    assert_eq!(spy.asked.borrow().len(), 8);
    assert!(spy.asked.borrow().iter().all(|(s, t)| s == "S" && t == "app::geo"));
}

#[test]
fn planners_build_nothing_when_disabled() {
    assert!(point_record(false, "", &[], 0, Color::Base, PointStyle::Point, "S", &SITE).is_none());
    assert!(line_record(false, "", &[], &[], 0, Color::Base, LineStyle::Arrow, "S", &SITE).is_none());
    assert!(label_record(false, "", &[], 0, Color::Base, TextAlignment::Center, "S", &SITE).is_none());
    assert!(message_record(false, "", Color::Base, "S", &SITE).is_none());
}

#[test]
fn point_with_two_coordinates() {
    let spy = Spy::new(true);
    vlog_point(&spy, "", &[bits(1.0), bits(2.0)], bits(5.0), Color::Base, PointStyle::Point, "S", &SITE);
    let seen = spy.seen.borrow();
    assert_eq!(seen.len(), 1);
    assert_eq!(seen[0].visual, Visual::Point { x: bits(1.0), y: bits(2.0), z: bits(0.0), style: PointStyle::Point });
    assert_eq!(f64::from_bits(seen[0].size), 5.0);
    assert_eq!(seen[0].surface, "S");
    assert_eq!(seen[0].target, "app::geo");
    assert_eq!(seen[0].module_name.as_deref(), Some("app::geo"));
    assert_eq!(seen[0].file.as_deref(), Some("src/geo.rs"));
    assert_eq!(seen[0].line, Some(42));
}

#[test]
fn point_record_fields() {
    let r = point_record(true, "hi", &[bits(1.0), bits(2.0), bits(3.0), bits(4.0)], bits(0.5), Color::Hex(0x11223344), PointStyle::Circle, "plot", &SITE).unwrap();
    assert_eq!(*r.visual(), Visual::Point { x: bits(1.0), y: bits(2.0), z: bits(3.0), style: PointStyle::Circle });
    assert_eq!(r.args(), "hi");
    assert_eq!(*r.color(), Color::Hex(0x11223344));
    assert_eq!(r.size(), bits(0.5));
    assert_eq!(r.module_name_static(), Some("app::geo"));
    assert_eq!(r.file_static(), Some("src/geo.rs"));
}

#[test]
fn missing_coordinates_are_zero() {
    assert_eq!(coord(&[], 0), bits(0.0));
    assert_eq!(coord(&[bits(7.0)], 0), bits(7.0));
    assert_eq!(coord(&[bits(7.0)], 1), bits(0.0));
    assert_eq!(coord(&[bits(7.0), bits(8.0), bits(9.0)], 2), bits(9.0));
    let r = label_record(true, "label", &[], bits(12.0), Color::Base, TextAlignment::Flexible, "S", &SITE).unwrap();
    assert_eq!(*r.visual(), Visual::Label { x: 0, y: 0, z: 0, alignment: TextAlignment::Flexible });
}

#[test]
fn line_record_fields() {
    let r = line_record(true, "seg", &[bits(1.0)], &[bits(4.0), bits(5.0), bits(6.0)], bits(2.0), Color::X, LineStyle::Arrow, "S", &SITE).unwrap();
    assert_eq!(
        *r.visual(),
        Visual::Line { x1: bits(1.0), y1: 0, z1: 0, x2: bits(4.0), y2: bits(5.0), z2: bits(6.0), style: LineStyle::Arrow }
    );
    assert_eq!(r.args(), "seg");
    assert_eq!(r.size(), bits(2.0));
}

#[test]
fn message_has_zero_size() {
    let spy = Spy::new(true);
    vlog_message(&spy, "hello vlog", Color::Healthy, "log", &SITE);
    let seen = spy.seen.borrow();
    assert_eq!(seen.len(), 1);
    assert_eq!(seen[0].visual, Visual::Message);
    assert_eq!(seen[0].size, bits(0.0));
    assert_eq!(seen[0].text, "hello vlog");
    assert_eq!(seen[0].color, Color::Healthy);
}

#[test]
fn label_dispatch() {
    let spy = Spy::new(true);
    vlog_label(&spy, "x = 3", &[bits(3.0), bits(-1.0)], bits(12.0), Color::Base, TextAlignment::Right, "S", &SITE);
    let seen = spy.seen.borrow();
    assert_eq!(seen.len(), 1);
    assert_eq!(seen[0].visual, Visual::Label { x: bits(3.0), y: bits(-1.0), z: 0, alignment: TextAlignment::Right });
    assert_eq!(seen[0].text, "x = 3");
}

fn line_ends(s: &Seen) -> ((u64, u64), (u64, u64)) {
    match s.visual {
        Visual::Line { x1, y1, x2, y2, .. } => ((x1, y1), (x2, y2)),
        _ => panic!("not a line"),
    }
}

#[test]
fn open_and_closed_polyline() {
    let pts = [vec![bits(0.0), bits(0.0)], vec![bits(1.0), bits(0.0)], vec![bits(1.0), bits(1.0)]];
    let open = Spy::new(true);
    vlog_polyline(&open, &pts, false, bits(1.0), Color::Base, LineStyle::Simple, "S", &SITE);
    let seen = open.seen.borrow();
    assert_eq!(seen.len(), 2);
    let (o, a, b) = ((bits(0.0), bits(0.0)), (bits(1.0), bits(0.0)), (bits(1.0), bits(1.0)));
    assert_eq!(line_ends(&seen[0]), (o, a));
    assert_eq!(line_ends(&seen[1]), (a, b));
    assert!(seen.iter().all(|s| s.text.is_empty()));

    let closed = Spy::new(true);
    vlog_polyline(&closed, &pts, true, bits(1.0), Color::Base, LineStyle::Simple, "S", &SITE);
    let seen = closed.seen.borrow();
    assert_eq!(seen.len(), 3);
    assert_eq!(line_ends(&seen[0]), (o, a));
    assert_eq!(line_ends(&seen[1]), (a, b));
    assert_eq!(line_ends(&seen[2]), (b, o));
}

#[test]
fn polyline_segment_indices() {
    assert_eq!(polyline_segments(0, false), vec![]);
    assert_eq!(polyline_segments(1, true), vec![]);
    assert_eq!(polyline_segments(2, false), vec![(0, 1)]);
    assert_eq!(polyline_segments(2, true), vec![(0, 1), (1, 0)]);
    assert_eq!(polyline_segments(3, false), vec![(0, 1), (1, 2)]);
    assert_eq!(polyline_segments(3, true), vec![(0, 1), (1, 2), (2, 0)]);
    assert_eq!(polyline_segments(5, true).len(), 5);
}

#[test]
fn clear_on_fresh_surface_twice() {
    let spy = Spy::new(true);
    clear(&spy, "app::geo", "S");
    let after_once = (spy.seen.borrow().clone(), spy.cleared.borrow().clone());
    assert_eq!(after_once.1, vec!["S".to_string()]);
    clear(&spy, "app::geo", "S");
    assert_eq!(*spy.seen.borrow(), after_once.0);
    assert!(spy.seen.borrow().is_empty());
    assert_eq!(*spy.cleared.borrow(), vec!["S".to_string(), "S".to_string()]);
    clear(NopVLogger, "app::geo", "S");
    clear(NopVLogger, "app::geo", "S");
}

#[test]
fn enabled_asks_backend_with_metadata() {
    let spy = Spy::new(true);
    assert!(enabled(&spy, "surf", "tgt"));
    assert_eq!(*spy.asked.borrow(), vec![("surf".to_string(), "tgt".to_string())]);
    assert!(!enabled(&Spy::new(false), "surf", "tgt"));
    assert!(!enabled(NopVLogger, "surf", "tgt"));
}

#[test]
fn boxed_and_shared_backends_forward() {
    let boxed: Box<Spy> = Box::new(Spy::new(true));
    vlog_message(&boxed, "m", Color::Base, "S", &SITE);
    assert_eq!(boxed.seen.borrow().len(), 1);
    let shared = std::sync::Arc::new(Spy::new(true));
    vlog_message(&shared, "m", Color::Base, "S", &SITE);
    vlog_message(shared.clone(), "n", Color::Base, "S", &SITE);
    assert_eq!(shared.seen.borrow().len(), 2);
    let dynamic: Box<dyn VLog> = Box::new(Spy::new(false));
    assert!(!enabled(&dynamic, "S", "t"));
}
