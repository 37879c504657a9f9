use v_log::{
    Color, LineStyle, MetadataBuilder, PointStyle, Record, RecordBuilder, TextAlignment, Visual,
};

fn bits(x: f64) -> u64 {
    x.to_bits()
}

#[test]
fn record_builder_defaults() {
    let r = RecordBuilder::new().build();
    assert_eq!(*r.visual(), Visual::Message);
    assert_eq!(*r.color(), Color::Base);
    assert_eq!(f64::from_bits(r.size()), 12.0);
    assert_eq!(r.args(), "");
    assert_eq!(r.surface(), "");
    assert_eq!(r.target(), "");
    assert_eq!(r.module_name(), None);
    assert_eq!(r.module_name_static(), None);
    assert_eq!(r.file(), None);
    assert_eq!(r.file_static(), None);
    assert_eq!(r.line(), None);
    let d = RecordBuilder::default().build();
    assert_eq!(*d.visual(), Visual::Message);
    assert_eq!(Record::builder().build().size(), bits(12.0));
}

#[test]
fn record_builder_round_trip() {
    let record = Record::builder()
        .args("Error!")
        .target("myApp")
        .surface("AppSurface")
        .visual(Visual::Message)
        .color(Color::Healthy)
        .file(Some("server.rs"))
        .line(Some(144))
        .module_name(Some("server"))
        .build();
    assert_eq!(record.args(), "Error!");
    assert_eq!(record.target(), "myApp");
    assert_eq!(record.surface(), "AppSurface");
    assert_eq!(record.metadata().surface(), "AppSurface");
    assert_eq!(*record.visual(), Visual::Message);
    assert_eq!(*record.color(), Color::Healthy);
    assert_eq!(record.file(), Some("server.rs"));
    assert_eq!(record.file_static(), None);
    assert_eq!(record.line(), Some(144));
    assert_eq!(record.module_name(), Some("server"));
    assert_eq!(record.module_name_static(), None);
}

#[test]
fn record_builder_with_metadata() {
    let error_metadata = MetadataBuilder::new().target("myApp").surface("AppSurface").build();
    let record = Record::builder()
        .metadata(error_metadata)
        .args("Error!")
        .visual(Visual::Message)
        .color(Color::Healthy)
        .line(Some(433))
        .file(Some("app.rs"))
        .module_name(Some("server"))
        .build();
    assert_eq!(*record.metadata(), error_metadata);
    assert_eq!(record.target(), "myApp");
    assert_eq!(record.line(), Some(433));
}

#[test]
fn record_static_locations() {
    let r = Record::builder()
        .module_name_static(Some("crate::geo"))
        .file_static(Some("geo.rs"))
        .build();
    assert_eq!(r.module_name(), Some("crate::geo"));
    assert_eq!(r.module_name_static(), Some("crate::geo"));
    assert_eq!(r.file(), Some("geo.rs"));
    assert_eq!(r.file_static(), Some("geo.rs"));
    let cleared = Record::builder()
        .module_name_static(Some("m"))
        .module_name(None)
        .file_static(Some("f"))
        .file_static(None)
        .line(Some(3))
        .line(None)
        .build();
    assert_eq!(cleared.module_name(), None);
    assert_eq!(cleared.module_name_static(), None);
    assert_eq!(cleared.file(), None);
    assert_eq!(cleared.line(), None);
}

#[test]
fn record_geometry_and_colors_round_trip() {
    let visuals = [
        Visual::Point { x: bits(1.5), y: bits(-2.0), z: bits(3.25), style: PointStyle::DashedSquare },
        Visual::Label { x: bits(0.5), y: bits(0.0), z: bits(-0.0), alignment: TextAlignment::Right },
        Visual::Line {
            x1: bits(1.0),
            y1: bits(2.0),
            z1: bits(3.0),
            x2: bits(4.0),
            y2: bits(5.0),
            z2: bits(6.0),
            style: LineStyle::InsideHarpoonCW,
        },
        Visual::Message,
    ];
    let colors = [
        Color::Base,
        Color::Healthy,
        Color::Info,
        Color::Warn,
        Color::Error,
        Color::X,
        Color::Y,
        Color::Z,
        Color::Hex(0),
        Color::Hex(0xFF00_80C0),
        Color::Hex(u32::MAX),
    ];
    for v in visuals {
        for c in colors {
            let r = Record::builder().visual(v).color(c).size(bits(2.5)).build();
            assert_eq!(*r.visual(), v);
            assert_eq!(*r.color(), c);
            assert_eq!(f64::from_bits(r.size()), 2.5);
        }
    }
}

#[test]
fn builder_setters_leave_other_fields() {
    let mut b = Record::builder();
    b.surface("S").target("T");
    b.surface("S2");
    let r = b.build();
    assert_eq!(r.surface(), "S2");
    assert_eq!(r.target(), "T");
    b.target("T2");
    let r2 = b.build();
    assert_eq!(r2.surface(), "S2");
    assert_eq!(r2.target(), "T2");
}

#[test]
fn enum_defaults() {
    assert_eq!(TextAlignment::default(), TextAlignment::Flexible);
    assert_eq!(Visual::default(), Visual::Message);
    assert_eq!(Color::default(), Color::Base);
}
