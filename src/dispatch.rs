use vstd::prelude::*;

use crate::metadata::{Metadata, MetadataBuilder};
use crate::record::{Record, RecordView};
use crate::visual::{coord_at, Color, LineStyle, PointStyle, TextAlignment, Visual};
use crate::vlog::VLog;

verus! {

/// Where a command was issued: its target, the module path, the source file
/// and the line.
pub type CallSite<'a> = (&'a str, &'static str, &'static str, u32);

/// The size that message records carry (`0.0`).
pub const MESSAGE_SIZE: u64 = 0;

/// Whether `r` is the record of a command issued at `site` on `surface`.
pub open spec fn is_site_record<'a>(
    r: RecordView<'a>,
    args: &'a str,
    visual: Visual,
    size: u64,
    color: Color,
    surface: &'a str,
    site: CallSite<'a>,
) -> bool {
    &&& r.metadata.spec_surface() == surface
    &&& r.metadata.spec_target() == site.0
    &&& r.visual == visual
    &&& r.size == size
    &&& r.color == color
    &&& r.args == args
    &&& r.module_name == Some(site.1)
    &&& r.module_name_static == Some(site.1)
    &&& r.file == Some(site.2)
    &&& r.file_static == Some(site.2)
    &&& r.line == Some(site.3)
}

/// The metadata that a command with this target and surface is checked with.
pub fn command_metadata<'a>(target: &'a str, surface: &'a str) -> (r: Metadata<'a>)
    ensures
        r.spec_target() == target,
        r.spec_surface() == surface,
{
    MetadataBuilder::new().target(target).surface(surface).build()
}

/// Assembles the record of a command issued at `site`.
fn site_record<'a>(
    args: &'a str,
    visual: Visual,
    size: u64,
    color: Color,
    surface: &'a str,
    site: &CallSite<'a>,
) -> (r: Record<'a>)
    ensures
        is_site_record(r@, args, visual, size, color, surface, *site),
{
    let (target, module_name, file, line) = *site;
    let mut builder = Record::builder();
    builder.args(args).visual(visual).size(size).color(color).surface(surface).target(
        target,
    ).module_name_static(Some(module_name)).file_static(Some(file)).line(Some(line));
    builder.build()
}

/// The record that a point command hands to the backend: `None` when the
/// backend did not enable the command's metadata, and then nothing is built.
pub fn point_record<'a>(
    enabled: bool,
    args: &'a str,
    pos: &[u64],
    diameter: u64,
    color: Color,
    style: PointStyle,
    surface: &'a str,
    site: &CallSite<'a>,
) -> (r: Option<Record<'a>>)
    ensures
        r is Some <==> enabled,
        r matches Some(rec) ==> is_site_record(
            rec@,
            args,
            Visual::Point {
                x: coord_at(pos@, 0),
                y: coord_at(pos@, 1),
                z: coord_at(pos@, 2),
                style,
            },
            diameter,
            color,
            surface,
            *site,
        ),
{
    if !enabled {
        return None;
    }
    Some(site_record(args, Visual::point_at(pos, style), diameter, color, surface, site))
}

/// The record that a line command hands to the backend, or `None` when the
/// backend did not enable the command's metadata.
pub fn line_record<'a>(
    enabled: bool,
    args: &'a str,
    pos1: &[u64],
    pos2: &[u64],
    thickness: u64,
    color: Color,
    style: LineStyle,
    surface: &'a str,
    site: &CallSite<'a>,
) -> (r: Option<Record<'a>>)
    ensures
        r is Some <==> enabled,
        r matches Some(rec) ==> is_site_record(
            rec@,
            args,
            Visual::Line {
                x1: coord_at(pos1@, 0),
                y1: coord_at(pos1@, 1),
                z1: coord_at(pos1@, 2),
                x2: coord_at(pos2@, 0),
                y2: coord_at(pos2@, 1),
                z2: coord_at(pos2@, 2),
                style,
            },
            thickness,
            color,
            surface,
            *site,
        ),
{
    if !enabled {
        return None;
    }
    Some(
        site_record(
            args,
            Visual::line_between(pos1, pos2, style),
            thickness,
            color,
            surface,
            site,
        ),
    )
}

/// The record that a label command hands to the backend, or `None` when the
/// backend did not enable the command's metadata.
pub fn label_record<'a>(
    enabled: bool,
    args: &'a str,
    pos: &[u64],
    size: u64,
    color: Color,
    alignment: TextAlignment,
    surface: &'a str,
    site: &CallSite<'a>,
) -> (r: Option<Record<'a>>)
    ensures
        r is Some <==> enabled,
        r matches Some(rec) ==> is_site_record(
            rec@,
            args,
            Visual::Label {
                x: coord_at(pos@, 0),
                y: coord_at(pos@, 1),
                z: coord_at(pos@, 2),
                alignment,
            },
            size,
            color,
            surface,
            *site,
        ),
{
    if !enabled {
        return None;
    }
    Some(site_record(args, Visual::label_at(pos, alignment), size, color, surface, site))
}

/// The record that a message command hands to the backend, or `None` when the
/// backend did not enable the command's metadata.
pub fn message_record<'a>(
    enabled: bool,
    args: &'a str,
    color: Color,
    surface: &'a str,
    site: &CallSite<'a>,
) -> (r: Option<Record<'a>>)
    ensures
        r is Some <==> enabled,
        r matches Some(rec) ==> is_site_record(
            rec@,
            args,
            Visual::Message,
            MESSAGE_SIZE,
            color,
            surface,
            *site,
        ),
{
    if !enabled {
        return None;
    }
    Some(site_record(args, Visual::Message, MESSAGE_SIZE, color, surface, site))
}

/// How many segments a polyline over `n` points has: one per consecutive
/// pair, and one more back to the first point when it is closed. Fewer than
/// two points make no segment.
pub open spec fn segment_count(n: int, closed: bool) -> int {
    if n < 2 {
        0
    } else if closed {
        n
    } else {
        n - 1
    }
}

/// The `i`-th segment of a polyline over `n` points, as the indices of its
/// two end points: `(i, i + 1)`, or `(n - 1, 0)` for the closing segment.
pub open spec fn segment(n: int, i: int) -> (usize, usize) {
    if i + 1 < n {
        (i as usize, (i + 1) as usize)
    } else {
        ((n - 1) as usize, 0usize)
    }
}

/// The segments of a polyline over `n` points, in drawing order, each as the
/// indices of its two end points.
pub fn polyline_segments(n: usize, closed: bool) -> (r: Vec<(usize, usize)>)
    ensures
        r@.len() == segment_count(n as int, closed),
        forall|i: int| 0 <= i < r@.len() ==> #[trigger] r@[i] == segment(n as int, i),
{
    let mut r: Vec<(usize, usize)> = Vec::new();
    if n < 2 {
        return r;
    }
    let mut i: usize = 0;
    while i + 1 < n
        invariant
            2 <= n,
            i + 1 <= n,
            r@.len() == i,
            forall|j: int| 0 <= j < r@.len() ==> #[trigger] r@[j] == segment(n as int, j),
        decreases n - i,
    {
        r.push((i, i + 1));
        i = i + 1;
    }
    if closed {
        r.push((n - 1, 0));
    }
    r
}

/// Sends a polyline through `points` to `vlogger`, one line record per
/// segment of [`polyline_segments`], each checked against `enabled` on its own
/// and carrying no text.
pub fn vlog_polyline<L: VLog>(
    vlogger: &L,
    points: &[Vec<u64>],
    closed: bool,
    thickness: u64,
    color: Color,
    style: LineStyle,
    surface: &str,
    site: &CallSite,
) {
    let segments = polyline_segments(points.len(), closed);
    let mut k: usize = 0;
    while k < segments.len()
        invariant
            segments@.len() == segment_count(points@.len() as int, closed),
            forall|i: int|
                0 <= i < segments@.len() ==> #[trigger] segments@[i] == segment(
                    points@.len() as int,
                    i,
                ),
        decreases segments.len() - k,
    {
        let (a, b) = segments[k];
        vlog_line(vlogger, "", points[a].as_slice(), points[b].as_slice(), thickness, color, style, surface, site);
        k = k + 1;
    }
}

/// Clears `surface` on `vlogger`, if the backend enables the metadata of
/// `target` and `surface`.
pub fn clear<L: VLog>(vlogger: L, target: &str, surface: &str) {
    if vlogger.enabled(&command_metadata(target, surface)) {
        vlogger.clear(surface);
    }
}

/// Sends a point to `vlogger`. `pos` holds x, y and an optional z; missing
/// coordinates are `0.0`.
pub fn vlog_point<L: VLog>(
    vlogger: L,
    args: &str,
    pos: &[u64],
    diameter: u64,
    color: Color,
    style: PointStyle,
    surface: &str,
    site: &CallSite,
) {
    let enabled = vlogger.enabled(&command_metadata(site.0, surface));
    if let Some(record) = point_record(enabled, args, pos, diameter, color, style, surface, site) {
        vlogger.vlog(&record);
    }
}

/// Sends a line segment from `pos1` to `pos2` to `vlogger`.
pub fn vlog_line<L: VLog>(
    vlogger: L,
    args: &str,
    pos1: &[u64],
    pos2: &[u64],
    thickness: u64,
    color: Color,
    style: LineStyle,
    surface: &str,
    site: &CallSite,
) {
    let enabled = vlogger.enabled(&command_metadata(site.0, surface));
    if let Some(record) = line_record(
        enabled,
        args,
        pos1,
        pos2,
        thickness,
        color,
        style,
        surface,
        site,
    ) {
        vlogger.vlog(&record);
    }
}

/// Sends a text label anchored at `pos` to `vlogger`.
pub fn vlog_label<L: VLog>(
    vlogger: L,
    args: &str,
    pos: &[u64],
    size: u64,
    color: Color,
    alignment: TextAlignment,
    surface: &str,
    site: &CallSite,
) {
    let enabled = vlogger.enabled(&command_metadata(site.0, surface));
    if let Some(record) = label_record(enabled, args, pos, size, color, alignment, surface, site) {
        vlogger.vlog(&record);
    }
}

/// Sends a message to `vlogger`.
pub fn vlog_message<L: VLog>(vlogger: L, args: &str, color: Color, surface: &str, site: &CallSite) {
    let enabled = vlogger.enabled(&command_metadata(site.0, surface));
    if let Some(record) = message_record(enabled, args, color, surface, site) {
        vlogger.vlog(&record);
    }
}

/// Whether `vlogger` enables commands on `surface` for `target`.
pub fn enabled<L: VLog>(vlogger: L, surface: &str, target: &str) -> bool {
    vlogger.enabled(&command_metadata(target, surface))
}

} // verus!
