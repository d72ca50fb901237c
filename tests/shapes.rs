use resvg::shapes::{shape_issue, ShapeIssue, convert, convert_path, convert_polygon, convert_polyline, convert_rect, resolve_rx_ry, PathSegment, Shape};

fn is_arc(s: &PathSegment) -> bool {
    matches!(s, PathSegment::ArcTo { .. })
}

fn is_line(s: &PathSegment) -> bool {
    matches!(s, PathSegment::LineTo { .. })
}

#[test]
fn rect_with_zero_width_has_no_path() {
    assert!(convert_rect(0, 0, 0, 10, None, None).is_none());
    assert!(convert_rect(0, 0, 10, -1, None, None).is_none());
}

#[test]
fn rect_radius_is_clamped_to_half_width() {
    let p = convert_rect(0, 0, 10, 40, Some(8), None).unwrap();
    assert_eq!(p.segments[0], PathSegment::MoveTo { x: 5, y: 0 });
    assert_eq!(p.segments[2], PathSegment::ArcTo { rx: 5, ry: 8, x: 10, y: 8 });
}

#[test]
fn plain_rect_has_four_lines_and_no_arcs() {
    let p = convert_rect(1, 2, 10, 20, Some(0), Some(0)).unwrap();
    assert_eq!(p.segments.iter().filter(|s| is_line(s)).count(), 4);
    assert_eq!(p.segments.iter().filter(|s| is_arc(s)).count(), 0);
    assert_eq!(p.segments.last(), Some(&PathSegment::ClosePath));
    assert_eq!(p.segments[2], PathSegment::LineTo { x: 11, y: 22 });
}

#[test]
fn rounded_rect_has_four_lines_and_four_arcs() {
    let p = convert_rect(0, 0, 10, 10, Some(2), Some(3)).unwrap();
    assert_eq!(p.segments.len(), 10);
    assert_eq!(p.segments.iter().filter(|s| is_line(s)).count(), 4);
    assert_eq!(p.segments.iter().filter(|s| is_arc(s)).count(), 4);
    assert_eq!(p.segments[9], PathSegment::ClosePath);
    assert_eq!(p.segments[4], PathSegment::ArcTo { rx: 2, ry: 3, x: 8, y: 10 });
}

#[test]
fn one_radius_stands_for_both() {
    assert_eq!(resolve_rx_ry(Some(4), None), (4, 4));
    assert_eq!(resolve_rx_ry(None, Some(6)), (6, 6));
    assert_eq!(resolve_rx_ry(Some(-1), Some(6)), (6, 6));
    assert_eq!(resolve_rx_ry(Some(-1), Some(-2)), (0, 0));
    assert_eq!(resolve_rx_ry(Some(1), Some(2)), (1, 2));
}

#[test]
fn polyline_needs_two_points() {
    assert!(convert_polyline(&Some(vec![(1, 1)])).is_none());
    assert!(convert_polyline(&None).is_none());
    let p = convert_polyline(&Some(vec![(1, 1), (1, 1)])).unwrap();
    assert_eq!(p.segments, vec![PathSegment::MoveTo { x: 1, y: 1 }, PathSegment::LineTo { x: 1, y: 1 }]);
}

#[test]
fn polygon_is_closed() {
    assert!(convert_polygon(&Some(vec![])).is_none());
    let p = convert_polygon(&Some(vec![(0, 0), (3, 4), (5, 0)])).unwrap();
    assert_eq!(p.segments.len(), 4);
    assert_eq!(p.segments[2], PathSegment::LineTo { x: 5, y: 0 });
    assert_eq!(p.segments[3], PathSegment::ClosePath);
}

#[test]
fn path_keeps_segments_before_error() {
    let data = vec![
        Some(PathSegment::MoveTo { x: 0, y: 0 }),
        Some(PathSegment::LineTo { x: 5, y: 5 }),
        None,
        Some(PathSegment::LineTo { x: 9, y: 9 }),
    ];
    let p = convert_path(&Some(data)).unwrap();
    assert_eq!(p.segments.len(), 2);
    assert_eq!(p.segments[1], PathSegment::LineTo { x: 5, y: 5 });
}

#[test]
fn path_with_one_segment_is_dropped() {
    let data = vec![Some(PathSegment::MoveTo { x: 0, y: 0 }), None, Some(PathSegment::ClosePath)];
    assert!(convert_path(&Some(data)).is_none());
    assert!(convert_path(&None).is_none());
}

#[test]
fn circle_and_ellipse() {
    assert!(convert(&Shape::Circle { cx: 0, cy: 0, r: 0 }).is_none());
    let c = convert(&Shape::Circle { cx: 10, cy: 10, r: 5 }).unwrap();
    assert_eq!(c.segments.len(), 6);
    assert_eq!(c.segments[0], PathSegment::MoveTo { x: 15, y: 10 });
    assert_eq!(c.segments[1], PathSegment::ArcTo { rx: 5, ry: 5, x: 10, y: 15 });
    assert_eq!(c.segments[3], PathSegment::ArcTo { rx: 5, ry: 5, x: 10, y: 5 });
    let e = convert(&Shape::Ellipse { cx: 0, cy: 0, rx: Some(4), ry: None }).unwrap();
    assert_eq!(e.segments[2], PathSegment::ArcTo { rx: 4, ry: 4, x: -4, y: 0 });
    assert!(convert(&Shape::Ellipse { cx: 0, cy: 0, rx: None, ry: None }).is_none());
}

#[test]
fn line_is_open() {
    let l = convert(&Shape::Line { x1: 1, y1: 2, x2: 3, y2: 4 }).unwrap();
    assert_eq!(l.segments, vec![PathSegment::MoveTo { x: 1, y: 2 }, PathSegment::LineTo { x: 3, y: 4 }]);
}

#[test]
fn dropped_shapes_name_their_issue() {
    assert_eq!(shape_issue(&Shape::Rect { x: 0, y: 0, width: 0, height: 0, rx: None, ry: None }), Some(ShapeIssue::InvalidWidth));
    assert_eq!(shape_issue(&Shape::Rect { x: 0, y: 0, width: 5, height: -1, rx: None, ry: None }), Some(ShapeIssue::InvalidHeight));
    assert_eq!(shape_issue(&Shape::Circle { cx: 0, cy: 0, r: 0 }), Some(ShapeIssue::InvalidRadius));
    assert_eq!(shape_issue(&Shape::Ellipse { cx: 0, cy: 0, rx: None, ry: None }), Some(ShapeIssue::InvalidRx));
    assert_eq!(shape_issue(&Shape::Ellipse { cx: 0, cy: 0, rx: Some(3), ry: Some(0) }), Some(ShapeIssue::InvalidRy));
    assert_eq!(shape_issue(&Shape::Polyline { points: None }), Some(ShapeIssue::InvalidPoints));
    assert_eq!(shape_issue(&Shape::Polygon { points: Some(vec![(1, 1)]) }), Some(ShapeIssue::TooFewPoints));
    assert_eq!(shape_issue(&Shape::Path { data: Some(vec![None]) }), Some(ShapeIssue::InvalidPathData));
    assert_eq!(shape_issue(&Shape::Line { x1: 0, y1: 0, x2: 0, y2: 0 }), None);
    assert_eq!(shape_issue(&Shape::Rect { x: 0, y: 0, width: 5, height: 5, rx: None, ry: None }), None);
}
