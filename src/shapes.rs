//! Conversion of basic shapes into path data.

use vstd::prelude::*;

verus! {

/// One path command. Arcs are quarter-turn elliptical arcs with no rotation,
/// the small arc, drawn clockwise.
#[derive(Clone, Copy, Debug, PartialEq, Eq, Structural)]
pub enum PathSegment {
    MoveTo { x: i64, y: i64 },
    LineTo { x: i64, y: i64 },
    CurveTo { x1: i64, y1: i64, x2: i64, y2: i64, x: i64, y: i64 },
    Quadratic { x1: i64, y1: i64, x: i64, y: i64 },
    ArcTo { rx: i64, ry: i64, x: i64, y: i64 },
    ClosePath,
}

/// A sequence of path commands.
pub struct PathData {
    pub segments: Vec<PathSegment>,
}

/// A shape element with its lengths resolved to user space.
pub enum Shape {
    Rect { x: i32, y: i32, width: i32, height: i32, rx: Option<i32>, ry: Option<i32> },
    Circle { cx: i32, cy: i32, r: i32 },
    Ellipse { cx: i32, cy: i32, rx: Option<i32>, ry: Option<i32> },
    Line { x1: i32, y1: i32, x2: i32, y2: i32 },
    /// The parsed `points`, absent when the attribute is missing.
    Polyline { points: Option<Vec<(i32, i32)>> },
    Polygon { points: Option<Vec<(i32, i32)>> },
    /// The path-data stream; `None` marks the first malformed segment.
    Path { data: Option<Vec<Option<PathSegment>>> },
}

pub open spec fn move_to(x: int, y: int) -> PathSegment {
    PathSegment::MoveTo { x: x as i64, y: y as i64 }
}

pub open spec fn line_to(x: int, y: int) -> PathSegment {
    PathSegment::LineTo { x: x as i64, y: y as i64 }
}

pub open spec fn arc_to(rx: int, ry: int, x: int, y: int) -> PathSegment {
    PathSegment::ArcTo { rx: rx as i64, ry: ry as i64, x: x as i64, y: y as i64 }
}

/// A declared radius counts only when it is not negative.
pub open spec fn declared(r: Option<i32>) -> Option<i32> {
    match r {
        Some(v) => if v >= 0 {
            Some(v)
        } else {
            None
        },
        None => None,
    }
}

/// The radii of a rect or an ellipse: one declared radius stands for both.
pub open spec fn rx_ry_spec(rx: Option<i32>, ry: Option<i32>) -> (i32, i32) {
    match (declared(rx), declared(ry)) {
        (None, None) => (0, 0),
        (Some(a), None) => (a, a),
        (None, Some(b)) => (b, b),
        (Some(a), Some(b)) => (a, b),
    }
}

/// `r` clamped to half of `side`. The half is rounded down: for an odd `side`
/// twice the clamped radius falls one step short of it, and a straight edge of one
/// step remains between the two corner arcs.
pub open spec fn clamp_half(r: int, side: int) -> int {
    if r > side / 2 {
        side / 2
    } else {
        r
    }
}

/// The outline of a rect whose radii are already clamped.
pub open spec fn rect_path_spec(x: int, y: int, w: int, h: int, rx: int, ry: int) -> Seq<
    PathSegment,
> {
    if rx == 0 {
        seq![
            move_to(x, y),
            line_to(x + w, y),
            line_to(x + w, y + h),
            line_to(x, y + h),
            line_to(x, y),
            PathSegment::ClosePath,
        ]
    } else {
        seq![
            move_to(x + rx, y),
            line_to(x + w - rx, y),
            arc_to(rx, ry, x + w, y + ry),
            line_to(x + w, y + h - ry),
            arc_to(rx, ry, x + w - rx, y + h),
            line_to(x + rx, y + h),
            arc_to(rx, ry, x, y + h - ry),
            line_to(x, y + ry),
            arc_to(rx, ry, x + rx, y),
            PathSegment::ClosePath,
        ]
    }
}

/// The closed outline of an ellipse, clockwise from its rightmost point.
pub open spec fn ellipse_path_spec(cx: int, cy: int, rx: int, ry: int) -> Seq<PathSegment> {
    seq![
        move_to(cx + rx, cy),
        arc_to(rx, ry, cx, cy + ry),
        arc_to(rx, ry, cx - rx, cy),
        arc_to(rx, ry, cx, cy - ry),
        arc_to(rx, ry, cx + rx, cy),
        PathSegment::ClosePath,
    ]
}

/// A move to the first point and a line to each later one.
pub open spec fn points_path_spec(points: Seq<(i32, i32)>) -> Seq<PathSegment> {
    Seq::new(
        points.len(),
        |k: int|
            if k == 0 {
                move_to(points[k].0 as int, points[k].1 as int)
            } else {
                line_to(points[k].0 as int, points[k].1 as int)
            },
    )
}

/// Resolves the radii of a rect or an ellipse from the declared ones.
pub fn resolve_rx_ry(rx: Option<i32>, ry: Option<i32>) -> (r: (i32, i32))
    ensures
        r == rx_ry_spec(rx, ry),
{
    let mut rx_opt = rx;
    let mut ry_opt = ry;
    // Negative values count as not declared.
    if let Some(v) = rx_opt {
        if v < 0 {
            rx_opt = None;
        }
    }
    if let Some(v) = ry_opt {
        if v < 0 {
            ry_opt = None;
        }
    }
    match (rx_opt, ry_opt) {
        (None, None) => (0, 0),
        (Some(a), None) => (a, a),
        (None, Some(b)) => (b, b),
        (Some(a), Some(b)) => (a, b),
    }
}

/// Converts a rect. Absent when `width` or `height` is not positive.
pub fn convert_rect(x: i32, y: i32, width: i32, height: i32, rx: Option<i32>, ry: Option<i32>) -> (r:
    Option<PathData>)
    ensures
        r is Some <==> width > 0 && height > 0,
        r matches Some(p) ==> p.segments@ == rect_path_spec(
            x as int,
            y as int,
            width as int,
            height as int,
            clamp_half(rx_ry_spec(rx, ry).0 as int, width as int),
            clamp_half(rx_ry_spec(rx, ry).1 as int, height as int),
        ),
{
    if width <= 0 || height <= 0 {
        return None;
    }
    let (mut rx, mut ry) = resolve_rx_ry(rx, ry);
    // Clamp after resolving.
    if rx > width / 2 {
        rx = width / 2;
    }
    if ry > height / 2 {
        ry = height / 2;
    }
    let (x, y, w, h, rx, ry) = (x as i64, y as i64, width as i64, height as i64, rx as i64, ry as i64);
    let segments = if rx == 0 {
        vec![
            PathSegment::MoveTo { x, y },
            PathSegment::LineTo { x: x + w, y },
            PathSegment::LineTo { x: x + w, y: y + h },
            PathSegment::LineTo { x, y: y + h },
            PathSegment::LineTo { x, y },
            PathSegment::ClosePath,
        ]
    } else {
        let right = x + w;
        let bottom = y + h;
        let left_in = x + rx;
        let right_in = right - rx;
        let top_in = y + ry;
        let bottom_in = bottom - ry;
        vec![
            PathSegment::MoveTo { x: left_in, y },
            PathSegment::LineTo { x: right_in, y },
            PathSegment::ArcTo { rx, ry, x: right, y: top_in },
            PathSegment::LineTo { x: right, y: bottom_in },
            PathSegment::ArcTo { rx, ry, x: right_in, y: bottom },
            PathSegment::LineTo { x: left_in, y: bottom },
            PathSegment::ArcTo { rx, ry, x, y: bottom_in },
            PathSegment::LineTo { x, y: top_in },
            PathSegment::ArcTo { rx, ry, x: left_in, y },
            PathSegment::ClosePath,
        ]
    };
    let p = PathData { segments };
    assert(p.segments@ =~= rect_path_spec(
        x as int,
        y as int,
        w as int,
        h as int,
        rx as int,
        ry as int,
    ));
    Some(p)
}

/// Builds the closed outline of an ellipse from four quarter arcs.
pub fn ellipse_to_path(cx: i32, cy: i32, rx: i32, ry: i32) -> (r: PathData)
    ensures
        r.segments@ == ellipse_path_spec(cx as int, cy as int, rx as int, ry as int),
{
    let (cx, cy, rx, ry) = (cx as i64, cy as i64, rx as i64, ry as i64);
    let right = cx + rx;
    let left = cx - rx;
    let bottom = cy + ry;
    let top = cy - ry;
    let p = PathData {
        segments: vec![
            PathSegment::MoveTo { x: right, y: cy },
            PathSegment::ArcTo { rx, ry, x: cx, y: bottom },
            PathSegment::ArcTo { rx, ry, x: left, y: cy },
            PathSegment::ArcTo { rx, ry, x: cx, y: top },
            PathSegment::ArcTo { rx, ry, x: right, y: cy },
            PathSegment::ClosePath,
        ],
    };
    assert(p.segments@ =~= ellipse_path_spec(cx as int, cy as int, rx as int, ry as int));
    p
}

/// Converts a circle. Absent when `r` is not positive.
pub fn convert_circle(cx: i32, cy: i32, r: i32) -> (res: Option<PathData>)
    ensures
        res is Some <==> r > 0,
        res matches Some(p) ==> p.segments@ == ellipse_path_spec(
            cx as int,
            cy as int,
            r as int,
            r as int,
        ),
{
    if r <= 0 {
        return None;
    }
    Some(ellipse_to_path(cx, cy, r, r))
}

/// Converts an ellipse. Absent when a resolved radius is not positive.
pub fn convert_ellipse(cx: i32, cy: i32, rx: Option<i32>, ry: Option<i32>) -> (r: Option<PathData>)
    ensures
        r is Some <==> rx_ry_spec(rx, ry).0 > 0 && rx_ry_spec(rx, ry).1 > 0,
        r matches Some(p) ==> p.segments@ == ellipse_path_spec(
            cx as int,
            cy as int,
            rx_ry_spec(rx, ry).0 as int,
            rx_ry_spec(rx, ry).1 as int,
        ),
{
    let (rx, ry) = resolve_rx_ry(rx, ry);
    if rx <= 0 || ry <= 0 {
        return None;
    }
    Some(ellipse_to_path(cx, cy, rx, ry))
}

/// Converts a line into an open two-point path.
pub fn convert_line(x1: i32, y1: i32, x2: i32, y2: i32) -> (r: Option<PathData>)
    ensures
        r matches Some(p) && p.segments@ == seq![
            move_to(x1 as int, y1 as int),
            line_to(x2 as int, y2 as int),
        ],
{
    let p = PathData {
        segments: vec![
            PathSegment::MoveTo { x: x1 as i64, y: y1 as i64 },
            PathSegment::LineTo { x: x2 as i64, y: y2 as i64 },
        ],
    };
    assert(p.segments@ =~= seq![move_to(x1 as int, y1 as int), line_to(x2 as int, y2 as int)]);
    Some(p)
}

/// The path through `points`; absent when the attribute is missing or holds
/// fewer than two points.
pub fn points_to_path(points: &Option<Vec<(i32, i32)>>) -> (r: Option<PathData>)
    ensures
        r is Some <==> (points matches Some(v) && v@.len() >= 2),
        r matches Some(p) ==> p.segments@ == points_path_spec(points.unwrap()@),
{
    let pts = match points {
        Some(v) => v,
        None => return None,
    };
    let mut segments: Vec<PathSegment> = Vec::new();
    let mut k: usize = 0;
    while k < pts.len()
        invariant
            k <= pts@.len(),
            segments@ == points_path_spec(pts@.take(k as int)),
        decreases pts@.len() - k,
    {
        let (x, y) = pts[k];
        if k == 0 {
            segments.push(PathSegment::MoveTo { x: x as i64, y: y as i64 });
        } else {
            segments.push(PathSegment::LineTo { x: x as i64, y: y as i64 });
        }
        k = k + 1;
        assert(segments@ =~= points_path_spec(pts@.take(k as int)));
    }
    assert(pts@.take(k as int) =~= pts@);
    // A polyline or a polygon needs at least two points.
    if segments.len() < 2 {
        return None;
    }
    Some(PathData { segments })
}

/// Converts a polyline.
pub fn convert_polyline(points: &Option<Vec<(i32, i32)>>) -> (r: Option<PathData>)
    ensures
        r is Some <==> (points matches Some(v) && v@.len() >= 2),
        r matches Some(p) ==> p.segments@ == points_path_spec(points.unwrap()@),
{
    points_to_path(points)
}

/// Converts a polygon: the polyline path, closed.
pub fn convert_polygon(points: &Option<Vec<(i32, i32)>>) -> (r: Option<PathData>)
    ensures
        r is Some <==> (points matches Some(v) && v@.len() >= 2),
        r matches Some(p) ==> p.segments@ == points_path_spec(points.unwrap()@).push(
            PathSegment::ClosePath,
        ),
{
    if let Some(mut path) = points_to_path(points) {
        path.segments.push(PathSegment::ClosePath);
        Some(path)
    } else {
        None
    }
}

/// The number of leading segments of `data` that parsed.
pub open spec fn parsed_len(data: Seq<Option<PathSegment>>, n: int) -> bool {
    &&& 0 <= n <= data.len()
    &&& forall|j: int| 0 <= j < n ==> (#[trigger] data[j]) is Some
    &&& (n == data.len() || data[n] is None)
}

/// Converts path data: the segments before the first malformed one are kept, and
/// the path is accepted when there are at least two of them.
pub fn convert_path(data: &Option<Vec<Option<PathSegment>>>) -> (r: Option<PathData>)
    ensures
        r is None <==> (data matches Some(d) ==> forall|n: int|
            parsed_len(d@, n) ==> n < 2),
        r matches Some(p) ==> p.segments@.len() >= 2,
        r matches Some(p) ==> parsed_len(data.unwrap()@, p.segments@.len() as int) && forall|
            j: int,
        | 0 <= j < p.segments@.len() ==> p.segments@[j] == data.unwrap()@[j].unwrap(),
{
    let d = match data {
        Some(v) => v,
        None => return None,
    };
    let mut segments: Vec<PathSegment> = Vec::new();
    let mut k: usize = 0;
    let mut stopped = false;
    while !stopped && k < d.len()
        invariant
            k <= d@.len(),
            segments@.len() == k,
            forall|j: int| 0 <= j < k ==> (#[trigger] d@[j]) is Some && segments@[j] == d@[j].unwrap(),
            stopped ==> k < d@.len() && d@[k as int] is None,
        decreases d@.len() - k + (if stopped { 0int } else { 1int }),
    {
        match d[k] {
            Some(s) => {
                segments.push(s);
                k = k + 1;
            },
            // Parsing stops at the first malformed segment.
            None => {
                stopped = true;
            },
        }
    }
    assert(parsed_len(d@, k as int));
    if segments.len() >= 2 {
        Some(PathData { segments })
    } else {
        assert forall|n: int| parsed_len(d@, n) implies n < 2 by {
            if n > k {
                assert(d@[k as int] is Some);
            } else if n < k {
                assert(d@[n] is Some);
            }
        }
        None
    }
}

/// Converts a shape into its path; absent when the shape is dropped. A path that
/// comes back has at least two commands.
pub fn convert(shape: &Shape) -> (r: Option<PathData>)
    ensures
        r matches Some(p) ==> p.segments@.len() >= 2,
        r is None <==> shape_issue_spec(*shape) is Some,
        match shape {
            Shape::Rect { x, y, width, height, rx, ry } => (r is Some <==> *width > 0 && *height
                > 0) && (r matches Some(p) ==> p.segments@ == rect_path_spec(
                *x as int,
                *y as int,
                *width as int,
                *height as int,
                clamp_half(rx_ry_spec(*rx, *ry).0 as int, *width as int),
                clamp_half(rx_ry_spec(*rx, *ry).1 as int, *height as int),
            )),
            Shape::Circle { cx, cy, r: radius } => (r is Some <==> *radius > 0) && (r matches Some(
                p,
            ) ==> p.segments@ == ellipse_path_spec(
                *cx as int,
                *cy as int,
                *radius as int,
                *radius as int,
            )),
            Shape::Ellipse { cx, cy, rx, ry } => (r is Some <==> rx_ry_spec(*rx, *ry).0 > 0
                && rx_ry_spec(*rx, *ry).1 > 0) && (r matches Some(p) ==> p.segments@
                == ellipse_path_spec(
                *cx as int,
                *cy as int,
                rx_ry_spec(*rx, *ry).0 as int,
                rx_ry_spec(*rx, *ry).1 as int,
            )),
            Shape::Line { x1, y1, x2, y2 } => r matches Some(p) && p.segments@ == seq![
                move_to(*x1 as int, *y1 as int),
                line_to(*x2 as int, *y2 as int),
            ],
            Shape::Polyline { points } => (r is Some <==> (points matches Some(v) && v@.len()
                >= 2)) && (r matches Some(p) ==> p.segments@ == points_path_spec(
                points.unwrap()@,
            )),
            Shape::Polygon { points } => (r is Some <==> (points matches Some(v) && v@.len()
                >= 2)) && (r matches Some(p) ==> p.segments@ == points_path_spec(
                points.unwrap()@,
            ).push(PathSegment::ClosePath)),
            Shape::Path { data } => (r is None <==> (data matches Some(d) ==> forall|n: int|
                parsed_len(d@, n) ==> n < 2)) && (r matches Some(p) ==> parsed_len(
                data.unwrap()@,
                p.segments@.len() as int,
            ) && forall|j: int|
                0 <= j < p.segments@.len() ==> p.segments@[j] == data.unwrap()@[j].unwrap()),
        },
{
    match shape {
        Shape::Rect { x, y, width, height, rx, ry } => convert_rect(*x, *y, *width, *height, *rx, *ry),
        Shape::Circle { cx, cy, r } => convert_circle(*cx, *cy, *r),
        Shape::Ellipse { cx, cy, rx, ry } => convert_ellipse(*cx, *cy, *rx, *ry),
        Shape::Line { x1, y1, x2, y2 } => convert_line(*x1, *y1, *x2, *y2),
        Shape::Polyline { points } => convert_polyline(points),
        Shape::Polygon { points } => convert_polygon(points),
        Shape::Path { data } => convert_path(data),
    }
}

/// How many of the first `n` segments of `s` satisfy `f`.
pub open spec fn count_where(s: Seq<PathSegment>, f: spec_fn(PathSegment) -> bool, n: nat) -> nat
    decreases n,
{
    if n == 0 {
        0
    } else {
        count_where(s, f, (n - 1) as nat) + if f(s[n - 1]) {
            1nat
        } else {
            0nat
        }
    }
}

pub open spec fn is_line(seg: PathSegment) -> bool {
    seg is LineTo
}

pub open spec fn is_arc(seg: PathSegment) -> bool {
    seg is ArcTo
}

pub open spec fn is_close(seg: PathSegment) -> bool {
    seg is ClosePath
}

/// A rect outline has four lines and one close; it has four arcs when its corners
/// are rounded and none when they are not.
pub proof fn lemma_rect_path_commands(x: int, y: int, w: int, h: int, rx: int, ry: int)
    ensures
        ({
            let s = rect_path_spec(x, y, w, h, rx, ry);
            &&& count_where(s, |g: PathSegment| is_line(g), s.len()) == 4
            &&& count_where(s, |g: PathSegment| is_close(g), s.len()) == 1
            &&& count_where(s, |g: PathSegment| is_arc(g), s.len()) == if rx == 0 {
                0nat
            } else {
                4nat
            }
        }),
{
    let s = rect_path_spec(x, y, w, h, rx, ry);
    reveal_with_fuel(count_where, 11);
    assert(count_where(s, |g: PathSegment| is_line(g), s.len()) == 4);
    assert(count_where(s, |g: PathSegment| is_close(g), s.len()) == 1);
    assert(count_where(s, |g: PathSegment| is_arc(g), s.len()) == if rx == 0 {
        0nat
    } else {
        4nat
    });
}

/// Why a shape was dropped.
#[derive(Clone, Copy, Debug, PartialEq, Eq, Structural)]
pub enum ShapeIssue {
    InvalidWidth,
    InvalidHeight,
    InvalidRadius,
    InvalidRx,
    InvalidRy,
    InvalidPoints,
    TooFewPoints,
    InvalidPathData,
}

pub open spec fn points_issue(points: Option<Vec<(i32, i32)>>) -> Option<ShapeIssue> {
    match points {
        None => Some(ShapeIssue::InvalidPoints),
        Some(v) => if v@.len() < 2 {
            Some(ShapeIssue::TooFewPoints)
        } else {
            None
        },
    }
}

/// The reason a shape is dropped, or none when it converts.
pub open spec fn shape_issue_spec(shape: Shape) -> Option<ShapeIssue> {
    match shape {
        Shape::Rect { width, height, .. } => if width <= 0 {
            Some(ShapeIssue::InvalidWidth)
        } else if height <= 0 {
            Some(ShapeIssue::InvalidHeight)
        } else {
            None
        },
        Shape::Circle { r, .. } => if r <= 0 {
            Some(ShapeIssue::InvalidRadius)
        } else {
            None
        },
        Shape::Ellipse { rx, ry, .. } => if rx_ry_spec(rx, ry).0 <= 0 {
            Some(ShapeIssue::InvalidRx)
        } else if rx_ry_spec(rx, ry).1 <= 0 {
            Some(ShapeIssue::InvalidRy)
        } else {
            None
        },
        Shape::Line { .. } => None,
        Shape::Polyline { points } => points_issue(points),
        Shape::Polygon { points } => points_issue(points),
        Shape::Path { data } => if data matches Some(d) && exists|n: int|
            parsed_len(d@, n) && n >= 2 {
            None
        } else {
            Some(ShapeIssue::InvalidPathData)
        },
    }
}

fn points_issue_of(points: &Option<Vec<(i32, i32)>>) -> (r: Option<ShapeIssue>)
    ensures
        r == points_issue(*points),
{
    match points {
        None => Some(ShapeIssue::InvalidPoints),
        Some(v) => if v.len() < 2 {
            Some(ShapeIssue::TooFewPoints)
        } else {
            None
        },
    }
}

/// Why `shape` is dropped by `convert`; none exactly when it converts.
pub fn shape_issue(shape: &Shape) -> (r: Option<ShapeIssue>)
    ensures
        r == shape_issue_spec(*shape),
{
    match shape {
        Shape::Rect { width, height, .. } => if *width <= 0 {
            Some(ShapeIssue::InvalidWidth)
        } else if *height <= 0 {
            Some(ShapeIssue::InvalidHeight)
        } else {
            None
        },
        Shape::Circle { r, .. } => if *r <= 0 {
            Some(ShapeIssue::InvalidRadius)
        } else {
            None
        },
        Shape::Ellipse { rx, ry, .. } => {
            let (a, b) = resolve_rx_ry(*rx, *ry);
            if a <= 0 {
                Some(ShapeIssue::InvalidRx)
            } else if b <= 0 {
                Some(ShapeIssue::InvalidRy)
            } else {
                None
            }
        },
        Shape::Line { .. } => None,
        Shape::Polyline { points } => points_issue_of(points),
        Shape::Polygon { points } => points_issue_of(points),
        Shape::Path { data } => {
            let p = convert_path(data);
            proof {
                if p is Some {
                    assert(parsed_len(data.unwrap()@, p.unwrap().segments@.len() as int));
                }
            }
            if p.is_some() {
                None
            } else {
                Some(ShapeIssue::InvalidPathData)
            }
        },
    }
}

} // verus!
