use std::rc::Rc;

use resvg::clippath;
use resvg::document::{Cache, Document, Element, ElementKind, Length, MaskRegion, Transform, TransformAttr, Units};
use resvg::units::LengthUnit;
use resvg::mask;

fn element(kind: ElementKind, link: Option<usize>, content_len: usize) -> Element {
    Element {
        kind,
        transform: TransformAttr::Absent,
        link,
        units: None,
        content_units: None,
        x: None,
        y: None,
        width: None,
        height: None,
        content_len,
    }
}

#[test]
fn second_reference_shares_the_clip_path() {
    let doc = Document { elements: vec![element(ElementKind::ClipPath, None, 2)] };
    let mut cache = Cache::new(1);
    let a = clippath::convert(&doc, 0, &mut cache).unwrap();
    let b = clippath::convert(&doc, 0, &mut cache).unwrap();
    assert!(Rc::ptr_eq(&a, &b));
    assert_eq!(a.units, Units::ObjectBoundingBox);
    assert_eq!(a.transform, Transform::identity());
}

#[test]
fn self_linked_clip_path_is_rejected() {
    let doc = Document { elements: vec![element(ElementKind::ClipPath, Some(0), 1)] };
    let mut cache = Cache::new(1);
    assert!(clippath::convert(&doc, 0, &mut cache).is_none());
    assert!(cache.clip_paths[0].is_none());
}

#[test]
fn mutually_linked_clip_paths_are_rejected() {
    let doc = Document {
        elements: vec![element(ElementKind::ClipPath, Some(1), 1), element(ElementKind::ClipPath, Some(0), 1)],
    };
    let mut cache = Cache::new(2);
    assert!(clippath::convert(&doc, 0, &mut cache).is_none());
    assert!(clippath::convert(&doc, 1, &mut cache).is_none());
}

#[test]
fn linked_clip_path_is_shared() {
    let doc = Document {
        elements: vec![element(ElementKind::ClipPath, Some(1), 1), element(ElementKind::ClipPath, None, 1)],
    };
    let mut cache = Cache::new(2);
    let a = clippath::convert(&doc, 0, &mut cache).unwrap();
    let b = clippath::convert(&doc, 1, &mut cache).unwrap();
    assert!(Rc::ptr_eq(a.clip_path.as_ref().unwrap(), &b));
}

#[test]
fn clip_path_failures() {
    let mut bad_transform = element(ElementKind::ClipPath, None, 1);
    bad_transform.transform = TransformAttr::Parsed(Transform { a: 0, b: 1, c: 0, d: 1, e: 0, f: 0 });
    let mut unparsable = element(ElementKind::ClipPath, None, 1);
    unparsable.transform = TransformAttr::Unparsable;
    let doc = Document {
        elements: vec![
            bad_transform,
            unparsable,
            element(ElementKind::ClipPath, None, 0),
            element(ElementKind::Mask, None, 1),
            element(ElementKind::ClipPath, Some(9), 1),
        ],
    };
    let mut cache = Cache::new(5);
    for i in 0..6 {
        assert!(clippath::convert(&doc, i, &mut cache).is_none());
    }
    assert!(cache.clip_paths.iter().all(|c| c.is_none()));
}

#[test]
fn clip_path_keeps_declared_units_and_transform() {
    let mut e = element(ElementKind::ClipPath, None, 1);
    let t = Transform { a: 2, b: 0, c: 0, d: 3, e: 4, f: 5 };
    e.transform = TransformAttr::Parsed(t);
    e.units = Some(Units::UserSpaceOnUse);
    let doc = Document { elements: vec![e] };
    let mut cache = Cache::new(1);
    let c = clippath::convert(&doc, 0, &mut cache).unwrap();
    assert_eq!(c.transform, t);
    assert_eq!(c.units, Units::UserSpaceOnUse);
    assert_eq!(c.id, 0);
}

#[test]
fn mask_is_cached_and_shared() {
    let doc = Document { elements: vec![element(ElementKind::Mask, None, 3)] };
    let mut cache = Cache::new(1);
    let a = mask::convert(&doc, 0, &mut cache).unwrap();
    let b = mask::convert(&doc, 0, &mut cache).unwrap();
    assert!(Rc::ptr_eq(&a, &b));
    assert_eq!(a.units, Units::ObjectBoundingBox);
    assert_eq!(a.content_units, Units::UserSpaceOnUse);
    let pct = |number: i32| Length { number, unit: LengthUnit::Percent };
    assert_eq!(a.rect, MaskRegion { x: pct(-2560), y: pct(-2560), width: pct(30720), height: pct(30720) });
}

#[test]
fn mask_failures() {
    let mut degenerate = element(ElementKind::Mask, None, 1);
    degenerate.width = Some(Length { number: 0, unit: LengthUnit::Px });
    let doc = Document {
        elements: vec![
            degenerate,
            element(ElementKind::Mask, None, 0),
            element(ElementKind::Mask, Some(2), 1),
            element(ElementKind::ClipPath, None, 1),
            element(ElementKind::Mask, Some(0), 1),
        ],
    };
    let mut cache = Cache::new(5);
    for i in 0..5 {
        assert!(mask::convert(&doc, i, &mut cache).is_none());
    }
}

#[test]
fn declared_mask_region_is_kept() {
    let mut e = element(ElementKind::Mask, None, 1);
    let px = |number: i32| Length { number, unit: LengthUnit::Px };
    e.x = Some(px(3));
    e.height = Some(px(7));
    let doc = Document { elements: vec![e] };
    let mut cache = Cache::new(1);
    let m = mask::convert(&doc, 0, &mut cache).unwrap();
    let pct = |number: i32| Length { number, unit: LengthUnit::Percent };
    assert_eq!(m.rect, MaskRegion { x: px(3), y: pct(-2560), width: pct(30720), height: px(7) });
}

#[test]
fn linked_mask_is_shared_and_failed_link_not_cached() {
    let doc = Document {
        elements: vec![
            element(ElementKind::Mask, Some(1), 1),
            element(ElementKind::Mask, None, 1),
            element(ElementKind::Mask, Some(3), 1),
            element(ElementKind::Mask, None, 0),
        ],
    };
    let mut cache = Cache::new(4);
    let a = mask::convert(&doc, 0, &mut cache).unwrap();
    let b = mask::convert(&doc, 1, &mut cache).unwrap();
    assert!(Rc::ptr_eq(a.mask.as_ref().unwrap(), &b));
    assert!(mask::convert(&doc, 2, &mut cache).is_none());
    assert!(cache.masks[2].is_none());
    assert!(cache.masks[3].is_none());
}

#[test]
fn empty_clip_path_is_not_cached_but_its_link_is() {
    let doc = Document {
        elements: vec![element(ElementKind::ClipPath, Some(1), 0), element(ElementKind::ClipPath, None, 1)],
    };
    let mut cache = Cache::new(2);
    assert!(clippath::convert(&doc, 0, &mut cache).is_none());
    assert!(cache.clip_paths[0].is_none());
    assert!(cache.clip_paths[1].is_some());
}

#[test]
fn fractional_bbox_mask_width_is_accepted() {
    let mut e = element(ElementKind::Mask, None, 1);
    // 0.4 of the box, in steps of 1/256.
    e.width = Some(Length { number: 102, unit: LengthUnit::Unitless });
    let doc = Document { elements: vec![e] };
    let mut cache = Cache::new(1);
    let m = mask::convert(&doc, 0, &mut cache).unwrap();
    assert_eq!(m.rect.width.number, 102);
}
