//! The element tree that resources are resolved from, and the resolved resources.

use std::rc::Rc;
use vstd::prelude::*;

use crate::units::LengthUnit;

verus! {

/// The kind of an element, as far as resource resolution tells kinds apart.
#[derive(Clone, Copy, Debug, PartialEq, Eq, Structural)]
pub enum ElementKind {
    ClipPath,
    Mask,
    Other,
}

/// The coordinate system that a resource's values are expressed in.
#[derive(Clone, Copy, Debug, PartialEq, Eq, Structural)]
pub enum Units {
    UserSpaceOnUse,
    ObjectBoundingBox,
}

/// An affine transform `[a c e; b d f]`.
#[derive(Clone, Copy, Debug, PartialEq, Eq, Structural)]
pub struct Transform {
    pub a: i64,
    pub b: i64,
    pub c: i64,
    pub d: i64,
    pub e: i64,
    pub f: i64,
}

impl Transform {
    pub open spec fn identity_spec() -> Transform {
        Transform { a: 1, b: 0, c: 0, d: 1, e: 0, f: 0 }
    }

    pub fn identity() -> (r: Transform)
        ensures
            r == Transform::identity_spec(),
    {
        Transform { a: 1, b: 0, c: 0, d: 1, e: 0, f: 0 }
    }

    /// The horizontal scale `sqrt(a² + c²)` is zero.
    pub open spec fn zero_scale_x(&self) -> bool {
        self.a == 0 && self.c == 0
    }

    /// The vertical scale `sqrt(b² + d²)` is zero.
    pub open spec fn zero_scale_y(&self) -> bool {
        self.b == 0 && self.d == 0
    }
}

/// A `transform` attribute as the parser left it.
#[derive(Clone, Copy, Debug, PartialEq, Eq, Structural)]
pub enum TransformAttr {
    Absent,
    Unparsable,
    Parsed(Transform),
}

/// A length as declared: a number in steps of 1/256, and its unit.
#[derive(Clone, Copy, Debug, PartialEq, Eq, Structural)]
pub struct Length {
    pub number: i32,
    pub unit: LengthUnit,
}

/// A mask region as lengths in the mask's units. Every unit scales a positive
/// number to a positive size, so a side is positive exactly when its number is.
#[derive(Clone, Copy, Debug, PartialEq, Eq, Structural)]
pub struct MaskRegion {
    pub x: Length,
    pub y: Length,
    pub width: Length,
    pub height: Length,
}

impl MaskRegion {
    pub open spec fn is_valid(&self) -> bool {
        self.width.number > 0 && self.height.number > 0
    }
}

/// What resolution reads of one element: its kind, its attributes already
/// parsed, and how many scene nodes its children convert to.
#[derive(Clone, Copy, Debug, PartialEq, Eq, Structural)]
pub struct Element {
    pub kind: ElementKind,
    pub transform: TransformAttr,
    /// The element named by its `clip-path` (on a clip path) or `mask` (on a mask).
    pub link: Option<usize>,
    /// Declared `clipPathUnits` or `maskUnits`.
    pub units: Option<Units>,
    /// Declared `maskContentUnits`.
    pub content_units: Option<Units>,
    /// Declared `x`, `y`, `width` and `height` of a mask.
    pub x: Option<Length>,
    pub y: Option<Length>,
    pub width: Option<Length>,
    pub height: Option<Length>,
    /// The number of scene nodes that the element's children convert to.
    pub content_len: usize,
}

/// A document: elements addressed by their index, which serves as their id.
pub struct Document {
    pub elements: Vec<Element>,
}

pub open spec fn units_or(u: Option<Units>, default: Units) -> Units {
    match u {
        Some(v) => v,
        None => default,
    }
}

/// A resolved clip path.
pub struct ClipPath {
    pub id: usize,
    pub units: Units,
    pub transform: Transform,
    pub clip_path: Option<Rc<ClipPath>>,
    pub content_len: usize,
}

/// A resolved mask.
pub struct Mask {
    pub id: usize,
    pub units: Units,
    pub content_units: Units,
    pub rect: MaskRegion,
    pub mask: Option<Rc<Mask>>,
    pub content_len: usize,
}

/// Resolved resources by element id, shared by every node that refers to them.
pub struct Cache {
    pub clip_paths: Vec<Option<Rc<ClipPath>>>,
    pub masks: Vec<Option<Rc<Mask>>>,
}

impl Cache {
    /// An empty cache for a document of `len` elements.
    pub fn new(len: usize) -> (r: Cache)
        ensures
            r.clip_paths@.len() == len,
            r.masks@.len() == len,
            forall|j: int| 0 <= j < len ==> (#[trigger] r.clip_paths@[j]) is None,
            forall|j: int| 0 <= j < len ==> (#[trigger] r.masks@[j]) is None,
    {
        let mut clip_paths: Vec<Option<Rc<ClipPath>>> = Vec::new();
        let mut masks: Vec<Option<Rc<Mask>>> = Vec::new();
        let mut k: usize = 0;
        while k < len
            invariant
                k <= len,
                clip_paths@.len() == k,
                masks@.len() == k,
                forall|j: int| 0 <= j < k ==> (#[trigger] clip_paths@[j]) is None,
                forall|j: int| 0 <= j < k ==> (#[trigger] masks@[j]) is None,
            decreases len - k,
        {
            clip_paths.push(None);
            masks.push(None);
            k = k + 1;
        }
        Cache { clip_paths, masks }
    }
}

} // verus!
