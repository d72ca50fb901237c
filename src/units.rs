//! Length units: which factor turns a length's number into user units, and how
//! each declared `font-size` moves the cascaded font size.

use vstd::prelude::*;

use crate::document::Units;

verus! {

/// The unit of a length.
#[derive(Clone, Copy, Debug, PartialEq, Eq, Structural)]
pub enum LengthUnit {
    Unitless,
    Em,
    Ex,
    Px,
    In,
    Cm,
    Mm,
    Pt,
    Pc,
    Percent,
}

/// The attribute a length belongs to.
#[derive(Clone, Copy, Debug, PartialEq, Eq, Structural)]
pub enum AttributeId {
    Cx,
    Cy,
    Dx,
    Dy,
    Fx,
    Fy,
    Height,
    MarkerHeight,
    MarkerWidth,
    R,
    RefX,
    RefY,
    Rx,
    Ry,
    Width,
    X,
    X1,
    X2,
    Y,
    Y1,
    Y2,
    FontSize,
    StrokeWidth,
    Other,
}

/// The viewport side that a percentage of an attribute is taken of.
#[derive(Clone, Copy, Debug, PartialEq, Eq, Structural)]
pub enum Axis {
    Horizontal,
    Vertical,
    /// `sqrt((w² + h²) / 2)`.
    Diagonal,
}

/// What a length's number is multiplied by to give user units.
#[derive(Clone, Copy, Debug, PartialEq, Eq, Structural)]
pub enum Factor {
    One,
    /// The resolved font size.
    FontSize,
    /// Half the resolved font size.
    HalfFontSize,
    /// `dpi * num / den`.
    Dpi { num: u32, den: u32 },
    /// `1 / 100`.
    Hundredth,
    /// The viewport's measure along the axis, divided by 100.
    ViewportPercent(Axis),
}

/// How a declared `font-size` turns the font size accumulated so far into the next.
#[derive(Clone, Copy, Debug, PartialEq, Eq, Structural)]
pub enum FontSizeStep {
    /// The new size is the declared number times the factor, whatever came before.
    Absolute(Factor),
    /// The new size is the declared number times the current size, divided by `den`.
    OfCurrent { den: u32 },
    /// The new size is the current size times `1.2` to the given power.
    Scaled(i32),
}

/// A declared `font-size`: a length, or a keyword.
pub enum FontSizeDecl {
    Length(LengthUnit),
    Keyword(String),
}

pub open spec fn axis_spec(aid: AttributeId) -> Axis {
    match aid {
        AttributeId::Cx | AttributeId::Dx | AttributeId::Fx | AttributeId::MarkerWidth
        | AttributeId::RefX | AttributeId::Rx | AttributeId::Width | AttributeId::X
        | AttributeId::X1 | AttributeId::X2 => Axis::Horizontal,
        AttributeId::Cy | AttributeId::Dy | AttributeId::Fy | AttributeId::Height
        | AttributeId::MarkerHeight | AttributeId::RefY | AttributeId::Ry | AttributeId::Y
        | AttributeId::Y1 | AttributeId::Y2 => Axis::Vertical,
        _ => Axis::Diagonal,
    }
}

/// The units whose size does not depend on the node or the viewport, with their
/// factor in terms of dpi.
pub open spec fn fixed_factor(unit: LengthUnit) -> Option<Factor> {
    match unit {
        LengthUnit::Unitless | LengthUnit::Px => Some(Factor::One),
        LengthUnit::In => Some(Factor::Dpi { num: 1, den: 1 }),
        LengthUnit::Cm => Some(Factor::Dpi { num: 50, den: 127 }),
        LengthUnit::Mm => Some(Factor::Dpi { num: 5, den: 127 }),
        LengthUnit::Pt => Some(Factor::Dpi { num: 1, den: 72 }),
        LengthUnit::Pc => Some(Factor::Dpi { num: 1, den: 6 }),
        _ => None,
    }
}

pub open spec fn length_factor_spec(unit: LengthUnit, aid: AttributeId, units: Units) -> Factor {
    match unit {
        LengthUnit::Em => Factor::FontSize,
        LengthUnit::Ex => Factor::HalfFontSize,
        LengthUnit::Percent => if units == Units::ObjectBoundingBox {
            Factor::Hundredth
        } else {
            Factor::ViewportPercent(axis_spec(aid))
        },
        _ => fixed_factor(unit).unwrap(),
    }
}

/// The power of `1.2` that a font-size keyword stands for.
pub open spec fn keyword_power(name: Seq<char>) -> i32 {
    if name == "xx-small"@ {
        -3i32
    } else if name == "x-small"@ {
        -2i32
    } else if name == "small"@ {
        -1i32
    } else if name == "medium"@ {
        0
    } else if name == "large"@ {
        1
    } else if name == "x-large"@ {
        2
    } else if name == "xx-large"@ {
        3
    } else if name == "smaller"@ {
        -1i32
    } else if name == "larger"@ {
        1
    } else {
        0
    }
}

pub open spec fn font_size_step_spec(decl: FontSizeDecl) -> FontSizeStep {
    match decl {
        FontSizeDecl::Length(unit) => match unit {
            LengthUnit::Em => FontSizeStep::OfCurrent { den: 1 },
            LengthUnit::Ex => FontSizeStep::OfCurrent { den: 2 },
            LengthUnit::Percent => FontSizeStep::OfCurrent { den: 100 },
            _ => FontSizeStep::Absolute(fixed_factor(unit).unwrap()),
        },
        FontSizeDecl::Keyword(name) => FontSizeStep::Scaled(keyword_power(name@)),
    }
}

/// The viewport side that percentages of `aid` are taken of.
pub fn axis_of(aid: AttributeId) -> (r: Axis)
    ensures
        r == axis_spec(aid),
{
    match aid {
        AttributeId::Cx | AttributeId::Dx | AttributeId::Fx | AttributeId::MarkerWidth
        | AttributeId::RefX | AttributeId::Rx | AttributeId::Width | AttributeId::X
        | AttributeId::X1 | AttributeId::X2 => Axis::Horizontal,
        AttributeId::Cy | AttributeId::Dy | AttributeId::Fy | AttributeId::Height
        | AttributeId::MarkerHeight | AttributeId::RefY | AttributeId::Ry | AttributeId::Y
        | AttributeId::Y1 | AttributeId::Y2 => Axis::Vertical,
        _ => Axis::Diagonal,
    }
}

fn fixed_unit_factor(unit: LengthUnit) -> (r: Factor)
    requires
        fixed_factor(unit) is Some,
    ensures
        r == fixed_factor(unit).unwrap(),
{
    match unit {
        LengthUnit::In => Factor::Dpi { num: 1, den: 1 },
        LengthUnit::Cm => Factor::Dpi { num: 50, den: 127 },
        LengthUnit::Mm => Factor::Dpi { num: 5, den: 127 },
        LengthUnit::Pt => Factor::Dpi { num: 1, den: 72 },
        LengthUnit::Pc => Factor::Dpi { num: 1, den: 6 },
        _ => Factor::One,
    }
}

/// The factor that a length of `unit` on attribute `aid` is multiplied by, in a
/// coordinate system of `units`.
pub fn length_factor(unit: LengthUnit, aid: AttributeId, units: Units) -> (r: Factor)
    ensures
        r == length_factor_spec(unit, aid, units),
        fixed_factor(unit) matches Some(f) ==> r == f,
        unit == LengthUnit::Percent && units == Units::ObjectBoundingBox ==> r == Factor::Hundredth,
{
    match unit {
        LengthUnit::Em => Factor::FontSize,
        LengthUnit::Ex => Factor::HalfFontSize,
        LengthUnit::Percent => {
            if units == Units::ObjectBoundingBox {
                Factor::Hundredth
            } else {
                Factor::ViewportPercent(axis_of(aid))
            }
        },
        _ => fixed_unit_factor(unit),
    }
}

fn is_keyword(name: &String, keyword: &str) -> (r: bool)
    ensures
        r == (name@ == keyword@),
{
    let k = keyword.to_owned();
    *name == k
}

/// The power of `1.2` that a font-size keyword stands for; an unknown keyword
/// counts as `medium`.
pub fn named_font_size_factor(name: &String) -> (r: i32)
    ensures
        r == keyword_power(name@),
{
    if is_keyword(name, "xx-small") {
        -3i32
    } else if is_keyword(name, "x-small") {
        -2i32
    } else if is_keyword(name, "small") {
        -1i32
    } else if is_keyword(name, "medium") {
        0
    } else if is_keyword(name, "large") {
        1
    } else if is_keyword(name, "x-large") {
        2
    } else if is_keyword(name, "xx-large") {
        3
    } else if is_keyword(name, "smaller") {
        -1i32
    } else if is_keyword(name, "larger") {
        1
    } else {
        0
    }
}

/// How a declared `font-size` changes the font size cascaded from the ancestors.
pub fn font_size_step(decl: &FontSizeDecl) -> (r: FontSizeStep)
    ensures
        r == font_size_step_spec(*decl),
{
    match decl {
        FontSizeDecl::Length(unit) => match unit {
            LengthUnit::Em => FontSizeStep::OfCurrent { den: 1 },
            LengthUnit::Ex => FontSizeStep::OfCurrent { den: 2 },
            LengthUnit::Percent => FontSizeStep::OfCurrent { den: 100 },
            _ => FontSizeStep::Absolute(fixed_unit_factor(*unit)),
        },
        FontSizeDecl::Keyword(name) => FontSizeStep::Scaled(named_font_size_factor(name)),
    }
}

} // verus!
