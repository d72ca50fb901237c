use resvg::document::Units;
use resvg::mask::default_region;
use resvg::units::{font_size_step, length_factor, named_font_size_factor, AttributeId, Axis, Factor, FontSizeDecl, FontSizeStep, LengthUnit};

#[test]
fn fixed_units_scale_by_dpi() {
    let u = Units::UserSpaceOnUse;
    assert_eq!(length_factor(LengthUnit::Px, AttributeId::X, u), Factor::One);
    assert_eq!(length_factor(LengthUnit::Unitless, AttributeId::X, u), Factor::One);
    assert_eq!(length_factor(LengthUnit::In, AttributeId::X, u), Factor::Dpi { num: 1, den: 1 });
    assert_eq!(length_factor(LengthUnit::Cm, AttributeId::Y, u), Factor::Dpi { num: 50, den: 127 });
    assert_eq!(length_factor(LengthUnit::Mm, AttributeId::R, u), Factor::Dpi { num: 5, den: 127 });
    assert_eq!(length_factor(LengthUnit::Pt, AttributeId::Width, u), Factor::Dpi { num: 1, den: 72 });
    assert_eq!(length_factor(LengthUnit::Pc, AttributeId::Width, Units::ObjectBoundingBox), Factor::Dpi { num: 1, den: 6 });
}

#[test]
fn percent_in_bbox_units_is_hundredths() {
    for aid in [AttributeId::X, AttributeId::Height, AttributeId::R] {
        assert_eq!(length_factor(LengthUnit::Percent, aid, Units::ObjectBoundingBox), Factor::Hundredth);
    }
}

#[test]
fn percent_in_user_space_follows_axis() {
    let u = Units::UserSpaceOnUse;
    assert_eq!(length_factor(LengthUnit::Percent, AttributeId::Rx, u), Factor::ViewportPercent(Axis::Horizontal));
    assert_eq!(length_factor(LengthUnit::Percent, AttributeId::Y2, u), Factor::ViewportPercent(Axis::Vertical));
    assert_eq!(length_factor(LengthUnit::Percent, AttributeId::R, u), Factor::ViewportPercent(Axis::Diagonal));
}

#[test]
fn font_relative_units() {
    let u = Units::UserSpaceOnUse;
    assert_eq!(length_factor(LengthUnit::Em, AttributeId::X, u), Factor::FontSize);
    assert_eq!(length_factor(LengthUnit::Ex, AttributeId::X, u), Factor::HalfFontSize);
}

#[test]
fn font_size_keywords() {
    assert_eq!(named_font_size_factor(&"xx-small".to_string()), -3);
    assert_eq!(named_font_size_factor(&"x-small".to_string()), -2);
    assert_eq!(named_font_size_factor(&"small".to_string()), -1);
    assert_eq!(named_font_size_factor(&"medium".to_string()), 0);
    assert_eq!(named_font_size_factor(&"large".to_string()), 1);
    assert_eq!(named_font_size_factor(&"x-large".to_string()), 2);
    assert_eq!(named_font_size_factor(&"xx-large".to_string()), 3);
    assert_eq!(named_font_size_factor(&"smaller".to_string()), -1);
    assert_eq!(named_font_size_factor(&"larger".to_string()), 1);
    assert_eq!(named_font_size_factor(&"huge".to_string()), 0);
}

#[test]
fn font_size_steps() {
    assert_eq!(font_size_step(&FontSizeDecl::Length(LengthUnit::Em)), FontSizeStep::OfCurrent { den: 1 });
    assert_eq!(font_size_step(&FontSizeDecl::Length(LengthUnit::Ex)), FontSizeStep::OfCurrent { den: 2 });
    assert_eq!(font_size_step(&FontSizeDecl::Length(LengthUnit::Percent)), FontSizeStep::OfCurrent { den: 100 });
    assert_eq!(font_size_step(&FontSizeDecl::Length(LengthUnit::Pt)), FontSizeStep::Absolute(Factor::Dpi { num: 1, den: 72 }));
    assert_eq!(font_size_step(&FontSizeDecl::Keyword("larger".to_string())), FontSizeStep::Scaled(1));
}

#[test]
fn mask_region_defaults() {
    assert_eq!(default_region(AttributeId::X), Some((-2560, LengthUnit::Percent)));
    assert_eq!(default_region(AttributeId::Y), Some((-2560, LengthUnit::Percent)));
    assert_eq!(default_region(AttributeId::Width), Some((30720, LengthUnit::Percent)));
    assert_eq!(default_region(AttributeId::Height), Some((30720, LengthUnit::Percent)));
    assert_eq!(default_region(AttributeId::R), None);
}
