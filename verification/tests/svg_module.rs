use domatt::svg::{
    AutoReverse, ClipPathUnits, ClipPathUnitsOption, ColorInterpolationFilters,
    ColorInterpolationFiltersOption, Height, In2, Panose1, SvgLength, SvgLengthUnit, ViewBox,
    X1, XmlLang,
};
use domatt::Attribute;
use domatt::NumberOrString;

#[test]
fn svg_length_appends_its_unit() {
    let l = SvgLength::new(12, SvgLengthUnit::Px);
    assert_eq!(l.as_str(), "12px");
    let pct = SvgLength::new(-3, SvgLengthUnit::Percent);
    assert_eq!(pct.as_str(), "-3%");
}

#[test]
fn svg_height_stores_a_length() {
    let h = Height::new(SvgLength::new(10, SvgLengthUnit::Em));
    assert_eq!(h.get_key(), "height");
    assert_eq!(h.get_val(), Some("10em"));
}

#[test]
fn svg_keys_follow_each_declared_convention() {
    assert_eq!(AutoReverse::new(true).get_key(), "auto-reverse");
    assert_eq!(ViewBox::new(String::from("0 0 5 5")).get_key(), "viewBox");
    assert_eq!(In2::new(NumberOrString::Number(1)).get_key(), "in2");
    assert_eq!(X1::new(NumberOrString::Number(0)).get_key(), "x-1");
}

#[test]
fn unrecognized_conventions_keep_the_name() {
    assert_eq!(Panose1::new(NumberOrString::Number(2)).get_key(), "Panose1");
    assert_eq!(XmlLang::new(NumberOrString::String(String::from("en"))).get_key(), "XmlLang");
}

#[test]
fn svg_option_enums_serialize_camel_case() {
    let u = ClipPathUnits::new(ClipPathUnitsOption::UserSpaceOnUse);
    assert_eq!(u.get_key(), "clipPathUnits");
    assert_eq!(u.get_val(), Some("userSpaceOnUse"));
    let f = ColorInterpolationFilters::new(ColorInterpolationFiltersOption::SRGB);
    assert_eq!(f.get_key(), "color-interpolation-filters");
    assert_eq!(f.get_val(), Some("sRGB"));
}
