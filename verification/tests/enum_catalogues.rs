use domatt::colgroup::ColgroupHtmlAttributes;
use domatt::global::AriaRole;
use domatt::html_attributes::{ContentEditable, HtmlAttributes, InputMode};
use domatt::misc_html_attributes::{Capture, FrameBorder, MiscHtmlAttributes};
use domatt::svg_attributes::{CrossOrigin, SVGAttributes, StrokeLinecap};
use domatt::NumberOrString;

#[test]
fn misc_keys_follow_the_lowercase_rule_with_overrides() {
    assert_eq!(MiscHtmlAttributes::Accept(String::from("a")).get_key(), "accept");
    assert_eq!(
        MiscHtmlAttributes::AcceptCharset(String::from("utf-8")).get_key(),
        "accept-charset"
    );
    assert_eq!(MiscHtmlAttributes::AllowFullScreen(true).get_key(), "allowfullscreen");
}

#[test]
fn misc_values_serialize_by_field_type() {
    assert_eq!(
        MiscHtmlAttributes::Accept(String::from("image/png")).get_val(),
        Some(String::from("image/png"))
    );
    assert_eq!(
        MiscHtmlAttributes::AllowFullScreen(false).get_val(),
        Some(String::from("false"))
    );
    assert_eq!(MiscHtmlAttributes::Cols(-7).get_val(), Some(String::from("-7")));
    assert_eq!(
        MiscHtmlAttributes::Height(NumberOrString::Number(42)).get_val(),
        Some(String::from("42"))
    );
    assert_eq!(
        MiscHtmlAttributes::Width(NumberOrString::String(String::from("80%"))).get_val(),
        Some(String::from("80%"))
    );
    assert_eq!(MiscHtmlAttributes::Checked.get_val(), None);
    assert_eq!(
        MiscHtmlAttributes::DateTime(String::from("2011-11-18")).get_key(),
        "datetime"
    );
    assert_eq!(
        MiscHtmlAttributes::Capture(Capture::User).get_val(),
        Some(String::from("user"))
    );
    assert_eq!(
        MiscHtmlAttributes::FrameBorder(FrameBorder::Zero).get_val(),
        Some(String::from("0"))
    );
}

#[test]
fn html_attributes_serialize_and_role_keeps_custom_words() {
    let editable = ContentEditable::True;
    let attr = HtmlAttributes::ContentEditable(&editable);
    assert_eq!(attr.get_key(), "contenteditable");
    assert_eq!(attr.get_val(), Some(String::from("true")));

    assert_eq!(HtmlAttributes::Draggable(true).get_val(), Some(String::from("true")));
    assert_eq!(HtmlAttributes::TabIndex(3).get_val(), Some(String::from("3")));

    let role = AriaRole::Banner;
    assert_eq!(HtmlAttributes::Role(&role).get_val(), Some(String::from("banner")));
    let custom = AriaRole::Custom(String::from("doc-index"));
    assert_eq!(
        HtmlAttributes::Role(&custom).get_val(),
        Some(String::from("doc-index"))
    );

    let mode = InputMode::Numeric;
    assert_eq!(HtmlAttributes::InputMode(&mode).get_val(), Some(String::from("numeric")));
}

#[test]
fn svg_enum_keys_are_kebab_with_explicit_overrides() {
    assert_eq!(
        SVGAttributes::AccentHeight(NumberOrString::Number(1)).get_key(),
        "accent-height"
    );
    assert_eq!(SVGAttributes::XlinkHref("#a").get_key(), "xlink:href");
    assert_eq!(SVGAttributes::X1(NumberOrString::Number(0)).get_key(), "x1");
    assert_eq!(SVGAttributes::ZoomAndPan("magnify").get_key(), "zoomAndPan");
}

#[test]
fn svg_enum_values_serialize_by_field_type() {
    assert_eq!(
        SVGAttributes::TabIndex(-2).get_val(),
        Some(String::from("-2"))
    );
    assert_eq!(
        SVGAttributes::AutoReverse(true).get_val(),
        Some(String::from("true"))
    );
    assert_eq!(
        SVGAttributes::StrokeLinecap(StrokeLinecap::Round).get_val(),
        Some(String::from("round"))
    );
    let co = CrossOrigin::UseCredentials;
    assert_eq!(
        SVGAttributes::CrossOrigin(&co).get_val(),
        Some(String::from("use-credentials"))
    );
    assert_eq!(CrossOrigin::Blank.as_str(), "");
}

#[test]
fn misc_equality_compares_only_the_attribute() {
    let a = MiscHtmlAttributes::Accept(String::from("a"));
    let b = MiscHtmlAttributes::Accept(String::from("b"));
    assert!(a == b);
    assert!(a != MiscHtmlAttributes::Action(String::from("a")));
    assert!(MiscHtmlAttributes::Checked == MiscHtmlAttributes::Checked);
}

#[test]
fn colgroup_span_serializes_its_number() {
    let span = ColgroupHtmlAttributes::Span(12);
    assert_eq!(span.get_key(), "span");
    assert_eq!(span.get_val(), Some(String::from("12")));
}
