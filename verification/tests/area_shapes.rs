use domatt::area::{
    Alt, AreaTagRel, AreaTagShape, Circle, Coord, Coords, Poly, Rect, Rel, Shape,
};
use domatt::area_html_attributes::{AreaHtmlAttributes, Shape as ShapeOption};
use domatt::Attribute;
use domatt::{HtmlAttributeReferrerPolicy, TargetOption};

#[test]
fn coord_renders_as_a_pair() {
    let c = Coord::new(4, 12);
    assert_eq!(c.as_str(), "4,12");
}

#[test]
fn rect_joins_two_corners() {
    let r = Rect::new(Coord::new(1, 2), Coord::new(3, 4));
    assert_eq!(r.as_str(), "1,2,3,4");
}

#[test]
fn circle_joins_center_and_radius() {
    let c = Circle::new(Coord::new(10, 20), 5);
    assert_eq!(c.as_str(), "10,20,5");
}

#[test]
fn poly_concatenates_added_coordinates() {
    let mut p = Poly::new();
    assert_eq!(p.as_str(), "");
    p.add_cord(Coord::new(1, 2));
    p.add_cord(Coord::new(3, 4));
    assert_eq!(p.as_str(), "1,23,4");
}

#[test]
fn poly_from_coords_joins_with_commas() {
    let p = Poly::from_coords(vec![Coord::new(1, 2), Coord::new(3, 4)]);
    assert_eq!(p.as_str(), "1,2,3,4");
    assert_eq!(Poly::from_coords(Vec::new()).as_str(), "");
}

#[test]
fn coords_exposes_the_shape_coordinates() {
    let shape = AreaTagShape::Circle(Circle::new(Coord::new(7, 8), 9));
    let coords = Coords::new(shape);
    assert_eq!(coords.get_key(), "coords");
    assert_eq!(coords.get_val(), Some("7,8,9"));
}

#[test]
fn shape_exposes_the_shape_name() {
    let shape = Shape::new(AreaTagShape::Rect(Rect::new(Coord::new(0, 0), Coord::new(1, 1))));
    assert_eq!(shape.get_key(), "shape");
    assert_eq!(shape.get_val(), Some("rect"));
}

#[test]
fn area_rel_joins_link_types() {
    let rel = Rel::new(vec![AreaTagRel::Author, AreaTagRel::Bookmark]);
    assert_eq!(rel.get_key(), "rel");
    assert_eq!(rel.get_val(), Some("author bookmark"));
}

#[test]
fn alt_wraps_the_text() {
    let alt = Alt::new(String::from("map"));
    assert_eq!(alt.get_key(), "alt");
    assert_eq!(alt.get_val(), Some("map"));
}

#[test]
fn area_enum_serializes_each_variant() {
    let alt = AreaHtmlAttributes::Alt("a map");
    assert_eq!(alt.get_key(), "alt");
    assert_eq!(alt.get_val(), Some(String::from("a map")));

    let missing = AreaHtmlAttributes::Download(None);
    assert_eq!(missing.get_val(), None);

    let policy = HtmlAttributeReferrerPolicy::Origin;
    let rp = AreaHtmlAttributes::ReferrerPolicy(&policy);
    assert_eq!(rp.get_key(), "referrerpolicy");
    assert_eq!(rp.get_val(), Some(String::from("origin")));

    let lang = AreaHtmlAttributes::HrefLang("en");
    assert_eq!(lang.get_key(), "hreflang");
    assert_eq!(lang.get_val(), Some(String::from("en")));

    let target = TargetOption::Top;
    let t = AreaHtmlAttributes::Target(&target);
    assert_eq!(t.get_val(), Some(String::from("_top")));
}

#[test]
fn area_enum_renders_shape_coordinates_and_rel_lists() {
    let shape = ShapeOption::Poly(Poly::new());
    let coords = AreaHtmlAttributes::Coords(&shape);
    assert_eq!(coords.get_key(), "coords");
    assert_eq!(coords.get_val(), Some(String::from("")));

    let named = AreaHtmlAttributes::Shape(&shape);
    assert_eq!(named.get_val(), Some(String::from("poly")));

    let rels = vec![AreaTagRel::Alternate, AreaTagRel::Tag];
    let rel = AreaHtmlAttributes::Rel(&rels);
    assert_eq!(rel.get_val(), Some(String::from("alternate tag")));
}
