//! Attributes of the `area` element.

use vstd::prelude::*;
use vstd::seq_lib::*;
use crate::text::{spec_join_spaces, spec_join_sep, join_spaces, join_with, spec_udec, u64_to_string, push_char};
use crate::Attribute;
pub use crate::anchor::Download;
pub use crate::anchor::Href;
pub use crate::anchor::HrefLang;
pub use crate::anchor::ReferrerPolicy;
pub use crate::anchor::Target;

verus! {

/// Marks an attribute as accepted by the `area` element.
pub trait AreaAttribute: Attribute {}

impl AreaAttribute for Download {}

impl AreaAttribute for Href {}

impl AreaAttribute for HrefLang {}

impl AreaAttribute for ReferrerPolicy {}

impl AreaAttribute for Target {}

/// <https://developer.mozilla.org/en-US/docs/Web/HTML/Element/area#attr-alt>
#[derive(Debug, Clone, PartialEq)]
pub struct Alt(String);

impl Alt {
    /// Wraps the alternative text.
    pub fn new(value: String) -> (r: Self)
        ensures
            r.spec_val() == Some(value@),
    {
        Alt(value)
    }
}

impl Attribute for Alt {
    open spec fn spec_key(&self) -> Seq<char> {
        "alt"@
    }

    closed spec fn spec_val(&self) -> Option<Seq<char>> {
        Some(self.0@)
    }

    fn get_key(&self) -> &str {
        "alt"
    }

    fn get_val(&self) -> Option<&str> {
        Some(self.0.as_str())
    }
}

impl AreaAttribute for Alt {}

/// Represents a single coordinate, used for modelling the coordinates
/// of an html area tag.
#[derive(Debug, Clone)]
pub struct Coord {
    coord: String,
}

impl Coord {
    /// The coordinate pair's serialized form.
    pub closed spec fn spec_str(&self) -> Seq<char> {
        self.coord@
    }

    /// Renders the pair as `x,y`, both numbers in decimal.
    pub fn new(x: u16, y: u16) -> (r: Self)
        ensures
            r.spec_str() == spec_udec(x as nat) + ","@ + spec_udec(y as nat),
    {
        let mut coord = u64_to_string(x as u64);
        push_char(&mut coord, ',');
        let ys = u64_to_string(y as u64);
        coord.append(ys.as_str());
        proof {
            reveal_strlit(",");
            assert(","@ =~= seq![',']);
            assert(coord@ =~= spec_udec(x as nat) + ","@ + spec_udec(y as nat));
        }
        Coord { coord }
    }

    /// The serialized coordinate pair.
    pub fn as_str(&self) -> (r: &str)
        ensures
            r@ == self.spec_str(),
    {
        &self.coord
    }
}

/// Represents a rectangle shape for an html area tag.
#[derive(Debug, Clone, PartialEq)]
pub struct Rect {
    rect: String,
}

impl Rect {
    /// The rectangle's serialized form.
    pub closed spec fn spec_str(&self) -> Seq<char> {
        self.rect@
    }

    /// Renders the two corners joined by a comma.
    pub fn new(top_right: Coord, bottom_left: Coord) -> (r: Self)
        ensures
            r.spec_str() == top_right.spec_str() + ","@ + bottom_left.spec_str(),
    {
        let mut rect = String::from_str(top_right.as_str());
        push_char(&mut rect, ',');
        rect.append(bottom_left.as_str());
        proof {
            reveal_strlit(",");
            assert(","@ =~= seq![',']);
            assert(rect@ =~= top_right.spec_str() + ","@ + bottom_left.spec_str());
        }
        Rect { rect }
    }

    /// The serialized rectangle.
    pub fn as_str(&self) -> (r: &str)
        ensures
            r@ == self.spec_str(),
    {
        self.rect.as_str()
    }
}

/// Represents a circle for an html area tag.
#[derive(Debug, Clone, PartialEq)]
pub struct Circle {
    circle: String,
}

impl Circle {
    /// The circle's serialized form.
    pub closed spec fn spec_str(&self) -> Seq<char> {
        self.circle@
    }

    /// Renders the center and the radius joined by a comma.
    pub fn new(center: Coord, radius: u16) -> (r: Self)
        ensures
            r.spec_str() == center.spec_str() + ","@ + spec_udec(radius as nat),
    {
        let mut circle = String::from_str(center.as_str());
        push_char(&mut circle, ',');
        let rs = u64_to_string(radius as u64);
        circle.append(rs.as_str());
        proof {
            reveal_strlit(",");
            assert(","@ =~= seq![',']);
            assert(circle@ =~= center.spec_str() + ","@ + spec_udec(radius as nat));
        }
        Circle { circle }
    }

    /// The serialized circle.
    pub fn as_str(&self) -> (r: &str)
        ensures
            r@ == self.spec_str(),
    {
        self.circle.as_str()
    }
}

/// Represents a polygon for an html area tag.
#[derive(Debug, Clone, PartialEq)]
pub struct Poly {
    poly: String,
}

impl Poly {
    /// The polygon's serialized form.
    pub closed spec fn spec_str(&self) -> Seq<char> {
        self.poly@
    }

    /// Starts an empty polygon.
    pub fn new() -> (r: Self)
        ensures
            r.spec_str() == Seq::<char>::empty(),
    {
        Poly { poly: String::new() }
    }

    /// Appends a coordinate pair's serialization, with no separator.
    pub fn add_cord(&mut self, coord: Coord)
        ensures
            final(self).spec_str() == old(self).spec_str() + coord.spec_str(),
    {
        self.poly.append(coord.as_str());
    }

    /// Builds the polygon from the coordinate pairs, joined by commas.
    pub fn from_coords(coords: Vec<Coord>) -> (r: Self)
        ensures
            r.spec_str() == spec_join_sep(coords@.map_values(|c: Coord| c.spec_str()), ','),
    {
        let mut parts: Vec<String> = Vec::new();
        let mut i: usize = 0;
        while i < coords.len()
            invariant
                i <= coords.len(),
                parts@.map_values(|s: String| s@) == coords@.take(i as int).map_values(
                    |c: Coord| c.spec_str(),
                ),
            decreases coords.len() - i,
        {
            let part = String::from_str(coords[i].as_str());
            let ghost prev = parts@;
            parts.push(part);
            proof {
                prev.lemma_push_map_commute(|s: String| s@, part);
                coords@.lemma_map_take_succ(|c: Coord| c.spec_str(), i as int);
                assert(parts@.map_values(|s: String| s@) =~= coords@.take(i + 1).map_values(
                    |c: Coord| c.spec_str(),
                ));
            }
            i = i + 1;
        }
        proof {
            assert(coords@.take(coords@.len() as int) =~= coords@);
        }
        Poly { poly: join_with(&parts, ',') }
    }

    /// The serialized polygon.
    pub fn as_str(&self) -> (r: &str)
        ensures
            r@ == self.spec_str(),
    {
        self.poly.as_str()
    }
}

/// An enum representing the different options for the both the shape
/// attribute of an area tag as well as the coordinates.
///
/// Shape tag: <https://developer.mozilla.org/en-US/docs/Web/HTML/Element/area#attr-shape>
///
/// Coord tag: <https://developer.mozilla.org/en-US/docs/Web/HTML/Element/area#attr-coords>
#[derive(Debug, Clone, PartialEq)]
pub enum AreaTagShape {
    Rect(Rect),
    Circle(Circle),
    Poly(Poly),
}

impl AreaTagShape {
    /// The shape's name, as the `shape` attribute serializes it.
    pub open spec fn spec_str(&self) -> Seq<char> {
        match self {
            AreaTagShape::Rect(_) => "rect"@,
            AreaTagShape::Circle(_) => "circle"@,
            AreaTagShape::Poly(_) => "poly"@,
        }
    }

    /// The shape's name, as the `shape` attribute serializes it.
    pub fn as_str(&self) -> (r: &str)
        ensures
            r@ == self.spec_str(),
    {
        match self {
            AreaTagShape::Rect(_) => "rect",
            AreaTagShape::Circle(_) => "circle",
            AreaTagShape::Poly(_) => "poly",
        }
    }
}

/// <https://developer.mozilla.org/en-US/docs/Web/HTML/Element/area#attr-coords>
#[derive(Debug, Clone, PartialEq)]
pub struct Coords(AreaTagShape);

impl Coords {
    /// Wraps the shape whose coordinates the attribute carries.
    pub fn new(value: AreaTagShape) -> (r: Self)
        ensures
            r.spec_val() == match value {
                AreaTagShape::Rect(rect) => Some(rect.spec_str()),
                AreaTagShape::Circle(circle) => Some(circle.spec_str()),
                AreaTagShape::Poly(poly) => Some(poly.spec_str()),
            },
    {
        Coords(value)
    }
}

impl Attribute for Coords {
    open spec fn spec_key(&self) -> Seq<char> {
        "coords"@
    }

    closed spec fn spec_val(&self) -> Option<Seq<char>> {
        match self.0 {
            AreaTagShape::Rect(rect) => Some(rect.spec_str()),
            AreaTagShape::Circle(circle) => Some(circle.spec_str()),
            AreaTagShape::Poly(poly) => Some(poly.spec_str()),
        }
    }

    fn get_key(&self) -> &str {
        "coords"
    }

    fn get_val(&self) -> Option<&str> {
        match &self.0 {
            AreaTagShape::Rect(rect) => Some(rect.as_str()),
            AreaTagShape::Circle(circle) => Some(circle.as_str()),
            AreaTagShape::Poly(poly) => Some(poly.as_str()),
        }
    }
}

impl AreaAttribute for Coords {}

/// <https://developer.mozilla.org/en-US/docs/Web/HTML/Element/area#attr-rel>
#[derive(Debug, Clone, PartialEq)]
pub struct Rel {
    value: String,
}

impl Rel {
    /// Joins the link types with spaces, as the `rel` attribute
    /// expects.
    pub fn new(rels: Vec<AreaTagRel>) -> (r: Self)
        ensures
            r.spec_val() == Some(spec_join_spaces(rels@.map_values(|x: AreaTagRel| x.spec_str()))),
    {
        Rel { value: join_rels(&rels) }
    }
}

impl Attribute for Rel {
    open spec fn spec_key(&self) -> Seq<char> {
        "rel"@
    }

    closed spec fn spec_val(&self) -> Option<Seq<char>> {
        Some(self.value@)
    }

    fn get_key(&self) -> &str {
        "rel"
    }

    fn get_val(&self) -> Option<&str> {
        Some(self.value.as_str())
    }
}

impl AreaAttribute for Rel {}

/// Joins the serialized link types with spaces.
pub(crate) fn join_rels(rels: &Vec<AreaTagRel>) -> (r: String)
    ensures
        r@ == spec_join_spaces(rels@.map_values(|x: AreaTagRel| x.spec_str())),
{
    let mut parts: Vec<String> = Vec::new();
    let mut i: usize = 0;
    while i < rels.len()
        invariant
            i <= rels.len(),
            parts@.map_values(|s: String| s@) == rels@.take(i as int).map_values(
                |x: AreaTagRel| x.spec_str(),
            ),
        decreases rels.len() - i,
    {
        let part = String::from_str(rels[i].as_str());
        let ghost prev = parts@;
        parts.push(part);
        proof {
            prev.lemma_push_map_commute(|s: String| s@, part);
            rels@.lemma_map_take_succ(|x: AreaTagRel| x.spec_str(), i as int);
            assert(parts@.map_values(|s: String| s@) =~= rels@.take(i + 1).map_values(
                |x: AreaTagRel| x.spec_str(),
            ));
        }
        i = i + 1;
    }
    proof {
        assert(rels@.take(rels@.len() as int) =~= rels@);
    }
    join_spaces(&parts)
}

/// <https://developer.mozilla.org/en-US/docs/Web/HTML/Element/area#attr-shape>
#[derive(Debug, Clone, PartialEq)]
pub struct Shape(AreaTagShape);

impl Shape {
    /// Wraps the shape whose name the attribute carries.
    pub fn new(value: AreaTagShape) -> (r: Self)
        ensures
            r.spec_val() == Some(value.spec_str()),
    {
        Shape(value)
    }
}

impl Attribute for Shape {
    open spec fn spec_key(&self) -> Seq<char> {
        "shape"@
    }

    closed spec fn spec_val(&self) -> Option<Seq<char>> {
        Some(self.0.spec_str())
    }

    fn get_key(&self) -> &str {
        "shape"
    }

    fn get_val(&self) -> Option<&str> {
        Some(self.0.as_str())
    }
}

impl AreaAttribute for Shape {}

/// An enum defining the options for the rel attribute of an area tag.
///
/// <https://developer.mozilla.org/en-US/docs/Web/HTML/Link_types>
#[derive(Debug)]
pub enum AreaTagRel {
    Alternate,
    Archives,
    Author,
    Bookmark,
    External,
    First,
    Help,
    Index,
    Last,
    License,
    Next,
    Nofollow,
    Noopener,
    Noreferrer,
    Opener,
    Prev,
    Search,
    Sidebar,
    Tag,
    Up,
}

impl AreaTagRel {
    /// The serialized form of the option.
    pub open spec fn spec_str(&self) -> Seq<char> {
        match self {
            AreaTagRel::Alternate => "alternate"@,
            AreaTagRel::Archives => "archives"@,
            AreaTagRel::Author => "author"@,
            AreaTagRel::Bookmark => "bookmark"@,
            AreaTagRel::External => "external"@,
            AreaTagRel::First => "first"@,
            AreaTagRel::Help => "help"@,
            AreaTagRel::Index => "index"@,
            AreaTagRel::Last => "last"@,
            AreaTagRel::License => "license"@,
            AreaTagRel::Next => "next"@,
            AreaTagRel::Nofollow => "nofollow"@,
            AreaTagRel::Noopener => "noopener"@,
            AreaTagRel::Noreferrer => "noreferrer"@,
            AreaTagRel::Opener => "opener"@,
            AreaTagRel::Prev => "prev"@,
            AreaTagRel::Search => "search"@,
            AreaTagRel::Sidebar => "sidebar"@,
            AreaTagRel::Tag => "tag"@,
            AreaTagRel::Up => "up"@,
        }
    }

    /// The serialized form of the option.
    pub fn as_str(&self) -> (r: &str)
        ensures
            r@ == self.spec_str(),
    {
        match self {
            AreaTagRel::Alternate => "alternate",
            AreaTagRel::Archives => "archives",
            AreaTagRel::Author => "author",
            AreaTagRel::Bookmark => "bookmark",
            AreaTagRel::External => "external",
            AreaTagRel::First => "first",
            AreaTagRel::Help => "help",
            AreaTagRel::Index => "index",
            AreaTagRel::Last => "last",
            AreaTagRel::License => "license",
            AreaTagRel::Next => "next",
            AreaTagRel::Nofollow => "nofollow",
            AreaTagRel::Noopener => "noopener",
            AreaTagRel::Noreferrer => "noreferrer",
            AreaTagRel::Opener => "opener",
            AreaTagRel::Prev => "prev",
            AreaTagRel::Search => "search",
            AreaTagRel::Sidebar => "sidebar",
            AreaTagRel::Tag => "tag",
            AreaTagRel::Up => "up",
        }
    }
}

} // verus!
