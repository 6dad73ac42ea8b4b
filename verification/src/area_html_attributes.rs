//! An enum of the `area` element attribute keys.

use vstd::prelude::*;
use vstd::seq_lib::*;
use crate::text::spec_join_spaces;
use crate::area::{AreaTagRel, Rect, Circle, Poly};
use crate::{HtmlAttributeReferrerPolicy, TargetOption, Url};

verus! {

/// An enum representing the different options for the both the shape
/// attribute of an area tag as well as the coordinates.
#[derive(Debug)]
pub enum Shape {
    Rect(Rect),
    Circle(Circle),
    Poly(Poly),
}

impl Shape {
    /// The shape's name, as the `shape` attribute serializes it.
    pub open spec fn spec_str(&self) -> Seq<char> {
        match self {
            Shape::Rect(_) => "rect"@,
            Shape::Circle(_) => "circle"@,
            Shape::Poly(_) => "poly"@,
        }
    }

    /// The shape's name, as the `shape` attribute serializes it.
    pub fn as_str(&self) -> (r: &str)
        ensures
            r@ == self.spec_str(),
    {
        match self {
            Shape::Rect(_) => "rect",
            Shape::Circle(_) => "circle",
            Shape::Poly(_) => "poly",
        }
    }
}

/// An enum defining the different area-element-specific attribute keys. Each variant takes either tuple
/// that represents the valid values for the attributes or nothing to represent a boolean
/// attribute.
#[derive(Debug)]
pub enum AreaHtmlAttributes<'a> {
    Alt(&'a str),
    Coords(&'a Shape),
    Download(Option<&'a str>),
    Href(Url),
    HrefLang(&'a str),
    Media(&'a str),
    ReferrerPolicy(&'a HtmlAttributeReferrerPolicy),
    Rel(&'a Vec<AreaTagRel>),
    Shape(&'a Shape),
    Target(&'a TargetOption),
}

impl<'a> AreaHtmlAttributes<'a> {
    /// The DOM key for this attribute.
    pub open spec fn spec_key(&self) -> Seq<char> {
        match self {
            AreaHtmlAttributes::Alt(_) => "alt"@,
            AreaHtmlAttributes::Coords(_) => "coords"@,
            AreaHtmlAttributes::Download(_) => "download"@,
            AreaHtmlAttributes::Href(_) => "href"@,
            AreaHtmlAttributes::HrefLang(_) => "hreflang"@,
            AreaHtmlAttributes::Media(_) => "media"@,
            AreaHtmlAttributes::ReferrerPolicy(_) => "referrerpolicy"@,
            AreaHtmlAttributes::Rel(_) => "rel"@,
            AreaHtmlAttributes::Shape(_) => "shape"@,
            AreaHtmlAttributes::Target(_) => "target"@,
        }
    }

    /// The serialized value; `None` stands for a boolean attribute.
    pub open spec fn spec_val(&self) -> Option<Seq<char>> {
        match self {
            AreaHtmlAttributes::Alt(val) => Some(val@),
            AreaHtmlAttributes::Coords(val) => match val {
                Shape::Rect(rect) => Some(rect.spec_str()),
                Shape::Circle(circle) => Some(circle.spec_str()),
                Shape::Poly(poly) => Some(poly.spec_str()),
            },
            AreaHtmlAttributes::Download(val) => match val {
                Some(v) => Some(v@),
                None => None,
            },
            AreaHtmlAttributes::Href(val) => Some(val.spec_str()),
            AreaHtmlAttributes::HrefLang(val) => Some(val@),
            AreaHtmlAttributes::Media(val) => Some(val@),
            AreaHtmlAttributes::ReferrerPolicy(val) => Some(val.spec_str()),
            AreaHtmlAttributes::Rel(val) => Some(spec_join_spaces(
                val@.map_values(|x: AreaTagRel| x.spec_str()),
            )),
            AreaHtmlAttributes::Shape(val) => Some(val.spec_str()),
            AreaHtmlAttributes::Target(val) => Some(val.spec_str()),
        }
    }

    /// Returns the DOM key for this attribute.
    pub fn get_key(&self) -> (r: String)
        ensures
            r@ == self.spec_key(),
    {
        String::from_str(
            match self {
                AreaHtmlAttributes::Alt(_) => "alt",
                AreaHtmlAttributes::Coords(_) => "coords",
                AreaHtmlAttributes::Download(_) => "download",
                AreaHtmlAttributes::Href(_) => "href",
                AreaHtmlAttributes::HrefLang(_) => "hreflang",
                AreaHtmlAttributes::Media(_) => "media",
                AreaHtmlAttributes::ReferrerPolicy(_) => "referrerpolicy",
                AreaHtmlAttributes::Rel(_) => "rel",
                AreaHtmlAttributes::Shape(_) => "shape",
                AreaHtmlAttributes::Target(_) => "target",
            },
        )
    }

    /// Returns the serialized value, `None` for a boolean attribute.
    pub fn get_val(&self) -> (r: Option<String>)
        ensures
            match r {
                Some(s) => self.spec_val() == Some(s@),
                None => self.spec_val() is None,
            },
    {
        match self {
            AreaHtmlAttributes::Alt(val) => Some(String::from_str(val)),
            AreaHtmlAttributes::Coords(val) => match val {
                Shape::Rect(rect) => Some(String::from_str(rect.as_str())),
                Shape::Circle(circle) => Some(String::from_str(circle.as_str())),
                Shape::Poly(poly) => Some(String::from_str(poly.as_str())),
            },
            AreaHtmlAttributes::Download(val) => match val {
                Some(v) => Some(String::from_str(v)),
                None => None,
            },
            AreaHtmlAttributes::Href(val) => Some(String::from_str(val.as_str())),
            AreaHtmlAttributes::HrefLang(val) => Some(String::from_str(val)),
            AreaHtmlAttributes::Media(val) => Some(String::from_str(val)),
            AreaHtmlAttributes::ReferrerPolicy(val) => Some(String::from_str(val.as_str())),
            AreaHtmlAttributes::Rel(val) => Some(crate::area::join_rels(val)),
            AreaHtmlAttributes::Shape(val) => Some(String::from_str(val.as_str())),
            AreaHtmlAttributes::Target(val) => Some(String::from_str(val.as_str())),
        }
    }
}

} // verus!
