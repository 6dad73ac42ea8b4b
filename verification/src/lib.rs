//! Typed representations of DOM attributes.
//!
//! Each attribute is a small type that knows its DOM key and how its
//! value is serialized to the string the DOM expects. Contracts state
//! both: `get_key` returns the attribute's canonical key, and `get_val`
//! returns exactly the serialized form of the value the attribute was
//! built from, so a caller never has to guess at formatting.

use vstd::prelude::*;

pub mod anchor;
pub mod area;
pub mod area_html_attributes;
pub mod aria;
pub mod audio;
pub mod base;
pub mod blockquote;
pub mod button;
pub mod canvas;
pub mod col;
pub mod colgroup;
pub mod data;
pub mod details;
pub mod global;
pub mod html_attributes;
pub mod keys;
pub mod li;
pub mod misc_html_attributes;
pub mod svg;
pub mod svg_attributes;
pub mod text;

verus! {

/// The serialization that the `url` crate's parser gives the input, or
/// `None` where it rejects the input.
pub uninterp spec fn spec_url_parse(s: Seq<char>) -> Option<Seq<char>>;

/// A parsed and normalized URL, held in its serialized form.
///
/// Values come from `parse`, which runs the `url` crate's parser; the
/// attribute types only ever read the serialization.
#[derive(Debug, Clone, PartialEq)]
pub struct Url {
    text: String,
}

impl Url {
    /// The URL's serialized text.
    pub closed spec fn spec_str(&self) -> Seq<char> {
        self.text@
    }

    /// Parses and normalizes the input, rejecting exactly what the
    /// `url` crate's parser rejects.
    pub fn parse(input: &str) -> (r: Option<Url>)
        ensures
            match r {
                Some(u) => spec_url_parse(input@) == Some(u.spec_str()),
                None => spec_url_parse(input@) is None,
            },
    {
        match parse_normalized(input) {
            Some(text) => Some(Url { text }),
            None => None,
        }
    }

    /// The serialized text of the URL.
    pub fn as_str(&self) -> (r: &str)
        ensures
            r@ == self.spec_str(),
    {
        self.text.as_str()
    }
}

/// Relies on `url::Url::parse` and `url::Url::as_str`: whether parsing
/// succeeds, and the serialization it yields, depend on the input text
/// alone.
#[verifier::external_body]
fn parse_normalized(input: &str) -> (r: Option<String>)
    ensures
        match r {
            Some(t) => spec_url_parse(input@) == Some(t@),
            None => spec_url_parse(input@) is None,
        },
{
    match url::Url::parse(input) {
        Ok(u) => Some(u.as_str().to_owned()),
        Err(_) => None,
    }
}


/// Marks a type as a DOM attribute.
///
/// An implementor fixes, in `spec_key` and `spec_val`, what key it
/// stands for and what string its stored value serializes to; the two
/// executable methods are bound to those spec functions exactly.
pub trait Attribute {
    /// The attribute's canonical DOM key.
    spec fn spec_key(&self) -> Seq<char>;

    /// The serialized value; `None` stands for a boolean attribute
    /// such as `disabled`, which has no value.
    spec fn spec_val(&self) -> Option<Seq<char>>;

    /// Returns a string representing the key of a DOM attribute.
    fn get_key(&self) -> (r: &str)
        ensures
            r@ == self.spec_key(),
    ;

    /// Returns an `Option<&str>` representing the value of a DOM
    /// attribute. `None` indicates a boolean attribute, such as
    /// `disabled`, which has no value.
    fn get_val(&self) -> (r: Option<&str>)
        ensures
            match r {
                Some(s) => self.spec_val() == Some(s@),
                None => self.spec_val() is None,
            },
    ;
}

/// Error indicating an error with performing operations with attributes
/// on an element.
#[derive(Debug, Clone)]
pub struct AttributeError {
    pub key: String,
    pub value: String,
    pub tag: String,
    pub message: String,
}

impl AttributeError {
    /// The error rendered in one line, for reporting.
    pub fn describe(&self) -> (r: String)
        ensures
            r@ == self.message@ + " Key: "@ + self.key@ + ", Value: "@ + self.value@
                + ", Element Tag: "@ + self.tag@,
    {
        let mut r = self.message.clone();
        r.append(" Key: ");
        r.append(self.key.as_str());
        r.append(", Value: ");
        r.append(self.value.as_str());
        r.append(", Element Tag: ");
        r.append(self.tag.as_str());
        r
    }
}

/// An enum representing a value that could be either a number or string.
/// It's typically used to represent a number value that could have an
/// optional unit attached to it.
#[derive(Debug, Clone, PartialEq, Eq)]
pub enum NumberOrString {
    Number(i64),
    String(String),
}

impl NumberOrString {
    /// What the value serializes to: the number in decimal, or the
    /// string as it stands.
    pub open spec fn spec_str(&self) -> Seq<char> {
        match self {
            NumberOrString::Number(n) => crate::text::spec_idec(*n as int),
            NumberOrString::String(s) => s@,
        }
    }

    pub fn to_string(&self) -> (r: String)
        ensures
            r@ == self.spec_str(),
    {
        match self {
            NumberOrString::Number(n) => crate::text::i64_to_string(*n),
            NumberOrString::String(s) => s.clone(),
        }
    }
}

/// The options for a referrer-policy attribute, serialized in
/// kebab-case; `Blank` serializes to the empty string.
#[derive(Debug, Clone, PartialEq)]
pub enum HtmlAttributeReferrerPolicy {
    NoReferrer,
    NoReferrerWhenDowngrade,
    Origin,
    OriginWhenCrossOrigin,
    SameOrigin,
    StrictOrigin,
    StrictOriginWhenCrossOrigin,
    UnsafeUrl,
    Blank,
}

impl HtmlAttributeReferrerPolicy {
    /// The serialized form of the option.
    pub open spec fn spec_str(&self) -> Seq<char> {
        match self {
            HtmlAttributeReferrerPolicy::NoReferrer => "no-referrer"@,
            HtmlAttributeReferrerPolicy::NoReferrerWhenDowngrade => "no-referrer-when-downgrade"@,
            HtmlAttributeReferrerPolicy::Origin => "origin"@,
            HtmlAttributeReferrerPolicy::OriginWhenCrossOrigin => "origin-when-cross-origin"@,
            HtmlAttributeReferrerPolicy::SameOrigin => "same-origin"@,
            HtmlAttributeReferrerPolicy::StrictOrigin => "strict-origin"@,
            HtmlAttributeReferrerPolicy::StrictOriginWhenCrossOrigin => "strict-origin-when-cross-origin"@,
            HtmlAttributeReferrerPolicy::UnsafeUrl => "unsafe-url"@,
            HtmlAttributeReferrerPolicy::Blank => ""@,
        }
    }

    /// The serialized form of the option.
    pub fn as_str(&self) -> (r: &str)
        ensures
            r@ == self.spec_str(),
    {
        match self {
            HtmlAttributeReferrerPolicy::NoReferrer => "no-referrer",
            HtmlAttributeReferrerPolicy::NoReferrerWhenDowngrade => "no-referrer-when-downgrade",
            HtmlAttributeReferrerPolicy::Origin => "origin",
            HtmlAttributeReferrerPolicy::OriginWhenCrossOrigin => "origin-when-cross-origin",
            HtmlAttributeReferrerPolicy::SameOrigin => "same-origin",
            HtmlAttributeReferrerPolicy::StrictOrigin => "strict-origin",
            HtmlAttributeReferrerPolicy::StrictOriginWhenCrossOrigin => "strict-origin-when-cross-origin",
            HtmlAttributeReferrerPolicy::UnsafeUrl => "unsafe-url",
            HtmlAttributeReferrerPolicy::Blank => "",
        }
    }
}

/// The options for a `target` attribute; `Custom` carries a caller's
/// own target name but serializes, like every variant, to the
/// variant's fixed word, here the bare variant name.
#[derive(Debug, Clone, PartialEq)]
pub enum TargetOption {
    Self_,
    Blank,
    Parent,
    Top,
    Custom(String),
}

impl TargetOption {
    /// The serialized form of the option.
    pub open spec fn spec_str(&self) -> Seq<char> {
        match self {
            TargetOption::Self_ => "_self"@,
            TargetOption::Blank => "_blank"@,
            TargetOption::Parent => "_parent"@,
            TargetOption::Top => "_top"@,
            TargetOption::Custom(_) => "Custom"@,
        }
    }

    /// The serialized form of the option.
    pub fn as_str(&self) -> (r: &str)
        ensures
            r@ == self.spec_str(),
    {
        match self {
            TargetOption::Self_ => "_self",
            TargetOption::Blank => "_blank",
            TargetOption::Parent => "_parent",
            TargetOption::Top => "_top",
            TargetOption::Custom(_) => "Custom",
        }
    }
}

/// The key and the value that an attribute sets, as plain strings: the
/// serialized value, or the empty string for a boolean attribute. This
/// is the pair that a DOM caller hands to the element.
pub fn attribute_strings<T: Attribute>(attribute: &T) -> (r: (String, String))
    ensures
        r.0@ == attribute.spec_key(),
        r.1@ == match attribute.spec_val() {
            Some(v) => v,
            None => Seq::<char>::empty(),
        },
{
    let key = attribute.get_key();
    let value = match attribute.get_val() {
        Some(v) => String::from_str(v),
        None => String::new(),
    };
    (String::from_str(key), value)
}

} // verus!
