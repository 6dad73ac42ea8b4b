//! Attributes of the `colgroup` element.

use vstd::prelude::*;
use crate::text::{spec_udec, u64_to_string};
use crate::Attribute;

verus! {

/// Marks an attribute as accepted by the `colgroup` element.
pub trait ColGroupAttribute: Attribute {}

/// An enum defining the different canvas-element-specific attribute keys. Each variant takes either tuple
/// that represents the valid values for the attributes or nothing to represent a boolean
/// attribute.
#[derive(Debug)]
pub enum ColgroupHtmlAttributes {
    Span(u16),
}

impl ColgroupHtmlAttributes {
    /// The DOM key for this attribute.
    pub open spec fn spec_key(&self) -> Seq<char> {
        match self {
            ColgroupHtmlAttributes::Span(_) => "span"@,
        }
    }

    /// The serialized value; `None` stands for a boolean attribute.
    pub open spec fn spec_val(&self) -> Option<Seq<char>> {
        match self {
            ColgroupHtmlAttributes::Span(val) => Some(spec_udec(*val as nat)),
        }
    }

    /// Returns the DOM key for this attribute.
    pub fn get_key(&self) -> (r: String)
        ensures
            r@ == self.spec_key(),
    {
        String::from_str(
            match self {
                ColgroupHtmlAttributes::Span(_) => "span",
            },
        )
    }

    /// Returns the serialized value, `None` for a boolean attribute.
    pub fn get_val(&self) -> (r: Option<String>)
        ensures
            match r {
                Some(s) => self.spec_val() == Some(s@),
                None => self.spec_val() is None,
            },
    {
        match self {
            ColgroupHtmlAttributes::Span(val) => Some(u64_to_string(*val as u64)),
        }
    }
}

} // verus!
