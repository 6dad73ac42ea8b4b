//! Attributes of the `details` element.

use vstd::prelude::*;
use crate::Attribute;

verus! {

/// Marks an attribute as accepted by the `details` element.
pub trait DetailsAttribute {}

/// <https://developer.mozilla.org/en-US/docs/Web/HTML/Element/details#attr-open>
#[derive(Debug)]
pub struct Open;

impl Attribute for Open {
    open spec fn spec_key(&self) -> Seq<char> {
        "open"@
    }

    open spec fn spec_val(&self) -> Option<Seq<char>> {
        None
    }

    fn get_key(&self) -> &str {
        "open"
    }

    fn get_val(&self) -> Option<&str> {
        None
    }
}

impl DetailsAttribute for Open {}

} // verus!
