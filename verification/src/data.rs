//! Attributes of the `data` element.

use vstd::prelude::*;
use crate::Attribute;

verus! {

/// Marks an attribute as accepted by the `data` element.
pub trait DataAttribute {}

/// <https://developer.mozilla.org/en-US/docs/Web/HTML/Element/data#attr-value>
#[derive(Debug)]
pub struct Value(String);

impl Value {
    /// Wraps the given value.
    pub fn new(val: String) -> (r: Self)
        ensures
            r.spec_val() == Some(val@),
    {
        Value(val)
    }
}

impl Attribute for Value {
    open spec fn spec_key(&self) -> Seq<char> {
        "value"@
    }

    closed spec fn spec_val(&self) -> Option<Seq<char>> {
        Some(self.0@)
    }

    fn get_key(&self) -> &str {
        "value"
    }

    fn get_val(&self) -> Option<&str> {
        Some(self.0.as_str())
    }
}

impl DataAttribute for Value {}

} // verus!
