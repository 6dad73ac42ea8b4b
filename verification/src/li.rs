//! Attributes of the `li` element.

use vstd::prelude::*;
use crate::text::{spec_udec, u64_to_string};
use crate::Attribute;

verus! {

/// Marks an attribute as accepted by the `li` element.
pub trait LiAttribute: Attribute {}

/// <https://developer.mozilla.org/en-US/docs/Web/HTML/Element/li#attr-value>
#[derive(Debug)]
pub struct Value(String);

impl Value {
    /// Stores the number rendered in decimal.
    pub fn new(val: u8) -> (r: Self)
        ensures
            r.spec_val() == Some(spec_udec(val as nat)),
    {
        Value(u64_to_string(val as u64))
    }
}

impl Attribute for Value {
    open spec fn spec_key(&self) -> Seq<char> {
        "value"@
    }

    closed spec fn spec_val(&self) -> Option<Seq<char>> {
        Some(self.0@)
    }

    fn get_key(&self) -> &str {
        "value"
    }

    fn get_val(&self) -> Option<&str> {
        Some(self.0.as_str())
    }
}

impl LiAttribute for Value {}

} // verus!
