//! Attributes of the `col` element.

use vstd::prelude::*;
use crate::text::{spec_udec, u64_to_string};
use crate::Attribute;

verus! {

/// Marks an attribute as accepted by the `col` element.
pub trait ColAttribute: Attribute {}

/// <https://developer.mozilla.org/en-US/docs/Web/HTML/Element/col#attr-span>
#[derive(Debug)]
pub struct Span(String);

impl Span {
    /// Stores the number rendered in decimal.
    pub fn new(val: u8) -> (r: Self)
        ensures
            r.spec_val() == Some(spec_udec(val as nat)),
    {
        Span(u64_to_string(val as u64))
    }
}

impl Attribute for Span {
    open spec fn spec_key(&self) -> Seq<char> {
        "span"@
    }

    closed spec fn spec_val(&self) -> Option<Seq<char>> {
        Some(self.0@)
    }

    fn get_key(&self) -> &str {
        "span"
    }

    fn get_val(&self) -> Option<&str> {
        Some(self.0.as_str())
    }
}

impl ColAttribute for Span {}

} // verus!
