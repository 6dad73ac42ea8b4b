//! Attributes of the `canvas` element.

use vstd::prelude::*;
use crate::text::{spec_udec, u64_to_string};
use crate::Attribute;

verus! {

/// Marks an attribute as accepted by the `canvas` element.
pub trait CanvasAttribute: Attribute {}

/// <https://developer.mozilla.org/en-US/docs/Web/HTML/Element/canvas#attr-height>
#[derive(Debug)]
pub struct Height(String);

impl Height {
    /// Stores the number rendered in decimal.
    pub fn new(val: u16) -> (r: Self)
        ensures
            r.spec_val() == Some(spec_udec(val as nat)),
    {
        Height(u64_to_string(val as u64))
    }
}

impl Attribute for Height {
    open spec fn spec_key(&self) -> Seq<char> {
        "height"@
    }

    closed spec fn spec_val(&self) -> Option<Seq<char>> {
        Some(self.0@)
    }

    fn get_key(&self) -> &str {
        "height"
    }

    fn get_val(&self) -> Option<&str> {
        Some(self.0.as_str())
    }
}

impl CanvasAttribute for Height {}

/// <https://developer.mozilla.org/en-US/docs/Web/HTML/Element/canvas#attr-width>
#[derive(Debug)]
pub struct Width(String);

impl Width {
    /// Stores the number rendered in decimal.
    pub fn new(val: u16) -> (r: Self)
        ensures
            r.spec_val() == Some(spec_udec(val as nat)),
    {
        Width(u64_to_string(val as u64))
    }
}

impl Attribute for Width {
    open spec fn spec_key(&self) -> Seq<char> {
        "width"@
    }

    closed spec fn spec_val(&self) -> Option<Seq<char>> {
        Some(self.0@)
    }

    fn get_key(&self) -> &str {
        "width"
    }

    fn get_val(&self) -> Option<&str> {
        Some(self.0.as_str())
    }
}

impl CanvasAttribute for Width {}

} // verus!
