//! Attributes of the `blockquote` element.

use vstd::prelude::*;
use crate::{Attribute, Url};

verus! {

/// Marks an attribute as accepted by the `blockquote` element.
pub trait BlockQuoteAttribute: Attribute {}

/// <https://developer.mozilla.org/en-US/docs/Web/HTML/Element/blockquote#attr-cite>
#[derive(Debug)]
pub struct Cite(String);

impl Cite {
    /// Stores the URL's serialization.
    pub fn new(val: Url) -> (r: Self)
        ensures
            r.spec_val() == Some(val.spec_str()),
    {
        Cite(String::from_str(val.as_str()))
    }
}

impl Attribute for Cite {
    open spec fn spec_key(&self) -> Seq<char> {
        "cite"@
    }

    closed spec fn spec_val(&self) -> Option<Seq<char>> {
        Some(self.0@)
    }

    fn get_key(&self) -> &str {
        "cite"
    }

    fn get_val(&self) -> Option<&str> {
        Some(self.0.as_str())
    }
}

impl BlockQuoteAttribute for Cite {}

} // verus!
