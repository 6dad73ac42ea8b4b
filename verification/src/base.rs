//! Attributes of the `base` element.

use vstd::prelude::*;
use crate::Attribute;
pub use crate::anchor::Href;
pub use crate::anchor::Target;

verus! {

/// Marks an attribute as accepted by the `base` element.
pub trait BaseAttribute: Attribute {}

impl BaseAttribute for Href {}

impl BaseAttribute for Target {}

} // verus!
