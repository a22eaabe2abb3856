//! Range checking and clamping of colors.
use vstd::prelude::*;

verus! {

/// Clamping and range checking of a color's components.
pub trait Limited: Sized {
    /// Tells whether every component is within its expected range.
    fn is_valid(&self) -> bool;

    /// Returns a copy whose components are clamped to the nearest valid values.
    fn clamp(&self) -> Self;

    /// Clamps the components in place.
    fn clamp_self(&mut self);
}

} // verus!
