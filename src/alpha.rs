//! A color with an opacity channel.
use vstd::prelude::*;

use crate::color::{Color, Components};
use crate::spaces::TripleColor;
use crate::white_point::{WhitePoint, D65};

verus! {

/// A color paired with an opacity channel of the same channel type.
///
/// It forwards the component view of the color it wraps, so the named fields
/// of the color are read and written without unwrapping it.
pub struct Alpha<Co: Color> {
    /// The wrapped color.
    pub color: Co,
    /// The opacity.
    pub alpha: Co::Channel,
}

impl<Co: Color> Alpha<Co> {
    /// Pairs `color` with the opacity `alpha`.
    pub fn from_color(color: Co, alpha: Co::Channel) -> (r: Alpha<Co>)
        ensures
            r.color == color,
            r.alpha == alpha,
    {
        Alpha { color, alpha }
    }
}

impl<S, C: Copy> Alpha<TripleColor<S, C, D65>> {
    /// Creates a three-channel color tagged with D65, with the opacity `alpha`.
    pub fn new(c0: C, c1: C, c2: C, alpha: C) -> (r: Alpha<TripleColor<S, C, D65>>)
        ensures
            r.color.spec_channels()@ == seq![c0, c1, c2],
            r.alpha == alpha,
    {
        Alpha::from_color(TripleColor::new(c0, c1, c2), alpha)
    }
}

impl<S, C: Copy, Wp: WhitePoint> Alpha<TripleColor<S, C, Wp>> {
    /// Creates a three-channel color tagged with `Wp`, with the opacity `alpha`.
    pub fn with_wp(c0: C, c1: C, c2: C, alpha: C) -> (r: Alpha<TripleColor<S, C, Wp>>)
        ensures
            r.color.spec_channels()@ == seq![c0, c1, c2],
            r.alpha == alpha,
    {
        Alpha::from_color(TripleColor::with_wp(c0, c1, c2), alpha)
    }
}

impl<Co: Color + Components> Components for Alpha<Co> {
    type Components = Co::Components;

    open spec fn spec_components(&self) -> Co::Components {
        self.color.spec_components()
    }

    fn as_components(&self) -> (r: Co::Components) {
        self.color.as_components()
    }

    fn set_components(&mut self, components: Co::Components)
        ensures
            final(self).alpha == old(self).alpha,
    {
        self.color.set_components(components);
    }
}

} // verus!
