//! The CIE 1931 Yxy (xyY) color space.
use vstd::prelude::*;

use crate::alpha::Alpha;
use crate::color::{Color, Components};
use crate::spaces::TripleColor;
use crate::white_point::WhitePoint;

verus! {

/// Marker of the CIE 1931 Yxy (xyY) color space.
#[derive(Clone, Copy, Debug, PartialEq, Eq, Hash)]
pub struct YxySpace;

/// The CIE 1931 Yxy (xyY) color space.
///
/// A luminance-chromaticity space derived from XYZ: chromaticity diagrams plot
/// its x and y coordinates. It depends on the white point `Wp`.
pub type Yxy<C, Wp> = TripleColor<YxySpace, C, Wp>;

/// A Yxy color with an opacity channel.
pub type Yxya<C, Wp> = Alpha<Yxy<C, Wp>>;

/// The named channels of a Yxy color, in container order.
#[derive(Clone, Copy, Debug, PartialEq, Eq, Hash)]
pub struct YXY<C> {
    /// The x chromaticity coordinate, X / (X + Y + Z); typically between 0 and 1.
    pub x: C,
    /// The y chromaticity coordinate, Y / (X + Y + Z); typically between 0 and 1.
    pub y: C,
    /// The luminance, the Y of XYZ: 0 is black and 1 is white.
    pub luma: C,
}

impl<C: Copy, Wp: WhitePoint> Yxy<C, Wp> {
    /// Returns a mutable reference to x, the first channel.
    pub fn x_mut(&mut self) -> (r: &mut C)
        ensures
            *r == old(self).spec_channels()@[0],
            final(self).spec_channels()@ == old(self).spec_channels()@.update(0, *final(r)),
    {
        self.channel_mut(0)
    }

    /// Returns a mutable reference to y, the second channel.
    pub fn y_mut(&mut self) -> (r: &mut C)
        ensures
            *r == old(self).spec_channels()@[1],
            final(self).spec_channels()@ == old(self).spec_channels()@.update(1, *final(r)),
    {
        self.channel_mut(1)
    }

    /// Returns a mutable reference to the luma, the third channel.
    pub fn luma_mut(&mut self) -> (r: &mut C)
        ensures
            *r == old(self).spec_channels()@[2],
            final(self).spec_channels()@ == old(self).spec_channels()@.update(2, *final(r)),
    {
        self.channel_mut(2)
    }
}

impl<C: Copy, Wp: WhitePoint> Components for Yxy<C, Wp> {
    type Components = YXY<C>;

    open spec fn spec_components(&self) -> YXY<C> {
        YXY { x: self.spec_channels()@[0], y: self.spec_channels()@[1], luma: self.spec_channels()@[2] }
    }

    fn as_components(&self) -> (r: YXY<C>) {
        let ch = self.channels();
        YXY { x: ch[0], y: ch[1], luma: ch[2] }
    }

    fn set_components(&mut self, components: YXY<C>) {
        let ch = self.channels_mut();
        ch[0] = components.x;
        ch[1] = components.y;
        ch[2] = components.luma;
    }
}

impl<C: Copy, Wp: WhitePoint> From<YXY<C>> for Yxy<C, Wp> {
    fn from(components: YXY<C>) -> (r: Yxy<C, Wp>) {
        Yxy::with_wp(components.x, components.y, components.luma)
    }
}

impl<C: Copy, Wp: WhitePoint> vstd::std_specs::convert::FromSpecImpl<YXY<C>> for Yxy<C, Wp> {
    open spec fn obeys_from_spec() -> bool {
        true
    }

    open spec fn from_spec(components: YXY<C>) -> Yxy<C, Wp> {
        Self::from_channels_spec([components.x, components.y, components.luma])
    }
}

/// The component view and the channel container of a Yxy color hold the same
/// values: a view written into a color is read back, in order, from its
/// container, and a view read from a color holds its container's channels.
pub proof fn lemma_yxy_view_matches_container<C: Copy, Wp: WhitePoint>(color: Yxy<C, Wp>, view: YXY<C>)
    ensures
        color.spec_components() == view <==> color.spec_channels()@ == seq![view.x, view.y, view.luma],
{
    if color.spec_channels()@ == seq![view.x, view.y, view.luma] {
        assert(color.spec_channels()@[0] == view.x);
        assert(color.spec_channels()@[1] == view.y);
        assert(color.spec_channels()@[2] == view.luma);
    }
    if color.spec_components() == view {
        assert(color.spec_channels()@ =~= seq![view.x, view.y, view.luma]);
    }
}

} // verus!
