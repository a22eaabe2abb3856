//! The CIE 1931 XYZ color space.
use vstd::prelude::*;

use crate::alpha::Alpha;
use crate::color::{Color, Components};
use crate::spaces::TripleColor;
use crate::white_point::WhitePoint;

verus! {

/// Marker of the CIE 1931 XYZ color space.
#[derive(Clone, Copy, Debug, PartialEq, Eq, Hash)]
pub struct XyzSpace;

/// The CIE 1931 XYZ color space.
///
/// XYZ links perceived colors to their wavelengths; it needs a standard
/// illuminant and observer, given by the white point `Wp`.
pub type Xyz<C, Wp> = TripleColor<XyzSpace, C, Wp>;

/// A Xyz color with an opacity channel.
pub type Xyza<C, Wp> = Alpha<Xyz<C, Wp>>;

/// The named channels of an XYZ color, in container order.
#[derive(Clone, Copy, Debug, PartialEq, Eq, Hash)]
pub struct XYZ<C> {
    /// The response curve of the long-wavelength cone cells; for D65 it goes
    /// from 0.0 to 0.95047.
    pub x: C,
    /// The luminance: 0.0 is black and 1.0 is white.
    pub y: C,
    /// The blue stimulation; for D65 it goes from 0.0 to 1.08883.
    pub z: C,
}

impl<C: Copy, Wp: WhitePoint> Xyz<C, Wp> {
    /// Returns a mutable reference to X, the first channel.
    pub fn x_mut(&mut self) -> (r: &mut C)
        ensures
            *r == old(self).spec_channels()@[0],
            final(self).spec_channels()@ == old(self).spec_channels()@.update(0, *final(r)),
    {
        self.channel_mut(0)
    }

    /// Returns a mutable reference to Y, the second channel.
    pub fn y_mut(&mut self) -> (r: &mut C)
        ensures
            *r == old(self).spec_channels()@[1],
            final(self).spec_channels()@ == old(self).spec_channels()@.update(1, *final(r)),
    {
        self.channel_mut(1)
    }

    /// Returns a mutable reference to Z, the third channel.
    pub fn z_mut(&mut self) -> (r: &mut C)
        ensures
            *r == old(self).spec_channels()@[2],
            final(self).spec_channels()@ == old(self).spec_channels()@.update(2, *final(r)),
    {
        self.channel_mut(2)
    }
}

impl<C: Copy, Wp: WhitePoint> Components for Xyz<C, Wp> {
    type Components = XYZ<C>;

    open spec fn spec_components(&self) -> XYZ<C> {
        XYZ { x: self.spec_channels()@[0], y: self.spec_channels()@[1], z: self.spec_channels()@[2] }
    }

    fn as_components(&self) -> (r: XYZ<C>) {
        let ch = self.channels();
        XYZ { x: ch[0], y: ch[1], z: ch[2] }
    }

    fn set_components(&mut self, components: XYZ<C>) {
        let ch = self.channels_mut();
        ch[0] = components.x;
        ch[1] = components.y;
        ch[2] = components.z;
    }
}

impl<C: Copy, Wp: WhitePoint> From<XYZ<C>> for Xyz<C, Wp> {
    fn from(components: XYZ<C>) -> (r: Xyz<C, Wp>) {
        Xyz::with_wp(components.x, components.y, components.z)
    }
}

impl<C: Copy, Wp: WhitePoint> vstd::std_specs::convert::FromSpecImpl<XYZ<C>> for Xyz<C, Wp> {
    open spec fn obeys_from_spec() -> bool {
        true
    }

    open spec fn from_spec(components: XYZ<C>) -> Xyz<C, Wp> {
        Self::from_channels_spec([components.x, components.y, components.z])
    }
}

/// The component view and the channel container of an XYZ color hold the same
/// values: a view written into a color is read back, in order, from its
/// container, and a view read from a color holds its container's channels.
pub proof fn lemma_xyz_view_matches_container<C: Copy, Wp: WhitePoint>(color: Xyz<C, Wp>, view: XYZ<C>)
    ensures
        color.spec_components() == view <==> color.spec_channels()@ == seq![view.x, view.y, view.z],
{
    if color.spec_channels()@ == seq![view.x, view.y, view.z] {
        assert(color.spec_channels()@[0] == view.x);
        assert(color.spec_channels()@[1] == view.y);
        assert(color.spec_channels()@[2] == view.z);
    }
    if color.spec_components() == view {
        assert(color.spec_channels()@ =~= seq![view.x, view.y, view.z]);
    }
}

} // verus!
