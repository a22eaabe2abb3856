//! The CIE L*a*b* (CIELAB) color space.
use vstd::prelude::*;

use crate::alpha::Alpha;
use crate::color::{Color, Components};
use crate::spaces::TripleColor;
use crate::white_point::WhitePoint;
use crate::color::{ConversionError, FromColor};
use crate::spaces::xyz::Xyz;
use crate::spaces::yxy::Yxy;

verus! {

/// Marker of the CIE L*a*b* color space.
#[derive(Clone, Copy, Debug, PartialEq, Eq, Hash)]
pub struct LabSpace;

/// The CIE L*a*b* (CIELAB) color space.
///
/// A device independent space that holds all perceivable colors and is close
/// to perceptually uniform. It depends on the white point `Wp`.
pub type Lab<C, Wp> = TripleColor<LabSpace, C, Wp>;

/// A Lab color with an opacity channel.
pub type Laba<C, Wp> = Alpha<Lab<C, Wp>>;

/// The named channels of a Lab color, in container order.
#[derive(Clone, Copy, Debug, PartialEq, Eq, Hash)]
pub struct LAB<C> {
    /// L*, the lightness: 0.0 is black and 100 the brightest white.
    pub l: C,
    /// a*, from red at -128 to green at 127.
    pub a: C,
    /// b*, from yellow at -128 to blue at 127.
    pub b: C,
}

impl<C: Copy, Wp: WhitePoint> Lab<C, Wp> {
    /// Returns a mutable reference to L*, the first channel.
    pub fn l_mut(&mut self) -> (r: &mut C)
        ensures
            *r == old(self).spec_channels()@[0],
            final(self).spec_channels()@ == old(self).spec_channels()@.update(0, *final(r)),
    {
        self.channel_mut(0)
    }

    /// Returns a mutable reference to a*, the second channel.
    pub fn a_mut(&mut self) -> (r: &mut C)
        ensures
            *r == old(self).spec_channels()@[1],
            final(self).spec_channels()@ == old(self).spec_channels()@.update(1, *final(r)),
    {
        self.channel_mut(1)
    }

    /// Returns a mutable reference to b*, the third channel.
    pub fn b_mut(&mut self) -> (r: &mut C)
        ensures
            *r == old(self).spec_channels()@[2],
            final(self).spec_channels()@ == old(self).spec_channels()@.update(2, *final(r)),
    {
        self.channel_mut(2)
    }
}

impl<C: Copy, Wp: WhitePoint> Components for Lab<C, Wp> {
    type Components = LAB<C>;

    open spec fn spec_components(&self) -> LAB<C> {
        LAB { l: self.spec_channels()@[0], a: self.spec_channels()@[1], b: self.spec_channels()@[2] }
    }

    fn as_components(&self) -> (r: LAB<C>) {
        let ch = self.channels();
        LAB { l: ch[0], a: ch[1], b: ch[2] }
    }

    fn set_components(&mut self, components: LAB<C>) {
        let ch = self.channels_mut();
        ch[0] = components.l;
        ch[1] = components.a;
        ch[2] = components.b;
    }
}

impl<C: Copy, Wp: WhitePoint> From<LAB<C>> for Lab<C, Wp> {
    fn from(components: LAB<C>) -> (r: Lab<C, Wp>) {
        Lab::with_wp(components.l, components.a, components.b)
    }
}

impl<C: Copy, Wp: WhitePoint> vstd::std_specs::convert::FromSpecImpl<LAB<C>> for Lab<C, Wp> {
    open spec fn obeys_from_spec() -> bool {
        true
    }

    open spec fn from_spec(components: LAB<C>) -> Lab<C, Wp> {
        Self::from_channels_spec([components.l, components.a, components.b])
    }
}

/// The component view and the channel container of a Lab color hold the same
/// values: a view written into a color is read back, in order, from its
/// container, and a view read from a color holds its container's channels.
pub proof fn lemma_lab_view_matches_container<C: Copy, Wp: WhitePoint>(color: Lab<C, Wp>, view: LAB<C>)
    ensures
        color.spec_components() == view <==> color.spec_channels()@ == seq![view.l, view.a, view.b],
{
    if color.spec_channels()@ == seq![view.l, view.a, view.b] {
        assert(color.spec_channels()@[0] == view.l);
        assert(color.spec_channels()@[1] == view.a);
        assert(color.spec_channels()@[2] == view.b);
    }
    if color.spec_components() == view {
        assert(color.spec_channels()@ =~= seq![view.l, view.a, view.b]);
    }
}

impl<C: Copy, Wp: WhitePoint> Lab<C, Wp> {
    /// The default Lab color.
    ///
    /// The reference white of L*a*b* needs the CIE Lab transform, which this
    /// library does not implement: the result is always `Unsupported`.
    pub fn try_default() -> (r: Result<Lab<C, Wp>, ConversionError>)
        ensures
            r == Err::<Lab<C, Wp>, ConversionError>(ConversionError::Unsupported),
    {
        Err(ConversionError::Unsupported)
    }
}

/// The CIE Lab transform is not implemented: both conversions report
/// `Unsupported` instead of producing a color.
impl<C: Copy, Wp: WhitePoint> FromColor<C, Wp> for Lab<C, Wp> {
    fn from_xyz(xyz: Xyz<C, Wp>) -> (r: Result<Lab<C, Wp>, ConversionError>)
        ensures
            r == Err::<Lab<C, Wp>, ConversionError>(ConversionError::Unsupported),
    {
        Err(ConversionError::Unsupported)
    }

    fn from_yxy(yxy: Yxy<C, Wp>) -> (r: Result<Lab<C, Wp>, ConversionError>)
        ensures
            r == Err::<Lab<C, Wp>, ConversionError>(ConversionError::Unsupported),
    {
        Err(ConversionError::Unsupported)
    }
}

} // verus!
