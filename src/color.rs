//! The contract shared by every color space: raw channel access, a named-field
//! component view, and conversion entry points.
use vstd::prelude::*;

use crate::spaces::xyz::Xyz;
use crate::spaces::yxy::Yxy;
use crate::white_point::WhitePoint;

verus! {

/// A color: a fixed-length channel container tagged with a white point.
pub trait Color: Sized {
    /// The type of each color channel.
    type Channel: Copy;

    /// Container type for the color channels.
    type Channels;

    /// The white point that tags this color.
    type WhitePoint: WhitePoint;

    /// The channel container, as a value.
    spec fn spec_channels(&self) -> Self::Channels;

    /// Creates a color from its raw channel data.
    fn from_channels(channels: Self::Channels) -> (r: Self)
        ensures
            r.spec_channels() == channels,
    ;

    /// Returns a reference to the channel container.
    fn channels(&self) -> (r: &Self::Channels)
        ensures
            *r == self.spec_channels(),
    ;

    /// Returns a mutable reference to the channel container.
    fn channels_mut(&mut self) -> (r: &mut Self::Channels)
        ensures
            *r == old(self).spec_channels(),
            final(self).spec_channels() == *final(r),
    ;
}

} // verus!

verus! {

/// A named-field view of a color's channel container.
///
/// The view is a copy taken from, or written back to, the container: it never
/// owns channel data of its own.
pub trait Components {
    /// The named-field struct, one field per channel, in container order.
    type Components;

    /// The view of this color's channels.
    spec fn spec_components(&self) -> Self::Components;

    /// Returns the named-field view of the channels.
    fn as_components(&self) -> (r: Self::Components)
        ensures
            r == self.spec_components(),
    ;

    /// Writes every channel from a named-field view.
    fn set_components(&mut self, components: Self::Components)
        ensures
            final(self).spec_components() == components,
    ;
}

/// Why a conversion between color spaces produced no color.
#[derive(Clone, Copy, Debug, PartialEq, Eq, Hash)]
pub enum ConversionError {
    /// The conversion has no implementation in this library.
    Unsupported,
}

/// Construction of a color from the XYZ and Yxy spaces with the same white point.
pub trait FromColor<C, Wp>: Sized {
    /// Converts from CIE XYZ.
    fn from_xyz(xyz: Xyz<C, Wp>) -> Result<Self, ConversionError>;

    /// Converts from CIE Yxy.
    fn from_yxy(yxy: Yxy<C, Wp>) -> Result<Self, ConversionError>;
}

} // verus!
