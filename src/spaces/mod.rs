//! The color spaces.
//!
//! Every space here has three channels. They share one representation,
//! [`TripleColor`], told apart by a zero-sized space marker; each space adds its
//! own named-field component view.
use vstd::prelude::*;

use core::marker::PhantomData;

use crate::channels::TripleChannel;
use crate::color::Color;
use crate::white_point::{WhitePoint, D65};

pub mod lab;
pub mod xyz;
pub mod yxy;

verus! {

/// A three-channel color of the space `S`, tagged with the white point `Wp`.
///
/// The space and the white point are compile-time tags only: two colors with
/// different tags are different types, so they can be neither compared nor
/// converted into each other without an explicit step.
pub struct TripleColor<S, C, Wp> {
    channels: TripleChannel<C>,
    space: PhantomData<S>,
    white_point: PhantomData<Wp>,
}

impl<S, C, Wp> TripleColor<S, C, Wp> {
    /// The color whose container is `channels`.
    pub closed spec fn from_channels_spec(channels: TripleChannel<C>) -> TripleColor<S, C, Wp> {
        TripleColor { channels, space: PhantomData, white_point: PhantomData }
    }
}

impl<S, C: Copy> TripleColor<S, C, D65> {
    /// Creates a color tagged with the default white point D65.
    pub fn new(c0: C, c1: C, c2: C) -> (r: TripleColor<S, C, D65>)
        ensures
            r.spec_channels()@ == seq![c0, c1, c2],
    {
        Self::with_wp(c0, c1, c2)
    }
}

impl<S, C: Copy, Wp: WhitePoint> TripleColor<S, C, Wp> {
    /// Creates a color tagged with the white point `Wp`.
    pub fn with_wp(c0: C, c1: C, c2: C) -> (r: TripleColor<S, C, Wp>)
        ensures
            r.spec_channels()@ == seq![c0, c1, c2],
            r == Self::from_channels_spec([c0, c1, c2]),
    {
        let r = TripleColor { channels: [c0, c1, c2], space: PhantomData, white_point: PhantomData };
        assert(r.channels@ =~= seq![c0, c1, c2]);
        r
    }

    /// Applies `f` to every channel, keeping channel order, space and white point.
    ///
    /// This is how a color moves between channel types, for instance between an
    /// integer encoding and its canonical float encoding.
    pub fn map_channels<D: Copy, F: Fn(C) -> D>(self, f: F) -> (r: TripleColor<S, D, Wp>)
        requires
            forall|i: int| 0 <= i < 3 ==> f.requires((self.spec_channels()@[i],)),
        ensures
            forall|i: int| 0 <= i < 3 ==> f.ensures((self.spec_channels()@[i],), #[trigger] r.spec_channels()@[i]),
    {
        assert(f.requires((self.spec_channels()@[0],)));
        assert(f.requires((self.spec_channels()@[1],)));
        assert(f.requires((self.spec_channels()@[2],)));
        let c0 = f(self.channels[0]);
        let c1 = f(self.channels[1]);
        let c2 = f(self.channels[2]);
        TripleColor::with_wp(c0, c1, c2)
    }

    /// Returns a mutable reference to the channel at index `i`.
    pub(crate) fn channel_mut(&mut self, i: usize) -> (r: &mut C)
        requires
            i < 3,
        ensures
            *r == old(self).spec_channels()@[i as int],
            final(self).spec_channels()@ == old(self).spec_channels()@.update(i as int, *final(r)),
    {
        &mut self.channels[i]
    }
}

/// A color built from a container holds exactly that container.
pub proof fn lemma_from_channels_spec<S, C: Copy, Wp: WhitePoint>(channels: TripleChannel<C>)
    ensures
        TripleColor::<S, C, Wp>::from_channels_spec(channels).spec_channels() == channels,
{
}

impl<S, C: Copy, Wp: WhitePoint> Color for TripleColor<S, C, Wp> {
    type Channel = C;

    type Channels = TripleChannel<C>;

    type WhitePoint = Wp;

    closed spec fn spec_channels(&self) -> TripleChannel<C> {
        self.channels
    }

    fn from_channels(channels: TripleChannel<C>) -> (r: TripleColor<S, C, Wp>) {
        TripleColor { channels, space: PhantomData, white_point: PhantomData }
    }

    fn channels(&self) -> (r: &TripleChannel<C>) {
        &self.channels
    }

    fn channels_mut(&mut self) -> (r: &mut TripleChannel<C>) {
        &mut self.channels
    }
}

impl<S, C: Copy, Wp> Clone for TripleColor<S, C, Wp> {
    fn clone(&self) -> (r: TripleColor<S, C, Wp>)
        ensures
            r == *self,
    {
        TripleColor { channels: self.channels, space: PhantomData, white_point: PhantomData }
    }
}

impl<S, C: Copy, Wp> Copy for TripleColor<S, C, Wp> {

}

} // verus!
