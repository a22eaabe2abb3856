//! Tristimulus values of the CIE standard illuminants.
//!
//! A white point is the reference white as seen by a standard observer under a
//! standard illuminant. Each illuminant is a zero-sized marker type that tags a
//! color; its X, Y, Z values are held exactly, in units of 1/100000.
use vstd::prelude::*;

pub mod degree10;

verus! {

/// Denominator of the tristimulus table: a stored value `v` stands for `v / 100000`.
pub const TRISTIMULUS_SCALE: u32 = 100000;

/// A reference white, identified by a marker type.
pub trait WhitePoint: Sized {
    /// The illuminant's X, Y and Z, each in units of 1/100000.
    spec fn spec_tristimulus() -> Seq<u32>;

    /// Returns the illuminant's X, Y and Z, each in units of 1/100000.
    fn tristimulus() -> (r: [u32; 3])
        ensures
            r@ == Self::spec_tristimulus(),
    ;
}

/// CIE standard illuminant A: domestic tungsten-filament lighting, a Planckian radiator at about 2856 K, 2° observer.
#[derive(Clone, Copy, Debug, PartialEq, Eq, Hash)]
pub struct A;

impl WhitePoint for A {
    open spec fn spec_tristimulus() -> Seq<u32> {
        seq![109850u32, 100000u32, 35585u32]
    }

    fn tristimulus() -> (r: [u32; 3]) {
        let r: [u32; 3] = [109850, 100000, 35585];
        assert(r@ =~= Self::spec_tristimulus());
        r
    }
}

/// CIE standard illuminant B: noon sunlight, correlated color temperature 4874 K, 2° observer.
#[derive(Clone, Copy, Debug, PartialEq, Eq, Hash)]
pub struct B;

impl WhitePoint for B {
    open spec fn spec_tristimulus() -> Seq<u32> {
        seq![99072u32, 100000u32, 85223u32]
    }

    fn tristimulus() -> (r: [u32; 3]) {
        let r: [u32; 3] = [99072, 100000, 85223];
        assert(r@ =~= Self::spec_tristimulus());
        r
    }
}

/// CIE standard illuminant C: average daylight, correlated color temperature 6774 K, 2° observer.
#[derive(Clone, Copy, Debug, PartialEq, Eq, Hash)]
pub struct C;

impl WhitePoint for C {
    open spec fn spec_tristimulus() -> Seq<u32> {
        seq![98074u32, 100000u32, 118232u32]
    }

    fn tristimulus() -> (r: [u32; 3]) {
        let r: [u32; 3] = [98074, 100000, 118232];
        assert(r@ =~= Self::spec_tristimulus());
        r
    }
}

/// CIE D series illuminant D50: daylight at about 5000 K, 2° observer.
#[derive(Clone, Copy, Debug, PartialEq, Eq, Hash)]
pub struct D50;

impl WhitePoint for D50 {
    open spec fn spec_tristimulus() -> Seq<u32> {
        seq![96422u32, 100000u32, 82521u32]
    }

    fn tristimulus() -> (r: [u32; 3]) {
        let r: [u32; 3] = [96422, 100000, 82521];
        assert(r@ =~= Self::spec_tristimulus());
        r
    }
}

/// CIE D series illuminant D55: daylight at about 5500 K, 2° observer.
#[derive(Clone, Copy, Debug, PartialEq, Eq, Hash)]
pub struct D55;

impl WhitePoint for D55 {
    open spec fn spec_tristimulus() -> Seq<u32> {
        seq![95682u32, 100000u32, 92149u32]
    }

    fn tristimulus() -> (r: [u32; 3]) {
        let r: [u32; 3] = [95682, 100000, 92149];
        assert(r@ =~= Self::spec_tristimulus());
        r
    }
}

/// CIE D series illuminant D65: daylight at 6500 K, 2° observer.
#[derive(Clone, Copy, Debug, PartialEq, Eq, Hash)]
pub struct D65;

impl WhitePoint for D65 {
    open spec fn spec_tristimulus() -> Seq<u32> {
        seq![95047u32, 100000u32, 108883u32]
    }

    fn tristimulus() -> (r: [u32; 3]) {
        let r: [u32; 3] = [95047, 100000, 108883];
        assert(r@ =~= Self::spec_tristimulus());
        r
    }
}

/// CIE D series illuminant D75: daylight at about 7500 K, 2° observer.
#[derive(Clone, Copy, Debug, PartialEq, Eq, Hash)]
pub struct D75;

impl WhitePoint for D75 {
    open spec fn spec_tristimulus() -> Seq<u32> {
        seq![94972u32, 100000u32, 122638u32]
    }

    fn tristimulus() -> (r: [u32; 3]) {
        let r: [u32; 3] = [94972, 100000, 122638];
        assert(r@ =~= Self::spec_tristimulus());
        r
    }
}

/// CIE standard illuminant E: the equal energy radiator, 2° observer.
#[derive(Clone, Copy, Debug, PartialEq, Eq, Hash)]
pub struct E;

impl WhitePoint for E {
    open spec fn spec_tristimulus() -> Seq<u32> {
        seq![100000u32, 100000u32, 100000u32]
    }

    fn tristimulus() -> (r: [u32; 3]) {
        let r: [u32; 3] = [100000, 100000, 100000];
        assert(r@ =~= Self::spec_tristimulus());
        r
    }
}

/// CIE fluorescent illuminant F2: a semi-broadband fluorescent lamp, 2° observer.
#[derive(Clone, Copy, Debug, PartialEq, Eq, Hash)]
pub struct F2;

impl WhitePoint for F2 {
    open spec fn spec_tristimulus() -> Seq<u32> {
        seq![99186u32, 100000u32, 67393u32]
    }

    fn tristimulus() -> (r: [u32; 3]) {
        let r: [u32; 3] = [99186, 100000, 67393];
        assert(r@ =~= Self::spec_tristimulus());
        r
    }
}

/// CIE fluorescent illuminant F7: a broadband fluorescent lamp, 2° observer.
#[derive(Clone, Copy, Debug, PartialEq, Eq, Hash)]
pub struct F7;

impl WhitePoint for F7 {
    open spec fn spec_tristimulus() -> Seq<u32> {
        seq![95041u32, 100000u32, 108747u32]
    }

    fn tristimulus() -> (r: [u32; 3]) {
        let r: [u32; 3] = [95041, 100000, 108747];
        assert(r@ =~= Self::spec_tristimulus());
        r
    }
}

/// CIE fluorescent illuminant F11: a narrowband fluorescent lamp, 2° observer.
#[derive(Clone, Copy, Debug, PartialEq, Eq, Hash)]
pub struct F11;

impl WhitePoint for F11 {
    open spec fn spec_tristimulus() -> Seq<u32> {
        seq![100962u32, 100000u32, 64350u32]
    }

    fn tristimulus() -> (r: [u32; 3]) {
        let r: [u32; 3] = [100962, 100000, 64350];
        assert(r@ =~= Self::spec_tristimulus());
        r
    }
}

} // verus!
