//! D series illuminants for the CIE 1964 10° standard observer.
use vstd::prelude::*;
use super::WhitePoint;

verus! {

/// CIE D series illuminant D50: daylight at about 5000 K, 10° observer.
#[derive(Clone, Copy, Debug, PartialEq, Eq, Hash)]
pub struct D50Degree10;

impl WhitePoint for D50Degree10 {
    open spec fn spec_tristimulus() -> Seq<u32> {
        seq![96720u32, 100000u32, 81430u32]
    }

    fn tristimulus() -> (r: [u32; 3]) {
        let r: [u32; 3] = [96720, 100000, 81430];
        assert(r@ =~= Self::spec_tristimulus());
        r
    }
}

/// CIE D series illuminant D55: daylight at about 5500 K, 10° observer.
#[derive(Clone, Copy, Debug, PartialEq, Eq, Hash)]
pub struct D55Degree10;

impl WhitePoint for D55Degree10 {
    open spec fn spec_tristimulus() -> Seq<u32> {
        seq![95800u32, 100000u32, 90930u32]
    }

    fn tristimulus() -> (r: [u32; 3]) {
        let r: [u32; 3] = [95800, 100000, 90930];
        assert(r@ =~= Self::spec_tristimulus());
        r
    }
}

/// CIE D series illuminant D65: daylight at 6500 K, 10° observer.
#[derive(Clone, Copy, Debug, PartialEq, Eq, Hash)]
pub struct D65Degree10;

impl WhitePoint for D65Degree10 {
    open spec fn spec_tristimulus() -> Seq<u32> {
        seq![94810u32, 100000u32, 107300u32]
    }

    fn tristimulus() -> (r: [u32; 3]) {
        let r: [u32; 3] = [94810, 100000, 107300];
        assert(r@ =~= Self::spec_tristimulus());
        r
    }
}

/// CIE D series illuminant D75: daylight at about 7500 K, 10° observer.
#[derive(Clone, Copy, Debug, PartialEq, Eq, Hash)]
pub struct D75Degree10;

impl WhitePoint for D75Degree10 {
    open spec fn spec_tristimulus() -> Seq<u32> {
        seq![94416u32, 100000u32, 120640u32]
    }

    fn tristimulus() -> (r: [u32; 3]) {
        let r: [u32; 3] = [94416, 100000, 120640];
        assert(r@ =~= Self::spec_tristimulus());
        r
    }
}

} // verus!
