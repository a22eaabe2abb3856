//! Fixed-length, order-significant channel containers.
use vstd::prelude::*;

verus! {

/// Container of a one-channel color.
pub type SingleChannel<C> = [C; 1];

/// Container of a two-channel color.
pub type DualChannel<C> = [C; 2];

/// Container of a three-channel color.
pub type TripleChannel<C> = [C; 3];

/// Container of a four-channel color.
pub type QuadChannel<C> = [C; 4];

} // verus!
