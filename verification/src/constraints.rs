//! The bounds within which a widget may choose its size.

use vstd::prelude::*;
use crate::geometry::{Size, UNBOUNDED};

verus! {

/// `extent` raised to at least `lo`, then lowered to at most `hi`.
pub open spec fn clamp_extent(extent: u32, lo: u32, hi: u32) -> u32 {
    let raised = if extent < lo {
        lo
    } else {
        extent
    };
    if raised > hi {
        hi
    } else {
        raised
    }
}

/// The smallest and the largest size that a widget may take.
#[derive(Clone, Copy, Debug, PartialEq, Eq, Structural)]
pub struct BoxConstraints {
    pub min: Size,
    pub max: Size,
}

impl BoxConstraints {
    pub fn new(min: Size, max: Size) -> (bc: BoxConstraints)
        ensures
            bc == (BoxConstraints { min, max }),
    {
        BoxConstraints { min, max }
    }

    /// Constraints that admit `size` and nothing else.
    pub fn tight(size: Size) -> (bc: BoxConstraints)
        ensures
            bc == (BoxConstraints { min: size, max: size }),
    {
        BoxConstraints { min: size, max: size }
    }

    /// Constraints that admit every size.
    pub fn unbounded() -> (bc: BoxConstraints)
        ensures
            bc == (BoxConstraints {
                min: Size { width: 0, height: 0 },
                max: Size { width: UNBOUNDED, height: UNBOUNDED },
            }),
    {
        BoxConstraints {
            min: Size { width: 0, height: 0 },
            max: Size { width: UNBOUNDED, height: UNBOUNDED },
        }
    }

    /// The size closest to `size` that these constraints admit.
    pub open spec fn spec_constrain(&self, size: Size) -> Size {
        Size {
            width: clamp_extent(size.width, self.min.width, self.max.width),
            height: clamp_extent(size.height, self.min.height, self.max.height),
        }
    }

    /// The size closest to `size` that these constraints admit.
    #[verifier::when_used_as_spec(spec_constrain)]
    pub fn constrain(&self, size: Size) -> (constrained: Size)
        ensures
            constrained == self.spec_constrain(size),
    {
        Size {
            width: constrain_extent(size.width, self.min.width, self.max.width),
            height: constrain_extent(size.height, self.min.height, self.max.height),
        }
    }
}

fn constrain_extent(extent: u32, lo: u32, hi: u32) -> (constrained: u32)
    ensures
        constrained == clamp_extent(extent, lo, hi),
{
    let raised = if extent < lo {
        lo
    } else {
        extent
    };
    if raised > hi {
        hi
    } else {
        raised
    }
}

} // verus!
