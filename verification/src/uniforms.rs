use vstd::prelude::*;

verus! {

/// A half-extent of the view along one axis, as the exact fraction
/// `numerator / denominator`. The view reaches from minus the half-extent to
/// plus the half-extent.
#[derive(Clone, Copy, Debug, PartialEq, Eq, Structural)]
pub struct Extent {
    pub numerator: u32,
    pub denominator: u32,
}

impl Extent {
    /// The half-extent 1.
    pub open spec fn unit() -> Extent {
        Extent { numerator: 1, denominator: 1 }
    }

    /// This half-extent is the fraction `numerator / denominator`.
    pub open spec fn equals(self, numerator: int, denominator: int) -> bool {
        self.numerator * denominator == numerator * self.denominator
    }

    /// This half-extent is exactly 1.
    pub open spec fn is_unit(self) -> bool {
        self.numerator == self.denominator
    }
}

/// What the shared orthographic projection is made from: the half-extents of
/// the view along the two screen axes. It depends on the size of the viewport
/// and on nothing else.
#[derive(Clone, Copy, Debug, PartialEq, Eq, Structural)]
pub struct ViewUniforms {
    pub half_width: Extent,
    pub half_height: Extent,
}

impl ViewUniforms {
    /// The view of a viewport of `width` by `height` pixels: the shorter axis
    /// has half-extent 1, the longer one the ratio of the longer side to the
    /// shorter, so that a unit circle is drawn round.
    pub open spec fn spec_for_size(width: u32, height: u32) -> ViewUniforms {
        if width >= height {
            ViewUniforms {
                half_width: Extent { numerator: width, denominator: height },
                half_height: Extent::unit(),
            }
        } else {
            ViewUniforms {
                half_width: Extent::unit(),
                half_height: Extent { numerator: height, denominator: width },
            }
        }
    }

    /// The view of a viewport of `width` by `height` pixels.
    pub fn for_size(width: u32, height: u32) -> (view: ViewUniforms)
        ensures
            view == ViewUniforms::spec_for_size(width, height),
    {
        let unit = Extent { numerator: 1, denominator: 1 };
        if width >= height {
            ViewUniforms {
                half_width: Extent { numerator: width, denominator: height },
                half_height: unit,
            }
        } else {
            ViewUniforms {
                half_width: unit,
                half_height: Extent { numerator: height, denominator: width },
            }
        }
    }
}

} // verus!
