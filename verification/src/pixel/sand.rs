use crate::pixel::{Pixel, PixelFundamental, PixelInteract, PixelType};
use vstd::prelude::*;

verus! {

/// A heavy solid that piles up; it has no state and never reacts.
#[derive(Debug, Clone, Copy, PartialEq, Eq, Structural)]
pub struct Sand;

impl Default for Sand {
    fn default() -> (r: Self)
        ensures
            r == Sand,
    {
        Sand
    }
}

impl PixelFundamental for Sand {
    open spec fn spec_name(&self) -> Seq<char> {
        "Sand"@
    }

    open spec fn spec_pixel_type(&self) -> PixelType {
        PixelType::Solid(50)
    }

    open spec fn spec_friction(&self) -> i16 {
        15
    }

    open spec fn updated(&self) -> (Self, Option<Pixel>) {
        (*self, None)
    }

    fn name(&self) -> (r: &'static str) {
        "Sand"
    }

    fn pixel_type(&self) -> (r: PixelType) {
        PixelType::Solid(50)
    }

    fn friction(&self) -> (r: i16) {
        15
    }

    fn update(&mut self) -> (r: Option<Pixel>) {
        None
    }
}

impl PixelInteract for Sand {
    open spec fn interacted(&self, target: Pixel) -> Self {
        *self
    }

    fn interact(&mut self, target: Pixel) {
    }
}

impl From<Sand> for Pixel {
    fn from(val: Sand) -> (r: Pixel) {
        Pixel::Sand(val)
    }
}

impl vstd::std_specs::convert::FromSpecImpl<Sand> for Pixel {
    open spec fn obeys_from_spec() -> bool {
        true
    }

    open spec fn from_spec(val: Sand) -> Pixel {
        Pixel::Sand(val)
    }
}

} // verus!
