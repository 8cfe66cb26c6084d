use crate::pixel::{Pixel, PixelFundamental, PixelInteract, PixelType};
use vstd::prelude::*;

verus! {

/// A wall that never moves, has no state and never reacts.
#[derive(Debug, Clone, Copy, PartialEq, Eq, Structural)]
pub struct Rock;

impl Default for Rock {
    fn default() -> (r: Self)
        ensures
            r == Rock,
    {
        Rock
    }
}

impl PixelFundamental for Rock {
    open spec fn spec_name(&self) -> Seq<char> {
        "Rock"@
    }

    open spec fn spec_pixel_type(&self) -> PixelType {
        PixelType::Wall
    }

    open spec fn spec_friction(&self) -> i16 {
        0
    }

    open spec fn updated(&self) -> (Self, Option<Pixel>) {
        (*self, None)
    }

    fn name(&self) -> (r: &'static str) {
        "Rock"
    }

    fn pixel_type(&self) -> (r: PixelType) {
        PixelType::Wall
    }

    fn friction(&self) -> (r: i16) {
        0
    }

    fn update(&mut self) -> (r: Option<Pixel>) {
        None
    }
}

impl PixelInteract for Rock {
    open spec fn interacted(&self, target: Pixel) -> Self {
        *self
    }

    fn interact(&mut self, target: Pixel) {
    }
}

impl From<Rock> for Pixel {
    fn from(val: Rock) -> (r: Pixel) {
        Pixel::Rock(val)
    }
}

impl vstd::std_specs::convert::FromSpecImpl<Rock> for Pixel {
    open spec fn obeys_from_spec() -> bool {
        true
    }

    open spec fn from_spec(val: Rock) -> Pixel {
        Pixel::Rock(val)
    }
}

} // verus!
