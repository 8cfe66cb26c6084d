use crate::pixel::{Pixel, PixelFundamental, PixelInteract, PixelType};
use vstd::prelude::*;

verus! {

/// A wall of fire that never burns out; it heats and ignites what touches it.
#[derive(Debug, Clone, Copy, PartialEq, Eq, Structural)]
pub struct EternalFire;

impl Default for EternalFire {
    fn default() -> (r: Self)
        ensures
            r == EternalFire,
    {
        EternalFire
    }
}

impl PixelFundamental for EternalFire {
    open spec fn spec_name(&self) -> Seq<char> {
        "Eternal fire"@
    }

    open spec fn spec_pixel_type(&self) -> PixelType {
        PixelType::Wall
    }

    open spec fn spec_friction(&self) -> i16 {
        0
    }

    open spec fn updated(&self) -> (Self, Option<Pixel>) {
        (*self, None)
    }

    fn name(&self) -> (r: &'static str) {
        "Eternal fire"
    }

    fn pixel_type(&self) -> (r: PixelType) {
        PixelType::Wall
    }

    fn friction(&self) -> (r: i16) {
        0
    }

    fn update(&mut self) -> (r: Option<Pixel>) {
        None
    }
}

impl PixelInteract for EternalFire {
    open spec fn interacted(&self, target: Pixel) -> Self {
        *self
    }

    fn interact(&mut self, target: Pixel) {
    }
}

impl From<EternalFire> for Pixel {
    fn from(val: EternalFire) -> (r: Pixel) {
        Pixel::EternalFire(val)
    }
}

impl vstd::std_specs::convert::FromSpecImpl<EternalFire> for Pixel {
    open spec fn obeys_from_spec() -> bool {
        true
    }

    open spec fn from_spec(val: EternalFire) -> Pixel {
        Pixel::EternalFire(val)
    }
}

} // verus!
