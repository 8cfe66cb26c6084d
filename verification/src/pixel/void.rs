use crate::pixel::fire::Fire;
use crate::pixel::{Pixel, PixelFundamental, PixelInteract, PixelType};
use vstd::prelude::*;

verus! {

/// The empty cell. Contact with eternal fire sets it alight, and a void that
/// is alight becomes fire at its next update.
#[derive(Debug, Clone, Copy, PartialEq, Eq, Structural)]
pub struct Void {
    pub burn: bool,
}

impl Default for Void {
    fn default() -> (r: Self)
        ensures
            r == (Void { burn: false }),
    {
        Void { burn: false }
    }
}

impl PixelFundamental for Void {
    open spec fn spec_name(&self) -> Seq<char> {
        "Void"@
    }

    open spec fn spec_pixel_type(&self) -> PixelType {
        PixelType::Void
    }

    open spec fn spec_friction(&self) -> i16 {
        0
    }

    open spec fn updated(&self) -> (Self, Option<Pixel>) {
        if self.burn {
            (*self, Some(Pixel::Fire(Fire { life: 60 })))
        } else {
            (*self, None)
        }
    }

    fn name(&self) -> (r: &'static str) {
        "Void"
    }

    fn pixel_type(&self) -> (r: PixelType) {
        PixelType::Void
    }

    fn friction(&self) -> (r: i16) {
        0
    }

    fn update(&mut self) -> (r: Option<Pixel>) {
        if self.burn {
            Some(Pixel::Fire(Fire::default()))
        } else {
            None
        }
    }
}

impl PixelInteract for Void {
    open spec fn interacted(&self, target: Pixel) -> Self {
        match target {
            Pixel::EternalFire(_) => Void { burn: true },
            _ => *self,
        }
    }

    fn interact(&mut self, target: Pixel) {
        match target {
            Pixel::EternalFire(_) => {
                self.burn = true;
            },
            _ => {},
        }
    }
}

impl From<Void> for Pixel {
    fn from(val: Void) -> (r: Pixel) {
        Pixel::Void(val)
    }
}

impl vstd::std_specs::convert::FromSpecImpl<Void> for Pixel {
    open spec fn obeys_from_spec() -> bool {
        true
    }

    open spec fn from_spec(val: Void) -> Pixel {
        Pixel::Void(val)
    }
}

} // verus!
