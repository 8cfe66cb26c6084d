use crate::pixel::void::Void;
use crate::pixel::{Pixel, PixelFundamental, PixelInteract, PixelType};
use vstd::prelude::*;

verus! {

/// A light gas that burns for a fixed number of ticks and then leaves an
/// empty cell.
#[derive(Debug, Clone, Copy, PartialEq, Eq, Structural)]
pub struct Fire {
    pub life: u8,
}

impl Default for Fire {
    fn default() -> (r: Self)
        ensures
            r == (Fire { life: 60 }),
    {
        Fire { life: 60 }
    }
}

impl Fire {
    /// The life that is left after one more tick; a spent fire stays spent.
    pub open spec fn remaining(&self) -> u8 {
        if self.life > 0 {
            (self.life - 1) as u8
        } else {
            0
        }
    }
}

impl PixelFundamental for Fire {
    open spec fn spec_name(&self) -> Seq<char> {
        "Fire"@
    }

    open spec fn spec_pixel_type(&self) -> PixelType {
        PixelType::Gas(-1i8)
    }

    open spec fn spec_friction(&self) -> i16 {
        0
    }

    open spec fn updated(&self) -> (Self, Option<Pixel>) {
        (
            Fire { life: self.remaining() },
            if self.remaining() == 0 {
                Some(Pixel::Void(Void { burn: false }))
            } else {
                None
            },
        )
    }

    fn name(&self) -> (r: &'static str) {
        "Fire"
    }

    fn pixel_type(&self) -> (r: PixelType) {
        PixelType::Gas(-1)
    }

    fn friction(&self) -> (r: i16) {
        0
    }

    fn update(&mut self) -> (r: Option<Pixel>) {
        if self.life > 0 {
            self.life -= 1;
        }
        if self.life == 0 {
            Some(Pixel::Void(Void::default()))
        } else {
            None
        }
    }
}

impl PixelInteract for Fire {
    open spec fn interacted(&self, target: Pixel) -> Self {
        *self
    }

    fn interact(&mut self, target: Pixel) {
    }
}

impl From<Fire> for Pixel {
    fn from(val: Fire) -> (r: Pixel) {
        Pixel::Fire(val)
    }
}

impl vstd::std_specs::convert::FromSpecImpl<Fire> for Pixel {
    open spec fn obeys_from_spec() -> bool {
        true
    }

    open spec fn from_spec(val: Fire) -> Pixel {
        Pixel::Fire(val)
    }
}

} // verus!
