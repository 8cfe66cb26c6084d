use crate::pixel::water::Water;
use crate::pixel::{Pixel, PixelFundamental, PixelInteract, PixelType};
use vstd::prelude::*;

verus! {

/// A gas that cools on contact and condenses to water below 10 degrees.
#[derive(Debug, Clone, Copy, PartialEq, Eq, Structural)]
pub struct Steam {
    pub temp: u8,
}

impl Default for Steam {
    fn default() -> (r: Self)
        ensures
            r == (Steam { temp: 200 }),
    {
        Steam { temp: 200 }
    }
}

impl PixelFundamental for Steam {
    open spec fn spec_name(&self) -> Seq<char> {
        "Steam"@
    }

    open spec fn spec_pixel_type(&self) -> PixelType {
        PixelType::Gas(-10i8)
    }

    open spec fn spec_friction(&self) -> i16 {
        0
    }

    open spec fn updated(&self) -> (Self, Option<Pixel>) {
        if self.temp < 10 {
            (*self, Some(Pixel::Water(Water { temp: 20 })))
        } else {
            (*self, None)
        }
    }

    fn name(&self) -> (r: &'static str) {
        "Steam"
    }

    fn pixel_type(&self) -> (r: PixelType) {
        PixelType::Gas(-10)
    }

    fn friction(&self) -> (r: i16) {
        0
    }

    fn update(&mut self) -> (r: Option<Pixel>) {
        if self.temp < 10 {
            Some(Pixel::Water(Water::default()))
        } else {
            None
        }
    }
}

impl PixelInteract for Steam {
    open spec fn interacted(&self, target: Pixel) -> Self {
        match target {
            Pixel::Water(_) | Pixel::Steam(_) => if self.temp > 0 {
                Steam { temp: (self.temp - 1) as u8 }
            } else {
                *self
            },
            Pixel::Ice(_) => if self.temp > 1 {
                Steam { temp: (self.temp - 2) as u8 }
            } else {
                Steam { temp: 0 }
            },
            _ => *self,
        }
    }

    fn interact(&mut self, target: Pixel) {
        match target {
            Pixel::Water(_) | Pixel::Steam(_) => {
                if self.temp > 0 {
                    self.temp -= 1;
                }
            },
            Pixel::Ice(_) => {
                if self.temp > 1 {
                    self.temp -= 2;
                } else {
                    self.temp = 0;
                }
            },
            _ => {},
        }
    }
}

impl From<Steam> for Pixel {
    fn from(val: Steam) -> (r: Pixel) {
        Pixel::Steam(val)
    }
}

impl vstd::std_specs::convert::FromSpecImpl<Steam> for Pixel {
    open spec fn obeys_from_spec() -> bool {
        true
    }

    open spec fn from_spec(val: Steam) -> Pixel {
        Pixel::Steam(val)
    }
}

} // verus!
