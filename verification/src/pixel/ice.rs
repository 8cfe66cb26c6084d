use crate::pixel::water::Water;
use crate::pixel::{Pixel, PixelFundamental, PixelInteract, PixelType};
use vstd::prelude::*;

verus! {

/// A wall that warms on contact and melts to water at 99 degrees.
#[derive(Debug, Clone, Copy, PartialEq, Eq, Structural)]
pub struct Ice {
    pub temp: u8,
}

impl Default for Ice {
    fn default() -> (r: Self)
        ensures
            r == (Ice { temp: 0 }),
    {
        Ice { temp: 0 }
    }
}

impl Ice {
    /// At the temperature at which it melts.
    pub open spec fn spec_is_burning(&self) -> bool {
        self.temp >= 99
    }

    /// Warm enough to melt.
    #[verifier::when_used_as_spec(spec_is_burning)]
    pub fn is_burning(&self) -> (r: bool)
        ensures
            r == self.spec_is_burning(),
    {
        self.temp >= 99
    }

    /// The ice after `gain` degrees of heat, which a melting ice ignores.
    pub open spec fn warmed(&self, gain: u8) -> Self {
        if !self.is_burning() {
            Ice { temp: (self.temp + gain) as u8 }
        } else {
            *self
        }
    }
}

impl PixelFundamental for Ice {
    open spec fn spec_name(&self) -> Seq<char> {
        "Ice"@
    }

    open spec fn spec_pixel_type(&self) -> PixelType {
        PixelType::Wall
    }

    open spec fn spec_friction(&self) -> i16 {
        0
    }

    open spec fn updated(&self) -> (Self, Option<Pixel>) {
        if self.is_burning() {
            (*self, Some(Pixel::Water(Water { temp: 20 })))
        } else {
            (*self, None)
        }
    }

    fn name(&self) -> (r: &'static str) {
        "Ice"
    }

    fn pixel_type(&self) -> (r: PixelType) {
        PixelType::Wall
    }

    fn friction(&self) -> (r: i16) {
        0
    }

    fn update(&mut self) -> (r: Option<Pixel>) {
        if self.is_burning() {
            Some(Pixel::Water(Water::default()))
        } else {
            None
        }
    }
}

impl PixelInteract for Ice {
    open spec fn interacted(&self, target: Pixel) -> Self {
        match target {
            Pixel::Fire(_) | Pixel::EternalFire(_) => self.warmed(20),
            Pixel::Water(_) => self.warmed(10),
            Pixel::Steam(_) => self.warmed(15),
            _ => *self,
        }
    }

    fn interact(&mut self, target: Pixel) {
        match target {
            Pixel::Fire(_) | Pixel::EternalFire(_) => {
                if !self.is_burning() {
                    self.temp += 20;
                }
            },
            Pixel::Water(_) => {
                if !self.is_burning() {
                    self.temp += 10;
                }
            },
            Pixel::Steam(_) => {
                if !self.is_burning() {
                    self.temp += 15;
                }
            },
            _ => {},
        }
    }
}

impl From<Ice> for Pixel {
    fn from(val: Ice) -> (r: Pixel) {
        Pixel::Ice(val)
    }
}

impl vstd::std_specs::convert::FromSpecImpl<Ice> for Pixel {
    open spec fn obeys_from_spec() -> bool {
        true
    }

    open spec fn from_spec(val: Ice) -> Pixel {
        Pixel::Ice(val)
    }
}

} // verus!
