use crate::pixel::ice::Ice;
use crate::pixel::steam::Steam;
use crate::pixel::{Pixel, PixelFundamental, PixelInteract, PixelType};
use vstd::prelude::*;

verus! {

/// A liquid that boils to steam at 30 degrees and freezes to ice at 10.
#[derive(Debug, Clone, Copy, PartialEq, Eq, Structural)]
pub struct Water {
    pub temp: u8,
}

impl Default for Water {
    fn default() -> (r: Self)
        ensures
            r == (Water { temp: 20 }),
    {
        Water { temp: 20 }
    }
}

impl Water {
    /// At the temperature at which it boils.
    pub open spec fn spec_is_burning(&self) -> bool {
        self.temp >= 30
    }

    /// Hot enough to turn to steam.
    #[verifier::when_used_as_spec(spec_is_burning)]
    pub fn is_burning(&self) -> (r: bool)
        ensures
            r == self.spec_is_burning(),
    {
        self.temp >= 30
    }

    /// At the temperature at which it freezes.
    pub open spec fn spec_is_frozen(&self) -> bool {
        self.temp <= 10
    }

    /// Cold enough to turn to ice.
    #[verifier::when_used_as_spec(spec_is_frozen)]
    pub fn is_frozen(&self) -> (r: bool)
        ensures
            r == self.spec_is_frozen(),
    {
        self.temp <= 10
    }
}

impl PixelFundamental for Water {
    open spec fn spec_name(&self) -> Seq<char> {
        "Water"@
    }

    open spec fn spec_pixel_type(&self) -> PixelType {
        PixelType::Liquid(10)
    }

    open spec fn spec_friction(&self) -> i16 {
        5
    }

    open spec fn updated(&self) -> (Self, Option<Pixel>) {
        if self.is_burning() {
            (*self, Some(Pixel::Steam(Steam { temp: 200 })))
        } else if self.is_frozen() {
            (*self, Some(Pixel::Ice(Ice { temp: 0 })))
        } else {
            (*self, None)
        }
    }

    fn name(&self) -> (r: &'static str) {
        "Water"
    }

    fn pixel_type(&self) -> (r: PixelType) {
        PixelType::Liquid(10)
    }

    fn friction(&self) -> (r: i16) {
        5
    }

    fn update(&mut self) -> (r: Option<Pixel>) {
        if self.is_burning() {
            Some(Pixel::Steam(Steam::default()))
        } else if self.is_frozen() {
            Some(Pixel::Ice(Ice::default()))
        } else {
            None
        }
    }
}

impl PixelInteract for Water {
    open spec fn interacted(&self, target: Pixel) -> Self {
        match target {
            Pixel::Fire(_) | Pixel::EternalFire(_) => if !self.is_burning() {
                Water { temp: (self.temp + 2) as u8 }
            } else {
                *self
            },
            Pixel::Wood(val) => if val.is_burning() && !self.is_burning() {
                Water { temp: (self.temp + 2) as u8 }
            } else {
                *self
            },
            Pixel::Ice(_) => if !self.is_frozen() {
                Water { temp: (self.temp - 2) as u8 }
            } else {
                *self
            },
            _ => *self,
        }
    }

    fn interact(&mut self, target: Pixel) {
        match target {
            Pixel::Fire(_) | Pixel::EternalFire(_) => {
                if !self.is_burning() {
                    self.temp += 2;
                }
            },
            Pixel::Wood(val) => {
                if val.is_burning() && !self.is_burning() {
                    self.temp += 2;
                }
            },
            Pixel::Ice(_) => {
                if !self.is_frozen() {
                    self.temp -= 2;
                }
            },
            _ => {},
        }
    }
}

impl From<Water> for Pixel {
    fn from(val: Water) -> (r: Pixel) {
        Pixel::Water(val)
    }
}

impl vstd::std_specs::convert::FromSpecImpl<Water> for Pixel {
    open spec fn obeys_from_spec() -> bool {
        true
    }

    open spec fn from_spec(val: Water) -> Pixel {
        Pixel::Water(val)
    }
}

} // verus!
