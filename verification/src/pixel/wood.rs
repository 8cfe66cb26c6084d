use crate::pixel::void::Void;
use crate::pixel::{Pixel, PixelFundamental, PixelInteract, PixelType};
use vstd::prelude::*;

verus! {

/// A wall that catches fire at 99 degrees, loses life while it burns,
/// crumbles to a light solid at 30 life and is gone at none.
#[derive(Debug, Clone, Copy, PartialEq, Eq, Structural)]
pub struct Wood {
    pub temp: u8,
    pub life: u8,
}

impl Default for Wood {
    fn default() -> (r: Self)
        ensures
            r == (Wood { temp: 0, life: 225 }),
    {
        Wood { temp: 0, life: 225 }
    }
}

impl Wood {
    /// At the temperature at which it burns.
    pub open spec fn spec_is_burning(&self) -> bool {
        self.temp >= 99
    }

    /// Hot enough to burn.
    #[verifier::when_used_as_spec(spec_is_burning)]
    pub fn is_burning(&self) -> (r: bool)
        ensures
            r == self.spec_is_burning(),
    {
        self.temp >= 99
    }

    /// The life that is left after one more tick: burning costs one.
    pub open spec fn remaining(&self) -> u8 {
        if self.is_burning() && self.life > 0 {
            (self.life - 1) as u8
        } else {
            self.life
        }
    }

    /// The wood after losing `loss` degrees, which only burning wood does.
    pub open spec fn cooled(&self, loss: u8) -> Self {
        if self.is_burning() {
            Wood { temp: (self.temp - loss) as u8, life: self.life }
        } else {
            *self
        }
    }

    /// The wood after gaining 20 degrees, which burning wood does not.
    pub open spec fn heated(&self) -> Self {
        if !self.is_burning() {
            Wood { temp: (self.temp + 20) as u8, life: self.life }
        } else {
            *self
        }
    }
}

impl PixelFundamental for Wood {
    open spec fn spec_name(&self) -> Seq<char> {
        "Wood"@
    }

    open spec fn spec_pixel_type(&self) -> PixelType {
        if self.life <= 30 {
            PixelType::Solid(9)
        } else {
            PixelType::Wall
        }
    }

    open spec fn spec_friction(&self) -> i16 {
        0
    }

    open spec fn updated(&self) -> (Self, Option<Pixel>) {
        (
            Wood { temp: self.temp, life: self.remaining() },
            if self.remaining() == 0 {
                Some(Pixel::Void(Void { burn: false }))
            } else {
                None
            },
        )
    }

    fn name(&self) -> (r: &'static str) {
        "Wood"
    }

    fn pixel_type(&self) -> (r: PixelType) {
        if self.life <= 30 {
            PixelType::Solid(9)
        } else {
            PixelType::Wall
        }
    }

    fn friction(&self) -> (r: i16) {
        0
    }

    fn update(&mut self) -> (r: Option<Pixel>) {
        if self.is_burning() && self.life > 0 {
            self.life -= 1;
        }
        if self.life == 0 {
            Some(Pixel::Void(Void::default()))
        } else {
            None
        }
    }
}

impl PixelInteract for Wood {
    open spec fn interacted(&self, target: Pixel) -> Self {
        match target {
            Pixel::Water(_) => self.cooled(20),
            Pixel::Ice(_) => self.cooled(30),
            Pixel::Fire(_) | Pixel::EternalFire(_) => self.heated(),
            Pixel::Wood(val) => if val.is_burning() {
                self.heated()
            } else {
                *self
            },
            _ => *self,
        }
    }

    fn interact(&mut self, target: Pixel) {
        match target {
            Pixel::Water(_) => {
                if self.is_burning() {
                    self.temp -= 20;
                }
            },
            Pixel::Ice(_) => {
                if self.is_burning() {
                    self.temp -= 30;
                }
            },
            Pixel::Fire(_) | Pixel::EternalFire(_) => {
                if !self.is_burning() {
                    self.temp += 20;
                }
            },
            Pixel::Wood(val) => {
                if val.is_burning() && !self.is_burning() {
                    self.temp += 20;
                }
            },
            _ => {},
        }
    }
}

impl From<Wood> for Pixel {
    fn from(val: Wood) -> (r: Pixel) {
        Pixel::Wood(val)
    }
}

impl vstd::std_specs::convert::FromSpecImpl<Wood> for Pixel {
    open spec fn obeys_from_spec() -> bool {
        true
    }

    open spec fn from_spec(val: Wood) -> Pixel {
        Pixel::Wood(val)
    }
}

} // verus!
