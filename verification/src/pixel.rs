//! Materials: their categories, their state and how they react.

pub mod direction;
pub mod eternal_fire;
pub mod fire;
pub mod ice;
pub mod rock;
pub mod sand;
pub mod steam;
pub mod void;
pub mod water;
pub mod wood;

pub use self::direction::Direction;

use self::eternal_fire::EternalFire;
use self::fire::Fire;
use self::ice::Ice;
use self::rock::Rock;
use self::sand::Sand;
use self::steam::Steam;
use self::void::Void;
use self::water::Water;
use self::wood::Wood;
use crate::sandbox::{AdjacentPixels, PixelContainer};
use vstd::prelude::*;

verus! {

/// The category of a material, with its density where it has one.
#[derive(Debug, Clone, Copy, PartialEq, Eq, Structural)]
pub enum PixelType {
    /// Rises: up, up left or up right, then left or right.
    Gas(i8),
    /// Moves down, down left, down right, left or right.
    Liquid(i8),
    /// Moves down, down left or down right.
    Solid(i8),
    /// Never moves and is never displaced.
    Wall,
    /// An empty cell.
    Void,
}

impl PixelType {
    /// The density of a gas, a liquid or a solid; walls and the void have none.
    pub open spec fn spec_density(&self) -> Option<i8> {
        match self {
            PixelType::Gas(d) => Some(*d),
            PixelType::Liquid(d) => Some(*d),
            PixelType::Solid(d) => Some(*d),
            _ => None,
        }
    }

    /// The density, if the category has one.
    #[verifier::when_used_as_spec(spec_density)]
    pub fn density(&self) -> (r: Option<i8>)
        ensures
            r == self.spec_density(),
    {
        match self {
            PixelType::Gas(d) => Some(*d),
            PixelType::Liquid(d) => Some(*d),
            PixelType::Solid(d) => Some(*d),
            _ => None,
        }
    }

    /// True for the empty category only.
    pub open spec fn spec_is_void(&self) -> bool {
        *self == PixelType::Void
    }

    /// Whether this is the empty category.
    #[verifier::when_used_as_spec(spec_is_void)]
    pub fn is_void(&self) -> (r: bool)
        ensures
            r == self.spec_is_void(),
    {
        match self {
            PixelType::Void => true,
            _ => false,
        }
    }
}

/// One material value: exactly one of the closed set of variants.
#[derive(Debug, Clone, Copy, PartialEq, Eq, Structural)]
pub enum Pixel {
    Steam(Steam),
    Sand(Sand),
    Rock(Rock),
    Water(Water),
    Ice(Ice),
    Fire(Fire),
    EternalFire(EternalFire),
    Wood(Wood),
    Void(Void),
}

/// What every material says of itself, and how it changes phase.
pub trait PixelFundamental: Sized {
    /// The display name, as a sequence of characters.
    spec fn spec_name(&self) -> Seq<char>;

    /// The category, which may depend on the material's state.
    spec fn spec_pixel_type(&self) -> PixelType;

    /// The friction of the material.
    spec fn spec_friction(&self) -> i16;

    /// The state after one update, and the material that replaces this one,
    /// if a phase transition fires.
    spec fn updated(&self) -> (Self, Option<Pixel>);

    /// The display name.
    fn name(&self) -> (r: &'static str)
        ensures
            r@ == self.spec_name(),
    ;

    /// The category that the material has in its present state.
    fn pixel_type(&self) -> (r: PixelType)
        ensures
            r == self.spec_pixel_type(),
    ;

    /// The friction of the material.
    fn friction(&self) -> (r: i16)
        ensures
            r == self.spec_friction(),
    ;

    /// Updates the material once, and returns what replaces it if it
    /// changes phase.
    fn update(&mut self) -> (r: Option<Pixel>)
        ensures
            (*final(self), r) == old(self).updated(),
    ;
}

/// How a material's state changes on contact with a neighbour.
pub trait PixelInteract: Sized {
    /// The state after contact with `target`.
    spec fn interacted(&self, target: Pixel) -> Self;

    /// Changes the state as contact with `target` does.
    fn interact(&mut self, target: Pixel)
        ensures
            *final(self) == old(self).interacted(target),
    ;
}

/// The key that selects a material in a front end.
pub trait PixelHotkey {
    /// The key, as a character.
    spec fn spec_hotkey(&self) -> char;

    /// The key that selects this material.
    fn hotkey(&self) -> (r: char)
        ensures
            r == self.spec_hotkey(),
    ;
}

impl PixelHotkey for Pixel {
    open spec fn spec_hotkey(&self) -> char {
        match self {
            Pixel::Sand(_) => '1',
            Pixel::Water(_) => '2',
            Pixel::Rock(_) => '3',
            Pixel::Steam(_) => '4',
            Pixel::Ice(_) => '5',
            Pixel::Fire(_) => '6',
            Pixel::Wood(_) => '7',
            Pixel::EternalFire(_) => '8',
            Pixel::Void(_) => '0',
        }
    }

    fn hotkey(&self) -> (r: char) {
        match self {
            Pixel::Sand(_) => '1',
            Pixel::Water(_) => '2',
            Pixel::Rock(_) => '3',
            Pixel::Steam(_) => '4',
            Pixel::Ice(_) => '5',
            Pixel::Fire(_) => '6',
            Pixel::Wood(_) => '7',
            Pixel::EternalFire(_) => '8',
            Pixel::Void(_) => '0',
        }
    }
}

impl Default for Pixel {
    fn default() -> (r: Self)
        ensures
            r == Pixel::Void(Void { burn: false }),
    {
        Pixel::Void(Void::default())
    }
}

impl PixelFundamental for Pixel {
    open spec fn spec_name(&self) -> Seq<char> {
        match self {
            Pixel::Steam(val) => val.spec_name(),
            Pixel::Sand(val) => val.spec_name(),
            Pixel::Rock(val) => val.spec_name(),
            Pixel::Water(val) => val.spec_name(),
            Pixel::Ice(val) => val.spec_name(),
            Pixel::Fire(val) => val.spec_name(),
            Pixel::EternalFire(val) => val.spec_name(),
            Pixel::Wood(val) => val.spec_name(),
            Pixel::Void(val) => val.spec_name(),
        }
    }

    open spec fn spec_pixel_type(&self) -> PixelType {
        match self {
            Pixel::Steam(val) => val.spec_pixel_type(),
            Pixel::Sand(val) => val.spec_pixel_type(),
            Pixel::Rock(val) => val.spec_pixel_type(),
            Pixel::Water(val) => val.spec_pixel_type(),
            Pixel::Ice(val) => val.spec_pixel_type(),
            Pixel::Fire(val) => val.spec_pixel_type(),
            Pixel::EternalFire(val) => val.spec_pixel_type(),
            Pixel::Wood(val) => val.spec_pixel_type(),
            Pixel::Void(val) => val.spec_pixel_type(),
        }
    }

    open spec fn spec_friction(&self) -> i16 {
        match self {
            Pixel::Steam(val) => val.spec_friction(),
            Pixel::Sand(val) => val.spec_friction(),
            Pixel::Rock(val) => val.spec_friction(),
            Pixel::Water(val) => val.spec_friction(),
            Pixel::Ice(val) => val.spec_friction(),
            Pixel::Fire(val) => val.spec_friction(),
            Pixel::EternalFire(val) => val.spec_friction(),
            Pixel::Wood(val) => val.spec_friction(),
            Pixel::Void(val) => val.spec_friction(),
        }
    }

    open spec fn updated(&self) -> (Self, Option<Pixel>) {
        match self {
            Pixel::Steam(val) => (Pixel::Steam(val.updated().0), val.updated().1),
            Pixel::Sand(val) => (Pixel::Sand(val.updated().0), val.updated().1),
            Pixel::Rock(val) => (Pixel::Rock(val.updated().0), val.updated().1),
            Pixel::Water(val) => (Pixel::Water(val.updated().0), val.updated().1),
            Pixel::Ice(val) => (Pixel::Ice(val.updated().0), val.updated().1),
            Pixel::Fire(val) => (Pixel::Fire(val.updated().0), val.updated().1),
            Pixel::EternalFire(val) => (Pixel::EternalFire(val.updated().0), val.updated().1),
            Pixel::Wood(val) => (Pixel::Wood(val.updated().0), val.updated().1),
            Pixel::Void(val) => (Pixel::Void(val.updated().0), val.updated().1),
        }
    }

    fn name(&self) -> (r: &'static str) {
        match self {
            Pixel::Steam(val) => val.name(),
            Pixel::Sand(val) => val.name(),
            Pixel::Rock(val) => val.name(),
            Pixel::Water(val) => val.name(),
            Pixel::Ice(val) => val.name(),
            Pixel::Fire(val) => val.name(),
            Pixel::EternalFire(val) => val.name(),
            Pixel::Wood(val) => val.name(),
            Pixel::Void(val) => val.name(),
        }
    }

    fn pixel_type(&self) -> (r: PixelType) {
        match self {
            Pixel::Steam(val) => val.pixel_type(),
            Pixel::Sand(val) => val.pixel_type(),
            Pixel::Rock(val) => val.pixel_type(),
            Pixel::Water(val) => val.pixel_type(),
            Pixel::Ice(val) => val.pixel_type(),
            Pixel::Fire(val) => val.pixel_type(),
            Pixel::EternalFire(val) => val.pixel_type(),
            Pixel::Wood(val) => val.pixel_type(),
            Pixel::Void(val) => val.pixel_type(),
        }
    }

    fn friction(&self) -> (r: i16) {
        match self {
            Pixel::Steam(val) => val.friction(),
            Pixel::Sand(val) => val.friction(),
            Pixel::Rock(val) => val.friction(),
            Pixel::Water(val) => val.friction(),
            Pixel::Ice(val) => val.friction(),
            Pixel::Fire(val) => val.friction(),
            Pixel::EternalFire(val) => val.friction(),
            Pixel::Wood(val) => val.friction(),
            Pixel::Void(val) => val.friction(),
        }
    }

    fn update(&mut self) -> (r: Option<Pixel>) {
        match self {
            Pixel::Steam(val) => val.update(),
            Pixel::Sand(val) => val.update(),
            Pixel::Rock(val) => val.update(),
            Pixel::Water(val) => val.update(),
            Pixel::Ice(val) => val.update(),
            Pixel::Fire(val) => val.update(),
            Pixel::EternalFire(val) => val.update(),
            Pixel::Wood(val) => val.update(),
            Pixel::Void(val) => val.update(),
        }
    }
}

impl PixelInteract for Pixel {
    open spec fn interacted(&self, target: Pixel) -> Self {
        match self {
            Pixel::Steam(val) => Pixel::Steam(val.interacted(target)),
            Pixel::Sand(val) => Pixel::Sand(val.interacted(target)),
            Pixel::Rock(val) => Pixel::Rock(val.interacted(target)),
            Pixel::Water(val) => Pixel::Water(val.interacted(target)),
            Pixel::Ice(val) => Pixel::Ice(val.interacted(target)),
            Pixel::Fire(val) => Pixel::Fire(val.interacted(target)),
            Pixel::EternalFire(val) => Pixel::EternalFire(val.interacted(target)),
            Pixel::Wood(val) => Pixel::Wood(val.interacted(target)),
            Pixel::Void(val) => Pixel::Void(val.interacted(target)),
        }
    }

    fn interact(&mut self, target: Pixel) {
        match self {
            Pixel::Steam(val) => val.interact(target),
            Pixel::Sand(val) => val.interact(target),
            Pixel::Rock(val) => val.interact(target),
            Pixel::Water(val) => val.interact(target),
            Pixel::Ice(val) => val.interact(target),
            Pixel::Fire(val) => val.interact(target),
            Pixel::EternalFire(val) => val.interact(target),
            Pixel::Wood(val) => val.interact(target),
            Pixel::Void(val) => val.interact(target),
        }
    }
}

impl Pixel {
    /// One of each material in its initial state, in the order in which the
    /// variants are declared.
    pub fn variants() -> (r: [Pixel; 9])
        ensures
            r@ == seq![
                Pixel::Steam(Steam { temp: 200 }),
                Pixel::Sand(Sand),
                Pixel::Rock(Rock),
                Pixel::Water(Water { temp: 20 }),
                Pixel::Ice(Ice { temp: 0 }),
                Pixel::Fire(Fire { life: 60 }),
                Pixel::EternalFire(EternalFire),
                Pixel::Wood(Wood { temp: 0, life: 225 }),
                Pixel::Void(Void { burn: false }),
            ],
    {
        [
            Pixel::Steam(Steam::default()),
            Pixel::Sand(Sand::default()),
            Pixel::Rock(Rock::default()),
            Pixel::Water(Water::default()),
            Pixel::Ice(Ice::default()),
            Pixel::Fire(Fire::default()),
            Pixel::EternalFire(EternalFire::default()),
            Pixel::Wood(Wood::default()),
            Pixel::Void(Void::default()),
        ]
    }

    /// Whether a material of density `density` may trade places with
    /// `target`. A cell that has already moved is never a target, a void
    /// always is and a wall never. Otherwise the densities decide, and equal
    /// ones never swap: the heavier sinks through the lighter, or with
    /// `reverse` the lighter rises through the heavier.
    pub open spec fn spec_check_density(
        density: i8,
        target: PixelContainer,
        reverse: bool,
    ) -> bool {
        !target.is_moved && match target.pixel.spec_pixel_type() {
            PixelType::Solid(td) | PixelType::Gas(td) | PixelType::Liquid(td) => if reverse {
                density < td
            } else {
                density > td
            },
            PixelType::Wall => false,
            PixelType::Void => true,
        }
    }

    /// Decides whether a material of density `density` may trade places
    /// with `target`.
    pub fn check_density(density: i8, target: &PixelContainer, reverse: bool) -> (r: bool)
        ensures
            r == Self::spec_check_density(density, *target, reverse),
    {
        if target.is_moved() {
            return false;
        }
        match target.pixel().pixel_type() {
            PixelType::Solid(td) | PixelType::Gas(td) | PixelType::Liquid(td) => {
                match (density == td, density > td, reverse) {
                    (true, _, _) => false,
                    (false, true, false) => true,
                    (false, false, true) => true,
                    _ => false,
                }
            },
            PixelType::Wall => false,
            PixelType::Void => true,
        }
    }

    /// Whether this material may move into `target`: gases rise through what
    /// is heavier, liquids and solids sink through what is lighter, walls and
    /// the void never move.
    pub open spec fn spec_can_swap_with(&self, target: PixelContainer) -> bool {
        match self.spec_pixel_type() {
            PixelType::Gas(density) => Self::spec_check_density(density, target, true),
            PixelType::Liquid(density) | PixelType::Solid(density) => Self::spec_check_density(
                density,
                target,
                false,
            ),
            PixelType::Wall | PixelType::Void => false,
        }
    }

    /// Decides whether this material may move into `target`.
    pub fn can_swap_with(&self, target: &PixelContainer) -> (r: bool)
        ensures
            r == self.spec_can_swap_with(*target),
    {
        match self.pixel_type() {
            PixelType::Gas(density) => Self::check_density(density, target, true),
            PixelType::Liquid(density) | PixelType::Solid(density) => Self::check_density(
                density,
                target,
                false,
            ),
            PixelType::Wall | PixelType::Void => false,
        }
    }

    /// Whether this material may move one step in direction `dir`, given its
    /// neighbours: there must be a neighbour there, and one it can swap with.
    pub open spec fn spec_can_move_to_dir(&self, adjacent: AdjacentPixels, dir: Direction) -> bool {
        match adjacent.spec_get(dir) {
            Some(target) => self.spec_can_swap_with(target),
            None => false,
        }
    }

    /// Decides whether this material may move one step in direction `dir`.
    pub fn can_move_to_dir(&self, adjacent: &AdjacentPixels, dir: Direction) -> (r: bool)
        ensures
            r == self.spec_can_move_to_dir(*adjacent, dir),
    {
        match adjacent.get(dir) {
            Some(target) => self.can_swap_with(&target),
            None => false,
        }
    }

    /// The candidate directions of this material for the draw `pick`, in the
    /// order in which they are tried.
    pub open spec fn candidates(&self, pick: int) -> Seq<Direction> {
        match self.spec_pixel_type() {
            PixelType::Gas(_) => Direction::gas_list(pick),
            PixelType::Liquid(_) => Direction::liquid_list(pick),
            PixelType::Solid(_) => Direction::solid_list(pick),
            PixelType::Wall | PixelType::Void => Seq::empty(),
        }
    }

    /// The first direction of `dirs`, from index `from` on, in which this
    /// material may move.
    pub open spec fn first_legal(
        &self,
        adjacent: AdjacentPixels,
        dirs: Seq<Direction>,
        from: int,
    ) -> Option<Direction>
        decreases dirs.len() - from,
    {
        if from < 0 || from >= dirs.len() {
            None
        } else if self.spec_can_move_to_dir(adjacent, dirs[from]) {
            Some(dirs[from])
        } else {
            self.first_legal(adjacent, dirs, from + 1)
        }
    }

    /// The direction in which this material moves, given its neighbours and
    /// the draw `pick`: the first legal one of its candidates, if any.
    pub open spec fn move_choice(&self, adjacent: AdjacentPixels, pick: int) -> Option<Direction> {
        self.first_legal(adjacent, self.candidates(pick), 0)
    }

    /// The first of `dirs` in which this material may move.
    pub fn find_move<const N: usize>(&self, adjacent: &AdjacentPixels, dirs: &[Direction; N]) -> (r:
        Option<Direction>)
        ensures
            r == self.first_legal(*adjacent, dirs@, 0),
    {
        let mut i: usize = 0;
        while i < N
            invariant
                i <= N,
                dirs@.len() == N,
                self.first_legal(*adjacent, dirs@, 0) == self.first_legal(*adjacent, dirs@, i as int),
            decreases N - i,
        {
            let dir = dirs[i];
            if self.can_move_to_dir(adjacent, dir) {
                return Some(dir);
            }
            i += 1;
        }
        None
    }

    /// Decides where this material goes in the current tick. `pick` selects
    /// one candidate list from the pool of its category; the first direction
    /// of that list whose neighbour is a legal target wins.
    pub fn tick_move(&self, adjacent: &AdjacentPixels, pick: usize) -> (r: Option<Direction>)
        ensures
            r == self.move_choice(*adjacent, pick as int),
    {
        match self.pixel_type() {
            PixelType::Gas(_) => self.find_move(adjacent, &Direction::gas_directions(pick)),
            PixelType::Liquid(_) => self.find_move(adjacent, &Direction::liquid_directions(pick)),
            PixelType::Solid(_) => self.find_move(adjacent, &Direction::solid_directions(pick)),
            PixelType::Wall | PixelType::Void => None,
        }
    }
}

} // verus!
