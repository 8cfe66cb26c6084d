//! Water that stays beside eternal fire turns to steam.

use crate::pixel::eternal_fire::EternalFire;
use crate::pixel::steam::Steam;
use crate::pixel::water::Water;
use crate::pixel::Pixel;
use crate::sandbox::interaction::{reacted, touched, touched_by_all};
use crate::sandbox::{AdjacentPixels, PixelContainer};
use vstd::prelude::*;

verus! {

/// A neighbour that neither heats nor cools water: none at all, or anything
/// but fire, eternal fire, wood and ice.
pub open spec fn is_bystander(neighbour: Option<PixelContainer>) -> bool {
    match neighbour {
        Some(cell) => !(cell.pixel is Fire || cell.pixel is EternalFire || cell.pixel is Wood
            || cell.pixel is Ice),
        None => true,
    }
}

/// Eternal fire above, and bystanders below and on both sides.
pub open spec fn fire_above(adjacent: AdjacentPixels) -> bool {
    &&& adjacent.top matches Some(cell) && cell.pixel is EternalFire
    &&& is_bystander(adjacent.bottom)
    &&& is_bystander(adjacent.left)
    &&& is_bystander(adjacent.right)
}

/// The cell after `ticks` interaction and update passes among the same
/// neighbours.
pub open spec fn simmered(
    cell: PixelContainer,
    adjacent: AdjacentPixels,
    ticks: nat,
) -> PixelContainer
    decreases ticks,
{
    if ticks == 0 {
        cell
    } else {
        reacted(simmered(cell, adjacent, (ticks - 1) as nat), adjacent)
    }
}

/// The number of passes beside the fire that water of temperature `temp`
/// takes to boil: each adds two degrees, and 30 are needed.
pub open spec fn passes_to_boil(temp: u8) -> nat {
    ((31 - temp) / 2) as nat
}

proof fn lemma_one_pass(temp: u8, is_moved: bool, adjacent: AdjacentPixels)
    requires
        8 < temp < 30,
        fire_above(adjacent),
    ensures
        reacted(PixelContainer { pixel: Pixel::Water(Water { temp }), is_moved }, adjacent) == if temp
            >= 28 {
            PixelContainer { pixel: Pixel::Steam(Steam { temp: 200 }), is_moved: false }
        } else {
            PixelContainer { pixel: Pixel::Water(Water { temp: (temp + 2) as u8 }), is_moved }
        },
{
    let water = Pixel::Water(Water { temp });
    let hot = Pixel::Water(Water { temp: (temp + 2) as u8 });
    assert(touched(water, adjacent.top) == hot);
    assert(touched(hot, adjacent.bottom) == hot);
    assert(touched(hot, adjacent.left) == hot);
    assert(touched(hot, adjacent.right) == hot);
    assert(touched_by_all(water, adjacent) == hot);
}

proof fn lemma_simmering(temp: u8, is_moved: bool, adjacent: AdjacentPixels, ticks: nat)
    requires
        8 < temp < 30,
        fire_above(adjacent),
        ticks < passes_to_boil(temp),
    ensures
        simmered(PixelContainer { pixel: Pixel::Water(Water { temp }), is_moved }, adjacent, ticks)
            == (PixelContainer {
            pixel: Pixel::Water(Water { temp: (temp + 2 * ticks) as u8 }),
            is_moved,
        }),
        temp + 2 * ticks < 30,
    decreases ticks,
{
    assert(2 * passes_to_boil(temp) <= 31 - temp);
    if ticks > 0 {
        lemma_simmering(temp, is_moved, adjacent, (ticks - 1) as nat);
        lemma_one_pass((temp + 2 * (ticks - 1)) as u8, is_moved, adjacent);
    }
}

/// A water cell of more than 8 and less than 30 degrees that stays beside
/// eternal fire, with nothing else to heat or cool it, is still water after
/// every pass but the last of `passes_to_boil`, two degrees warmer each
/// time, and fresh steam after the last. (Colder water would freeze at its
/// first update.)
pub proof fn law_water_by_eternal_fire_boils(temp: u8, is_moved: bool, adjacent: AdjacentPixels)
    requires
        8 < temp < 30,
        fire_above(adjacent),
    ensures
        passes_to_boil(temp) >= 1,
        forall|ticks: nat|
            ticks < passes_to_boil(temp) ==> (#[trigger] simmered(
                PixelContainer { pixel: Pixel::Water(Water { temp }), is_moved },
                adjacent,
                ticks,
            )).pixel == Pixel::Water(Water { temp: (temp + 2 * ticks) as u8 }),
        simmered(
            PixelContainer { pixel: Pixel::Water(Water { temp }), is_moved },
            adjacent,
            passes_to_boil(temp),
        ) == (PixelContainer { pixel: Pixel::Steam(Steam { temp: 200 }), is_moved: false }),
{
    let cell = PixelContainer { pixel: Pixel::Water(Water { temp }), is_moved };
    assert forall|ticks: nat| ticks < passes_to_boil(temp) implies (#[trigger] simmered(
        cell,
        adjacent,
        ticks,
    )).pixel == Pixel::Water(Water { temp: (temp + 2 * ticks) as u8 }) by {
        lemma_simmering(temp, is_moved, adjacent, ticks);
    }
    let last = (passes_to_boil(temp) - 1) as nat;
    assert(2 * passes_to_boil(temp) >= 30 - temp);
    lemma_simmering(temp, is_moved, adjacent, last);
    lemma_one_pass((temp + 2 * last) as u8, is_moved, adjacent);
}

} // verus!
