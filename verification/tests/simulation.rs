use rand::rngs::SmallRng;
use rand::SeedableRng;
use rustfall::pixel::eternal_fire::EternalFire;
use rustfall::pixel::fire::Fire;
use rustfall::pixel::ice::Ice;
use rustfall::pixel::rock::Rock;
use rustfall::pixel::sand::Sand;
use rustfall::pixel::steam::Steam;
use rustfall::pixel::water::Water;
use rustfall::pixel::wood::Wood;
use rustfall::pixel::{Pixel, PixelFundamental, PixelType};
use rustfall::random::RandomSource;
use rustfall::sandbox::movement::VIRTUAL_COLUMNIZED_WIDTH;
use rustfall::sandbox::sandbox::PICK_BOUND;
use rustfall::sandbox::virtualbox::VirtualBox;
use rustfall::sandbox::{PixelContainer, Sandbox, SandboxControl};

fn cells(sandbox: &Sandbox<SmallRng>) -> Vec<Vec<PixelContainer>> {
    sandbox.matrix().to_vec()
}

fn occupied(columns: &[Vec<PixelContainer>]) -> usize {
    columns
        .iter()
        .map(|column| column.iter().filter(|cell| !cell.pixel().pixel_type().is_void()).count())
        .sum()
}

fn same_picks(width: usize, height: usize, pick: u8) -> Vec<Vec<u8>> {
    vec![vec![pick; height]; width]
}

fn mixed_picks(width: usize, height: usize) -> Vec<Vec<u8>> {
    (0..width).map(|x| (0..height).map(|y| ((7 * x + 5 * y + 3) % 12) as u8).collect()).collect()
}

fn crowded(width: usize, height: usize) -> Sandbox<SmallRng> {
    let mut sandbox = Sandbox::new(width, height);
    for x in 0..width {
        for y in 0..height {
            let pixel: Pixel = match (3 * x + 5 * y) % 11 {
                0 => Sand.into(),
                1 | 2 => Water::default().into(),
                3 => Steam::default().into(),
                4 => Rock.into(),
                5 => Fire::default().into(),
                6 => Wood { temp: 0, life: 20 }.into(),
                7 => Ice::default().into(),
                _ => Pixel::default(),
            };
            sandbox.place_pixel(pixel, (x, y));
        }
    }
    sandbox
}

#[test]
fn an_empty_grid_stays_empty() {
    for (width, height) in [(1, 1), (3, 4), (20, 3), (21, 3), (64, 5)] {
        let mut sandbox = Sandbox::new(width, height);
        let before = cells(&sandbox);
        for _ in 0..5 {
            sandbox.tick();
            assert_eq!(cells(&sandbox), before);
        }
        sandbox.exec_pixels_interaction();
        assert_eq!(cells(&sandbox), before);
        for offset in 1..=2 * VIRTUAL_COLUMNIZED_WIDTH {
            sandbox.exec_pixels_movement(offset, &mixed_picks(width, height));
            assert_eq!(cells(&sandbox), before);
            sandbox.tick_with(offset, &mixed_picks(width, height));
            assert_eq!(cells(&sandbox), before);
        }
    }
}

#[test]
fn movement_conserves_occupancy() {
    for (width, height) in [(1, 7), (7, 1), (5, 5), (20, 6), (21, 6), (23, 6), (47, 9), (90, 4)] {
        for offset in 1..=2 * VIRTUAL_COLUMNIZED_WIDTH {
            let mut sandbox = crowded(width, height);
            let count = occupied(sandbox.matrix());
            assert!(count > 0);
            let mut materials: Vec<Pixel> =
                sandbox.matrix().iter().flatten().map(|cell| cell.pixel()).collect();
            materials.sort_by_key(|pixel| pixel.name());
            for round in 0..4 {
                let picks = if round % 2 == 0 {
                    mixed_picks(width, height)
                } else {
                    same_picks(width, height, round as u8)
                };
                sandbox.exec_pixels_movement(offset, &picks);
                assert_eq!(occupied(sandbox.matrix()), count);
                let mut after: Vec<Pixel> =
                    sandbox.matrix().iter().flatten().map(|cell| cell.pixel()).collect();
                after.sort_by_key(|pixel| pixel.name());
                assert_eq!(after, materials);
            }
        }
    }
}

#[test]
fn movement_moves_something() {
    let mut sandbox = crowded(30, 6);
    let before = cells(&sandbox);
    sandbox.exec_pixels_movement(3, &mixed_picks(30, 6));
    assert_ne!(cells(&sandbox), before);
}

#[test]
fn no_cell_is_flagged_after_a_tick() {
    for width in [6, 30] {
        let mut sandbox = crowded(width, 6);
        sandbox.get_pixel_mut((0, 0)).unwrap().mark_is_moved(true);
        sandbox.exec_pixels_movement(4, &mixed_picks(width, 6));
        assert!(sandbox.matrix().iter().flatten().all(|cell| !cell.is_moved()));
        sandbox.get_pixel_mut((1, 1)).unwrap().mark_is_moved(true);
        sandbox.tick();
        assert!(sandbox.matrix().iter().flatten().all(|cell| !cell.is_moved()));
    }
}

#[test]
fn a_lone_solid_descends_one_row_per_tick() {
    let light_wood: Pixel = Wood { temp: 0, life: 30 }.into();
    for solid in [Pixel::from(Sand), light_wood] {
        for (width, x) in [(1, 0), (3, 1), (20, 19), (21, 20), (60, 0), (60, 13), (60, 37), (60, 59)] {
            let mut sandbox = Sandbox::new(width, 5);
            sandbox.place_pixel(solid, (x, 0));
            for tick in 1..8 {
                sandbox.tick();
                let row = if tick < 4 { tick } else { 4 };
                let mut expected = Sandbox::new(width, 5);
                expected.place_pixel(solid, (x, row));
                assert_eq!(cells(&sandbox), cells(&expected));
            }
        }
    }
}

#[test]
fn a_lone_solid_descends_whatever_is_drawn() {
    for pick in 0..12 {
        for offset in 1..=2 * VIRTUAL_COLUMNIZED_WIDTH {
            for x in [0, 4, 11, 26, 44] {
                let mut sandbox = Sandbox::new(45, 3);
                sandbox.place_pixel(Sand.into(), (x, 1));
                sandbox.tick_with(offset, &same_picks(45, 3, pick));
                let mut expected = Sandbox::new(45, 3);
                expected.place_pixel(Sand.into(), (x, 2));
                assert_eq!(cells(&sandbox), cells(&expected));
                sandbox.tick_with(offset, &same_picks(45, 3, pick));
                assert_eq!(cells(&sandbox), cells(&expected));
            }
        }
    }
}

#[test]
fn sand_and_water_settle_as_drawn() {
    // two grains of sand stacked over a row of water, first lists everywhere
    let mut sandbox = Sandbox::new(3, 4);
    sandbox.place_pixel_force(Sand.into(), (1, 1));
    sandbox.place_pixel_force(Sand.into(), (1, 2));
    sandbox.place_pixel_force(Water::default().into(), (0, 3));
    sandbox.place_pixel_force(Water::default().into(), (1, 3));
    sandbox.place_pixel_force(Water::default().into(), (2, 3));
    let start = cells(&sandbox);
    sandbox.tick_with(1, &same_picks(3, 4, 0));
    let at = |sandbox: &Sandbox<SmallRng>, cord| sandbox.get_pixel(cord).unwrap().pixel();
    assert_eq!(at(&sandbox, (0, 2)), Sand.into());
    assert_eq!(at(&sandbox, (1, 3)), Sand.into());
    assert_eq!(at(&sandbox, (0, 3)), Water::default().into());
    assert_eq!(at(&sandbox, (1, 2)), Water::default().into());
    assert_eq!(at(&sandbox, (2, 3)), Water::default().into());
    assert_eq!(occupied(sandbox.matrix()), 5);
    // with the second list the upper grain goes right instead
    let mut other = Sandbox::new(3, 4);
    other.matrix_mut().clone_from_slice(&start);
    other.tick_with(1, &same_picks(3, 4, 1));
    assert_eq!(at(&other, (2, 2)), Sand.into());
    assert_eq!(at(&other, (1, 3)), Sand.into());
    assert_eq!(at(&other, (1, 2)), Water::default().into());
    assert_eq!(at(&other, (0, 2)), Pixel::default());
}

#[test]
fn the_scan_direction_alternates() {
    // two waters side by side on a floor, left tried before right: which
    // one is visited first decides where the other can go
    let floor = |sandbox: &mut Sandbox<SmallRng>| {
        sandbox.place_pixel(Water::default().into(), (1, 0));
        sandbox.place_pixel(Water::default().into(), (2, 0));
    };
    let row = |sandbox: &Sandbox<SmallRng>| -> Vec<bool> {
        (0..4).map(|x| sandbox.get_pixel((x, 0)).unwrap().pixel() != Pixel::default()).collect()
    };
    let mut sandbox = Sandbox::new(4, 1);
    floor(&mut sandbox);
    // left to right: the left water moves left, and the right one follows
    // into the room it left
    sandbox.tick_with(1, &same_picks(4, 1, 0));
    assert_eq!(row(&sandbox), vec![true, true, false, false]);
    // right to left at the next tick: the right water is visited first,
    // finds water on its left and goes right; then the left one goes left
    let mut sandbox = Sandbox::new(4, 1);
    sandbox.tick_with(1, &same_picks(4, 1, 0));
    floor(&mut sandbox);
    sandbox.tick_with(1, &same_picks(4, 1, 0));
    assert_eq!(row(&sandbox), vec![true, false, false, true]);
}

#[test]
fn water_beside_eternal_fire_turns_to_steam() {
    // a column of one cell of water under eternal fire: the water cannot
    // move, gains two degrees per tick and boils at the fifth
    let mut sandbox = Sandbox::new(1, 2);
    sandbox.place_pixel(EternalFire.into(), (0, 0));
    sandbox.place_pixel(Water::default().into(), (0, 1));
    for tick in 1..5 {
        sandbox.tick();
        assert_eq!(sandbox.get_pixel((0, 1)).unwrap().pixel(), Water { temp: 20 + 2 * tick }.into());
    }
    sandbox.tick();
    assert_eq!(sandbox.get_pixel((0, 1)).unwrap().pixel(), Steam::default().into());
    assert_eq!(sandbox.get_pixel((0, 0)).unwrap().pixel(), EternalFire.into());
}

#[test]
fn eternal_fire_sets_the_void_alight() {
    let mut sandbox = Sandbox::new(3, 3);
    sandbox.place_pixel(EternalFire.into(), (1, 1));
    sandbox.exec_pixels_interaction();
    for x in 0..3 {
        for y in 0..3 {
            let expected: Pixel = match (x, y) {
                (1, 1) => EternalFire.into(),
                (1, 0) | (1, 2) | (0, 1) | (2, 1) => Fire::default().into(),
                _ => Pixel::default(),
            };
            assert_eq!(*sandbox.get_pixel((x, y)).unwrap(), PixelContainer::new(expected));
        }
    }
}

#[test]
fn every_cell_meets_the_grid_as_it_was() {
    // ice between two waters: each water is cooled by the ice as it was,
    // the ice is warmed by both waters as they were
    let mut sandbox = Sandbox::new(3, 1);
    sandbox.place_pixel(Water { temp: 12 }.into(), (0, 0));
    sandbox.place_pixel(Ice { temp: 85 }.into(), (1, 0));
    sandbox.place_pixel(Water { temp: 29 }.into(), (2, 0));
    sandbox.exec_pixels_interaction();
    assert_eq!(sandbox.get_pixel((0, 0)).unwrap().pixel(), Ice::default().into());
    assert_eq!(sandbox.get_pixel((1, 0)).unwrap().pixel(), Water::default().into());
    assert_eq!(sandbox.get_pixel((2, 0)).unwrap().pixel(), Water { temp: 27 }.into());
}

#[test]
fn interaction_keeps_the_flag_of_what_it_does_not_replace() {
    let mut sandbox = Sandbox::new(2, 1);
    sandbox.place_pixel(Water { temp: 28 }.into(), (0, 0));
    sandbox.place_pixel(EternalFire.into(), (1, 0));
    sandbox.get_pixel_mut((0, 0)).unwrap().mark_is_moved(true);
    sandbox.get_pixel_mut((1, 0)).unwrap().mark_is_moved(true);
    sandbox.exec_pixels_interaction();
    assert_eq!(*sandbox.get_pixel((0, 0)).unwrap(), PixelContainer::new(Steam::default().into()));
    assert!(sandbox.get_pixel((1, 0)).unwrap().is_moved());
}

#[test]
fn a_band_moves_only_its_own_columns() {
    let mut columns = vec![vec![PixelContainer::new(Sand.into()), PixelContainer::default()]; 6];
    let picks = same_picks(6, 2, 0);
    let mut band = VirtualBox::new(2, 2, 2, &mut columns, &picks, true);
    band.tick();
    for (x, column) in columns.iter().enumerate() {
        let fallen = x == 2 || x == 3;
        assert_eq!(column[0].pixel() == Pixel::default(), fallen);
        assert_eq!(column[1].pixel() == Pixel::from(Sand), fallen);
        assert_eq!(column[1].is_moved(), fallen);
        assert!(!column[0].is_moved());
    }
}

#[test]
fn a_band_may_move_a_cell_into_the_columns_beside_it() {
    // sand on a rock with room to the left, outside the band
    let mut columns = vec![
        vec![PixelContainer::default(), PixelContainer::default()],
        vec![PixelContainer::new(Sand.into()), PixelContainer::new(Rock.into())],
    ];
    let picks = same_picks(2, 2, 0);
    VirtualBox::new(1, 1, 2, &mut columns, &picks, true).tick();
    assert_eq!(columns[0][1].pixel(), Pixel::from(Sand));
    assert_eq!(columns[1][0].pixel(), Pixel::default());
}

#[test]
fn a_band_is_cut_to_fit_its_window() {
    let mut columns = vec![vec![PixelContainer::default(); 2]; 4];
    let picks = same_picks(4, 2, 0);
    assert_eq!(VirtualBox::new(1, 2, 2, &mut columns, &picks, true).virtual_width, 2);
    assert_eq!(VirtualBox::new(1, 3, 2, &mut columns, &picks, true).virtual_width, 3);
    assert_eq!(VirtualBox::new(1, 9, 2, &mut columns, &picks, true).virtual_width, 3);
    assert_eq!(VirtualBox::new(4, 9, 2, &mut columns, &picks, true).virtual_width, 0);
    assert_eq!(VirtualBox::new(5, 9, 2, &mut columns, &picks, true).virtual_width, 0);
    assert_eq!(VirtualBox::new(usize::MAX, usize::MAX, 2, &mut columns, &picks, true).virtual_width, 0);
    let mut band = VirtualBox::new(3, usize::MAX, 2, &mut columns, &picks, false);
    assert_eq!((band.offset, band.virtual_width, band.height, band.ltr), (3, 1, 2, false));
    assert_eq!(band.width(), 4);
    assert_eq!(band.height(), 2);
    assert_eq!(band.pick((0, 0)), 0);
    band.tick();
    VirtualBox::new(9, 9, 2, &mut columns, &picks, true).tick();
    assert_eq!(columns, vec![vec![PixelContainer::default(); 2]; 4]);
}

#[test]
fn a_missing_draw_counts_as_the_first_list() {
    let mut columns = vec![vec![PixelContainer::new(Sand.into()), PixelContainer::new(Rock.into())]; 3];
    columns[0] = vec![PixelContainer::default(); 2];
    columns[2] = vec![PixelContainer::default(); 2];
    let short: Vec<Vec<u8>> = vec![vec![1]];
    let mut with_draw = columns.clone();
    // nothing is drawn for column 1: the sand tries down left first
    let band = VirtualBox::new(1, 1, 2, &mut columns, &short, true);
    assert_eq!(band.pick((0, 0)), 1);
    assert_eq!(band.pick((0, 1)), 0);
    assert_eq!(band.pick((1, 0)), 0);
    let mut band = band;
    band.tick();
    assert_eq!(columns[0][1].pixel(), Pixel::from(Sand));
    let odd = same_picks(3, 2, 1);
    VirtualBox::new(1, 1, 2, &mut with_draw, &odd, true).tick();
    assert_eq!(with_draw[2][1].pixel(), Pixel::from(Sand));
}

#[test]
fn equal_draws_give_equal_grids() {
    for (width, height) in [(9, 7), (33, 5)] {
        let mut first = crowded(width, height);
        let mut second = crowded(width, height);
        for round in 0..20 {
            let offset = 1 + round % 10;
            let picks = mixed_picks(width, height);
            // the second run sees other draws where the grid has no cells
            let mut wider = picks.clone();
            wider.push(vec![9; height + 3]);
            for column in wider.iter_mut() {
                column.push(5);
            }
            first.tick_with(offset, &picks);
            second.tick_with(offset, &wider);
            assert_eq!(cells(&first), cells(&second));
        }
    }
}

#[test]
fn equal_seeds_give_equal_runs() {
    for (width, height) in [(9, 7), (50, 8)] {
        let run = |seed: u64| {
            let mut sandbox = Sandbox::new_with_rng(width, height, SmallRng::seed_from_u64(seed));
            for x in 0..width {
                sandbox.place_pixel(Water::default().into(), (x, x % height));
                sandbox.place_pixel(Steam::default().into(), (x, (x + 3) % height));
                sandbox.place_pixel(Sand.into(), (x, (2 * x + 1) % height));
            }
            for _ in 0..25 {
                sandbox.tick();
            }
            cells(&sandbox)
        };
        assert_eq!(run(7), run(7));
        assert_eq!(run(8), run(8));
        assert_ne!(run(7), run(8));
    }
    // sandboxes made without a generator are seeded alike
    let mut first = crowded(30, 8);
    let mut second = crowded(30, 8);
    for _ in 0..10 {
        first.tick();
        second.tick();
    }
    assert_eq!(cells(&first), cells(&second));
}

#[test]
fn draws_are_bounded() {
    let mut rng = SmallRng::seed_from_u64(1);
    let mut seen = [false; 12];
    for _ in 0..2000 {
        let pick = rng.index_below(12);
        assert!(pick < 12);
        seen[pick] = true;
        assert_eq!(rng.index_below(1), 0);
    }
    assert_eq!(seen, [true; 12]);
    let mut low = false;
    let mut high = false;
    for _ in 0..2000 {
        let offset = rng.in_range(1, 10);
        assert!((1..=10).contains(&offset));
        low |= offset == 1;
        high |= offset == 10;
        assert_eq!(rng.in_range(4, 4), 4);
    }
    assert!(low && high);
    assert_eq!(rng.in_range(usize::MAX, usize::MAX), usize::MAX);
    assert!(rng.index_below(usize::MAX) < usize::MAX);
}

#[test]
fn one_draw_for_each_cell() {
    let mut sandbox = crowded(13, 4);
    let before = cells(&sandbox);
    let picks = sandbox.draw_picks();
    assert_eq!(cells(&sandbox), before);
    assert_eq!(picks.len(), 13);
    let mut seen = [false; 12];
    for column in &picks {
        assert_eq!(column.len(), 4);
        for &pick in column {
            assert!((pick as usize) < PICK_BOUND);
            seen[pick as usize] = true;
        }
    }
    assert!(seen.iter().filter(|&&hit| hit).count() > 6);
    assert!(Sandbox::new(0, 4).draw_picks().is_empty());
    assert_eq!(Sandbox::new(2, 0).draw_picks(), vec![Vec::<u8>::new(); 2]);
}

#[test]
fn gas_rises_and_liquid_spreads() {
    let mut sandbox = Sandbox::new(3, 3);
    sandbox.place_pixel(Steam::default().into(), (1, 2));
    sandbox.tick_with(1, &same_picks(3, 3, 0));
    assert_eq!(sandbox.get_pixel((1, 1)).unwrap().pixel(), Steam::default().into());
    sandbox.tick_with(1, &same_picks(3, 3, 0));
    assert_eq!(sandbox.get_pixel((1, 0)).unwrap().pixel(), Steam::default().into());
    // under the ceiling it drifts sideways
    sandbox.tick_with(1, &same_picks(3, 3, 0));
    assert_eq!(sandbox.get_pixel((0, 0)).unwrap().pixel(), Steam::default().into());
    sandbox.tick_with(1, &same_picks(3, 3, 1));
    assert_eq!(sandbox.get_pixel((1, 0)).unwrap().pixel(), Steam::default().into());
    assert_eq!(Steam::default().pixel_type(), PixelType::Gas(-10));
}

#[test]
fn steam_rises_through_water_and_sand_sinks_through_it() {
    let mut sandbox = Sandbox::new(1, 3);
    sandbox.place_pixel(Sand.into(), (0, 0));
    sandbox.place_pixel(Water::default().into(), (0, 1));
    sandbox.place_pixel(Steam::default().into(), (0, 2));
    // bottom up: the steam trades places with the water, which has then
    // moved and is no target for the sand
    sandbox.exec_pixels_movement(1, &same_picks(1, 3, 0));
    let column: Vec<Pixel> = sandbox.matrix()[0].iter().map(|cell| cell.pixel()).collect();
    assert_eq!(column, vec![Sand.into(), Steam::default().into(), Water::default().into()]);
    sandbox.exec_pixels_movement(1, &same_picks(1, 3, 0));
    let column: Vec<Pixel> = sandbox.matrix()[0].iter().map(|cell| cell.pixel()).collect();
    assert_eq!(column, vec![Steam::default().into(), Sand.into(), Water::default().into()]);
    sandbox.exec_pixels_movement(1, &same_picks(1, 3, 0));
    let column: Vec<Pixel> = sandbox.matrix()[0].iter().map(|cell| cell.pixel()).collect();
    assert_eq!(column, vec![Steam::default().into(), Water::default().into(), Sand.into()]);
    sandbox.exec_pixels_movement(1, &same_picks(1, 3, 0));
    let column: Vec<Pixel> = sandbox.matrix()[0].iter().map(|cell| cell.pixel()).collect();
    assert_eq!(column, vec![Steam::default().into(), Water::default().into(), Sand.into()]);
}

#[test]
fn a_narrow_grid_is_swept_as_one_band() {
    for width in [1, 7, 20] {
        for offset in 1..=2 * VIRTUAL_COLUMNIZED_WIDTH {
            let mut banded = crowded(width, 6);
            let mut swept = crowded(width, 6);
            for _ in 0..6 {
                let picks = mixed_picks(width, 6);
                banded.tick_with(offset, &picks);
                swept.tick_sequential_with(&picks);
                assert_eq!(cells(&banded), cells(&swept));
            }
        }
    }
}

#[test]
fn the_sweep_obeys_the_same_laws() {
    let mut empty = Sandbox::new(40, 4);
    let before = cells(&empty);
    empty.tick_sequential();
    empty.exec_pixels_sweep(&mixed_picks(40, 4));
    assert_eq!(cells(&empty), before);
    let mut sandbox = crowded(40, 6);
    let count = occupied(sandbox.matrix());
    for pick in 0..12 {
        sandbox.exec_pixels_sweep(&same_picks(40, 6, pick));
        assert_eq!(occupied(sandbox.matrix()), count);
        assert!(sandbox.matrix().iter().flatten().all(|cell| !cell.is_moved()));
    }
    for x in [0, 17, 39] {
        let mut lone = Sandbox::new(40, 3);
        lone.place_pixel(Sand.into(), (x, 0));
        for row in [1, 2, 2] {
            lone.tick_sequential();
            let mut expected = Sandbox::new(40, 3);
            expected.place_pixel(Sand.into(), (x, row));
            assert_eq!(cells(&lone), cells(&expected));
        }
    }
    let mut first = crowded(40, 6);
    let mut second = crowded(40, 6);
    for _ in 0..10 {
        first.tick_sequential();
        second.tick_sequential();
        assert_eq!(cells(&first), cells(&second));
    }
}

fn in_windows(
    pixels: &mut [Vec<PixelContainer>],
    picks: &[Vec<u8>],
    height: usize,
    ltr: bool,
    offset: usize,
) {
    let unit = VIRTUAL_COLUMNIZED_WIDTH;
    for (lead, start, seam) in [(0, offset, offset + unit), (offset, 2 * unit, offset + 3 * unit)] {
        let seam = seam.min(pixels.len());
        let (first, rest) = pixels.split_at_mut(seam);
        let (first_picks, rest_picks) = picks.split_at(seam);
        VirtualBox::new(lead, start, height, first, first_picks, ltr).tick();
        for (each, draws) in rest.chunks_mut(4 * unit).zip(rest_picks.chunks(4 * unit)) {
            if each.len() > unit {
                VirtualBox::new(unit, 2 * unit, height, each, draws, ltr).tick();
            }
        }
    }
    for cell in pixels.iter_mut().flatten() {
        cell.mark_is_moved(false);
    }
}

#[test]
fn bands_in_windows_give_the_same_grid() {
    for width in [21, 24, 25, 26, 35, 36, 40, 41, 45, 46, 60, 97] {
        for offset in 1..=2 * VIRTUAL_COLUMNIZED_WIDTH {
            for ltr in [true, false] {
                let mut whole = crowded(width, 7);
                if !ltr {
                    // one tick turns the scan
                    whole.tick_with(offset, &mixed_picks(width, 7));
                }
                let mut cut = cells(&whole);
                for round in 0..5 {
                    let picks: Vec<Vec<u8>> = mixed_picks(width, 7)
                        .into_iter()
                        .map(|column| column.into_iter().map(|pick| (pick + round) % 12).collect())
                        .collect();
                    whole.exec_pixels_movement(offset, &picks);
                    in_windows(&mut cut, &picks, 7, ltr, offset);
                    assert_eq!(cells(&whole), cut);
                }
            }
        }
    }
}
