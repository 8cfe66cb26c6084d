use rand::rngs::SmallRng;
use rustfall::pixel::eternal_fire::EternalFire;
use rustfall::pixel::rock::Rock;
use rustfall::pixel::sand::Sand;
use rustfall::pixel::void::Void;
use rustfall::pixel::water::Water;
use rustfall::pixel::{Direction, Pixel};
use rustfall::sandbox::grid::swap_cells;
use rustfall::sandbox::movement::relocate;
use rustfall::sandbox::{PixelContainer, Sandbox, SandboxControl};

const ALL: [Direction; 8] = [
    Direction::Up,
    Direction::Down,
    Direction::Left,
    Direction::Right,
    Direction::UpLeft,
    Direction::UpRight,
    Direction::DownLeft,
    Direction::DownRight,
];

fn materials(sandbox: &Sandbox<SmallRng>) -> Vec<Vec<Pixel>> {
    sandbox
        .matrix()
        .iter()
        .map(|column| column.iter().map(|cell| cell.pixel()).collect())
        .collect()
}

#[test]
fn a_new_grid_is_empty() {
    let sandbox = Sandbox::new(4, 3);
    assert_eq!(sandbox.width(), 4);
    assert_eq!(sandbox.height(), 3);
    assert_eq!(sandbox.matrix().len(), 4);
    for column in sandbox.matrix() {
        assert_eq!(column.len(), 3);
        for cell in column {
            assert_eq!(*cell, PixelContainer::default());
        }
    }
}

#[test]
fn a_grid_may_have_no_cells() {
    for (width, height) in [(0, 0), (0, 5), (5, 0)] {
        let mut sandbox = Sandbox::new(width, height);
        assert_eq!(sandbox.width(), width);
        assert_eq!(sandbox.height(), height);
        assert_eq!(sandbox.get_pixel((0, 0)), None);
        assert!(!sandbox.is_coordinate_in_bound((0, 0)));
        for dir in ALL {
            assert_eq!(sandbox.get_neighbour_coordinates((0, 0), dir), None);
        }
        sandbox.place_pixel(Sand.into(), (0, 0));
        sandbox.place_pixel_force(Sand.into(), (0, 0));
        sandbox.tick();
        sandbox.tick();
        assert_eq!(sandbox.width(), width);
        assert_eq!(sandbox.height(), height);
        assert!(sandbox.matrix().iter().all(|column| column.len() == height));
    }
}

#[test]
fn place_never_overwrites() {
    let mut sandbox = Sandbox::new(3, 3);
    for pixel in Pixel::variants() {
        sandbox.place_pixel(pixel, (1, 1));
    }
    // the first material that is not the void took the cell and kept it
    assert_eq!(sandbox.get_pixel((1, 1)).unwrap().pixel(), Pixel::variants()[0]);
    sandbox.place_pixel(Sand.into(), (1, 1));
    assert_eq!(sandbox.get_pixel((1, 1)).unwrap().pixel(), Pixel::variants()[0]);
    sandbox.place_pixel(Pixel::default(), (1, 1));
    assert_eq!(sandbox.get_pixel((1, 1)).unwrap().pixel(), Pixel::variants()[0]);
    for x in 0..3 {
        for y in 0..3 {
            sandbox.place_pixel(Rock.into(), (x, y));
            sandbox.place_pixel(Water::default().into(), (x, y));
            let expected = if (x, y) == (1, 1) { Pixel::variants()[0] } else { Rock.into() };
            assert_eq!(sandbox.get_pixel((x, y)).unwrap().pixel(), expected);
        }
    }
}

#[test]
fn place_fills_a_void_that_is_alight() {
    let mut sandbox = Sandbox::new(1, 1);
    sandbox.place_pixel_force(Void { burn: true }.into(), (0, 0));
    sandbox.place_pixel(Sand.into(), (0, 0));
    assert_eq!(sandbox.get_pixel((0, 0)).unwrap().pixel(), Pixel::Sand(Sand));
}

#[test]
fn place_force_always_overwrites() {
    let mut sandbox = Sandbox::new(2, 2);
    for x in 0..2 {
        for y in 0..2 {
            for pixel in Pixel::variants() {
                sandbox.place_pixel_force(pixel, (x, y));
                assert_eq!(*sandbox.get_pixel((x, y)).unwrap(), PixelContainer::new(pixel));
            }
        }
    }
    assert_eq!(materials(&sandbox), vec![vec![Pixel::default(); 2]; 2]);
}

#[test]
fn placing_outside_the_grid_does_nothing() {
    let mut sandbox = Sandbox::new(2, 3);
    for cord in [(2, 0), (0, 3), (2, 3), (usize::MAX, 0), (0, usize::MAX), (usize::MAX, usize::MAX)] {
        sandbox.place_pixel(Sand.into(), cord);
        sandbox.place_pixel_force(Sand.into(), cord);
        assert_eq!(sandbox.get_pixel(cord), None);
    }
    assert_eq!(materials(&sandbox), vec![vec![Pixel::default(); 3]; 2]);
}

#[test]
fn a_placed_cell_has_not_moved() {
    let mut sandbox = Sandbox::new(1, 1);
    sandbox.get_pixel_mut((0, 0)).unwrap().mark_is_moved(true);
    assert!(sandbox.get_pixel((0, 0)).unwrap().is_moved());
    sandbox.place_pixel(Sand.into(), (0, 0));
    assert!(!sandbox.get_pixel((0, 0)).unwrap().is_moved());
    sandbox.get_pixel_mut((0, 0)).unwrap().mark_is_moved(true);
    sandbox.place_pixel_force(Rock.into(), (0, 0));
    assert_eq!(*sandbox.get_pixel((0, 0)).unwrap(), PixelContainer::new(Rock.into()));
}

#[test]
fn bounds() {
    let sandbox = Sandbox::new(3, 2);
    assert!(sandbox.is_coordinate_in_bound((0, 0)));
    assert!(sandbox.is_coordinate_in_bound((2, 1)));
    assert!(!sandbox.is_coordinate_in_bound((3, 1)));
    assert!(!sandbox.is_coordinate_in_bound((2, 2)));
    assert!(!sandbox.is_coordinate_in_bound((usize::MAX, usize::MAX)));
    assert!(sandbox.get_pixel((2, 1)).is_some());
    assert!(sandbox.get_pixel((3, 1)).is_none());
    assert!(sandbox.get_pixel((2, 2)).is_none());
}

#[test]
fn neighbours_of_an_inner_cell() {
    let sandbox = Sandbox::new(3, 3);
    let at = |dir| sandbox.get_neighbour_coordinates((1, 1), dir);
    assert_eq!(at(Direction::Up), Some((1, 0)));
    assert_eq!(at(Direction::Down), Some((1, 2)));
    assert_eq!(at(Direction::Left), Some((0, 1)));
    assert_eq!(at(Direction::Right), Some((2, 1)));
    assert_eq!(at(Direction::UpLeft), Some((0, 0)));
    assert_eq!(at(Direction::UpRight), Some((2, 0)));
    assert_eq!(at(Direction::DownLeft), Some((0, 2)));
    assert_eq!(at(Direction::DownRight), Some((2, 2)));
}

#[test]
fn the_grid_does_not_wrap_around() {
    let sandbox = Sandbox::new(3, 3);
    let at = |cord, dir| sandbox.get_neighbour_coordinates(cord, dir);
    for dir in [Direction::Up, Direction::UpLeft, Direction::UpRight] {
        assert_eq!(at((1, 0), dir), None);
    }
    for dir in [Direction::Down, Direction::DownLeft, Direction::DownRight] {
        assert_eq!(at((1, 2), dir), None);
    }
    for dir in [Direction::Left, Direction::UpLeft, Direction::DownLeft] {
        assert_eq!(at((0, 1), dir), None);
    }
    for dir in [Direction::Right, Direction::UpRight, Direction::DownRight] {
        assert_eq!(at((2, 1), dir), None);
    }
    assert_eq!(at((0, 0), Direction::Down), Some((0, 1)));
    assert_eq!(at((0, 0), Direction::Right), Some((1, 0)));
    assert_eq!(at((0, 0), Direction::DownRight), Some((1, 1)));
    assert_eq!(at((2, 2), Direction::UpLeft), Some((1, 1)));
    for dir in ALL {
        assert_eq!(at((3, 1), dir), None);
        assert_eq!(at((1, 3), dir), None);
        assert_eq!(at((usize::MAX, usize::MAX), dir), None);
    }
    let one = Sandbox::new(1, 1);
    for dir in ALL {
        assert_eq!(one.get_neighbour_coordinates((0, 0), dir), None);
        assert_eq!(one.get_neighbour_pixel((0, 0), dir), None);
    }
}

#[test]
fn neighbouring_cells() {
    let mut sandbox = Sandbox::new(3, 3);
    sandbox.place_pixel(Sand.into(), (1, 0));
    sandbox.place_pixel(Rock.into(), (2, 2));
    let sand = PixelContainer::new(Sand.into());
    let rock = PixelContainer::new(Rock.into());
    assert_eq!(sandbox.get_neighbour_pixel((1, 1), Direction::Up), Some(((1, 0), &sand)));
    assert_eq!(sandbox.get_neighbour_pixel((1, 1), Direction::DownRight), Some(((2, 2), &rock)));
    assert_eq!(
        sandbox.get_neighbour_pixel((1, 1), Direction::Left),
        Some(((0, 1), &PixelContainer::default()))
    );
    assert_eq!(sandbox.get_neighbour_pixel((1, 0), Direction::Up), None);
    assert_eq!(sandbox.neighbour_value((1, 1), Direction::Up), Some(sand));
    assert_eq!(sandbox.neighbour_value((2, 2), Direction::Down), None);
    let around = sandbox.get_adjacent_pixels((1, 1));
    assert_eq!(around.top, Some(sand));
    assert_eq!(around.bottom_right, Some(rock));
    assert_eq!(around.bottom, Some(PixelContainer::default()));
    assert_eq!(around.left, Some(PixelContainer::default()));
    assert_eq!(around.right, Some(PixelContainer::default()));
    assert_eq!(around.top_left, Some(PixelContainer::default()));
    assert_eq!(around.top_right, Some(PixelContainer::default()));
    assert_eq!(around.bottom_left, Some(PixelContainer::default()));
    let corner = sandbox.get_adjacent_pixels((2, 0));
    assert_eq!(corner.left, Some(sand));
    assert_eq!(corner.bottom, Some(PixelContainer::default()));
    assert_eq!(corner.bottom_left, Some(PixelContainer::default()));
    assert_eq!(corner.top, None);
    assert_eq!(corner.right, None);
    assert_eq!(corner.top_left, None);
    assert_eq!(corner.top_right, None);
    assert_eq!(corner.bottom_right, None);
    for dir in ALL {
        assert_eq!(around.get(dir), sandbox.neighbour_value((1, 1), dir));
        assert_eq!(sandbox.get_adjacent_pixels((7, 7)).get(dir), None);
    }
}

#[test]
fn a_swap_exchanges_material_and_flag() {
    let mut sandbox = Sandbox::new(2, 2);
    sandbox.place_pixel(Sand.into(), (0, 0));
    sandbox.place_pixel(EternalFire.into(), (1, 1));
    sandbox.get_pixel_mut((0, 0)).unwrap().mark_is_moved(true);
    sandbox.swap_pixels((0, 0), (1, 1));
    let mut sand = PixelContainer::new(Sand.into());
    sand.mark_is_moved(true);
    assert_eq!(*sandbox.get_pixel((1, 1)).unwrap(), sand);
    assert_eq!(*sandbox.get_pixel((0, 0)).unwrap(), PixelContainer::new(EternalFire.into()));
    // a wall was moved: the swap asks no questions
    sandbox.swap_pixels((1, 1), (1, 1));
    assert_eq!(*sandbox.get_pixel((1, 1)).unwrap(), sand);
    // nothing happens unless both cells exist
    sandbox.swap_pixels((1, 1), (2, 1));
    sandbox.swap_pixels((1, 2), (1, 1));
    sandbox.swap_pixels((5, 5), (6, 6));
    assert_eq!(*sandbox.get_pixel((1, 1)).unwrap(), sand);
    assert_eq!(*sandbox.get_pixel((0, 0)).unwrap(), PixelContainer::new(EternalFire.into()));
    assert_eq!(*sandbox.get_pixel((0, 1)).unwrap(), PixelContainer::default());
    assert_eq!(*sandbox.get_pixel((1, 0)).unwrap(), PixelContainer::default());
}

#[test]
fn swapping_in_stored_columns() {
    let mut columns = vec![
        vec![PixelContainer::new(Sand.into()), PixelContainer::default()],
        vec![PixelContainer::new(Rock.into())],
    ];
    swap_cells(&mut columns, (0, 0), (1, 0));
    assert_eq!(columns[0][0].pixel(), Pixel::Rock(Rock));
    assert_eq!(columns[1][0].pixel(), Pixel::Sand(Sand));
    swap_cells(&mut columns, (0, 1), (1, 1));
    swap_cells(&mut columns, (2, 0), (0, 0));
    assert_eq!(columns[0][0].pixel(), Pixel::Rock(Rock));
    assert_eq!(columns[0][1], PixelContainer::default());
    assert_eq!(columns[1].len(), 1);
}

#[test]
fn a_move_flags_the_source_and_an_occupied_destination() {
    let mut columns = vec![vec![
        PixelContainer::new(Sand.into()),
        PixelContainer::new(Water::default().into()),
        PixelContainer::default(),
    ]];
    relocate(&mut columns, (0, 0), (0, 1));
    let mut sand = PixelContainer::new(Sand.into());
    sand.mark_is_moved(true);
    let mut water = PixelContainer::new(Water::default().into());
    water.mark_is_moved(true);
    assert_eq!(columns[0], vec![water, sand, PixelContainer::default()]);
    // the void is not flagged for being moved into
    relocate(&mut columns, (0, 1), (0, 2));
    assert_eq!(columns[0], vec![water, PixelContainer::default(), sand]);
    // a source outside does nothing; a destination outside leaves a flag
    relocate(&mut columns, (0, 3), (0, 1));
    assert_eq!(columns[0], vec![water, PixelContainer::default(), sand]);
    let mut column = vec![vec![PixelContainer::new(Sand.into())]];
    relocate(&mut column, (0, 0), (0, 1));
    assert_eq!(column[0], vec![sand]);
}

#[test]
fn writing_through_a_cell() {
    let mut sandbox = Sandbox::new(2, 2);
    assert!(sandbox.get_pixel_mut((2, 0)).is_none());
    assert!(sandbox.get_pixel_mut((0, 2)).is_none());
    *sandbox.get_pixel_mut((1, 0)).unwrap() = PixelContainer::new(Sand.into());
    assert_eq!(
        materials(&sandbox),
        vec![vec![Pixel::default(); 2], vec![Sand.into(), Pixel::default()]]
    );
    sandbox.matrix_mut()[0][1] = PixelContainer::new(Rock.into());
    assert_eq!(sandbox.get_pixel((0, 1)).unwrap().pixel(), Pixel::Rock(Rock));
}

#[test]
fn growing_keeps_the_content_centred() {
    let mut sandbox = Sandbox::new(2, 2);
    sandbox.place_pixel(Sand.into(), (0, 0));
    sandbox.place_pixel(Rock.into(), (1, 1));
    sandbox.get_pixel_mut((1, 1)).unwrap().mark_is_moved(true);
    sandbox.resize(6, 4);
    assert_eq!(sandbox.width(), 6);
    assert_eq!(sandbox.height(), 4);
    assert!(sandbox.matrix().iter().all(|column| column.len() == 4));
    for x in 0..6 {
        for y in 0..4 {
            let expected: Pixel = match (x, y) {
                (2, 1) => Sand.into(),
                (3, 2) => Rock.into(),
                _ => Pixel::default(),
            };
            assert_eq!(*sandbox.get_pixel((x, y)).unwrap(), PixelContainer::new(expected));
        }
    }
}

#[test]
fn an_odd_change_is_halved_toward_zero() {
    // three more columns shift the content by one, three fewer by one back
    let mut sandbox = Sandbox::new(2, 1);
    sandbox.place_pixel(Sand.into(), (0, 0));
    sandbox.place_pixel(Rock.into(), (1, 0));
    sandbox.resize(5, 1);
    assert_eq!(
        materials(&sandbox),
        vec![
            vec![Pixel::default()],
            vec![Sand.into()],
            vec![Rock.into()],
            vec![Pixel::default()],
            vec![Pixel::default()]
        ]
    );
    sandbox.resize(2, 1);
    assert_eq!(materials(&sandbox), vec![vec![Sand.into()], vec![Rock.into()]]);
    // one fewer shifts by nothing: the last column is dropped
    sandbox.resize(1, 1);
    assert_eq!(materials(&sandbox), vec![vec![Sand.into()]]);
    // one more shifts by nothing too
    sandbox.resize(2, 1);
    assert_eq!(materials(&sandbox), vec![vec![Sand.into()], vec![Pixel::default()]]);
}

#[test]
fn shrinking_drops_what_falls_outside() {
    let mut sandbox = Sandbox::new(4, 4);
    for x in 0..4 {
        for y in 0..4 {
            sandbox.place_pixel(Water { temp: (10 * x + y) as u8 }.into(), (x, y));
        }
    }
    sandbox.resize(2, 2);
    assert_eq!(
        materials(&sandbox),
        vec![
            vec![Water { temp: 11 }.into(), Water { temp: 12 }.into()],
            vec![Water { temp: 21 }.into(), Water { temp: 22 }.into()]
        ]
    );
    sandbox.resize(2, 5);
    assert_eq!(
        materials(&sandbox),
        vec![
            vec![
                Pixel::default(),
                Water { temp: 11 }.into(),
                Water { temp: 12 }.into(),
                Pixel::default(),
                Pixel::default()
            ],
            vec![
                Pixel::default(),
                Water { temp: 21 }.into(),
                Water { temp: 22 }.into(),
                Pixel::default(),
                Pixel::default()
            ]
        ]
    );
    sandbox.resize(0, 0);
    assert_eq!(sandbox.width(), 0);
    assert_eq!(sandbox.height(), 0);
    sandbox.resize(2, 2);
    assert_eq!(materials(&sandbox), vec![vec![Pixel::default(); 2]; 2]);
}

#[test]
fn resizing_to_the_same_size_changes_nothing_but_flags() {
    let mut sandbox = Sandbox::new(3, 2);
    sandbox.place_pixel(Sand.into(), (2, 1));
    sandbox.get_pixel_mut((2, 1)).unwrap().mark_is_moved(true);
    let before = materials(&sandbox);
    sandbox.resize(3, 2);
    assert_eq!(materials(&sandbox), before);
    assert!(!sandbox.get_pixel((2, 1)).unwrap().is_moved());
}
