use space_shooter::collider::ColliderKind;
use space_shooter::geometry::Pos;
use space_shooter::grid::{grid_dimensions, Grid, GridEntry};

#[test]
fn grid_dimensions_round_up() {
    assert_eq!(grid_dimensions(360, 600, 40), (9, 15));
    assert_eq!(grid_dimensions(361, 600, 40), (10, 15));
    assert_eq!(grid_dimensions(1, 1, 40), (1, 1));
}

#[test]
fn last_valid_cell() {
    let grid = Grid::new(360, 600, 40).unwrap();
    assert_eq!(grid.columns, 9);
    assert_eq!(grid.rows, 15);
    assert_eq!(grid.cells.len(), 135);
    assert_eq!(grid.cell_index(359, 599), Some((8, 14)));
    assert_eq!(grid.cell_index(0, 0), Some((0, 0)));
    assert_eq!(grid.cell_index(40, 79), Some((1, 1)));
}

#[test]
fn points_outside_the_field_land_in_no_cell() {
    let grid = Grid::new(360, 600, 40).unwrap();
    assert_eq!(grid.cell_index(360, 0), None);
    assert_eq!(grid.cell_index(0, 600), None);
    assert_eq!(grid.cell_index(-1, 10), None);
    assert_eq!(grid.cell_index(10, -1), None);
    assert_eq!(grid.cell_index(i64::MAX, i64::MAX), None);
    assert_eq!(grid.cell_index(i64::MIN, 0), None);
}

#[test]
fn oversized_grid_is_refused() {
    assert!(Grid::new(1_000_000_000_000, 1_000_000_000_000, 1).is_none());
}

#[test]
fn position_cell_is_relative_to_camera() {
    let grid = Grid::new(360_000, 600_000, 40_000).unwrap();
    let camera = Pos::new(0, 1_000_000);
    assert_eq!(grid.position_cell(camera, Pos::new(0, 1_000_000)), Some((4, 7)));
    assert_eq!(grid.position_cell(camera, Pos::new(-180_000, 700_000)), Some((0, 0)));
    assert_eq!(grid.position_cell(camera, Pos::new(179_999, 1_299_999)), Some((8, 14)));
    assert_eq!(grid.position_cell(camera, Pos::new(0, 0)), None);
    assert_eq!(grid.position_cell(camera, Pos::new(180_000, 1_000_000)), None);
}

#[test]
fn update_grid_places_each_entry_once() {
    let mut grid = Grid::new(360_000, 600_000, 40_000).unwrap();
    let camera = Pos::new(0, 0);
    let entries = vec![
        GridEntry { entity: 1, kind: ColliderKind::Asteroid, pos: Pos::new(0, 0) },
        GridEntry { entity: 2, kind: ColliderKind::Rocket, pos: Pos::new(1_000, 1_000) },
        GridEntry { entity: 3, kind: ColliderKind::Ship, pos: Pos::new(0, 900_000) },
        GridEntry { entity: 4, kind: ColliderKind::Asteroid, pos: Pos::new(-180_000, -300_000) },
    ];
    grid.update_grid(camera, &entries);
    let total: usize = grid.cells.iter().map(|c| c.len()).sum();
    assert_eq!(total, 3);
    assert_eq!(grid.cells[4 * 15 + 7], vec![entries[0], entries[1]]);
    assert_eq!(grid.cells[0], vec![entries[3]]);
    grid.update_grid(camera, &Vec::new());
    assert!(grid.cells.iter().all(|c| c.is_empty()));
}

#[test]
fn clear_empties_every_cell() {
    let mut grid = Grid::new(360_000, 600_000, 40_000).unwrap();
    let entries = vec![GridEntry { entity: 1, kind: ColliderKind::Asteroid, pos: Pos::new(0, 0) }];
    grid.update_grid(Pos::new(0, 0), &entries);
    grid.clear();
    assert!(grid.cells.iter().all(|c| c.is_empty()));
    assert_eq!(grid.cells.len(), 135);
}
