use robo_swarm::drag::{DragState, DragSession};
use robo_swarm::grid::{cell_center, fixup_gadget_direction, level_cell_to_grid, placement_valid, GridCoords, LevelSizeInfo};
use robo_swarm::inventory::{GadgetKind, Inventory};

fn cell(x: i32, y: i32) -> GridCoords {
    GridCoords { x, y }
}

fn info() -> LevelSizeInfo {
    LevelSizeInfo { width: 10, height: 8, tile_size: 32 }
}

#[test]
fn placement_accepts_a_free_cell() {
    let walls = vec![cell(0, 0), cell(0, 1)];
    let occupied = vec![cell(7, 7)];
    assert!(placement_valid(cell(3, 3), &info(), &walls, &occupied));
}

#[test]
fn placement_rejects_out_of_bounds() {
    let none: Vec<GridCoords> = Vec::new();
    assert!(!placement_valid(cell(-1, 3), &info(), &none, &none));
    assert!(!placement_valid(cell(10, 3), &info(), &none, &none));
    assert!(!placement_valid(cell(3, 8), &info(), &none, &none));
    assert!(placement_valid(cell(0, 0), &info(), &none, &none));
    assert!(placement_valid(cell(9, 7), &info(), &none, &none));
}

#[test]
fn placement_rejects_walls() {
    let walls = vec![cell(4, 4)];
    let none: Vec<GridCoords> = Vec::new();
    assert!(!placement_valid(cell(4, 4), &info(), &walls, &none));
    assert!(placement_valid(cell(5, 4), &info(), &walls, &none));
}

#[test]
fn placement_enforces_spacing_of_two_cells() {
    let none: Vec<GridCoords> = Vec::new();
    let occupied = vec![cell(5, 5)];
    // Distance 0, 1 and sqrt(2) are too close; distance 2 and sqrt(5) are fine.
    assert!(!placement_valid(cell(5, 5), &info(), &none, &occupied));
    assert!(!placement_valid(cell(6, 5), &info(), &none, &occupied));
    assert!(!placement_valid(cell(6, 6), &info(), &none, &occupied));
    assert!(placement_valid(cell(7, 5), &info(), &none, &occupied));
    assert!(placement_valid(cell(7, 6), &info(), &none, &occupied));
}

#[test]
fn placement_is_a_pure_function_of_its_inputs() {
    let walls = vec![cell(2, 2)];
    let occupied = vec![cell(6, 6)];
    let first = placement_valid(cell(3, 3), &info(), &walls, &occupied);
    // Unrelated queries in between do not change the answer.
    placement_valid(cell(6, 6), &info(), &walls, &occupied);
    placement_valid(cell(-3, 0), &info(), &walls, &occupied);
    let second = placement_valid(cell(3, 3), &info(), &walls, &occupied);
    assert_eq!(first, second);
    assert!(first);
}

#[test]
fn drag_lifecycle_commits_and_consumes_inventory() {
    let mut inventory = Inventory::reset(2, 0, 0, 0);
    let mut drag = DragSession::start(GadgetKind::Arrow);
    let walls: Vec<GridCoords> = Vec::new();
    let occupied: Vec<GridCoords> = Vec::new();

    assert_eq!(drag.phase, DragState::Dragging);
    drag.revalidate(cell(3, 3), &info(), &walls, &occupied);
    assert!(drag.valid);
    assert_eq!(drag.coords, Some(cell(3, 3)));

    assert!(!drag.drop_request(&mut inventory));
    assert_eq!(drag.phase, DragState::SettingDirection { anchor: cell(3, 3) });
    assert_eq!(inventory.arrow_count, 2);

    assert!(drag.drop_request(&mut inventory));
    assert_eq!(drag.phase, DragState::Committed);
    assert_eq!(inventory.arrow_count, 1);
}

#[test]
fn invalid_drop_request_is_discarded() {
    let mut inventory = Inventory::reset(1, 0, 0, 0);
    let mut drag = DragSession::start(GadgetKind::Arrow);
    let walls = vec![cell(3, 3)];
    let occupied: Vec<GridCoords> = Vec::new();

    drag.revalidate(cell(3, 3), &info(), &walls, &occupied);
    assert!(!drag.valid);
    assert!(!drag.drop_request(&mut inventory));
    assert_eq!(drag.phase, DragState::Dragging);
    assert_eq!(inventory.arrow_count, 1);
}

#[test]
fn revalidation_follows_the_mouse_between_cells() {
    let mut drag = DragSession::start(GadgetKind::Fork);
    let walls = vec![cell(2, 2)];
    let occupied: Vec<GridCoords> = Vec::new();
    drag.revalidate(cell(2, 2), &info(), &walls, &occupied);
    assert!(!drag.valid);
    assert_eq!(drag.coords, None);
    drag.revalidate(cell(1, 1), &info(), &walls, &occupied);
    assert!(drag.valid);
    assert_eq!(drag.coords, Some(cell(1, 1)));
}

#[test]
fn cancel_discards_from_either_live_phase_without_refund() {
    let mut inventory = Inventory::reset(0, 3, 0, 0);
    let walls: Vec<GridCoords> = Vec::new();
    let occupied: Vec<GridCoords> = Vec::new();

    let mut dragging = DragSession::start(GadgetKind::Fork);
    dragging.cancel_request();
    assert_eq!(dragging.phase, DragState::Cancelled);

    let mut aiming = DragSession::start(GadgetKind::Fork);
    aiming.revalidate(cell(1, 1), &info(), &walls, &occupied);
    aiming.drop_request(&mut inventory);
    assert_eq!(aiming.phase, DragState::SettingDirection { anchor: cell(1, 1) });
    aiming.cancel_request();
    assert_eq!(aiming.phase, DragState::Cancelled);
    assert_eq!(inventory.fork_count, 3);
}

#[test]
fn terminal_phases_ignore_further_requests() {
    let mut inventory = Inventory::reset(1, 0, 0, 0);
    let walls: Vec<GridCoords> = Vec::new();
    let occupied: Vec<GridCoords> = Vec::new();
    let mut drag = DragSession::start(GadgetKind::Arrow);
    drag.revalidate(cell(1, 1), &info(), &walls, &occupied);
    drag.drop_request(&mut inventory);
    drag.drop_request(&mut inventory);
    assert_eq!(drag.phase, DragState::Committed);
    assert!(!drag.drop_request(&mut inventory));
    drag.cancel_request();
    assert_eq!(drag.phase, DragState::Committed);
    assert_eq!(inventory.arrow_count, 0);
}

#[test]
fn inventory_rules_drag_initiation() {
    let inventory = Inventory::reset(1, 0, 2, 0);
    assert!(inventory.can_start_drag(GadgetKind::Arrow, false));
    assert!(!inventory.can_start_drag(GadgetKind::Arrow, true));
    assert!(!inventory.can_start_drag(GadgetKind::Fork, false));
    assert!(inventory.can_start_drag(GadgetKind::Grouper, false));
    assert!(!inventory.can_start_drag(GadgetKind::Defender, false));
}

#[test]
fn inventory_consume_and_refund() {
    let mut inventory = Inventory::reset(0, 0, 0, 1);
    assert!(!inventory.try_consume(GadgetKind::Arrow));
    assert!(inventory.try_consume(GadgetKind::Defender));
    assert_eq!(inventory.defender_count, 0);
    assert!(!inventory.try_consume(GadgetKind::Defender));
    inventory.refund(GadgetKind::Defender);
    assert_eq!(inventory.defender_count, 1);
}

#[test]
fn level_format_rows_are_flipped_into_grid_rows() {
    // In a level 8 rows tall, the format's top row 0 is the grid's row 7.
    assert_eq!(level_cell_to_grid(cell(3, 0), 8), cell(3, 7));
    assert_eq!(level_cell_to_grid(cell(3, 7), 8), cell(3, 0));
}

#[test]
fn cell_centers_sit_half_a_tile_in() {
    assert_eq!(cell_center(cell(0, 0), 32), (16, 16));
    assert_eq!(cell_center(cell(2, 1), 32), (80, 48));
}

#[test]
fn enemy_gadget_fixup_runs_once_and_aims_at_the_target_cell() {
    let info = LevelSizeInfo { width: 10, height: 8, tile_size: 32 };
    // The gadget sits at (2, 2); its staged direction point is the format
    // cell (2, 5), which flips to grid (2, 2)... pick (4, 5) -> grid (4, 2):
    // straight to the right of the gadget.
    let staged = Some(cell(4, 5));
    let own = cell(2, 2);
    let delta = fixup_gadget_direction(staged, own, &info).expect("staged point present");
    assert_eq!(delta, (64, 0));
    // A second level-loaded event finds the staging field consumed.
    assert_eq!(fixup_gadget_direction(None, own, &info), None);
}
