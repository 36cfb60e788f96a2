//! The deployment rule: exactly the configured fleet, in bounds, no
//! shared cells.

use battleships::helpers::EntryCreationAction;
use battleships::ship_deployment::{
    validate_create_ship_deployment, validate_delete_ship_deployment,
    validate_update_ship_deployment, GameRules, Ship, ShipDeployment,
};
use battleships::validation::{Rejection, ValidateCallbackResult};

fn act() -> EntryCreationAction {
    EntryCreationAction::Create { author: b"alice".to_vec() }
}

fn fleet(ships: &[(usize, usize, bool)]) -> ShipDeployment {
    ShipDeployment {
        ships: ships.iter().map(|&(x, y, horizontal)| Ship { x, y, horizontal }).collect(),
    }
}

#[test]
fn rows_fleet_is_accepted() {
    let d = fleet(&[(0, 0, true), (0, 1, true), (0, 2, true), (0, 3, true), (0, 4, true)]);
    assert_eq!(
        validate_create_ship_deployment(&act(), &d, &GameRules::default()),
        ValidateCallbackResult::Valid
    );
}

#[test]
fn vertical_fleet_is_accepted() {
    let d = fleet(&[(0, 0, false), (1, 0, false), (2, 0, false), (3, 0, false), (4, 0, false)]);
    assert_eq!(
        validate_create_ship_deployment(&act(), &d, &GameRules::default()),
        ValidateCallbackResult::Valid
    );
}

#[test]
fn snug_fleet_at_board_edges_is_accepted() {
    // Lengths are [5, 4, 3, 3, 2]; each ship ends exactly at an edge.
    let d = fleet(&[(5, 0, true), (6, 1, true), (7, 2, true), (7, 3, true), (8, 4, true)]);
    assert_eq!(
        validate_create_ship_deployment(&act(), &d, &GameRules::default()),
        ValidateCallbackResult::Valid
    );
}

#[test]
fn four_ships_are_rejected() {
    let d = fleet(&[(0, 0, true), (0, 1, true), (0, 2, true), (0, 3, true)]);
    assert_eq!(
        validate_create_ship_deployment(&act(), &d, &GameRules::default()),
        ValidateCallbackResult::Invalid(Rejection::WrongShipCount)
    );
}

#[test]
fn six_ships_are_rejected() {
    let d = fleet(&[
        (0, 0, true),
        (0, 1, true),
        (0, 2, true),
        (0, 3, true),
        (0, 4, true),
        (0, 5, true),
    ]);
    assert_eq!(
        validate_create_ship_deployment(&act(), &d, &GameRules::default()),
        ValidateCallbackResult::Invalid(Rejection::WrongShipCount)
    );
}

#[test]
fn overlap_by_one_cell_is_rejected() {
    // The second ship crosses the first at (2, 0).
    let d = fleet(&[(0, 0, true), (2, 0, false), (0, 2, true), (0, 3, true), (0, 4, true)]);
    assert_eq!(
        validate_create_ship_deployment(&act(), &d, &GameRules::default()),
        ValidateCallbackResult::Invalid(Rejection::ShipCollision)
    );
}

#[test]
fn identical_ships_are_rejected() {
    let d = fleet(&[(0, 0, true), (0, 0, true), (0, 2, true), (0, 3, true), (0, 4, true)]);
    assert_eq!(
        validate_create_ship_deployment(&act(), &d, &GameRules::default()),
        ValidateCallbackResult::Invalid(Rejection::ShipCollision)
    );
}

#[test]
fn ship_reaching_past_the_right_edge_is_rejected() {
    // A length-five ship anchored at x = 6 would reach x = 10.
    let d = fleet(&[(6, 0, true), (0, 1, true), (0, 2, true), (0, 3, true), (0, 4, true)]);
    assert_eq!(
        validate_create_ship_deployment(&act(), &d, &GameRules::default()),
        ValidateCallbackResult::Invalid(Rejection::ShipOutOfBounds)
    );
}

#[test]
fn ship_anchored_off_board_is_rejected() {
    let d = fleet(&[(0, 0, true), (0, 10, true), (0, 2, true), (0, 3, true), (0, 4, true)]);
    assert_eq!(
        validate_create_ship_deployment(&act(), &d, &GameRules::default()),
        ValidateCallbackResult::Invalid(Rejection::ShipOutOfBounds)
    );
}

#[test]
fn ship_reaching_past_the_bottom_edge_is_rejected() {
    let d = fleet(&[(0, 6, false), (1, 0, false), (2, 0, false), (3, 0, false), (4, 0, false)]);
    assert_eq!(
        validate_create_ship_deployment(&act(), &d, &GameRules::default()),
        ValidateCallbackResult::Invalid(Rejection::ShipOutOfBounds)
    );
}

#[test]
fn smaller_board_rules_apply() {
    let rules = GameRules { board_size: 6, ship_lengths: vec![2, 2] };
    let ok = fleet(&[(0, 0, true), (0, 1, true)]);
    assert_eq!(validate_create_ship_deployment(&act(), &ok, &rules), ValidateCallbackResult::Valid);
    let off = fleet(&[(5, 0, true), (0, 1, true)]);
    assert_eq!(
        validate_create_ship_deployment(&act(), &off, &rules),
        ValidateCallbackResult::Invalid(Rejection::ShipOutOfBounds)
    );
}

#[test]
fn deployments_cannot_be_updated() {
    let d = fleet(&[(0, 0, true), (0, 1, true), (0, 2, true), (0, 3, true), (0, 4, true)]);
    assert_eq!(
        validate_update_ship_deployment(&b"alice".to_vec(), &d, &act(), &d),
        ValidateCallbackResult::Invalid(Rejection::ShipDeploymentsCannotBeUpdated)
    );
}

#[test]
fn deployments_cannot_be_deleted() {
    let d = fleet(&[(0, 0, true), (0, 1, true), (0, 2, true), (0, 3, true), (0, 4, true)]);
    assert_eq!(
        validate_delete_ship_deployment(&b"alice".to_vec(), &act(), &d),
        ValidateCallbackResult::Invalid(Rejection::ShipDeploymentsCannotBeDeleted)
    );
}
