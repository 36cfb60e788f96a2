//! Fleet deployments and the rule that makes one legal.
//!
//! A deployment lists the ships of one player's private fleet. It is
//! legal when it fields exactly the configured ships, each inside the
//! board and no two sharing a cell. The validator sweeps an occupancy
//! grid ship by ship, cell by cell, rejecting at the first off-board or
//! already-marked cell, and provably accepts exactly the valid fleets.

use vstd::prelude::*;

use crate::helpers::EntryCreationAction;
use crate::validation::Rejection;
use crate::validation::ValidateCallbackResult;

verus! {

/// One ship: its anchor cell and orientation. A ship of length `n`
/// occupies `n` cells rightward (horizontal) or downward (vertical)
/// from its anchor.
#[derive(Clone, Copy, Debug, PartialEq, Eq)]
pub struct Ship {
    pub x: usize,
    pub y: usize,
    pub horizontal: bool,
}

pub ghost struct ShipView {
    pub x: int,
    pub y: int,
    pub horizontal: bool,
}

impl View for Ship {
    type V = ShipView;

    open spec fn view(&self) -> ShipView {
        ShipView { x: self.x as int, y: self.y as int, horizontal: self.horizontal }
    }
}

/// A player's private fleet layout. Never replicated publicly; the
/// deployment rule is enforced in zero knowledge once the layout is
/// committed to.
#[derive(Clone, Debug, PartialEq, Eq)]
pub struct ShipDeployment {
    pub ships: Vec<Ship>,
}

impl View for ShipDeployment {
    type V = Seq<ShipView>;

    open spec fn view(&self) -> Seq<ShipView> {
        self.ships@.map_values(|s: Ship| s@)
    }
}

/// The board policy: its side length and the fleet's ship lengths in
/// order. These are policy constants of the game, not protocol
/// parameters; the standard game is `GameRules::default()`.
#[derive(Clone, Debug, PartialEq, Eq)]
pub struct GameRules {
    pub board_size: usize,
    pub ship_lengths: Vec<usize>,
}

pub ghost struct RulesView {
    pub board_size: int,
    pub ship_lengths: Seq<int>,
}

impl View for GameRules {
    type V = RulesView;

    open spec fn view(&self) -> RulesView {
        RulesView {
            board_size: self.board_size as int,
            ship_lengths: self.ship_lengths@.map_values(|l: usize| l as int),
        }
    }
}

/// The standard rules: a ten-by-ten board and five ships of lengths
/// five, four, three, three and two.
pub open spec fn default_rules() -> RulesView {
    RulesView { board_size: 10, ship_lengths: seq![5, 4, 3, 3, 2] }
}

/// The board must be non-degenerate and small enough for its occupancy
/// grid to be addressable: with the side at most 65535, the grid's
/// `board_size * board_size` cells fit even a 32-bit `usize`.
pub open spec fn rules_wf(r: RulesView) -> bool {
    1 <= r.board_size <= 65535
}

impl Default for GameRules {
    /// The standard rules.
    fn default() -> (r: Self)
        ensures
            r@ == default_rules(),
            rules_wf(r@),
    {
        let mut lengths: Vec<usize> = Vec::new();
        lengths.push(5);
        lengths.push(4);
        lengths.push(3);
        lengths.push(3);
        lengths.push(2);
        let r = GameRules { board_size: 10, ship_lengths: lengths };
        proof {
            assert(r@.ship_lengths =~= default_rules().ship_lengths);
        }
        r
    }
}

/// The cell a ship covers at a given offset along its axis.
pub open spec fn ship_cell(s: ShipView, o: int) -> (int, int) {
    if s.horizontal {
        (s.x + o, s.y)
    } else {
        (s.x, s.y + o)
    }
}

pub open spec fn cell_in_bounds(c: (int, int), bs: int) -> bool {
    0 <= c.0 < bs && 0 <= c.1 < bs
}

/// Every cell of the ship lies on the board.
pub open spec fn ship_in_bounds(s: ShipView, len: int, bs: int) -> bool {
    forall|o: int| 0 <= o < len ==> cell_in_bounds(#[trigger] ship_cell(s, o), bs)
}

/// Two ships cover a common cell.
pub open spec fn ships_share_cell(a: ShipView, la: int, b: ShipView, lb: int) -> bool {
    exists|p: int, q: int|
        #![trigger ship_cell(a, p), ship_cell(b, q)]
        0 <= p < la && 0 <= q < lb && ship_cell(a, p) == ship_cell(b, q)
}

/// The declarative deployment rule: exactly the configured ships, each
/// in bounds, no two sharing a cell.
pub open spec fn valid_fleet(rules: RulesView, ships: Seq<ShipView>) -> bool {
    &&& ships.len() == rules.ship_lengths.len()
    &&& forall|i: int|
        0 <= i < ships.len() ==> ship_in_bounds(
            #[trigger] ships[i],
            rules.ship_lengths[i],
            rules.board_size,
        )
    &&& forall|i: int, j: int|
        #![trigger ships[i], ships[j]]
        0 <= i < j < ships.len() ==> !ships_share_cell(
            ships[i],
            rules.ship_lengths[i],
            ships[j],
            rules.ship_lengths[j],
        )
}

/// Whether a cell is covered by any ship before the given one in sweep
/// order.
pub open spec fn prefix_occupies(
    ships: Seq<ShipView>,
    lens: Seq<int>,
    i: int,
    c: (int, int),
) -> bool {
    exists|j: int, p: int|
        0 <= j < i && 0 <= p < lens[j] && #[trigger] ship_cell(ships[j], p) == c
}

/// The first violation the sweep finds on one ship, scanning its cells
/// from the given offset: an off-board cell, or a cell already covered
/// by an earlier ship.
pub open spec fn ship_error(
    ships: Seq<ShipView>,
    lens: Seq<int>,
    bs: int,
    i: int,
    o: int,
) -> Option<Rejection>
    decreases lens[i] - o,
{
    if o >= lens[i] {
        None
    } else if !cell_in_bounds(ship_cell(ships[i], o), bs) {
        Some(Rejection::ShipOutOfBounds)
    } else if prefix_occupies(ships, lens, i, ship_cell(ships[i], o)) {
        Some(Rejection::ShipCollision)
    } else {
        ship_error(ships, lens, bs, i, o + 1)
    }
}

/// The verdict of the sweep from the given ship onward.
pub open spec fn sweep_verdict(
    ships: Seq<ShipView>,
    lens: Seq<int>,
    bs: int,
    i: int,
) -> ValidateCallbackResult
    decreases ships.len() - i,
{
    if i >= ships.len() {
        ValidateCallbackResult::Valid
    } else {
        match ship_error(ships, lens, bs, i, 0) {
            Some(rej) => ValidateCallbackResult::Invalid(rej),
            None => sweep_verdict(ships, lens, bs, i + 1),
        }
    }
}

/// The exact verdict of the deployment validator: the ship count first,
/// then the sweep.
pub open spec fn deployment_verdict(rules: RulesView, ships: Seq<ShipView>) -> ValidateCallbackResult {
    if ships.len() != rules.ship_lengths.len() {
        ValidateCallbackResult::Invalid(Rejection::WrongShipCount)
    } else {
        sweep_verdict(ships, rules.ship_lengths, rules.board_size, 0)
    }
}

proof fn lemma_grid_index(bs: int, x: int, y: int)
    by (nonlinear_arith)
    requires
        0 <= x < bs,
        0 <= y < bs,
    ensures
        0 <= x * bs + y < bs * bs,
{
}

proof fn lemma_grid_index_inj(bs: int, x1: int, y1: int, x2: int, y2: int)
    by (nonlinear_arith)
    requires
        0 <= x1 < bs,
        0 <= y1 < bs,
        0 <= x2 < bs,
        0 <= y2 < bs,
        x1 * bs + y1 == x2 * bs + y2,
    ensures
        x1 == x2,
        y1 == y2,
{
}

/// Accept a deployment exactly when the occupancy sweep accepts it:
/// ship count first, then each ship's cells in order against the board
/// and the grid.
pub fn validate_create_ship_deployment(
    action: &EntryCreationAction,
    ship_deployment: &ShipDeployment,
    rules: &GameRules,
) -> (r: ValidateCallbackResult)
    requires
        rules_wf(rules@),
    ensures
        r == deployment_verdict(rules@, ship_deployment@),
{
    let ghost shipsv = ship_deployment@;
    let ghost lensv = rules@.ship_lengths;
    let ghost bsv = rules@.board_size;
    if ship_deployment.ships.len() != rules.ship_lengths.len() {
        return ValidateCallbackResult::Invalid(Rejection::WrongShipCount);
    }
    let bs = rules.board_size;
    proof {
        assert(bs * bs <= 0xfffe0001) by (nonlinear_arith)
            requires
                0 <= bs <= 65535,
        ;
    }
    let n = bs * bs;
    let mut grid: Vec<bool> = Vec::new();
    while grid.len() < n
        invariant
            grid@.len() <= n,
            forall|k: int| 0 <= k < grid@.len() ==> !(#[trigger] grid@[k]),
        decreases n - grid@.len(),
    {
        grid.push(false);
    }
    proof {
        assert forall|x: int, y: int| 0 <= x < bsv && 0 <= y < bsv implies ((#[trigger] grid@[x
            * bsv + y]) <==> prefix_occupies(shipsv, lensv, 0, (x, y))) by {
            lemma_grid_index(bsv, x, y);
        }
    }
    let mut i: usize = 0;
    while i < ship_deployment.ships.len()
        invariant
            i <= ship_deployment.ships@.len(),
            shipsv == ship_deployment@,
            lensv == rules@.ship_lengths,
            bsv == rules@.board_size,
            bs == rules.board_size,
            rules_wf(rules@),
            shipsv.len() == lensv.len(),
            ship_deployment.ships@.len() == rules.ship_lengths@.len(),
            grid@.len() == bs * bs,
            forall|x: int, y: int|
                0 <= x < bsv && 0 <= y < bsv ==> ((#[trigger] grid@[x * bsv + y])
                    <==> prefix_occupies(shipsv, lensv, i as int, (x, y))),
            sweep_verdict(shipsv, lensv, bsv, 0) == sweep_verdict(shipsv, lensv, bsv, i as int),
        decreases ship_deployment.ships@.len() - i,
    {
        let ship = ship_deployment.ships[i];
        let len_i = rules.ship_lengths[i];
        proof {
            assert(ship@ == shipsv[i as int]);
            assert(len_i as int == lensv[i as int]);
        }
        let mut o: usize = 0;
        while o < len_i
            invariant
                o <= len_i,
                i < ship_deployment.ships@.len(),
                shipsv == ship_deployment@,
                lensv == rules@.ship_lengths,
                bsv == rules@.board_size,
                bs == rules.board_size,
                rules_wf(rules@),
                shipsv.len() == lensv.len(),
                grid@.len() == bs * bs,
                ship@ == shipsv[i as int],
                len_i as int == lensv[i as int],
                sweep_verdict(shipsv, lensv, bsv, 0) == sweep_verdict(shipsv, lensv, bsv, i as int),
                ship_error(shipsv, lensv, bsv, i as int, 0) == ship_error(
                    shipsv,
                    lensv,
                    bsv,
                    i as int,
                    o as int,
                ),
                forall|p: int|
                    0 <= p < o ==> cell_in_bounds(#[trigger] ship_cell(ship@, p), bsv),
                forall|x: int, y: int|
                    0 <= x < bsv && 0 <= y < bsv ==> ((#[trigger] grid@[x * bsv + y])
                        <==> prefix_occupies(shipsv, lensv, i as int, (x, y)) || (exists|p: int|
                            0 <= p < o && ship_cell(ship@, p) == (x, y))),
            decreases len_i - o,
        {
            let ghost cellv = ship_cell(ship@, o as int);
            let in_bounds: bool = if ship.horizontal {
                ship.y < bs && o < bs && ship.x < bs - o
            } else {
                ship.x < bs && o < bs && ship.y < bs - o
            };
            proof {
                assert(in_bounds == cell_in_bounds(cellv, bsv));
            }
            if !in_bounds {
                proof {
                    assert(ship_error(shipsv, lensv, bsv, i as int, o as int) == Some(
                        Rejection::ShipOutOfBounds,
                    ));
                }
                return ValidateCallbackResult::Invalid(Rejection::ShipOutOfBounds);
            }
            let cx: usize = if ship.horizontal {
                ship.x + o
            } else {
                ship.x
            };
            let cy: usize = if ship.horizontal {
                ship.y
            } else {
                ship.y + o
            };
            proof {
                assert(cellv == (cx as int, cy as int));
                lemma_grid_index(bsv, cx as int, cy as int);
            }
            proof {
                assert(bsv * bsv <= 0xfffe0001) by (nonlinear_arith)
                    requires
                        0 <= bsv <= 65535,
                ;
            }
            let idx = cx * bs + cy;
            if grid[idx] {
                proof {
                    if !prefix_occupies(shipsv, lensv, i as int, cellv) {
                        let p = choose|p: int| 0 <= p < o && ship_cell(ship@, p) == cellv;
                        assert(ship_cell(ship@, p) == ship_cell(ship@, o as int));
                        if ship@.horizontal {
                            assert(ship@.x + p == ship@.x + o as int);
                        } else {
                            assert(ship@.y + p == ship@.y + o as int);
                        }
                        assert(false);
                    }
                    assert(ship_error(shipsv, lensv, bsv, i as int, o as int) == Some(
                        Rejection::ShipCollision,
                    ));
                }
                return ValidateCallbackResult::Invalid(Rejection::ShipCollision);
            }
            let ghost g0 = grid@;
            grid.set(idx, true);
            proof {
                assert(!prefix_occupies(shipsv, lensv, i as int, cellv)) by {
                    if prefix_occupies(shipsv, lensv, i as int, cellv) {
                        assert(g0[cx as int * bsv + cy as int]);
                    }
                }
                assert(ship_error(shipsv, lensv, bsv, i as int, o as int) == ship_error(
                    shipsv,
                    lensv,
                    bsv,
                    i as int,
                    o as int + 1,
                ));
                assert forall|x: int, y: int| 0 <= x < bsv && 0 <= y < bsv implies ((
                #[trigger] grid@[x * bsv + y]) <==> prefix_occupies(shipsv, lensv, i as int, (x, y))
                    || (exists|p: int| 0 <= p < o as int + 1 && ship_cell(ship@, p) == (x, y))) by {
                    lemma_grid_index(bsv, x, y);
                    if x * bsv + y == cx as int * bsv + cy as int {
                        lemma_grid_index_inj(bsv, x, y, cx as int, cy as int);
                        assert(ship_cell(ship@, o as int) == (x, y));
                        assert(grid@[x * bsv + y]);
                    } else {
                        assert(grid@[x * bsv + y] == g0[x * bsv + y]);
                        if exists|p: int| 0 <= p < o as int + 1 && ship_cell(ship@, p) == (x, y) {
                            let p = choose|p: int|
                                0 <= p < o as int + 1 && ship_cell(ship@, p) == (x, y);
                            if p == o as int {
                                assert((x, y) == cellv);
                                assert(false);
                            }
                            assert(exists|p0: int|
                                0 <= p0 < o as int && ship_cell(ship@, p0) == (x, y));
                        }
                    }
                }
            }
            o += 1;
        }
        proof {
            assert(ship_error(shipsv, lensv, bsv, i as int, o as int) is None);
            assert(sweep_verdict(shipsv, lensv, bsv, i as int) == sweep_verdict(
                shipsv,
                lensv,
                bsv,
                i as int + 1,
            ));
            assert forall|x: int, y: int| 0 <= x < bsv && 0 <= y < bsv implies ((
            #[trigger] grid@[x * bsv + y]) <==> prefix_occupies(
                shipsv,
                lensv,
                i as int + 1,
                (x, y),
            )) by {
                if grid@[x * bsv + y] {
                    if prefix_occupies(shipsv, lensv, i as int, (x, y)) {
                        assert(prefix_occupies(shipsv, lensv, i as int + 1, (x, y)));
                    } else {
                        let p = choose|p: int|
                            0 <= p < len_i as int && ship_cell(ship@, p) == (x, y);
                        assert(ship_cell(shipsv[i as int], p) == (x, y));
                        assert(prefix_occupies(shipsv, lensv, i as int + 1, (x, y)));
                    }
                } else {
                    if prefix_occupies(shipsv, lensv, i as int + 1, (x, y)) {
                        let (jj, pp) = choose|j: int, p: int|
                            0 <= j < i as int + 1 && 0 <= p < lensv[j] && #[trigger] ship_cell(
                                shipsv[j],
                                p,
                            ) == (x, y);
                        if jj < i as int {
                            assert(prefix_occupies(shipsv, lensv, i as int, (x, y)));
                        } else {
                            assert(ship_cell(ship@, pp) == (x, y));
                        }
                        assert(false);
                    }
                }
            }
        }
        i += 1;
    }
    proof {
        assert(sweep_verdict(shipsv, lensv, bsv, i as int) == ValidateCallbackResult::Valid);
    }
    ValidateCallbackResult::Valid
}

/// Deployments can never be updated.
pub fn validate_update_ship_deployment(
    author: &Vec<u8>,
    ship_deployment: &ShipDeployment,
    original_action: &EntryCreationAction,
    original_ship_deployment: &ShipDeployment,
) -> (r: ValidateCallbackResult)
    ensures
        r == ValidateCallbackResult::Invalid(Rejection::ShipDeploymentsCannotBeUpdated),
{
    ValidateCallbackResult::Invalid(Rejection::ShipDeploymentsCannotBeUpdated)
}

/// Deployments can never be deleted.
pub fn validate_delete_ship_deployment(
    author: &Vec<u8>,
    original_action: &EntryCreationAction,
    original_ship_deployment: &ShipDeployment,
) -> (r: ValidateCallbackResult)
    ensures
        r == ValidateCallbackResult::Invalid(Rejection::ShipDeploymentsCannotBeDeleted),
{
    ValidateCallbackResult::Invalid(Rejection::ShipDeploymentsCannotBeDeleted)
}

proof fn lemma_ship_error_none_iff(ships: Seq<ShipView>, lens: Seq<int>, bs: int, i: int, o: int)
    requires
        0 <= i < ships.len(),
    ensures
        ship_error(ships, lens, bs, i, o) is None <==> (forall|p: int|
            o <= p < lens[i] ==> cell_in_bounds(#[trigger] ship_cell(ships[i], p), bs)
                && !prefix_occupies(ships, lens, i, ship_cell(ships[i], p))),
    decreases lens[i] - o,
{
    if o >= lens[i] {
    } else if !cell_in_bounds(ship_cell(ships[i], o), bs) {
    } else if prefix_occupies(ships, lens, i, ship_cell(ships[i], o)) {
    } else {
        lemma_ship_error_none_iff(ships, lens, bs, i, o + 1);
    }
}

proof fn lemma_sweep_valid_iff(ships: Seq<ShipView>, lens: Seq<int>, bs: int, i: int)
    requires
        0 <= i,
    ensures
        sweep_verdict(ships, lens, bs, i) == ValidateCallbackResult::Valid <==> (forall|j: int|
            i <= j < ships.len() ==> ship_error(ships, lens, bs, j, 0) is None),
    decreases ships.len() - i,
{
    if i >= ships.len() {
    } else {
        lemma_sweep_valid_iff(ships, lens, bs, i + 1);
    }
}

/// The sweep accepts exactly the valid fleets: a deployment passes the
/// occupancy-grid rule if and only if it fields the configured ships,
/// all in bounds, with no two sharing a cell.
pub proof fn lemma_deployment_accepts_valid_fleets(rules: RulesView, ships: Seq<ShipView>)
    ensures
        deployment_verdict(rules, ships) == ValidateCallbackResult::Valid <==> valid_fleet(
            rules,
            ships,
        ),
{
    let lens = rules.ship_lengths;
    let bs = rules.board_size;
    if ships.len() != lens.len() {
        return ;
    }
    lemma_sweep_valid_iff(ships, lens, bs, 0);
    if deployment_verdict(rules, ships) == ValidateCallbackResult::Valid {
        assert forall|i: int| 0 <= i < ships.len() implies ship_in_bounds(
            #[trigger] ships[i],
            lens[i],
            bs,
        ) by {
            lemma_ship_error_none_iff(ships, lens, bs, i, 0);
        }
        assert forall|i: int, j: int| 0 <= i < j < ships.len() implies !ships_share_cell(
            #[trigger] ships[i],
            lens[i],
            #[trigger] ships[j],
            lens[j],
        ) by {
            lemma_ship_error_none_iff(ships, lens, bs, j, 0);
            if ships_share_cell(ships[i], lens[i], ships[j], lens[j]) {
                let (p, q) = choose|p: int, q: int|
                    0 <= p < lens[i] && 0 <= q < lens[j] && #[trigger] ship_cell(ships[i], p)
                        == #[trigger] ship_cell(ships[j], q);
                assert(ship_cell(ships[i], p) == ship_cell(ships[j], q));
                assert(prefix_occupies(ships, lens, j, ship_cell(ships[j], q)));
                assert(false);
            }
        }
    }
    if valid_fleet(rules, ships) {
        assert forall|j: int| 0 <= j < ships.len() implies ship_error(
            ships,
            lens,
            bs,
            j,
            0,
        ) is None by {
            lemma_ship_error_none_iff(ships, lens, bs, j, 0);
            assert forall|p: int| 0 <= p < lens[j] implies cell_in_bounds(
                #[trigger] ship_cell(ships[j], p),
                bs,
            ) && !prefix_occupies(ships, lens, j, ship_cell(ships[j], p)) by {
                assert(ship_in_bounds(ships[j], lens[j], bs));
                if prefix_occupies(ships, lens, j, ship_cell(ships[j], p)) {
                    let (jj, pp) = choose|j0: int, p0: int|
                        0 <= j0 < j && 0 <= p0 < lens[j0] && #[trigger] ship_cell(ships[j0], p0)
                            == ship_cell(ships[j], p);
                    assert(ships_share_cell(ships[jj], lens[jj], ships[j], lens[j]));
                    assert(false);
                }
            }
        }
    }
}

} // verus!
