//! Selection and movement pipeline.
//!
//! At most one unit is selected at a time.  Picking notifications arrive
//! once per simulation step; a unit that newly became selected replaces the
//! active selection, and a cell that newly became selected queues a click
//! event.  The queue is drained in FIFO order within the same step: each
//! event moves the selected unit to the clicked cell, and a click with no
//! active selection is reported as `NoSelection` and changes nothing.

use vstd::prelude::*;

use crate::grid::GridXYZ;

verus! {

/// Rest height of a player above the grid plane, in thousandths of a grid
/// unit.  Every committed move forces the unit's vertical offset back to
/// this constant.
pub const PLAYER_Y_MILLI: i32 = 300;

/// A controllable unit's gameplay stats.
#[derive(Clone, Copy, PartialEq, Eq, Structural, Debug)]
pub struct Player {
    pub health: i32,
    pub move_range: u8,
}

impl Default for Player {
    fn default() -> (p: Self)
        ensures
            p == (Player { health: 15, move_range: 6 }),
    {
        Self { health: 15, move_range: 6 }
    }
}

/// A unit's position: grid-plane coordinates and the vertical offset above
/// the plane, in thousandths of a grid unit.
#[derive(Clone, Copy, PartialEq, Eq, Structural, Debug)]
pub struct UnitPos {
    pub col: u8,
    pub row: u8,
    pub lift: i32,
}

/// A controllable unit: its stats and its current position.
#[derive(Clone, Copy, PartialEq, Eq, Structural, Debug)]
pub struct Unit {
    pub player: Player,
    pub pos: UnitPos,
}

/// The single active selection: at most one unit index, or none.
#[derive(Clone, Copy, PartialEq, Eq, Debug)]
pub struct SelectedPlayer(pub Option<usize>);

impl Default for SelectedPlayer {
    fn default() -> (s: Self)
        ensures
            s.0 == Option::<usize>::None,
    {
        SelectedPlayer(None)
    }
}

/// One picking notification about a unit: its "selected" flag changed this
/// step.  `just_created` marks an entity created this very step, whose
/// initial flag state must not count as a selection.
#[derive(Clone, Copy, PartialEq, Eq, Structural, Debug)]
pub struct UnitSelectionChange {
    pub unit: usize,
    pub selected: bool,
    pub just_created: bool,
}

/// One picking notification about a cell, with the same creation-step
/// ignore rule as for units.
#[derive(Clone, Copy, PartialEq, Eq, Structural, Debug)]
pub struct CellSelectionChange {
    pub col: u8,
    pub row: u8,
    pub selected: bool,
    pub just_created: bool,
}

/// An ephemeral message: the cell at these coordinates was just clicked.
/// Queued in arrival order, consumed once, never persisted.
#[derive(Clone, Copy, PartialEq, Eq, Structural, Debug)]
pub struct JustClickedCellEvent {
    pub col: u8,
    pub row: u8,
}

/// The reported outcome of one processed click event.
#[derive(Clone, Copy, PartialEq, Eq, Structural, Debug)]
pub enum MoveOutcome {
    /// The selected unit was moved to the clicked coordinates.
    Moved { unit: usize, col: u8, row: u8 },
    /// No unit was selected; the click changed nothing.
    NoSelection,
    /// The selection names no live unit; the click changed nothing.
    UnknownUnit { unit: usize },
}

/// The selection after one notification: a unit that newly became selected
/// replaces the previous selection; a deselection or a creation-step
/// notification leaves it as it is.
pub open spec fn spec_select_step(sel: Option<usize>, c: UnitSelectionChange) -> Option<usize> {
    if !c.just_created && c.selected {
        Some(c.unit)
    } else {
        sel
    }
}

/// The selection after a whole step's notifications, applied in arrival
/// order: the last effective selection wins.
pub open spec fn spec_select(sel: Option<usize>, changes: Seq<UnitSelectionChange>) -> Option<
    usize,
>
    decreases changes.len(),
{
    if changes.len() == 0 {
        sel
    } else {
        spec_select_step(spec_select(sel, changes.drop_last()), changes.last())
    }
}

/// Ingests this step's unit picking notifications in arrival order.  Each
/// unit that newly became selected replaces the active selection;
/// notifications from just-created entities are ignored, and a deselection
/// does not clear the selection.
pub fn select_player(selected: &mut SelectedPlayer, changes: &Vec<UnitSelectionChange>)
    ensures
        final(selected).0 == spec_select(old(selected).0, changes@),
{
    let n = changes.len();
    let mut i: usize = 0;
    while i < n
        invariant
            i <= n,
            n == changes@.len(),
            selected.0 == spec_select(old(selected).0, changes@.take(i as int)),
        decreases n - i,
    {
        let c = changes[i];
        if !c.just_created && c.selected {
            selected.0 = Some(c.unit);
        }
        i += 1;
        proof {
            let s = changes@;
            let k = i as int;
            assert(s.take(k).drop_last() =~= s.take(k - 1));
            assert(s.take(k).last() == s[k - 1]);
        }
    }
    proof {
        assert(changes@.take(n as int) =~= changes@);
    }
}

/// The click events one step's cell notifications produce: one per cell
/// that newly became selected, in arrival order, ignoring just-created
/// cells.
pub open spec fn spec_cell_clicks(changes: Seq<CellSelectionChange>) -> Seq<JustClickedCellEvent>
    decreases changes.len(),
{
    if changes.len() == 0 {
        Seq::empty()
    } else {
        let front = spec_cell_clicks(changes.drop_last());
        let c = changes.last();
        if !c.just_created && c.selected {
            front.push(JustClickedCellEvent { col: c.col, row: c.row })
        } else {
            front
        }
    }
}

/// Emits a click event for every cell that newly became selected this
/// step, appending to the queue in arrival order.
pub fn just_selected_cell_event_system(
    changes: &Vec<CellSelectionChange>,
    events: &mut Vec<JustClickedCellEvent>,
)
    ensures
        final(events)@ == old(events)@ + spec_cell_clicks(changes@),
{
    let n = changes.len();
    let mut i: usize = 0;
    while i < n
        invariant
            i <= n,
            n == changes@.len(),
            events@ == old(events)@ + spec_cell_clicks(changes@.take(i as int)),
        decreases n - i,
    {
        let c = changes[i];
        if !c.just_created && c.selected {
            events.push(JustClickedCellEvent { col: c.col, row: c.row });
        }
        i += 1;
        proof {
            let s = changes@;
            let k = i as int;
            assert(s.take(k).drop_last() =~= s.take(k - 1));
            assert(s.take(k).last() == s[k - 1]);
            if !s[k - 1].just_created && s[k - 1].selected {
                assert(events@ =~= old(events)@ + spec_cell_clicks(s.take(k)));
            }
        }
    }
    proof {
        assert(changes@.take(n as int) =~= changes@);
    }
}

/// One dequeued click event applied to the unit table: with a selection
/// that names a live unit, that unit moves to the clicked cell and its
/// vertical offset is forced back to the rest height; otherwise nothing
/// changes and the outcome says why.
pub open spec fn spec_move_step(
    units: Seq<Unit>,
    sel: Option<usize>,
    e: JustClickedCellEvent,
) -> (Seq<Unit>, MoveOutcome) {
    match sel {
        None => (units, MoveOutcome::NoSelection),
        Some(id) => if id < units.len() {
            (
                units.update(
                    id as int,
                    Unit {
                        pos: UnitPos { col: e.col, row: e.row, lift: PLAYER_Y_MILLI },
                        ..units[id as int]
                    },
                ),
                MoveOutcome::Moved { unit: id, col: e.col, row: e.row },
            )
        } else {
            (units, MoveOutcome::UnknownUnit { unit: id })
        },
    }
}

/// The unit table and per-event outcomes after draining a queue in FIFO
/// order under one fixed selection.
pub open spec fn spec_drain(
    units: Seq<Unit>,
    sel: Option<usize>,
    events: Seq<JustClickedCellEvent>,
) -> (Seq<Unit>, Seq<MoveOutcome>)
    decreases events.len(),
{
    if events.len() == 0 {
        (units, Seq::empty())
    } else {
        let prev = spec_drain(units, sel, events.drop_last());
        let step = spec_move_step(prev.0, sel, events.last());
        (step.0, prev.1.push(step.1))
    }
}

/// Drains the click-event queue fully, in FIFO order, and commits the
/// resulting moves; one outcome is reported per event.
pub fn move_player(
    units: &mut Vec<Unit>,
    selected: &SelectedPlayer,
    events: &mut Vec<JustClickedCellEvent>,
) -> (outcomes: Vec<MoveOutcome>)
    ensures
        final(events)@ == Seq::<JustClickedCellEvent>::empty(),
        final(units)@ == spec_drain(old(units)@, selected.0, old(events)@).0,
        outcomes@ == spec_drain(old(units)@, selected.0, old(events)@).1,
{
    let mut outcomes: Vec<MoveOutcome> = Vec::new();
    let n = events.len();
    let mut i: usize = 0;
    while i < n
        invariant
            i <= n,
            n == events@.len(),
            events@ == old(events)@,
            units@ == spec_drain(old(units)@, selected.0, events@.take(i as int)).0,
            outcomes@ == spec_drain(old(units)@, selected.0, events@.take(i as int)).1,
        decreases n - i,
    {
        let e = events[i];
        match selected.0 {
            None => {
                outcomes.push(MoveOutcome::NoSelection);
            },
            Some(id) => {
                if id < units.len() {
                    units[id].pos = UnitPos { col: e.col, row: e.row, lift: PLAYER_Y_MILLI };
                    outcomes.push(MoveOutcome::Moved { unit: id, col: e.col, row: e.row });
                } else {
                    outcomes.push(MoveOutcome::UnknownUnit { unit: id });
                }
            },
        }
        i += 1;
        proof {
            let s = events@;
            let k = i as int;
            assert(s.take(k).drop_last() =~= s.take(k - 1));
            assert(s.take(k).last() == s[k - 1]);
        }
    }
    proof {
        assert(events@.take(n as int) =~= events@);
    }
    events.clear();
    outcomes
}

/// With an active selection naming a live unit, a click moves exactly that
/// unit: it ends at the clicked cell with its vertical offset at the rest
/// height and its stats untouched, every other unit keeps its state, and
/// the outcome reports the committed move.
pub proof fn lemma_click_moves_selected(units: Seq<Unit>, id: usize, e: JustClickedCellEvent)
    requires
        id < units.len(),
    ensures
        spec_move_step(units, Some(id), e).0.len() == units.len(),
        spec_move_step(units, Some(id), e).0[id as int].pos == (UnitPos {
            col: e.col,
            row: e.row,
            lift: PLAYER_Y_MILLI,
        }),
        spec_move_step(units, Some(id), e).0[id as int].player == units[id as int].player,
        forall|j: int|
            0 <= j < units.len() && j != id ==> spec_move_step(units, Some(id), e).0[j]
                == units[j],
        spec_move_step(units, Some(id), e).1 == (MoveOutcome::Moved {
            unit: id,
            col: e.col,
            row: e.row,
        }),
{
}

/// A click event processed while the selection is idle leaves every unit
/// exactly as it was, and each such event is reported as `NoSelection`.
pub proof fn lemma_idle_clicks_are_noops(units: Seq<Unit>, events: Seq<JustClickedCellEvent>)
    ensures
        spec_drain(units, Option::<usize>::None, events).0 == units,
        spec_drain(units, Option::<usize>::None, events).1.len() == events.len(),
        forall|i: int|
            0 <= i < events.len() ==> spec_drain(units, Option::<usize>::None, events).1[i]
                == MoveOutcome::NoSelection,
    decreases events.len(),
{
    if events.len() > 0 {
        lemma_idle_clicks_are_noops(units, events.drop_last());
    }
}

/// Selecting unit A and then unit B leaves exactly B as the active
/// selection, and a subsequent click moves B only.
pub proof fn lemma_reselect_replaces(
    sel: Option<usize>,
    a: UnitSelectionChange,
    b: UnitSelectionChange,
    units: Seq<Unit>,
    e: JustClickedCellEvent,
)
    requires
        !a.just_created && a.selected,
        !b.just_created && b.selected,
        b.unit < units.len(),
    ensures
        spec_select(sel, seq![a, b]) == Some(b.unit),
        spec_move_step(units, spec_select(sel, seq![a, b]), e).0[b.unit as int].pos == (UnitPos {
            col: e.col,
            row: e.row,
            lift: PLAYER_Y_MILLI,
        }),
        forall|j: int|
            0 <= j < units.len() && j != b.unit ==> spec_move_step(
                units,
                spec_select(sel, seq![a, b]),
                e,
            ).0[j] == units[j],
{
    let s = seq![a, b];
    assert(s.last() == b);
    assert(s.drop_last() =~= seq![a]);
    assert(seq![a].last() == a);
    assert(seq![a].drop_last() =~= Seq::<UnitSelectionChange>::empty());
    lemma_click_moves_selected(units, b.unit, e);
}

/// Creates the session's two controllable units with default stats, placed
/// at one half and one third of the grid's extent, at the rest height.
pub fn spawn_player(grid: &GridXYZ) -> (units: Vec<Unit>)
    ensures
        units@.len() == 2,
        units@[0] == (Unit {
            player: Player { health: 15, move_range: 6 },
            pos: UnitPos { col: grid.x / 2, row: grid.z / 2, lift: PLAYER_Y_MILLI },
        }),
        units@[1] == (Unit {
            player: Player { health: 15, move_range: 6 },
            pos: UnitPos { col: grid.x / 3, row: grid.z / 3, lift: PLAYER_Y_MILLI },
        }),
{
    let mut units: Vec<Unit> = Vec::new();
    units.push(
        Unit {
            player: Player::default(),
            pos: UnitPos { col: grid.x / 2, row: grid.z / 2, lift: PLAYER_Y_MILLI },
        },
    );
    units.push(
        Unit {
            player: Player::default(),
            pos: UnitPos { col: grid.x / 3, row: grid.z / 3, lift: PLAYER_Y_MILLI },
        },
    );
    units
}

} // verus!
