//! Single-threaded, step-based session around the grid, the units and the
//! selection.
//!
//! The whole system advances in discrete simulation steps.  Within a step
//! the components run in a fixed, deterministic order: selection update,
//! click-event production, click-event consumption and movement commit,
//! then cell-type-change resynchronization.  Event queues produced in a
//! step are fully drained within that same step.

use vstd::prelude::*;

use crate::grid::{spec_resync_notes, Grid, GridXYZ, VisualClass};
use crate::selection::{
    just_selected_cell_event_system, move_player, select_player, spawn_player, spec_cell_clicks,
    spec_drain, spec_select, CellSelectionChange, JustClickedCellEvent, MoveOutcome, Player,
    SelectedPlayer, Unit, UnitPos, UnitSelectionChange, PLAYER_Y_MILLI,
};

verus! {

/// All core state of one play session.  Each piece is mutated only by the
/// component responsible for it, in the fixed step order.
pub struct Session {
    pub grid: Grid,
    pub units: Vec<Unit>,
    pub selected: SelectedPlayer,
    pub click_events: Vec<JustClickedCellEvent>,
}

impl Session {
    /// Starts a session: a freshly built grid, the two default units
    /// placed on it, no selection and no pending events.
    pub fn new(dims: GridXYZ) -> (s: Session)
        requires
            1 <= dims.x,
            1 <= dims.z,
        ensures
            s.grid@.well_formed(),
            s.grid@.dims == dims,
            s.grid@.changed == Seq::<(u8, u8)>::empty(),
            forall|c: int, r: int|
                s.grid@.in_bounds(c, r) ==> crate::grid::fresh_pass_cell(
                    #[trigger] s.grid@.cell(c, r),
                    s.grid@.backup_entry(c, r),
                ),
            s.units@.len() == 2,
            s.units@[0] == (Unit {
                player: Player { health: 15, move_range: 6 },
                pos: UnitPos { col: dims.x / 2, row: dims.z / 2, lift: PLAYER_Y_MILLI },
            }),
            s.units@[1] == (Unit {
                player: Player { health: 15, move_range: 6 },
                pos: UnitPos { col: dims.x / 3, row: dims.z / 3, lift: PLAYER_Y_MILLI },
            }),
            s.selected.0 == Option::<usize>::None,
            s.click_events@ == Seq::<JustClickedCellEvent>::empty(),
    {
        let grid = Grid::build(dims);
        let units = spawn_player(&dims);
        Session { grid, units, selected: SelectedPlayer(None), click_events: Vec::new() }
    }

    /// Advances the session by one simulation step, in the fixed order:
    /// the unit notifications update the selection, the cell notifications
    /// queue click events, the queue (old events first) is drained into
    /// unit movement under the updated selection, and every pending cell
    /// type change is resynchronized.  Returns one movement outcome per
    /// drained click event, and one cosmetic notification per
    /// resynchronized cell, for the render sink.
    pub fn step(
        &mut self,
        unit_changes: &Vec<UnitSelectionChange>,
        cell_changes: &Vec<CellSelectionChange>,
    ) -> (r: (Vec<MoveOutcome>, Vec<((u8, u8), VisualClass)>))
        requires
            old(self).grid@.well_formed(),
        ensures
            final(self).grid@.well_formed(),
            final(self).selected.0 == spec_select(old(self).selected.0, unit_changes@),
            final(self).click_events@ == Seq::<JustClickedCellEvent>::empty(),
            final(self).units@ == spec_drain(
                old(self).units@,
                spec_select(old(self).selected.0, unit_changes@),
                old(self).click_events@ + spec_cell_clicks(cell_changes@),
            ).0,
            r.0@ == spec_drain(
                old(self).units@,
                spec_select(old(self).selected.0, unit_changes@),
                old(self).click_events@ + spec_cell_clicks(cell_changes@),
            ).1,
            final(self).grid@ == old(self).grid@.resynced_seq(old(self).grid@.changed).drained(),
            r.1@ == spec_resync_notes(old(self).grid@, old(self).grid@.changed),
    {
        select_player(&mut self.selected, unit_changes);
        just_selected_cell_event_system(cell_changes, &mut self.click_events);
        let outcomes = move_player(&mut self.units, &self.selected, &mut self.click_events);
        let notes = self.grid.update_cell_material();
        (outcomes, notes)
    }
}

} // verus!
