//! Grid store and cell-type state machine.
//!
//! The [`Grid`] owns the authoritative table of cells together with a
//! build-time backup snapshot per coordinate.  Every lookup is bounds-checked
//! against the grid dimensions.  Type changes are recorded and, on the next
//! resynchronization, turned into the cosmetic class the cell must show; a
//! passable interactive cell always returns to the terrain class drawn for
//! its coordinate when the grid was built.

use vstd::prelude::*;

use crate::attributes::{spec_zero_attributes, BasicsAttributes, Team};

use rand::Rng;

verus! {

/// Number of cosmetic terrain variants in the build-time palette.
pub const TERRAIN_CLASSES: u8 = 3;

/// The subtype of an interactive cell: passable or impassable.
#[derive(Clone, Copy, PartialEq, Eq, Structural, Debug)]
pub enum TypeOfInteractiveCell {
    Pass,
    Impa,
}

impl Default for TypeOfInteractiveCell {
    fn default() -> (t: Self)
        ensures
            t == TypeOfInteractiveCell::Pass,
    {
        TypeOfInteractiveCell::Pass
    }
}

/// The type of a cell; exactly one variant is active at a time.
#[derive(Clone, Copy, PartialEq, Eq, Structural, Debug)]
pub enum TypeOfCell {
    /// Invisible, not walkable.
    Void,
    /// Participates in passability rules.
    Interactive(TypeOfInteractiveCell),
    /// A fixed marker cell.
    Coord,
}

impl Default for TypeOfCell {
    fn default() -> (t: Self)
        ensures
            t == TypeOfCell::Interactive(TypeOfInteractiveCell::Pass),
    {
        TypeOfCell::Interactive(TypeOfInteractiveCell::Pass)
    }
}

/// Grid dimensions, fixed at session start: `x` columns and `z` rows on the
/// grid plane, `y` unused height layers.
#[derive(Clone, Copy, PartialEq, Eq, Structural, Debug)]
pub struct GridXYZ {
    pub x: u8,
    pub y: u8,
    pub z: u8,
}

impl Default for GridXYZ {
    fn default() -> (d: Self)
        ensures
            d == (GridXYZ { x: 10, y: 0, z: 10 }),
    {
        Self { x: 10, y: 0, z: 10 }
    }
}

/// Per-edge occupancy and visibility state of a cell: four directional
/// slots (north, east, south, west), as a flag array paired with the team
/// each slot is attributed to.
#[derive(Clone, Copy, PartialEq, Eq, Debug)]
pub struct CellAttributes {
    pub blockvision: ([bool; 4], [Team; 4]),
    pub isfull: ([bool; 4], [Team; 4]),
}

/// Holds when every edge slot is unoccupied and attributed to `Allies`,
/// the state every cell starts in.
pub open spec fn edges_clear(c: CellAttributes) -> bool {
    &&& forall|i: int| 0 <= i < 4 ==> !(#[trigger] c.blockvision.0@[i])
    &&& forall|i: int| 0 <= i < 4 ==> (#[trigger] c.blockvision.1@[i]) == Team::Allies
    &&& forall|i: int| 0 <= i < 4 ==> !(#[trigger] c.isfull.0@[i])
    &&& forall|i: int| 0 <= i < 4 ==> (#[trigger] c.isfull.1@[i]) == Team::Allies
}

impl CellAttributes {
    pub fn blockvision(&self) -> (r: ([bool; 4], [Team; 4]))
        ensures
            r == self.blockvision,
    {
        self.blockvision
    }

    pub fn set_blockvision(&mut self, blockvision: ([bool; 4], [Team; 4]))
        ensures
            final(self).blockvision == blockvision,
            final(self).isfull == old(self).isfull,
    {
        self.blockvision = blockvision;
    }

    pub fn isfull(&self) -> (r: ([bool; 4], [Team; 4]))
        ensures
            r == self.isfull,
    {
        self.isfull
    }

    pub fn set_isfull(&mut self, isfull: ([bool; 4], [Team; 4]))
        ensures
            final(self).isfull == isfull,
            final(self).blockvision == old(self).blockvision,
    {
        self.isfull = isfull;
    }
}

impl Default for CellAttributes {
    fn default() -> (c: Self)
        ensures
            edges_clear(c),
    {
        Self {
            blockvision: ([false; 4], [Team::Allies; 4]),
            isfull: ([false; 4], [Team::Allies; 4]),
        }
    }
}

/// The attribute set of a standard passable cell: height and area pairs
/// `(10, 0)`, every other pair `(0, 0)`.
pub open spec fn spec_standard_pass_attributes() -> BasicsAttributes {
    BasicsAttributes { height: (10, 0), area: (10, 0), ..spec_zero_attributes() }
}

impl BasicsAttributes {
    pub fn standart_pass_cell() -> (a: Self)
        ensures
            a == spec_standard_pass_attributes(),
    {
        BasicsAttributes {
            hpp: (0, 0),
            movp: (0, 0),
            actp: (0, 0),
            efyp: (0, 0),
            ranp: (0, 0),
            height: (10, 0),
            area: (10, 0),
        }
    }

    pub fn standart_impa_cell() -> (a: Self)
        ensures
            a == spec_zero_attributes(),
    {
        BasicsAttributes {
            hpp: (0, 0),
            movp: (0, 0),
            actp: (0, 0),
            efyp: (0, 0),
            ranp: (0, 0),
            height: (0, 0),
            area: (0, 0),
        }
    }

    /// Attribute-level passability: both the height pair and the area pair
    /// must have distinct components.
    pub fn is_pass_attr(&self) -> (r: bool)
        ensures
            r == passable_by_attributes(*self),
    {
        self.height.0 != self.height.1 && self.area.0 != self.area.1
    }

    /// Type-level passability: only `Interactive(Pass)` counts as passable.
    pub fn is_pass_type(typo: &TypeOfCell) -> (r: bool)
        ensures
            r == (*typo == TypeOfCell::Interactive(TypeOfInteractiveCell::Pass)),
    {
        if let TypeOfCell::Interactive(TypeOfInteractiveCell::Pass) = typo {
            return true;
        }
        false
    }
}

/// The attribute-only passability signal, independent of the type tag.
pub open spec fn passable_by_attributes(a: BasicsAttributes) -> bool {
    a.height.0 != a.height.1 && a.area.0 != a.area.1
}

/// The cosmetic class a cell shows.
#[derive(Clone, Copy, PartialEq, Eq, Structural, Debug)]
pub enum VisualClass {
    /// No visible material at all.
    Transparent,
    /// One of the `TERRAIN_CLASSES` palette variants drawn at build time.
    Terrain(u8),
    /// The fixed look of an impassable cell.
    Blocked,
    /// The fixed look of a marker cell.
    Marker,
}

/// One cell of the grid: its current type, the cosmetic class it shows,
/// and its attribute and edge state.
#[derive(Clone, Copy, PartialEq, Eq, Debug)]
pub struct CellState {
    pub typo: TypeOfCell,
    pub material: VisualClass,
    pub basicattr: BasicsAttributes,
    pub cellattr: CellAttributes,
}

/// Build-time snapshot of one cell: the type, attribute and edge state it
/// was created with, and the terrain class drawn for its coordinate.
#[derive(Clone, Copy, PartialEq, Eq, Debug)]
pub struct CellBackup {
    pub typo: TypeOfCell,
    pub basicattr: BasicsAttributes,
    pub cellattr: CellAttributes,
    pub material: u8,
}

/// The errors the grid reports; every coordinate-indexed lookup is checked.
#[derive(Clone, Copy, PartialEq, Eq, Structural, Debug)]
pub enum GridError {
    OutOfBounds,
}

/// The attribute and edge state an interactive cell is created with.
#[derive(Clone, Copy, PartialEq, Eq, Debug)]
pub struct InteractiveCellBundle {
    pub basicattr: BasicsAttributes,
    pub cellattr: CellAttributes,
}

impl InteractiveCellBundle {
    /// The bundle of a standard passable cell.
    pub fn pass() -> (b: Self)
        ensures
            b.basicattr == spec_standard_pass_attributes(),
            edges_clear(b.cellattr),
    {
        InteractiveCellBundle {
            basicattr: BasicsAttributes::standart_pass_cell(),
            cellattr: CellAttributes::default(),
        }
    }

    /// The bundle of a standard impassable cell.
    pub fn impa() -> (b: Self)
        ensures
            b.basicattr == spec_zero_attributes(),
            edges_clear(b.cellattr),
    {
        InteractiveCellBundle {
            basicattr: BasicsAttributes::standart_impa_cell(),
            cellattr: CellAttributes::default(),
        }
    }
}

/// The cosmetic class derived from a cell's type: a void cell is
/// transparent, a passable cell shows its build-time terrain class, an
/// impassable cell the fixed blocked look, and a marker cell the marker
/// look.
pub open spec fn spec_visual(typo: TypeOfCell, backup_material: u8) -> VisualClass {
    match typo {
        TypeOfCell::Void => VisualClass::Transparent,
        TypeOfCell::Interactive(TypeOfInteractiveCell::Pass) => VisualClass::Terrain(
            backup_material,
        ),
        TypeOfCell::Interactive(TypeOfInteractiveCell::Impa) => VisualClass::Blocked,
        TypeOfCell::Coord => VisualClass::Marker,
    }
}

/// Mathematical model of a [`Grid`]: the cell table, the backup table, and
/// the list of coordinates whose type was written since the last
/// resynchronization.
#[verifier::ext_equal]
pub struct GridView {
    pub dims: GridXYZ,
    pub cells: Seq<Seq<CellState>>,
    pub backup: Seq<Seq<CellBackup>>,
    pub changed: Seq<(u8, u8)>,
}

impl GridView {
    pub open spec fn width(self) -> int {
        self.dims.x as int
    }

    pub open spec fn depth(self) -> int {
        self.dims.z as int
    }

    pub open spec fn in_bounds(self, col: int, row: int) -> bool {
        0 <= col < self.width() && 0 <= row < self.depth()
    }

    pub open spec fn cell(self, col: int, row: int) -> CellState {
        self.cells[col][row]
    }

    pub open spec fn backup_entry(self, col: int, row: int) -> CellBackup {
        self.backup[col][row]
    }

    /// Both tables span exactly the grid dimensions, every recorded terrain
    /// class is from the palette, and every pending change is in bounds.
    pub open spec fn well_formed(self) -> bool {
        &&& self.cells.len() == self.width()
        &&& self.backup.len() == self.width()
        &&& forall|c: int| 0 <= c < self.width() ==> (#[trigger] self.cells[c]).len() == self.depth()
        &&& forall|c: int|
            0 <= c < self.width() ==> (#[trigger] self.backup[c]).len() == self.depth()
        &&& forall|c: int, r: int|
            self.in_bounds(c, r) ==> (#[trigger] self.backup_entry(c, r)).material
                < TERRAIN_CLASSES
        &&& forall|i: int|
            0 <= i < self.changed.len() ==> self.in_bounds(
                (#[trigger] self.changed[i]).0 as int,
                self.changed[i].1 as int,
            )
    }

    /// The grid after a type write at `(col, row)`: the cell's type is
    /// replaced and the coordinate joins the pending-change list.
    pub open spec fn with_type(self, col: int, row: int, typo: TypeOfCell) -> GridView {
        GridView {
            cells: self.cells.update(
                col,
                self.cells[col].update(row, CellState { typo, ..self.cell(col, row) }),
            ),
            changed: self.changed.push((col as u8, row as u8)),
            ..self
        }
    }

    /// The grid after the cosmetic class of `(col, row)` is rederived from
    /// the cell's current type and its backup entry.
    pub open spec fn resynced(self, col: int, row: int) -> GridView {
        GridView {
            cells: self.cells.update(
                col,
                self.cells[col].update(
                    row,
                    CellState {
                        material: spec_visual(
                            self.cell(col, row).typo,
                            self.backup_entry(col, row).material,
                        ),
                        ..self.cell(col, row)
                    },
                ),
            ),
            ..self
        }
    }

    /// The grid after resynchronizing every coordinate of `coords` in order.
    pub open spec fn resynced_seq(self, coords: Seq<(u8, u8)>) -> GridView
        decreases coords.len(),
    {
        if coords.len() == 0 {
            self
        } else {
            self.resynced_seq(coords.drop_last()).resynced(
                coords.last().0 as int,
                coords.last().1 as int,
            )
        }
    }

    /// The grid with its pending-change list emptied.
    pub open spec fn drained(self) -> GridView {
        GridView { changed: Seq::empty(), ..self }
    }
}

/// A type write keeps the grid well-formed; it touches nothing but the
/// written cell's type and the pending-change list.
pub proof fn lemma_with_type_preserves(v: GridView, col: int, row: int, typo: TypeOfCell)
    requires
        v.well_formed(),
        v.in_bounds(col, row),
    ensures
        v.with_type(col, row, typo).well_formed(),
        v.with_type(col, row, typo).dims == v.dims,
        v.with_type(col, row, typo).backup == v.backup,
        v.with_type(col, row, typo).changed == v.changed.push((col as u8, row as u8)),
        v.with_type(col, row, typo).cell(col, row) == (CellState {
            typo,
            ..v.cell(col, row)
        }),
        forall|c: int, r: int|
            v.in_bounds(c, r) && !(c == col && r == row) ==> #[trigger] v.with_type(
                col,
                row,
                typo,
            ).cell(c, r) == v.cell(c, r),
{
    let w = v.with_type(col, row, typo);
    assert forall|c: int, r: int|
        v.in_bounds(c, r) && !(c == col && r == row) implies #[trigger] w.cell(c, r) == v.cell(
        c,
        r,
    ) by {
        if c == col {
            assert(w.cells[c] == v.cells[c].update(row, CellState { typo, ..v.cell(col, row) }));
        }
    }
    assert forall|i: int| 0 <= i < w.changed.len() implies w.in_bounds(
        (#[trigger] w.changed[i]).0 as int,
        w.changed[i].1 as int,
    ) by {
        if i < v.changed.len() {
            assert(w.changed[i] == v.changed[i]);
        } else {
            assert(w.changed[i] == (col as u8, row as u8));
        }
    }
    assert forall|c: int| 0 <= c < w.width() implies (#[trigger] w.cells[c]).len() == w.depth() by {
        if c != col {
            assert(w.cells[c] == v.cells[c]);
        }
    }
    assert forall|c: int, r: int| w.in_bounds(c, r) implies (#[trigger] w.backup_entry(c, r)).material
        < TERRAIN_CLASSES by {
        assert(w.backup_entry(c, r) == v.backup_entry(c, r));
    }
}

/// Rederiving one cell's cosmetic class keeps the grid well-formed; it
/// touches nothing but that cell's material.
pub proof fn lemma_resynced_preserves(v: GridView, col: int, row: int)
    requires
        v.well_formed(),
        v.in_bounds(col, row),
    ensures
        v.resynced(col, row).well_formed(),
        v.resynced(col, row).dims == v.dims,
        v.resynced(col, row).backup == v.backup,
        v.resynced(col, row).changed == v.changed,
        v.resynced(col, row).cell(col, row) == (CellState {
            material: spec_visual(v.cell(col, row).typo, v.backup_entry(col, row).material),
            ..v.cell(col, row)
        }),
        forall|c: int, r: int|
            v.in_bounds(c, r) && !(c == col && r == row) ==> #[trigger] v.resynced(col, row).cell(
                c,
                r,
            ) == v.cell(c, r),
{
    let w = v.resynced(col, row);
    assert forall|c: int, r: int|
        v.in_bounds(c, r) && !(c == col && r == row) implies #[trigger] w.cell(c, r) == v.cell(
        c,
        r,
    ) by {
        if c == col {
            assert(w.cells[c] == v.cells[c].update(
                row,
                CellState {
                    material: spec_visual(
                        v.cell(col, row).typo,
                        v.backup_entry(col, row).material,
                    ),
                    ..v.cell(col, row)
                },
            ));
        }
    }
    assert forall|c: int| 0 <= c < w.width() implies (#[trigger] w.cells[c]).len() == w.depth() by {
        if c != col {
            assert(w.cells[c] == v.cells[c]);
        }
    }
    assert forall|c: int, r: int| w.in_bounds(c, r) implies (#[trigger] w.backup_entry(c, r)).material
        < TERRAIN_CLASSES by {
        assert(w.backup_entry(c, r) == v.backup_entry(c, r));
    }
}

/// Resynchronizing a list of in-bounds coordinates keeps the grid
/// well-formed and changes no type, attribute, backup entry or dimension.
pub proof fn lemma_resynced_seq_preserves(v: GridView, coords: Seq<(u8, u8)>)
    requires
        v.well_formed(),
        forall|i: int|
            0 <= i < coords.len() ==> v.in_bounds(
                (#[trigger] coords[i]).0 as int,
                coords[i].1 as int,
            ),
    ensures
        v.resynced_seq(coords).well_formed(),
        v.resynced_seq(coords).dims == v.dims,
        v.resynced_seq(coords).backup == v.backup,
        v.resynced_seq(coords).changed == v.changed,
        forall|c: int, r: int|
            v.in_bounds(c, r) ==> (#[trigger] v.resynced_seq(coords).cell(c, r)).typo == v.cell(
                c,
                r,
            ).typo && v.resynced_seq(coords).cell(c, r).basicattr == v.cell(c, r).basicattr
                && v.resynced_seq(coords).cell(c, r).cellattr == v.cell(c, r).cellattr,
    decreases coords.len(),
{
    if coords.len() > 0 {
        let front = coords.drop_last();
        let last = coords.last();
        assert forall|i: int| 0 <= i < front.len() implies v.in_bounds(
            (#[trigger] front[i]).0 as int,
            front[i].1 as int,
        ) by {
            assert(front[i] == coords[i]);
        }
        lemma_resynced_seq_preserves(v, front);
        let w = v.resynced_seq(front);
        lemma_resynced_preserves(w, last.0 as int, last.1 as int);
    }
}

/// Emptying the pending-change list keeps the grid well-formed and leaves
/// every table untouched.
pub proof fn lemma_drained_preserves(v: GridView)
    requires
        v.well_formed(),
    ensures
        v.drained().well_formed(),
        v.drained().dims == v.dims,
        v.drained().cells == v.cells,
        v.drained().backup == v.backup,
{
    let w = v.drained();
    assert forall|c: int| 0 <= c < w.width() implies (#[trigger] w.cells[c]).len() == w.depth() by {
        assert(w.cells[c] == v.cells[c]);
    }
    assert forall|c: int| 0 <= c < w.width() implies (#[trigger] w.backup[c]).len() == w.depth() by {
        assert(w.backup[c] == v.backup[c]);
    }
    assert forall|c: int, r: int| w.in_bounds(c, r) implies (#[trigger] w.backup_entry(c, r)).material
        < TERRAIN_CLASSES by {
        assert(w.backup_entry(c, r) == v.backup_entry(c, r));
    }
}

/// What a resynchronization pass does to one in-bounds cell: a coordinate
/// on the list ends up showing the class derived from its current type;
/// any other cell is left exactly as it was.
pub proof fn lemma_resynced_seq_cell_effect(v: GridView, coords: Seq<(u8, u8)>, col: int, row: int)
    requires
        v.well_formed(),
        forall|i: int|
            0 <= i < coords.len() ==> v.in_bounds(
                (#[trigger] coords[i]).0 as int,
                coords[i].1 as int,
            ),
        v.in_bounds(col, row),
    ensures
        coords.contains((col as u8, row as u8)) ==> v.resynced_seq(coords).cell(col, row)
            == (CellState {
            material: spec_visual(v.cell(col, row).typo, v.backup_entry(col, row).material),
            ..v.cell(col, row)
        }),
        !coords.contains((col as u8, row as u8)) ==> v.resynced_seq(coords).cell(col, row)
            == v.cell(col, row),
    decreases coords.len(),
{
    let x = (col as u8, row as u8);
    if coords.len() > 0 {
        let front = coords.drop_last();
        let last = coords.last();
        assert forall|i: int| 0 <= i < front.len() implies v.in_bounds(
            (#[trigger] front[i]).0 as int,
            front[i].1 as int,
        ) by {
            assert(front[i] == coords[i]);
        }
        lemma_resynced_seq_cell_effect(v, front, col, row);
        lemma_resynced_seq_preserves(v, front);
        let w = v.resynced_seq(front);
        assert(coords[coords.len() - 1] == last);
        lemma_resynced_preserves(w, last.0 as int, last.1 as int);
        if last == x {
            assert(coords.contains(x));
        } else {
            assert(!(last.0 as int == col && last.1 as int == row));
            if coords.contains(x) {
                let i = choose|i: int| 0 <= i < coords.len() && coords[i] == x;
                assert(i < front.len());
                assert(front[i] == coords[i]);
                assert(front.contains(x));
            } else {
                if front.contains(x) {
                    let i = choose|i: int| 0 <= i < front.len() && front[i] == x;
                    assert(coords[i] == front[i]);
                    assert(coords.contains(x));
                }
            }
        }
    } else {
        if coords.contains(x) {
            let i = choose|i: int| 0 <= i < coords.len() && coords[i] == x;
        }
    }
}

/// Returning a cell's type to `Interactive(Pass)` and resynchronizing
/// restores exactly the cosmetic class recorded at build time, whatever
/// type the cell held in between: the first write and drain may install any
/// look, the second write and drain puts the backup's terrain class back.
pub proof fn lemma_pass_roundtrip(v: GridView, col: int, row: int, typo: TypeOfCell)
    requires
        v.well_formed(),
        v.in_bounds(col, row),
    ensures
        ({
            let v1 = v.with_type(col, row, typo).resynced_seq(
                v.with_type(col, row, typo).changed,
            ).drained();
            let v2 = v1.with_type(col, row, TypeOfCell::Interactive(TypeOfInteractiveCell::Pass));
            let v3 = v2.resynced_seq(v2.changed).drained();
            v3.cell(col, row).material == VisualClass::Terrain(v.backup_entry(col, row).material)
        }),
{
    let x = (col as u8, row as u8);
    let w = v.with_type(col, row, typo);
    lemma_with_type_preserves(v, col, row, typo);
    assert(w.changed.last() == x);
    assert(w.changed.contains(x));
    assert forall|i: int| 0 <= i < w.changed.len() implies w.in_bounds(
        (#[trigger] w.changed[i]).0 as int,
        w.changed[i].1 as int,
    ) by {}
    lemma_resynced_seq_preserves(w, w.changed);
    lemma_resynced_seq_cell_effect(w, w.changed, col, row);
    lemma_drained_preserves(w.resynced_seq(w.changed));
    let v1 = w.resynced_seq(w.changed).drained();
    assert(v1.well_formed());
    assert(v1.backup_entry(col, row) == v.backup_entry(col, row));
    let v2 = v1.with_type(col, row, TypeOfCell::Interactive(TypeOfInteractiveCell::Pass));
    lemma_with_type_preserves(v1, col, row, TypeOfCell::Interactive(TypeOfInteractiveCell::Pass));
    assert(v2.changed == Seq::<(u8, u8)>::empty().push(x));
    assert(v2.changed.contains(x));
    assert forall|i: int| 0 <= i < v2.changed.len() implies v2.in_bounds(
        (#[trigger] v2.changed[i]).0 as int,
        v2.changed[i].1 as int,
    ) by {}
    lemma_resynced_seq_cell_effect(v2, v2.changed, col, row);
    assert(v2.cell(col, row).typo == TypeOfCell::Interactive(TypeOfInteractiveCell::Pass));
    assert(v2.backup_entry(col, row) == v.backup_entry(col, row));
}

/// The number of cells a grid holds: the sum of its row lengths.
pub open spec fn total_cells(s: Seq<Seq<CellState>>) -> int
    decreases s.len(),
{
    if s.len() == 0 {
        0
    } else {
        total_cells(s.drop_last()) + s.last().len()
    }
}

proof fn lemma_total_cells_uniform(s: Seq<Seq<CellState>>, d: int)
    requires
        forall|i: int| 0 <= i < s.len() ==> (#[trigger] s[i]).len() == d,
    ensures
        total_cells(s) == s.len() * d,
    decreases s.len(),
{
    if s.len() > 0 {
        let front = s.drop_last();
        assert forall|i: int| 0 <= i < front.len() implies (#[trigger] front[i]).len() == d by {
            assert(front[i] == s[i]);
        }
        lemma_total_cells_uniform(front, d);
        assert(s[s.len() - 1] == s.last());
        assert((s.len() - 1) * d + d == s.len() * d) by (nonlinear_arith);
    }
}

/// A well-formed grid holds exactly `width * depth` cells.
pub proof fn lemma_grid_cell_count(v: GridView)
    requires
        v.well_formed(),
    ensures
        total_cells(v.cells) == v.width() * v.depth(),
{
    lemma_total_cells_uniform(v.cells, v.depth());
}

/// The cosmetic notifications a resynchronization pass emits: one per
/// drained coordinate, in drain order, carrying the class the cell now
/// shows.  The class depends only on the cell's type and its backup entry,
/// which a pass never changes.
pub open spec fn spec_resync_notes(v: GridView, coords: Seq<(u8, u8)>) -> Seq<
    ((u8, u8), VisualClass),
>
    decreases coords.len(),
{
    if coords.len() == 0 {
        Seq::empty()
    } else {
        let last = coords.last();
        spec_resync_notes(v, coords.drop_last()).push(
            (
                last,
                spec_visual(
                    v.cell(last.0 as int, last.1 as int).typo,
                    v.backup_entry(last.0 as int, last.1 as int).material,
                ),
            ),
        )
    }
}

/// A freshly built cell and its backup entry: passable, standard
/// attributes, clear edges, showing the terrain class recorded for it.
pub open spec fn fresh_pass_cell(cell: CellState, entry: CellBackup) -> bool {
    &&& cell.typo == TypeOfCell::Interactive(TypeOfInteractiveCell::Pass)
    &&& cell.basicattr == spec_standard_pass_attributes()
    &&& edges_clear(cell.cellattr)
    &&& cell.material == VisualClass::Terrain(entry.material)
    &&& entry.typo == cell.typo
    &&& entry.basicattr == cell.basicattr
    &&& entry.cellattr == cell.cellattr
    &&& entry.material < TERRAIN_CLASSES
}

/// Relies on rand's `Rng::gen_range` on the thread-local generator: a
/// sample from the non-empty range `0..TERRAIN_CLASSES` lies in that range.
#[verifier::external_body]
fn draw_terrain_class() -> (r: u8)
    ensures
        r < TERRAIN_CLASSES,
{
    rand::thread_rng().gen_range(0..TERRAIN_CLASSES)
}

/// The authoritative table of cells and their build-time backup.
///
/// The backup is owned exclusively by the grid and is never rewritten after
/// `build`; all mutation goes through [`Grid::set_type`] and the
/// resynchronization methods.
pub struct Grid {
    dims: GridXYZ,
    cells: Vec<Vec<CellState>>,
    backup: Vec<Vec<CellBackup>>,
    changed: Vec<(u8, u8)>,
}

impl View for Grid {
    type V = GridView;

    closed spec fn view(&self) -> GridView {
        GridView {
            dims: self.dims,
            cells: self.cells@.map_values(|v: Vec<CellState>| v@),
            backup: self.backup@.map_values(|v: Vec<CellBackup>| v@),
            changed: self.changed@,
        }
    }
}

impl Grid {
    pub fn dims(&self) -> (d: GridXYZ)
        ensures
            d == self@.dims,
    {
        self.dims
    }

    /// Creates the `dims.x` by `dims.z` table in row-major order: every
    /// cell starts passable with standard attributes and a terrain class
    /// drawn from the palette, and its backup entry records that state.
    pub fn build(dims: GridXYZ) -> (g: Grid)
        requires
            1 <= dims.x,
            1 <= dims.z,
        ensures
            g@.well_formed(),
            g@.dims == dims,
            g@.changed == Seq::<(u8, u8)>::empty(),
            forall|c: int, r: int|
                g@.in_bounds(c, r) ==> fresh_pass_cell(
                    #[trigger] g@.cell(c, r),
                    g@.backup_entry(c, r),
                ),
    {
        let width = dims.x as usize;
        let depth = dims.z as usize;
        let mut cells: Vec<Vec<CellState>> = Vec::new();
        let mut backup: Vec<Vec<CellBackup>> = Vec::new();
        let mut c: usize = 0;
        while c < width
            invariant
                c <= width,
                cells@.len() == c,
                backup@.len() == c,
                forall|i: int| 0 <= i < c ==> (#[trigger] cells@[i])@.len() == depth,
                forall|i: int| 0 <= i < c ==> (#[trigger] backup@[i])@.len() == depth,
                forall|i: int, j: int|
                    0 <= i < c && 0 <= j < depth ==> fresh_pass_cell(
                        #[trigger] cells@[i]@[j],
                        backup@[i]@[j],
                    ),
            decreases width - c,
        {
            let mut cell_row: Vec<CellState> = Vec::new();
            let mut backup_row: Vec<CellBackup> = Vec::new();
            let mut r: usize = 0;
            while r < depth
                invariant
                    r <= depth,
                    cell_row@.len() == r,
                    backup_row@.len() == r,
                    forall|j: int|
                        0 <= j < r ==> fresh_pass_cell(
                            #[trigger] cell_row@[j],
                            backup_row@[j],
                        ),
                decreases depth - r,
            {
                let class = draw_terrain_class();
                let basicattr = BasicsAttributes::standart_pass_cell();
                let cellattr = CellAttributes::default();
                let typo = TypeOfCell::Interactive(TypeOfInteractiveCell::Pass);
                cell_row.push(
                    CellState { typo, material: VisualClass::Terrain(class), basicattr, cellattr },
                );
                backup_row.push(CellBackup { typo, basicattr, cellattr, material: class });
                r += 1;
            }
            cells.push(cell_row);
            backup.push(backup_row);
            c += 1;
        }
        let g = Grid { dims, cells, backup, changed: Vec::new() };
        proof {
            assert forall|i: int| 0 <= i < g@.width() implies (#[trigger] g@.cells[i]).len()
                == g@.depth() by {
                assert(g@.cells[i] == cells@[i]@);
            }
            assert forall|i: int| 0 <= i < g@.width() implies (#[trigger] g@.backup[i]).len()
                == g@.depth() by {
                assert(g@.backup[i] == backup@[i]@);
            }
            assert forall|c0: int, r0: int| g@.in_bounds(c0, r0) implies fresh_pass_cell(
                #[trigger] g@.cell(c0, r0),
                g@.backup_entry(c0, r0),
            ) by {
                assert(g@.cells[c0] == cells@[c0]@);
                assert(g@.backup[c0] == backup@[c0]@);
            }
            assert forall|c0: int, r0: int| g@.in_bounds(c0, r0) implies (#[trigger] g@.backup_entry(
                c0,
                r0,
            )).material < TERRAIN_CLASSES by {
                assert(fresh_pass_cell(g@.cell(c0, r0), g@.backup_entry(c0, r0)));
            }
        }
        g
    }

    /// Pure state mutation of one cell's type; the coordinate joins the
    /// pending-change list.  The cosmetic class is not recomputed here —
    /// that is the job of the resynchronization methods, invoked once per
    /// detected change.
    pub fn set_type(&mut self, col: u8, row: u8, typo: TypeOfCell) -> (r: Result<(), GridError>)
        requires
            old(self)@.well_formed(),
        ensures
            final(self)@.well_formed(),
            match r {
                Ok(_) => old(self)@.in_bounds(col as int, row as int) && final(self)@ == old(
                    self,
                )@.with_type(col as int, row as int, typo),
                Err(e) => !old(self)@.in_bounds(col as int, row as int) && e
                    == GridError::OutOfBounds && final(self)@ == old(self)@,
            },
    {
        if col < self.dims.x && row < self.dims.z {
            proof {
                assert(self@.cells[col as int] == self.cells@[col as int]@);
            }
            self.cells[col as usize][row as usize].typo = typo;
            self.changed.push((col, row));
            proof {
                let pre = old(self)@;
                let post = pre.with_type(col as int, row as int, typo);
                assert forall|i: int| 0 <= i < post.cells.len() implies self@.cells[i]
                    == post.cells[i] by {
                    assert(self@.cells[i] == self.cells@[i]@);
                    if i != col as int {
                        assert(self.cells@[i] == old(self).cells@[i]);
                    }
                }
                assert(self@.cells =~= post.cells);
                assert(self@.backup =~= post.backup);
                assert(self@ =~= post);
                lemma_with_type_preserves(pre, col as int, row as int, typo);
            }
            Ok(())
        } else {
            Err(GridError::OutOfBounds)
        }
    }

    /// Rederives and stores the cosmetic class of one cell from its current
    /// type and its backup entry; a coordinate outside the grid is reported
    /// as `OutOfBounds` and nothing is touched.
    pub fn resync_cell(&mut self, col: u8, row: u8) -> (r: Result<VisualClass, GridError>)
        requires
            old(self)@.well_formed(),
        ensures
            final(self)@.well_formed(),
            match r {
                Ok(vis) => old(self)@.in_bounds(col as int, row as int) && final(self)@ == old(
                    self,
                )@.resynced(col as int, row as int) && vis == spec_visual(
                    old(self)@.cell(col as int, row as int).typo,
                    old(self)@.backup_entry(col as int, row as int).material,
                ),
                Err(e) => !old(self)@.in_bounds(col as int, row as int) && e
                    == GridError::OutOfBounds && final(self)@ == old(self)@,
            },
    {
        if col < self.dims.x && row < self.dims.z {
            let typo = self.cells[col as usize][row as usize].typo;
            let class = self.backup[col as usize][row as usize].material;
            let vis = match typo {
                TypeOfCell::Void => VisualClass::Transparent,
                TypeOfCell::Interactive(TypeOfInteractiveCell::Pass) => VisualClass::Terrain(
                    class,
                ),
                TypeOfCell::Interactive(TypeOfInteractiveCell::Impa) => VisualClass::Blocked,
                TypeOfCell::Coord => VisualClass::Marker,
            };
            self.cells[col as usize][row as usize].material = vis;
            proof {
                let pre = old(self)@;
                let post = pre.resynced(col as int, row as int);
                assert forall|i: int| 0 <= i < post.cells.len() implies self@.cells[i]
                    == post.cells[i] by {
                    assert(self@.cells[i] == self.cells@[i]@);
                    if i != col as int {
                        assert(self.cells@[i] == old(self).cells@[i]);
                    }
                }
                assert(self@.cells =~= post.cells);
                assert(self@.backup =~= post.backup);
                assert(self@ =~= post);
                lemma_resynced_preserves(pre, col as int, row as int);
            }
            Ok(vis)
        } else {
            Err(GridError::OutOfBounds)
        }
    }

    /// Drains the pending-change list in arrival order, rederiving the
    /// cosmetic class of every recorded coordinate exactly once per
    /// recorded change.  Returns the cosmetic notifications for the render
    /// sink: one per drained coordinate, with the class the cell now shows.
    pub fn update_cell_material(&mut self) -> (notes: Vec<((u8, u8), VisualClass)>)
        requires
            old(self)@.well_formed(),
        ensures
            final(self)@.well_formed(),
            final(self)@ == old(self)@.resynced_seq(old(self)@.changed).drained(),
            notes@ == spec_resync_notes(old(self)@, old(self)@.changed),
    {
        let mut notes: Vec<((u8, u8), VisualClass)> = Vec::new();
        let n = self.changed.len();
        let mut i: usize = 0;
        while i < n
            invariant
                i <= n,
                n == old(self)@.changed.len(),
                old(self)@.well_formed(),
                self@ == old(self)@.resynced_seq(old(self)@.changed.take(i as int)),
                self@.well_formed(),
                notes@ == spec_resync_notes(old(self)@, old(self)@.changed.take(i as int)),
            decreases n - i,
        {
            proof {
                let pre = old(self)@;
                assert forall|j: int| 0 <= j < pre.changed.take(i as int).len() implies pre.in_bounds(
                    (#[trigger] pre.changed.take(i as int)[j]).0 as int,
                    pre.changed.take(i as int)[j].1 as int,
                ) by {
                    assert(pre.changed.take(i as int)[j] == pre.changed[j]);
                }
                lemma_resynced_seq_preserves(pre, pre.changed.take(i as int));
                assert(self@.dims == pre.dims);
                assert(self@.changed == pre.changed);
            }
            let coord = self.changed[i];
            let vis = match self.resync_cell(coord.0, coord.1) {
                Ok(vis) => vis,
                // Never taken: every recorded coordinate is in bounds.
                Err(_) => VisualClass::Transparent,
            };
            notes.push((coord, vis));
            i += 1;
            proof {
                let pre = old(self)@;
                let s = pre.changed;
                let k = i as int;
                assert(s.take(k).drop_last() =~= s.take(k - 1));
                assert(s.take(k).last() == s[k - 1]);
                assert(pre.resynced_seq(s.take(k)) == pre.resynced_seq(s.take(k - 1)).resynced(
                    s[k - 1].0 as int,
                    s[k - 1].1 as int,
                ));
                assert(spec_resync_notes(pre, s.take(k)) == spec_resync_notes(
                    pre,
                    s.take(k - 1),
                ).push(
                    (
                        s[k - 1],
                        spec_visual(
                            pre.cell(s[k - 1].0 as int, s[k - 1].1 as int).typo,
                            pre.backup_entry(s[k - 1].0 as int, s[k - 1].1 as int).material,
                        ),
                    ),
                ));
            }
        }
        proof {
            let pre = old(self)@;
            assert(pre.changed.take(n as int) =~= pre.changed);
        }
        self.changed = Vec::new();
        proof {
            let pre = old(self)@;
            let w = pre.resynced_seq(pre.changed);
            assert(self@.cells =~= w.drained().cells);
            assert(self@.backup =~= w.drained().backup);
            assert(self@ =~= w.drained());
            assert forall|j: int| 0 <= j < pre.changed.len() implies pre.in_bounds(
                (#[trigger] pre.changed[j]).0 as int,
                pre.changed[j].1 as int,
            ) by {}
            lemma_resynced_seq_preserves(pre, pre.changed);
            lemma_drained_preserves(w);
        }
        notes
    }

    /// Bounds-checked cell lookup.
    pub fn get(&self, col: u8, row: u8) -> (r: Result<&CellState, GridError>)
        requires
            self@.well_formed(),
        ensures
            match r {
                Ok(cell) => self@.in_bounds(col as int, row as int) && *cell == self@.cell(
                    col as int,
                    row as int,
                ),
                Err(e) => !self@.in_bounds(col as int, row as int) && e == GridError::OutOfBounds,
            },
    {
        if col < self.dims.x && row < self.dims.z {
            Ok(&self.cells[col as usize][row as usize])
        } else {
            Err(GridError::OutOfBounds)
        }
    }

    /// Bounds-checked backup lookup.
    pub fn get_backup(&self, col: u8, row: u8) -> (r: Result<&CellBackup, GridError>)
        requires
            self@.well_formed(),
        ensures
            match r {
                Ok(entry) => self@.in_bounds(col as int, row as int) && *entry
                    == self@.backup_entry(col as int, row as int),
                Err(e) => !self@.in_bounds(col as int, row as int) && e == GridError::OutOfBounds,
            },
    {
        if col < self.dims.x && row < self.dims.z {
            Ok(&self.backup[col as usize][row as usize])
        } else {
            Err(GridError::OutOfBounds)
        }
    }
}

} // verus!
