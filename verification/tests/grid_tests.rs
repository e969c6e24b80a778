use ebm::attributes::{BasicsAttributes, Team};
use ebm::grid::{
    Grid, GridError, GridXYZ, InteractiveCellBundle, TypeOfCell, TypeOfInteractiveCell,
    VisualClass, TERRAIN_CLASSES,
};

fn dims(x: u8, z: u8) -> GridXYZ {
    GridXYZ { x, y: 0, z }
}

#[test]
fn build_produces_width_times_depth_cells_from_palette() {
    let g = Grid::build(dims(4, 3));
    let mut count: u32 = 0;
    for col in 0..4u8 {
        for row in 0..3u8 {
            let cell = g.get(col, row).unwrap();
            count += 1;
            assert_eq!(
                cell.typo,
                TypeOfCell::Interactive(TypeOfInteractiveCell::Pass)
            );
            match cell.material {
                VisualClass::Terrain(t) => assert!(t < TERRAIN_CLASSES),
                other => panic!("freshly built cell shows {:?}", other),
            }
        }
    }
    assert_eq!(count, 12);
}

#[test]
fn build_records_backup_matching_each_cell() {
    let g = Grid::build(dims(5, 5));
    for col in 0..5u8 {
        for row in 0..5u8 {
            let cell = *g.get(col, row).unwrap();
            let entry = *g.get_backup(col, row).unwrap();
            assert_eq!(cell.material, VisualClass::Terrain(entry.material));
            assert_eq!(cell.typo, entry.typo);
            assert_eq!(cell.basicattr, entry.basicattr);
            assert_eq!(cell.cellattr, entry.cellattr);
        }
    }
}

#[test]
fn default_dimensions_are_ten_by_ten() {
    let d = GridXYZ::default();
    assert_eq!(d, GridXYZ { x: 10, y: 0, z: 10 });
    let g = Grid::build(d);
    assert!(g.get(9, 9).is_ok());
    assert_eq!(g.get(10, 9).unwrap_err(), GridError::OutOfBounds);
}

#[test]
fn smallest_grid_builds() {
    let g = Grid::build(dims(1, 1));
    assert!(g.get(0, 0).is_ok());
    assert_eq!(g.get(0, 1).unwrap_err(), GridError::OutOfBounds);
    assert_eq!(g.get(1, 0).unwrap_err(), GridError::OutOfBounds);
}

#[test]
fn out_of_bounds_lookup_is_reported_not_crashed() {
    let g = Grid::build(dims(3, 7));
    assert_eq!(g.get(3, 0).unwrap_err(), GridError::OutOfBounds);
    assert_eq!(g.get(0, 7).unwrap_err(), GridError::OutOfBounds);
    assert_eq!(g.get(255, 255).unwrap_err(), GridError::OutOfBounds);
    assert_eq!(g.get_backup(3, 0).unwrap_err(), GridError::OutOfBounds);
    assert_eq!(g.get_backup(0, 7).unwrap_err(), GridError::OutOfBounds);
    assert!(g.get_backup(2, 6).is_ok());
}

#[test]
fn set_type_out_of_bounds_is_rejected() {
    let mut g = Grid::build(dims(2, 2));
    let r = g.set_type(2, 0, TypeOfCell::Void);
    assert_eq!(r.unwrap_err(), GridError::OutOfBounds);
    let r = g.resync_cell(0, 2);
    assert_eq!(r.unwrap_err(), GridError::OutOfBounds);
}

#[test]
fn pass_impa_pass_round_trip_restores_build_class() {
    let mut g = Grid::build(dims(6, 6));
    let original = g.get(2, 3).unwrap().material;
    let backup_class = g.get_backup(2, 3).unwrap().material;
    assert_eq!(original, VisualClass::Terrain(backup_class));

    g.set_type(2, 3, TypeOfCell::Interactive(TypeOfInteractiveCell::Impa))
        .unwrap();
    g.update_cell_material();
    assert_eq!(g.get(2, 3).unwrap().material, VisualClass::Blocked);

    g.set_type(2, 3, TypeOfCell::Interactive(TypeOfInteractiveCell::Pass))
        .unwrap();
    g.update_cell_material();
    assert_eq!(g.get(2, 3).unwrap().material, original);
}

#[test]
fn round_trip_survives_many_intermediate_changes() {
    let mut g = Grid::build(dims(4, 4));
    let original = g.get(1, 1).unwrap().material;
    for t in [
        TypeOfCell::Void,
        TypeOfCell::Coord,
        TypeOfCell::Interactive(TypeOfInteractiveCell::Impa),
        TypeOfCell::Void,
    ] {
        g.set_type(1, 1, t).unwrap();
        g.update_cell_material();
    }
    g.set_type(1, 1, TypeOfCell::Interactive(TypeOfInteractiveCell::Pass))
        .unwrap();
    g.update_cell_material();
    assert_eq!(g.get(1, 1).unwrap().material, original);
}

#[test]
fn each_type_derives_its_visual_class() {
    let mut g = Grid::build(dims(3, 3));
    g.set_type(0, 0, TypeOfCell::Void).unwrap();
    g.set_type(0, 1, TypeOfCell::Coord).unwrap();
    g.set_type(0, 2, TypeOfCell::Interactive(TypeOfInteractiveCell::Impa))
        .unwrap();
    g.update_cell_material();
    assert_eq!(g.get(0, 0).unwrap().material, VisualClass::Transparent);
    assert_eq!(g.get(0, 1).unwrap().material, VisualClass::Marker);
    assert_eq!(g.get(0, 2).unwrap().material, VisualClass::Blocked);
    let untouched = g.get(1, 1).unwrap();
    let entry = g.get_backup(1, 1).unwrap();
    assert_eq!(untouched.material, VisualClass::Terrain(entry.material));
}

#[test]
fn set_type_alone_does_not_change_the_visual() {
    let mut g = Grid::build(dims(2, 2));
    let before = g.get(0, 0).unwrap().material;
    g.set_type(0, 0, TypeOfCell::Interactive(TypeOfInteractiveCell::Impa))
        .unwrap();
    assert_eq!(g.get(0, 0).unwrap().material, before);
    g.update_cell_material();
    assert_eq!(g.get(0, 0).unwrap().material, VisualClass::Blocked);
}

#[test]
fn resync_cell_returns_the_derived_class() {
    let mut g = Grid::build(dims(2, 2));
    g.set_type(1, 1, TypeOfCell::Coord).unwrap();
    let vis = g.resync_cell(1, 1).unwrap();
    assert_eq!(vis, VisualClass::Marker);
    assert_eq!(g.get(1, 1).unwrap().material, VisualClass::Marker);
}

#[test]
fn standard_cell_attribute_constructors() {
    let pass = BasicsAttributes::standart_pass_cell();
    assert_eq!(pass.height, (10, 0));
    assert_eq!(pass.area, (10, 0));
    assert_eq!(pass.hpp, (0, 0));
    assert_eq!(pass.movp, (0, 0));
    assert_eq!(pass.actp, (0, 0));
    assert_eq!(pass.efyp, (0, 0));
    assert_eq!(pass.ranp, (0, 0));
    let impa = BasicsAttributes::standart_impa_cell();
    assert_eq!(impa, BasicsAttributes::default());
}

#[test]
fn attribute_passability_needs_distinct_height_and_area() {
    assert!(BasicsAttributes::standart_pass_cell().is_pass_attr());
    assert!(!BasicsAttributes::standart_impa_cell().is_pass_attr());
    let mut half = BasicsAttributes::standart_pass_cell();
    half.set_area((5, 5));
    assert!(!half.is_pass_attr());
    let mut other = BasicsAttributes::standart_pass_cell();
    other.set_height((0, 0));
    assert!(!other.is_pass_attr());
}

#[test]
fn type_passability_accepts_only_interactive_pass() {
    assert!(BasicsAttributes::is_pass_type(&TypeOfCell::Interactive(
        TypeOfInteractiveCell::Pass
    )));
    assert!(!BasicsAttributes::is_pass_type(&TypeOfCell::Interactive(
        TypeOfInteractiveCell::Impa
    )));
    assert!(!BasicsAttributes::is_pass_type(&TypeOfCell::Void));
    assert!(!BasicsAttributes::is_pass_type(&TypeOfCell::Coord));
}

#[test]
fn interactive_cell_bundles_carry_standard_attributes() {
    let pass = InteractiveCellBundle::pass();
    assert_eq!(pass.basicattr, BasicsAttributes::standart_pass_cell());
    let impa = InteractiveCellBundle::impa();
    assert_eq!(impa.basicattr, BasicsAttributes::standart_impa_cell());
    assert_eq!(pass.cellattr, impa.cellattr);
}

#[test]
fn attribute_accessors_round_trip() {
    let mut a = BasicsAttributes::default();
    a.set_hpp((3, 9));
    a.set_movp((1, 2));
    a.set_actp((4, 5));
    a.set_efyp((6, 7));
    a.set_ranp((8, 9));
    a.set_height((-2, 11));
    a.set_area((0, -1));
    assert_eq!(a.hpp(), (3, 9));
    assert_eq!(a.movp(), (1, 2));
    assert_eq!(a.actp(), (4, 5));
    assert_eq!(a.efyp(), (6, 7));
    assert_eq!(a.ranp(), (8, 9));
    assert_eq!(a.height(), (-2, 11));
    assert_eq!(a.area(), (0, -1));
}

#[test]
fn default_cell_type_is_interactive_pass() {
    assert_eq!(
        TypeOfCell::default(),
        TypeOfCell::Interactive(TypeOfInteractiveCell::Pass)
    );
    assert_eq!(TypeOfInteractiveCell::default(), TypeOfInteractiveCell::Pass);
}

#[test]
fn update_emits_one_notification_per_change_in_order() {
    let mut g = Grid::build(dims(4, 4));
    g.set_type(1, 0, TypeOfCell::Void).unwrap();
    g.set_type(0, 2, TypeOfCell::Coord).unwrap();
    g.set_type(1, 0, TypeOfCell::Interactive(TypeOfInteractiveCell::Impa))
        .unwrap();
    let notes = g.update_cell_material();
    // Both writes to (1, 0) happened before the drain, so each of its two
    // notifications already shows the class of the latest type.
    assert_eq!(
        notes,
        vec![
            ((1, 0), VisualClass::Blocked),
            ((0, 2), VisualClass::Marker),
            ((1, 0), VisualClass::Blocked),
        ]
    );
    let notes = g.update_cell_material();
    assert!(notes.is_empty());
}

#[test]
fn edge_state_accessors_round_trip() {
    let g = Grid::build(dims(2, 2));
    let mut edges = g.get(0, 0).unwrap().cellattr;
    assert_eq!(edges.blockvision(), ([false; 4], [Team::Allies; 4]));
    assert_eq!(edges.isfull(), ([false; 4], [Team::Allies; 4]));
    edges.set_blockvision(([true, false, true, false], [Team::Enemies; 4]));
    edges.set_isfull(([false, true, false, true], [Team::Passives; 4]));
    assert_eq!(
        edges.blockvision(),
        ([true, false, true, false], [Team::Enemies; 4])
    );
    assert_eq!(
        edges.isfull(),
        ([false, true, false, true], [Team::Passives; 4])
    );
    assert_eq!(Team::default(), Team::Allies);
}

#[test]
fn terrain_class_frequencies_are_roughly_uniform() {
    let mut counts: [u32; 3] = [0, 0, 0];
    for _ in 0..40 {
        let g = Grid::build(dims(10, 10));
        for col in 0..10u8 {
            for row in 0..10u8 {
                if let VisualClass::Terrain(t) = g.get(col, row).unwrap().material {
                    counts[t as usize] += 1;
                } else {
                    panic!("fresh cell without terrain class");
                }
            }
        }
    }
    // 4000 draws; each class should be near 1333, and certainly present.
    for c in counts {
        assert!(c > 800, "class frequency far from uniform: {:?}", counts);
    }
}
