use track_terrain::grid::grid_indices;
use track_terrain::layout::{Band, Fraction, RibbonLayout};
use track_terrain::mesh::{ribbon_plan, terrain_plan};

fn default_layout() -> RibbonLayout {
    // width 8 in steps of at most 0.3, shoulders of 5 in steps of at most 0.25
    let body = (8.0f32 / 0.3).ceil() as u32;
    let shoulder = (5.0f32 / 0.25).ceil() as u32;
    assert_eq!(body, 27);
    assert_eq!(shoulder, 20);
    RibbonLayout::new(body, shoulder).unwrap()
}

#[test]
fn straight_segment_vertex_count() {
    let layout = default_layout();
    assert_eq!(layout.total_columns(), 65);
    let rows = (10.0f32 / 0.3).ceil() as u32;
    assert_eq!(rows, 34);
    let plan = ribbon_plan(rows, layout).unwrap();
    assert_eq!(plan.rows as usize * plan.columns.len(), 2210);
    assert_eq!(plan.indices.len(), 6 * 33 * 64);
    assert!(plan.indices.iter().all(|&i| i < 2210));
}

#[test]
fn row_parameters_run_from_zero_to_one() {
    let plan = ribbon_plan(34, default_layout()).unwrap();
    assert_eq!(plan.row_params.len(), 34);
    assert_eq!(plan.row_params[0], Fraction { num: 0, den: 33 });
    assert_eq!(plan.row_params[33], Fraction { num: 33, den: 33 });
}

#[test]
fn short_or_empty_segment_has_no_mesh() {
    let layout = default_layout();
    assert!(ribbon_plan(0, layout).is_none());
    assert!(ribbon_plan(1, layout).is_none());
    assert!(ribbon_plan(2, layout).is_some());
}

#[test]
fn oversized_ribbon_is_refused() {
    let layout = RibbonLayout::new(1000, 20).unwrap();
    assert!(ribbon_plan(1_000_000, layout).is_none());
}

#[test]
fn degenerate_layouts_are_refused() {
    assert!(RibbonLayout::new(1, 20).is_none());
    assert!(RibbonLayout::new(27, 1).is_none());
    assert!(RibbonLayout::new(0, 0).is_none());
    assert!(RibbonLayout::new(2_000_000, 20).is_none());
    assert!(RibbonLayout::new(2, 2).is_some());
}

#[test]
fn shoulder_blend_encoding() {
    let layout = default_layout();
    let cols = layout.columns();
    assert_eq!(cols.len(), 65);
    // outer edges blend fully into the terrain
    assert_eq!(cols[0].band, Band::InnerShoulder);
    assert_eq!(cols[0].blend, Fraction { num: 19, den: 19 });
    assert_eq!(cols[64].band, Band::OuterShoulder);
    assert_eq!(cols[64].blend, Fraction { num: 19, den: 19 });
    // the body, edges included, does not blend
    for j in 19..=45 {
        assert_eq!(cols[j].band, Band::Body);
        assert_eq!(cols[j].blend.num, 0);
    }
    // monotonic across each shoulder
    for j in 0..19 {
        assert!(cols[j].blend.num > cols[j + 1].blend.num);
    }
    for j in 45..64 {
        assert!(cols[j].blend.num < cols[j + 1].blend.num);
    }
}

fn offset(col: &track_terrain::layout::Column, width: f64, shoulder: f64) -> f64 {
    (col.lateral.width_num as f64 * width + col.lateral.shoulder_num as f64 * shoulder)
        / col.lateral.den as f64
}

#[test]
fn lateral_offsets_span_the_ribbon() {
    let layout = default_layout();
    let cols = layout.columns();
    let (w, t) = (8.0, 5.0);
    assert!((offset(&cols[0], w, t) + 9.0).abs() < 1e-9);
    assert!((offset(&cols[18], w, t) + 4.0 + 5.0 / 19.0).abs() < 1e-9);
    assert!((offset(&cols[19], w, t) + 4.0).abs() < 1e-9);
    assert!((offset(&cols[32], w, t)).abs() < 1e-9);
    assert!((offset(&cols[45], w, t) - 4.0).abs() < 1e-9);
    assert!((offset(&cols[64], w, t) - 9.0).abs() < 1e-9);
    for j in 0..64 {
        assert!(offset(&cols[j], w, t) < offset(&cols[j + 1], w, t));
        let inside = offset(&cols[j], w, t).abs() <= w / 2.0 + 1e-12;
        assert_eq!(inside, cols[j].blend.num == 0);
    }
}

#[test]
fn grid_cell_winding() {
    assert_eq!(grid_indices(2, 2), vec![0, 2, 3, 0, 3, 1]);
    assert_eq!(
        grid_indices(2, 3),
        vec![0, 3, 4, 0, 4, 1, 1, 4, 5, 1, 5, 2]
    );
    assert_eq!(
        grid_indices(3, 2),
        vec![0, 2, 3, 0, 3, 1, 2, 4, 5, 2, 5, 3]
    );
}

#[test]
fn grid_without_cells_has_no_indices() {
    assert!(grid_indices(1, 5).is_empty());
    assert!(grid_indices(5, 1).is_empty());
}

#[test]
fn terrain_grid_and_uvs() {
    assert!(terrain_plan(0, 3).is_none());
    assert!(terrain_plan(3, 0).is_none());
    assert!(terrain_plan(100_000, 100_000).is_none());
    let plan = terrain_plan(2, 3).unwrap();
    assert_eq!(plan.indices.len(), 6 * 2 * 3);
    assert_eq!(&plan.indices[0..6], &[0, 4, 5, 0, 5, 1]);
    let (u, v) = plan.uv(0, 0);
    assert_eq!(u, Fraction { num: 0, den: 2 });
    assert_eq!(v, Fraction { num: 3, den: 3 });
    let (u, v) = plan.uv(2, 3);
    assert_eq!(u, Fraction { num: 2, den: 2 });
    assert_eq!(v, Fraction { num: 0, den: 3 });
}

#[test]
fn default_extent_terrain() {
    // the default world extent is 50 x 50 with a spacing of at most 0.3
    let cells = (50.0f32 / 0.3).ceil() as u32;
    let plan = terrain_plan(cells, cells).unwrap();
    assert_eq!(plan.indices.len(), 6 * 167 * 167);
    assert!(plan.indices.iter().all(|&i| i < 168 * 168));
}
