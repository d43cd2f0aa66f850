use damascene_core::widgets::button_group::{collapsed_corners, seam_boundaries};
use damascene_core::widgets::table::{
    row_stamps, stamp_column, CellAlignment, CellShape, ColumnStamp, Size, TableColumn, TextAlign,
};

fn fill(w: f32) -> TableColumn {
    TableColumn { width: Size::Fill(w.to_bits()), align: TextAlign::Start }
}

fn fixed(px: f32) -> TableColumn {
    TableColumn { width: Size::Fixed(px.to_bits()), align: TextAlign::Start }
}

/// The five-column parts-index spec.
fn cols() -> Vec<TableColumn> {
    vec![fill(0.6), fill(1.1), fixed(120.0), fill(1.4), fill(0.6).align_end()]
}

#[test]
fn columns_stamp_width_by_position() {
    // Header labels and body cells are all text.
    let head = row_stamps(&[CellShape::Text; 5], &cols());
    let body = row_stamps(&[CellShape::Text; 5], &cols());
    let expected = [
        Size::Fill(0.6f32.to_bits()),
        Size::Fill(1.1f32.to_bits()),
        Size::Fixed(120.0f32.to_bits()),
        Size::Fill(1.4f32.to_bits()),
        Size::Fill(0.6f32.to_bits()),
    ];
    for (i, want) in expected.iter().enumerate() {
        assert_eq!(head[i].unwrap().width, *want, "header cell {i}");
        assert_eq!(body[i].unwrap().width, *want, "body cell {i}");
    }
}

#[test]
fn header_and_body_share_one_column_spec() {
    let cols = cols();
    let head = row_stamps(&[CellShape::Text; 5], &cols);
    let body = row_stamps(&[CellShape::Text; 5], &cols);
    assert_eq!(head.len(), body.len());
    for i in 0..cols.len() {
        assert_eq!(head[i], body[i], "column {i} drifted between header and body");
    }
}

#[test]
fn alignment_stamps_text_align_on_text_cells() {
    let body = row_stamps(&[CellShape::Text; 3], &cols());
    assert_eq!(
        body[0].unwrap().alignment,
        CellAlignment::Unchanged,
        "a start column leaves the cell at the default",
    );
    let end = [fill(1.0).align_end()];
    assert_eq!(
        row_stamps(&[CellShape::Text], &end)[0].unwrap().alignment,
        CellAlignment::Text(TextAlign::End)
    );
    // Header cells take the same stamp.
    let head = row_stamps(&[CellShape::Text], &end);
    assert_eq!(head[0].unwrap().alignment, CellAlignment::Text(TextAlign::End));
}

#[test]
fn alignment_stamps_justify_on_container_cells() {
    let cols = [fill(1.0).align_end(), fill(1.0).align_center()];
    let r = row_stamps(&[CellShape::Row, CellShape::Column], &cols);
    assert_eq!(r[0].unwrap().alignment, CellAlignment::Justify(TextAlign::End));
    assert_eq!(
        r[1].unwrap().alignment,
        CellAlignment::Cross(TextAlign::Center),
        "a column cell aligns on its cross axis",
    );
}

#[test]
fn overlay_cells_and_missing_columns_take_no_alignment() {
    let c = fill(1.0).align_end();
    assert_eq!(
        stamp_column(CellShape::Overlay, Some(&c)),
        Some(ColumnStamp { width: c.width, alignment: CellAlignment::Unchanged })
    );
    assert_eq!(stamp_column(CellShape::Text, None), None);
}

#[test]
fn extra_cells_keep_the_stock_fill_and_extra_columns_go_unused() {
    let cols = [fill(3.0), fill(2.0).align_end()];
    let too_many = row_stamps(&[CellShape::Text; 3], &cols);
    assert_eq!(too_many.len(), 3);
    assert_eq!(too_many[2], None, "a cell past the spec keeps its stock geometry");
    let too_few = row_stamps(&[CellShape::Text], &cols);
    assert_eq!(too_few.len(), 1);
    assert_eq!(too_few[0].unwrap().width, Size::Fill(3.0f32.to_bits()));
}

fn corners(first: bool, last: bool) -> (bool, bool, bool, bool) {
    let m = collapsed_corners(first, last, false).unwrap();
    (m.top_left, m.top_right, m.bottom_right, m.bottom_left)
}

#[test]
fn group_collapses_interior_corners() {
    assert_eq!(corners(true, false), (true, false, false, true), "first item keeps only its leading corners");
    assert_eq!(corners(false, false), (false, false, false, false), "middle items are squared on both ends");
    assert_eq!(corners(false, true), (false, true, true, false), "last item keeps only its trailing corners");
}

#[test]
fn lone_child_keeps_its_whole_silhouette() {
    assert_eq!(collapsed_corners(true, true, false), None);
}

#[test]
fn author_set_radius_wins() {
    assert_eq!(collapsed_corners(true, false, true), None);
    assert!(collapsed_corners(false, true, false).is_some());
}

#[test]
fn stroked_neighbours_do_not_get_a_doubled_seam() {
    // Every child strokes the seam color: their edges already are the
    // hairlines.
    assert_eq!(seam_boundaries(&[true, true, true]), vec![false, false, false]);
}

#[test]
fn invisible_seam_gets_exactly_one_left_border() {
    // Solid tints stroke in their own fill: nothing marks the boundary,
    // so the trailing item owns the divider.
    assert_eq!(seam_boundaries(&[false, false]), vec![false, true]);
}

#[test]
fn ghost_neighbours_get_a_divider() {
    assert!(seam_boundaries(&[false, false])[1], "two chromeless items still need a visible division");
}

#[test]
fn a_coincident_neighbour_edge_still_swallows_the_seam() {
    assert_eq!(seam_boundaries(&[true, false, false]), vec![false, false, true]);
    assert_eq!(seam_boundaries(&[false, true]), vec![false, false]);
    assert_eq!(seam_boundaries(&[]), Vec::<bool>::new());
}

#[test]
fn widths_compare_as_the_floats_they_carry() {
    assert_eq!(Size::Fixed(0.0f32.to_bits()), Size::Fixed((-0.0f32).to_bits()));
    assert_ne!(Size::Fill(f32::NAN.to_bits()), Size::Fill(f32::NAN.to_bits()));
    assert_eq!(Size::Ch(3.0f32.to_bits()), Size::Ch(3.0f32.to_bits()));
    assert_ne!(Size::Fixed(3.0f32.to_bits()), Size::Fill(3.0f32.to_bits()));
    assert_eq!(Size::Hug, Size::Hug);
}
