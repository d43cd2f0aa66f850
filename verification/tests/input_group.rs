use damascene_core::widgets::input_group::{cell_insets, CellInset};

const LEFT: CellInset = CellInset { left: true, right: false };
const RIGHT: CellInset = CellInset { left: false, right: true };
const NONE: CellInset = CellInset { left: false, right: false };
const BOTH: CellInset = CellInset { left: true, right: true };

#[test]
fn cells_before_the_input_inset_left_and_after_it_right() {
    // [addon, addon, input, addon]
    assert_eq!(cell_insets(&[false, false, true, false]), vec![LEFT, LEFT, NONE, RIGHT]);
}

#[test]
fn cells_between_two_inputs_take_no_inset() {
    assert_eq!(cell_insets(&[true, false, true]), vec![NONE, NONE, NONE]);
}

#[test]
fn a_group_without_an_input_insets_both_sides() {
    assert_eq!(cell_insets(&[false, false]), vec![BOTH, BOTH]);
    assert_eq!(cell_insets(&[]), Vec::<CellInset>::new());
}
