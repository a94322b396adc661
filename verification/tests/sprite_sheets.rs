use arcaders::game::{ShipFrame, Sign};
use arcaders::sheet::{frame_at, sheet_cells};

#[test]
fn ship_sheet_is_read_row_by_row() {
    assert_eq!(
        sheet_cells(3, 3, 9),
        vec![(0, 0), (1, 0), (2, 0), (0, 1), (1, 1), (2, 1), (0, 2), (1, 2), (2, 2)]
    );
}

#[test]
fn ship_frames_match_their_cells() {
    let cells = sheet_cells(3, 3, 9);
    assert_eq!(cells[ShipFrame::from_dx_dy(Sign::Positive, Sign::Negative).index()], (1, 0));
    assert_eq!(cells[ShipFrame::from_dx_dy(Sign::Negative, Sign::Zero).index()], (2, 1));
    assert_eq!(cells[ShipFrame::from_dx_dy(Sign::Zero, Sign::Positive).index()], (0, 2));
}

#[test]
fn a_sheet_may_end_mid_row() {
    let cells = sheet_cells(5, 4, 17);
    assert_eq!(cells.len(), 17);
    assert_eq!(cells[4], (4, 0));
    assert_eq!(cells[5], (0, 1));
    assert_eq!(cells[16], (1, 3));

    let cells = sheet_cells(21, 7, 143);
    assert_eq!(cells.len(), 143);
    assert_eq!(cells[142], (16, 6));
    for (k, cell) in cells.iter().enumerate() {
        assert_eq!(*cell, (k % 21, k / 21));
    }
}

#[test]
fn a_sheet_holds_no_more_than_its_grid() {
    assert_eq!(sheet_cells(2, 2, 10), vec![(0, 0), (1, 0), (0, 1), (1, 1)]);
    assert_eq!(sheet_cells(0, 5, 3), vec![]);
    assert_eq!(sheet_cells(5, 0, 3), vec![]);
    assert_eq!(sheet_cells(4, 4, 0), vec![]);
    assert_eq!(sheet_cells(1, 3, 2), vec![(0, 0), (0, 1)]);
}

#[test]
fn animation_loops() {
    assert_eq!(frame_at(0, 17), 0);
    assert_eq!(frame_at(16, 17), 16);
    assert_eq!(frame_at(17, 17), 0);
    assert_eq!(frame_at(40, 17), 6);
    assert_eq!(frame_at(5, 1), 0);
}

#[test]
fn a_full_cycle_returns_to_the_same_frame() {
    for frames in [1usize, 2, 17, 143] {
        for steps in 0..300usize {
            assert_eq!(frame_at(steps + frames, frames), frame_at(steps, frames));
        }
    }
}
