use polybius::diodes::{ColToRow, DiodeConfiguration, KeyPosition, NoDiodes, RowToCol, ScanPosition};

fn round_trips<C: DiodeConfiguration>(rows: usize, cols: usize) {
    for row in 0..rows {
        for col in 0..cols {
            let scan = C::scan_position(KeyPosition { row, col });
            assert!(scan.write_index < C::write_lines(rows, cols));
            assert!(scan.read_index < C::read_lines(rows, cols));
            let key = C::key_position(scan);
            assert_eq!(key, KeyPosition { row, col });
        }
    }
}

#[test]
fn topology_inverse_row_to_col() {
    round_trips::<RowToCol>(4, 12);
    round_trips::<RowToCol>(1, 1);
    round_trips::<RowToCol>(7, 3);
}

#[test]
fn topology_inverse_col_to_row() {
    round_trips::<ColToRow>(4, 12);
    round_trips::<ColToRow>(1, 1);
    round_trips::<ColToRow>(7, 3);
}

#[test]
fn topology_inverse_no_diodes() {
    round_trips::<NoDiodes>(4, 12);
    round_trips::<NoDiodes>(1, 1);
    round_trips::<NoDiodes>(7, 3);
}

#[test]
fn row_to_col_addressing() {
    // Diodes row-to-col: columns are driven, rows are read.
    assert_eq!(<RowToCol as DiodeConfiguration>::write_lines(4, 12), 12);
    assert_eq!(<RowToCol as DiodeConfiguration>::read_lines(4, 12), 4);
    let scan = RowToCol::scan_position(KeyPosition { row: 2, col: 9 });
    assert_eq!(scan, ScanPosition { write_index: 9, read_index: 2 });
}

#[test]
fn col_to_row_addressing() {
    // Diodes col-to-row: rows are driven, columns are read.
    assert_eq!(<ColToRow as DiodeConfiguration>::write_lines(4, 12), 4);
    assert_eq!(<ColToRow as DiodeConfiguration>::read_lines(4, 12), 12);
    let scan = ColToRow::scan_position(KeyPosition { row: 2, col: 9 });
    assert_eq!(scan, ScanPosition { write_index: 2, read_index: 9 });
}

#[test]
fn ghosting_flags() {
    assert!(!<RowToCol as DiodeConfiguration>::can_ghost());
    assert!(!<ColToRow as DiodeConfiguration>::can_ghost());
    assert!(<NoDiodes as DiodeConfiguration>::can_ghost());
}
