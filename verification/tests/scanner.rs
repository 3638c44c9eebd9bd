use std::cell::{Cell, RefCell};
use std::rc::Rc;

use polybius::diodes::{ColToRow, RowToCol};
use polybius::pin_group::{InputGroup, OutputGroup};
use polybius::scanner::{Direct, ScanDelay, ScanMatrix, Scanner, WriteLines};

/// The switch states, indexed by (write line, read line).
type Pattern = Rc<RefCell<Vec<Vec<bool>>>>;

struct FakeWrites {
    lines: usize,
    selected: Rc<Cell<usize>>,
}

impl OutputGroup for FakeWrites {
    type Error = ();

    fn len(&self) -> usize {
        self.lines
    }

    fn set_low(&mut self, index: usize) -> Result<(), ()> {
        self.selected.set(index);
        Ok(())
    }

    fn set_high(&mut self, _index: usize) -> Result<(), ()> {
        Ok(())
    }
}

struct FakeReads {
    lines: usize,
    selected: Rc<Cell<usize>>,
    pattern: Pattern,
    fail: Rc<Cell<bool>>,
}

impl InputGroup for FakeReads {
    type Error = ();

    fn len(&self) -> usize {
        self.lines
    }

    fn is_low(&self, index: usize) -> Result<bool, ()> {
        if self.fail.get() {
            return Err(());
        }
        Ok(self.pattern.borrow()[self.selected.get()][index])
    }

    fn is_high(&self, index: usize) -> Result<bool, ()> {
        self.is_low(index).map(|low| !low)
    }
}

struct NoDelay;

impl ScanDelay for NoDelay {
    fn delay(&mut self) {}
}

struct Rig {
    matrix: ScanMatrix<Direct<FakeWrites>, Direct<FakeReads>, NoDelay, ColToRow>,
    pattern: Pattern,
    fail: Rc<Cell<bool>>,
}

/// A 2x3 matrix wired col-to-row: 2 write lines (rows), 3 read lines (cols).
fn rig() -> Rig {
    let selected = Rc::new(Cell::new(0));
    let pattern: Pattern = Rc::new(RefCell::new(vec![vec![false; 3], vec![false; 3]]));
    let fail = Rc::new(Cell::new(false));
    let writes = FakeWrites { lines: 2, selected: selected.clone() };
    let reads = FakeReads {
        lines: 3,
        selected,
        pattern: pattern.clone(),
        fail: fail.clone(),
    };
    let matrix = ScanMatrix::new(Direct(writes), Direct(reads), NoDelay, 2, 3);
    Rig { matrix, pattern, fail }
}

#[test]
fn scan_reads_pressed_keys() {
    let mut rig = rig();
    // Col-to-row wiring: pattern[write][read] is pattern[row][col].
    rig.pattern.borrow_mut()[0][1] = true;
    rig.pattern.borrow_mut()[1][2] = true;
    rig.matrix.poll().unwrap();
    for row in 0..2 {
        for col in 0..3 {
            let expected = (row, col) == (0, 1) || (row, col) == (1, 2);
            assert_eq!(rig.matrix.is_pressed(row, col), expected);
            assert_eq!(rig.matrix.just_pressed(row, col), expected);
            assert!(!rig.matrix.just_released(row, col));
        }
    }
}

#[test]
fn edge_detection_between_two_scans() {
    let mut rig = rig();
    // First scan: (0,0) held, (0,1) held.
    rig.pattern.borrow_mut()[0][0] = true;
    rig.pattern.borrow_mut()[0][1] = true;
    rig.matrix.poll().unwrap();
    // Second scan: (0,1) still held, (0,2) newly down, (0,0) released.
    rig.pattern.borrow_mut()[0][0] = false;
    rig.pattern.borrow_mut()[0][2] = true;
    rig.matrix.poll().unwrap();

    // just_pressed: set now and clear before; independently per position.
    assert!(!rig.matrix.just_pressed(0, 0));
    assert!(!rig.matrix.just_pressed(0, 1));
    assert!(rig.matrix.just_pressed(0, 2));
    // just_released: clear now and set before.
    assert!(rig.matrix.just_released(0, 0));
    assert!(!rig.matrix.just_released(0, 1));
    assert!(!rig.matrix.just_released(0, 2));
    // is_pressed reflects the latest scan alone.
    assert!(!rig.matrix.is_pressed(0, 0));
    assert!(rig.matrix.is_pressed(0, 1));
    assert!(rig.matrix.is_pressed(0, 2));
    // The other row is untouched throughout.
    for col in 0..3 {
        assert!(!rig.matrix.is_pressed(1, col));
        assert!(!rig.matrix.just_pressed(1, col));
        assert!(!rig.matrix.just_released(1, col));
    }
}

#[test]
fn held_key_fires_no_second_edge() {
    let mut rig = rig();
    rig.pattern.borrow_mut()[1][0] = true;
    rig.matrix.poll().unwrap();
    assert!(rig.matrix.just_pressed(1, 0));
    rig.matrix.poll().unwrap();
    assert!(rig.matrix.is_pressed(1, 0));
    assert!(!rig.matrix.just_pressed(1, 0));
    assert!(!rig.matrix.just_released(1, 0));
}

#[test]
fn line_errors_abort_the_scan() {
    let mut rig = rig();
    rig.pattern.borrow_mut()[0][0] = true;
    rig.matrix.poll().unwrap();
    assert!(rig.matrix.is_pressed(0, 0));
    // A failing read aborts the scan; the next healthy scan recovers.
    rig.fail.set(true);
    assert_eq!(rig.matrix.poll(), Err(()));
    rig.fail.set(false);
    rig.matrix.poll().unwrap();
    assert!(rig.matrix.is_pressed(0, 0));
}

#[test]
fn row_to_col_scan_translates_positions() {
    // Row-to-col wiring on a 2x3 matrix: 3 write lines (columns) and 2 read
    // lines (rows); pattern[write][read] is pattern[col][row].
    let selected = Rc::new(Cell::new(0));
    let pattern: Pattern = Rc::new(RefCell::new(vec![vec![false; 2]; 3]));
    let fail = Rc::new(Cell::new(false));
    let writes = FakeWrites { lines: 3, selected: selected.clone() };
    let reads = FakeReads { lines: 2, selected, pattern: pattern.clone(), fail };
    let mut matrix: ScanMatrix<_, _, _, RowToCol> =
        ScanMatrix::new(Direct(writes), Direct(reads), NoDelay, 2, 3);
    // The key at row 1, column 2 sits on write line 2, read line 1.
    pattern.borrow_mut()[2][1] = true;
    matrix.poll().unwrap();
    for row in 0..2 {
        for col in 0..3 {
            assert_eq!(matrix.is_pressed(row, col), (row, col) == (1, 2));
        }
    }
}

struct LoggingPins {
    log: Rc<RefCell<Vec<(usize, bool)>>>,
}

impl OutputGroup for LoggingPins {
    type Error = ();

    fn len(&self) -> usize {
        3
    }

    fn set_low(&mut self, index: usize) -> Result<(), ()> {
        self.log.borrow_mut().push((index, false));
        Ok(())
    }

    fn set_high(&mut self, index: usize) -> Result<(), ()> {
        self.log.borrow_mut().push((index, true));
        Ok(())
    }
}

#[test]
fn direct_write_drives_one_line_low() {
    let log = Rc::new(RefCell::new(Vec::new()));
    let mut lines = Direct(LoggingPins { log: log.clone() });
    lines.set(1).unwrap();
    // Every line is set inactive (high) first, then the selected one is
    // driven active (low).
    assert_eq!(
        log.borrow().clone(),
        vec![(0, true), (1, true), (2, true), (1, false)]
    );
}
