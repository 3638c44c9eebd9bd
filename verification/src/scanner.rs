//! Key scanning.
//!
//! Defines how the key switches are wired up and how to scan those switches
//! for their press state. The scan matrix drives one write line at a time,
//! samples every read line after a settling delay, and keeps two generations
//! of per-row bitmasks so that press and release edges fall out of a bit
//! comparison, with no timestamps and no allocation per tick.

use vstd::prelude::*;
use core::marker::PhantomData;
use crate::diodes::{DiodeConfiguration, KeyPosition, ScanPosition};
use crate::pin_group::{InputGroup, OutputGroup};

verus! {

/// One row of scan state: one bit per column.
pub type ScanRow = u32;

/// Whether the bit for column `col` is set in a row mask.
pub open spec fn row_bit(mask: ScanRow, col: u32) -> bool {
    mask & (1u32 << col) != 0
}

/// A scanner: per-tick snapshots of which keys are down, two generations
/// deep, queried by logical position.
/// Verified implementations override the spec observers with their real
/// state; the defaults describe an empty scanner with nothing pressed, so
/// implementations outside the proofs need only supply the executable
/// methods.
pub trait Scanner {
    type Error;

    /// The number of key rows scanned.
    open spec fn spec_rows(&self) -> int {
        0
    }

    /// The number of key columns scanned.
    open spec fn spec_cols(&self) -> int {
        0
    }

    /// Structural well-formedness.
    open spec fn wf(&self) -> bool {
        true
    }

    /// The number of key rows scanned.
    fn rows(&self) -> (r: usize)
        requires
            self.wf(),
        ensures
            r as int == self.spec_rows(),
    ;

    /// The number of key columns scanned.
    fn cols(&self) -> (r: usize)
        requires
            self.wf(),
        ensures
            r as int == self.spec_cols(),
    ;

    /// Whether (row, col) was down in the scan before the most recent one.
    open spec fn spec_old_state(&self, row: int, col: int) -> bool {
        false
    }

    /// Whether (row, col) was down in the most recent scan.
    open spec fn spec_new_state(&self, row: int, col: int) -> bool {
        false
    }

    /// Performs one full scan cycle: the last scan becomes the
    /// edge-detection baseline, whatever the new scan reads. When the
    /// underlying lines fail, the error is returned as is and the new
    /// snapshot is only partially populated; the baseline is intact either
    /// way, so edge queries never compare against a torn snapshot.
    fn poll(&mut self) -> (r: Result<(), Self::Error>)
        requires
            old(self).wf(),
        ensures
            final(self).wf(),
            final(self).spec_rows() == old(self).spec_rows(),
            final(self).spec_cols() == old(self).spec_cols(),
            forall|row: int, col: int|
                0 <= row < old(self).spec_rows() && 0 <= col < old(self).spec_cols()
                    ==> final(self).spec_old_state(row, col) == old(self).spec_new_state(
                    row,
                    col,
                ),
    ;

    /// Whether the key is down in the most recent scan.
    fn is_pressed(&self, row: usize, col: usize) -> (r: bool)
        requires
            self.wf(),
            row < self.spec_rows(),
            col < self.spec_cols(),
        ensures
            r == self.spec_new_state(row as int, col as int),
    ;

    /// Whether the key went down this tick: down in the most recent scan and
    /// up in the one before.
    fn just_pressed(&self, row: usize, col: usize) -> (r: bool)
        requires
            self.wf(),
            row < self.spec_rows(),
            col < self.spec_cols(),
        ensures
            r == (self.spec_new_state(row as int, col as int) && !self.spec_old_state(
                row as int,
                col as int,
            )),
    ;

    /// Whether the key came up this tick: up in the most recent scan and
    /// down in the one before.
    fn just_released(&self, row: usize, col: usize) -> (r: bool)
        requires
            self.wf(),
            row < self.spec_rows(),
            col < self.spec_cols(),
        ensures
            r == (!self.spec_new_state(row as int, col as int) && self.spec_old_state(
                row as int,
                col as int,
            )),
    ;
}

/// The scan-settling wait between driving a write line and sampling the read
/// lines; how long it takes is the hardware's business.
pub trait ScanDelay {
    /// Blocks until the lines have settled.
    fn delay(&mut self);
}

/// An implementation of a "scan matrix".
///
/// The state is stored logically: `new_state[row]` has one bit per column,
/// set while the key at (row, col) reads as down. The diode configuration
/// `C` translates each electrical (write, read) sample to its logical
/// position before the bit is set, so the same engine serves all three
/// wiring topologies.
pub struct ScanMatrix<W, R, D, C> {
    write_lines: W,
    read_lines: R,
    scan_delay: D,
    _diodes: PhantomData<C>,
    rows: usize,
    cols: usize,
    old_state: Vec<ScanRow>,
    new_state: Vec<ScanRow>,
}

impl<W, R, D, C> ScanMatrix<W, R, D, C> where
    C: DiodeConfiguration,
    W: WriteLines,
    R: ReadLines<Error = W::Error>,
    D: ScanDelay,
 {
    /// Structural well-formedness: one state word per row with only the
    /// first `cols` bits in use (so a row mask fits its columns), and line
    /// groups sized exactly as the diode configuration demands.
    pub closed spec fn spec_wf(&self) -> bool {
        &&& self.cols <= 32
        &&& self.old_state@.len() == self.rows
        &&& self.new_state@.len() == self.rows
        &&& self.write_lines.spec_len() == C::spec_write_lines(self.rows, self.cols)
        &&& self.read_lines.spec_len() == C::spec_read_lines(self.rows, self.cols)
        &&& forall|i: int|
            0 <= i < self.rows ==> (self.old_state@[i] as u64) < (1u64 << (self.cols as u64))
        &&& forall|i: int|
            0 <= i < self.rows ==> (self.new_state@[i] as u64) < (1u64 << (self.cols as u64))
    }

    /// Builds a scan matrix over the given line groups, with nothing pressed
    /// in either state generation.
    ///
    /// A row mask has 32 bits, so at most 32 columns can be scanned; the
    /// line groups must be sized as the diode configuration demands for the
    /// given dimensions.
    pub fn new(write_lines: W, read_lines: R, scan_delay: D, rows: usize, cols: usize) -> (r:
        Self)
        requires
            cols <= 32,
            write_lines.spec_len() == C::spec_write_lines(rows, cols),
            read_lines.spec_len() == C::spec_read_lines(rows, cols),
        ensures
            r.wf(),
            r.spec_rows() == rows,
            r.spec_cols() == cols,
            forall|row: int, col: int|
                0 <= row < rows && 0 <= col < cols ==> !r.spec_old_state(row, col)
                    && !r.spec_new_state(row, col),
    {
        let mut old_state: Vec<ScanRow> = Vec::new();
        let mut new_state: Vec<ScanRow> = Vec::new();
        let mut i: usize = 0;
        while i < rows
            invariant
                i <= rows,
                old_state@.len() == i,
                new_state@.len() == i,
                forall|k: int| 0 <= k < i ==> old_state@[k] == 0u32,
                forall|k: int| 0 <= k < i ==> new_state@[k] == 0u32,
            decreases rows - i,
        {
            old_state.push(0);
            new_state.push(0);
            i = i + 1;
        }
        proof {
            lemma_zero_row_bits(cols);
        }
        ScanMatrix {
            write_lines,
            read_lines,
            scan_delay,
            _diodes: PhantomData,
            rows,
            cols,
            old_state,
            new_state,
        }
    }

    /// Records one electrical sample into the new snapshot: an active sample
    /// sets the bit of the key the diode configuration puts at that (write,
    /// read) address and changes nothing else; an inactive sample changes
    /// nothing at all.
    fn record_sample(&mut self, i: usize, j: usize, active: bool)
        requires
            old(self).spec_wf(),
            i < C::spec_write_lines(old(self).rows, old(self).cols),
            j < C::spec_read_lines(old(self).rows, old(self).cols),
        ensures
            final(self).spec_wf(),
            final(self).rows == old(self).rows,
            final(self).cols == old(self).cols,
            final(self).write_lines == old(self).write_lines,
            final(self).read_lines == old(self).read_lines,
            final(self).scan_delay == old(self).scan_delay,
            final(self).old_state == old(self).old_state,
            ({
                let key = C::spec_key_position(ScanPosition { write_index: i, read_index: j });
                forall|r: int, c: int|
                    0 <= r < old(self).rows && 0 <= c < old(self).cols
                        ==> final(self).spec_new_state(r, c) == (old(self).spec_new_state(r, c)
                        || (active && r == key.row && c == key.col))
            }),
    {
        if active {
            let pos = ScanPosition { write_index: i, read_index: j };
            let key: KeyPosition = C::key_position(pos);
            proof {
                C::scan_key_inverse(self.rows, self.cols, pos);
            }
            let mask = self.new_state[key.row];
            proof {
                lemma_set_bit_bound(mask, key.col, self.cols);
            }
            self.new_state[key.row] = mask | (1u32 << (key.col as u32));
        }
    }
}

impl<W, R, D, C> Scanner for ScanMatrix<W, R, D, C> where
    C: DiodeConfiguration,
    W: WriteLines,
    R: ReadLines<Error = W::Error>,
    D: ScanDelay,
 {
    type Error = W::Error;

    closed spec fn spec_rows(&self) -> int {
        self.rows as int
    }

    closed spec fn spec_cols(&self) -> int {
        self.cols as int
    }

    closed spec fn wf(&self) -> bool {
        self.spec_wf()
    }

    fn rows(&self) -> (r: usize) {
        self.rows
    }

    fn cols(&self) -> (r: usize) {
        self.cols
    }

    closed spec fn spec_old_state(&self, row: int, col: int) -> bool {
        row_bit(self.old_state@[row], col as u32)
    }

    closed spec fn spec_new_state(&self, row: int, col: int) -> bool {
        row_bit(self.new_state@[row], col as u32)
    }

    #[verifier::loop_isolation(false)]
    fn poll(&mut self) -> (r: Result<(), Self::Error>) {
        // The last scan becomes the edge-detection baseline, and the new
        // snapshot starts empty.
        core::mem::swap(&mut self.old_state, &mut self.new_state);
        let mut clear: usize = 0;
        while clear < self.rows
            invariant
                clear <= self.rows,
                self.rows == old(self).rows,
                self.cols == old(self).cols,
                self.write_lines == old(self).write_lines,
                self.read_lines == old(self).read_lines,
                self.scan_delay == old(self).scan_delay,
                self.new_state@.len() == self.rows,
                self.old_state == old(self).new_state,
                forall|k: int| 0 <= k < clear ==> self.new_state@[k] == 0u32,
                forall|k: int|
                    clear <= k < self.rows ==> (self.new_state@[k] as u64) < (1u64 << (
                    self.cols as u64)),
            decreases self.rows - clear,
        {
            self.new_state[clear] = 0;
            clear = clear + 1;
        }
        proof {
            lemma_zero_row_bits(self.cols);
        }

        let write_count = C::write_lines(self.rows, self.cols);
        let read_count = C::read_lines(self.rows, self.cols);
        let mut i: usize = 0;
        while i < write_count
            invariant
                self.spec_wf(),
                self.rows == old(self).rows,
                self.cols == old(self).cols,
                self.old_state == old(self).new_state,
            decreases write_count - i,
        {
            match self.write_lines.set(i) {
                Ok(()) => {},
                Err(e) => {
                    return Err(e);
                },
            }
            self.scan_delay.delay();
            let mut j: usize = 0;
            while j < read_count
                invariant
                    i < write_count,
                    self.spec_wf(),
                    self.rows == old(self).rows,
                    self.cols == old(self).cols,
                    self.old_state == old(self).new_state,
                decreases read_count - j,
            {
                let active = match self.read_lines.poll(j) {
                    Ok(active) => active,
                    Err(e) => {
                        return Err(e);
                    },
                };
                self.record_sample(i, j, active);
                j = j + 1;
            }
            i = i + 1;
        }
        Ok(())
    }

    fn is_pressed(&self, row: usize, col: usize) -> (r: bool) {
        (self.new_state[row] & (1u32 << (col as u32))) != 0
    }

    fn just_pressed(&self, row: usize, col: usize) -> (r: bool) {
        proof {
            lemma_edge_bits(self.new_state@[row as int], self.old_state@[row as int], col as u32);
        }
        ((self.new_state[row] & !self.old_state[row]) & (1u32 << (col as u32))) != 0
    }

    fn just_released(&self, row: usize, col: usize) -> (r: bool) {
        proof {
            lemma_edge_bits(self.old_state@[row as int], self.new_state@[row as int], col as u32);
        }
        ((self.old_state[row] & !self.new_state[row]) & (1u32 << (col as u32))) != 0
    }
}

/// A row mask of zero has no column bit set and fits any column budget.
proof fn lemma_zero_row_bits(cols: usize)
    by (bit_vector)
    requires
        cols <= 32,
    ensures
        forall|col: u32| col < 32 ==> !(#[trigger] (0u32 & (1u32 << col)) != 0),
        (0u32 as u64) < (1u64 << (cols as u64)),
{
}

/// Setting one column bit keeps the mask within its column budget and sets
/// exactly that bit.
proof fn lemma_set_bit_bound(mask: u32, col: usize, cols: usize)
    by (bit_vector)
    requires
        col < cols,
        cols <= 32,
        (mask as u64) < (1u64 << (cols as u64)),
    ensures
        ((mask | (1u32 << (col as u32))) as u64) < (1u64 << (cols as u64)),
        forall|c: u32|
            c < 32 ==> (#[trigger] ((mask | (1u32 << (col as u32))) & (1u32 << c)) != 0) == ((
            mask & (1u32 << c)) != 0 || c == col as u32),
{
}

/// A bit of `a & !b` is a bit set in `a` and clear in `b`.
proof fn lemma_edge_bits(a: u32, b: u32, col: u32)
    by (bit_vector)
    requires
        col < 32,
    ensures
        (((a & !b) & (1u32 << col)) != 0) == ((a & (1u32 << col)) != 0 && !((b & (1u32 << col))
            != 0)),
{
}

/// Lines read during a scan: one sample per read line while one write line
/// is driven.
pub trait ReadLines {
    type Error;

    /// The number of read lines; zero by default, overridden by verified
    /// implementations.
    open spec fn spec_len(&self) -> usize {
        0
    }

    /// Samples the line at `index`: true when the switch connects it to the
    /// driven write line.
    fn poll(&mut self, index: usize) -> (r: Result<bool, Self::Error>)
        requires
            index < old(self).spec_len(),
        ensures
            final(self).spec_len() == old(self).spec_len(),
    ;
}

/// Lines driven during a scan, one at a time.
///
/// Verified implementations override the two spec observers with their real
/// state; the defaults describe an empty group, so implementations outside
/// the proofs need only supply the executable method.
pub trait WriteLines {
    type Error;

    /// The number of write lines.
    open spec fn spec_len(&self) -> usize {
        0
    }

    /// Whether the line at `index` is driven to its active level.
    open spec fn spec_line_active(&self, index: int) -> bool {
        false
    }

    /// Drives the line at `index` active and every other line in the group
    /// inactive, so that a sample on a read line can only come from the
    /// selected write line.
    fn set(&mut self, index: usize) -> (r: Result<(), Self::Error>)
        requires
            index < old(self).spec_len(),
        ensures
            final(self).spec_len() == old(self).spec_len(),
            r is Ok ==> final(self).spec_line_active(index as int),
            r is Ok ==> forall|j: int|
                0 <= j < old(self).spec_len() && j != index ==> !final(self).spec_line_active(
                    j,
                ),
    ;
}

/// A `WriteLines` or `ReadLines`, made from an `OutputGroup` or
/// `InputGroup`, where each line in the group corresponds directly to a read
/// or write line in the matrix.
///
/// When used as a [`WriteLines`], it drives the selected line low and sets
/// the rest of the lines high (or floating if the output is open-drain).
///
/// When used as a [`ReadLines`], it is assumed that the lines are pulled
/// high by default and connected to a write line when the corresponding key
/// is pressed, therefore being driven low when that write line is selected.
pub struct Direct<Group>(pub Group);

impl<Group> ReadLines for Direct<Group> where Group: InputGroup {
    type Error = Group::Error;

    open spec fn spec_len(&self) -> usize {
        self.0.spec_len()
    }

    fn poll(&mut self, index: usize) -> (r: Result<bool, Self::Error>) {
        self.0.is_low(index)
    }
}

impl<Group> WriteLines for Direct<Group> where Group: OutputGroup {
    type Error = Group::Error;

    open spec fn spec_len(&self) -> usize {
        self.0.spec_len()
    }

    open spec fn spec_line_active(&self, index: int) -> bool {
        self.0.spec_line_low(index)
    }

    #[verifier::loop_isolation(false)]
    fn set(&mut self, index: usize) -> (r: Result<(), Self::Error>) {
        let count = self.0.len();
        let mut i: usize = 0;
        while i < count
            invariant
                self.0.spec_len() == old(self).spec_len(),
                forall|j: int| 0 <= j < i ==> !self.0.spec_line_low(j),
            decreases count - i,
        {
            match self.0.set_high(i) {
                Ok(()) => {},
                Err(e) => {
                    return Err(e);
                },
            }
            i = i + 1;
        }
        match self.0.set_low(index) {
            Ok(()) => {},
            Err(e) => {
                return Err(e);
            },
        }
        Ok(())
    }
}

} // verus!
