//! Declaring diode presence and direction, and the address translation each
//! implies.
//!
//! A switch matrix is scanned electrically: one *write* line is driven at a
//! time and the *read* lines are sampled. Which physical lines play which
//! role depends on the direction the diodes (if any) let current flow, so a
//! `DiodeConfiguration` translates between the logical position of a key
//! (row, column) and its electrical position (write line, read line).

use vstd::prelude::*;

verus! {

/// The logical/visual position of a key, in terms of the row and column.
#[derive(Clone, Copy, PartialEq, Eq, Structural, Debug)]
pub struct KeyPosition {
    pub row: usize,
    pub col: usize,
}

/// The position of a key on the switch matrix, in terms of the lines that
/// would be written and read to observe it.
#[derive(Clone, Copy, PartialEq, Eq, Structural, Debug)]
pub struct ScanPosition {
    pub write_index: usize,
    pub read_index: usize,
}

/// Mapping between logical and electrical key positions that accounts for
/// the presence and direction of any diodes in the matrix.
///
/// The two translations must be exact inverses of each other for every
/// position within the matrix bounds; implementors owe a proof of both
/// directions (`scan_key_inverse`, `key_scan_inverse`), which also pins the
/// line counts that each translation stays within.
pub trait DiodeConfiguration {
    /// Whether this matrix is susceptible to ghosting.
    spec fn spec_can_ghost() -> bool;

    /// The number of write lines of a matrix with the given logical size.
    spec fn spec_write_lines(rows: usize, cols: usize) -> usize;

    /// The number of read lines of a matrix with the given logical size.
    spec fn spec_read_lines(rows: usize, cols: usize) -> usize;

    /// Where a key at a logical position is found electrically.
    spec fn spec_scan_position(pos: KeyPosition) -> ScanPosition;

    /// Which key a given electrical position belongs to.
    spec fn spec_key_position(pos: ScanPosition) -> KeyPosition;

    /// Whether this matrix is susceptible to ghosting.
    fn can_ghost() -> (r: bool)
        ensures
            r == Self::spec_can_ghost(),
    ;

    /// The number of write lines of a matrix with the given logical size.
    fn write_lines(rows: usize, cols: usize) -> (r: usize)
        ensures
            r == Self::spec_write_lines(rows, cols),
    ;

    /// The number of read lines of a matrix with the given logical size.
    fn read_lines(rows: usize, cols: usize) -> (r: usize)
        ensures
            r == Self::spec_read_lines(rows, cols),
    ;

    /// Maps a logical position to its corresponding matrix position.
    ///
    /// This is the inverse of `key_position`.
    fn scan_position(pos: KeyPosition) -> (r: ScanPosition)
        ensures
            r == Self::spec_scan_position(pos),
    ;

    /// Maps a matrix position to its corresponding logical position.
    ///
    /// This is the inverse of `scan_position`.
    fn key_position(pos: ScanPosition) -> (r: KeyPosition)
        ensures
            r == Self::spec_key_position(pos),
    ;

    /// Law: translating a logical position to the matrix and back returns
    /// the same position, and the matrix position stays within the line
    /// counts.
    proof fn key_scan_inverse(rows: usize, cols: usize, pos: KeyPosition)
        requires
            pos.row < rows,
            pos.col < cols,
        ensures
            Self::spec_key_position(Self::spec_scan_position(pos)) == pos,
            Self::spec_scan_position(pos).write_index < Self::spec_write_lines(rows, cols),
            Self::spec_scan_position(pos).read_index < Self::spec_read_lines(rows, cols),
    ;

    /// Law: translating a matrix position to a logical position and back
    /// returns the same position, and the logical position stays within the
    /// matrix bounds.
    proof fn scan_key_inverse(rows: usize, cols: usize, pos: ScanPosition)
        requires
            pos.write_index < Self::spec_write_lines(rows, cols),
            pos.read_index < Self::spec_read_lines(rows, cols),
        ensures
            Self::spec_scan_position(Self::spec_key_position(pos)) == pos,
            Self::spec_key_position(pos).row < rows,
            Self::spec_key_position(pos).col < cols,
    ;
}

/// Law, stated once for every configuration: within bounds, `key_position`
/// undoes `scan_position` exactly.
pub proof fn topology_inverse_law<C: DiodeConfiguration>(rows: usize, cols: usize, pos: KeyPosition)
    requires
        pos.row < rows,
        pos.col < cols,
    ensures
        C::spec_key_position(C::spec_scan_position(pos)) == pos,
{
    C::key_scan_inverse(rows, cols, pos);
}

/// Diodes are present; current is allowed to flow from rows to columns.
///
/// This diode configuration defines the matrix columns as the write lines
/// and the matrix rows as the read lines.
pub struct RowToCol {
    _private: (),
}

impl DiodeConfiguration for RowToCol {
    open spec fn spec_can_ghost() -> bool {
        false
    }

    open spec fn spec_write_lines(rows: usize, cols: usize) -> usize {
        cols
    }

    open spec fn spec_read_lines(rows: usize, cols: usize) -> usize {
        rows
    }

    open spec fn spec_scan_position(pos: KeyPosition) -> ScanPosition {
        ScanPosition { write_index: pos.col, read_index: pos.row }
    }

    open spec fn spec_key_position(pos: ScanPosition) -> KeyPosition {
        KeyPosition { row: pos.read_index, col: pos.write_index }
    }

    fn can_ghost() -> bool {
        false
    }

    fn write_lines(rows: usize, cols: usize) -> usize {
        cols
    }

    fn read_lines(rows: usize, cols: usize) -> usize {
        rows
    }

    #[inline]
    fn scan_position(pos: KeyPosition) -> ScanPosition {
        ScanPosition { read_index: pos.row, write_index: pos.col }
    }

    #[inline]
    fn key_position(pos: ScanPosition) -> KeyPosition {
        KeyPosition { row: pos.read_index, col: pos.write_index }
    }

    proof fn key_scan_inverse(rows: usize, cols: usize, pos: KeyPosition) {
    }

    proof fn scan_key_inverse(rows: usize, cols: usize, pos: ScanPosition) {
    }
}

/// Diodes are present; current is allowed to flow from columns to rows.
///
/// This diode configuration defines the matrix rows as the write lines and
/// the matrix columns as the read lines.
pub struct ColToRow {
    _private: (),
}

impl DiodeConfiguration for ColToRow {
    open spec fn spec_can_ghost() -> bool {
        false
    }

    open spec fn spec_write_lines(rows: usize, cols: usize) -> usize {
        rows
    }

    open spec fn spec_read_lines(rows: usize, cols: usize) -> usize {
        cols
    }

    open spec fn spec_scan_position(pos: KeyPosition) -> ScanPosition {
        ScanPosition { write_index: pos.row, read_index: pos.col }
    }

    open spec fn spec_key_position(pos: ScanPosition) -> KeyPosition {
        KeyPosition { row: pos.write_index, col: pos.read_index }
    }

    fn can_ghost() -> bool {
        false
    }

    fn write_lines(rows: usize, cols: usize) -> usize {
        rows
    }

    fn read_lines(rows: usize, cols: usize) -> usize {
        cols
    }

    #[inline]
    fn scan_position(pos: KeyPosition) -> ScanPosition {
        ScanPosition { read_index: pos.col, write_index: pos.row }
    }

    #[inline]
    fn key_position(pos: ScanPosition) -> KeyPosition {
        KeyPosition { row: pos.write_index, col: pos.read_index }
    }

    proof fn key_scan_inverse(rows: usize, cols: usize, pos: KeyPosition) {
    }

    proof fn scan_key_inverse(rows: usize, cols: usize, pos: ScanPosition) {
    }
}

/// No diodes are present; current can flow in any direction.
///
/// Although somewhat arbitrary in this case, this configuration defines the
/// matrix rows as the write lines and the matrix columns as the read lines.
///
/// This configuration also reports that the matrix can ghost. The scan
/// matrix engine does not yet consult the flag to suppress phantom keys;
/// callers that choose this configuration live with ghosting.
pub struct NoDiodes {
    _private: (),
}

impl DiodeConfiguration for NoDiodes {
    open spec fn spec_can_ghost() -> bool {
        true
    }

    open spec fn spec_write_lines(rows: usize, cols: usize) -> usize {
        rows
    }

    open spec fn spec_read_lines(rows: usize, cols: usize) -> usize {
        cols
    }

    open spec fn spec_scan_position(pos: KeyPosition) -> ScanPosition {
        ScanPosition { write_index: pos.row, read_index: pos.col }
    }

    open spec fn spec_key_position(pos: ScanPosition) -> KeyPosition {
        KeyPosition { row: pos.write_index, col: pos.read_index }
    }

    fn can_ghost() -> bool {
        true
    }

    fn write_lines(rows: usize, cols: usize) -> usize {
        rows
    }

    fn read_lines(rows: usize, cols: usize) -> usize {
        cols
    }

    #[inline]
    fn scan_position(pos: KeyPosition) -> ScanPosition {
        ScanPosition { read_index: pos.col, write_index: pos.row }
    }

    #[inline]
    fn key_position(pos: ScanPosition) -> KeyPosition {
        KeyPosition { row: pos.write_index, col: pos.read_index }
    }

    proof fn key_scan_inverse(rows: usize, cols: usize, pos: KeyPosition) {
    }

    proof fn scan_key_inverse(rows: usize, cols: usize, pos: ScanPosition) {
    }
}

} // verus!
