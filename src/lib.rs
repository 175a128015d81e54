//! Splits the first sheet of a workbook into pages of a fixed number of rows,
//! repeating a block of header rows at the top of every page after the first.
//!
//! The library decides what goes where: which source rows each output file
//! receives, in which order, and which typed value each cell is written as.
//! Reading and writing the workbook files is left to the caller.
pub mod cell;
pub mod naming;
pub mod laws;
pub mod paginate;
