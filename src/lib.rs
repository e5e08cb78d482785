//! Line, word and byte counting over a byte stream, and the report line
//! that a counting command prints for one file.

pub mod counter;
pub mod options;
pub mod report;
pub mod laws;
