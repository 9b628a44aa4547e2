//! The arguments of the command line.

use vstd::prelude::*;

verus! {

/// One job given on the command line.
#[derive(Clone, Debug)]
pub struct Cli {
    /// The full path of the file.
    pub file: String,
    /// The interval of removal in minutes.
    pub interval: Option<u32>,
    /// Whether the job repeats; only with an interval.
    pub repeat: bool,
    /// The moment of removal, written as `2022-10-26T13:23:52`.
    pub date: Option<String>,
}

} // verus!
