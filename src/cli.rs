//! The benchmark's settings, once the command line has been read.

use vstd::prelude::*;

verus! {

/// Rounds run when the command line names no count.
pub const DEFAULT_COUNT: usize = 10000;

/// Size in bytes of each random buffer when the command line names none.
pub const DEFAULT_SIZE: usize = 10000;

/// The curve benchmark to restrict a run to.
#[derive(Clone, Copy, Debug, PartialEq, Eq, Structural)]
pub enum Bench {
    Addition,
    Multiplication,
    Pairing,
}

/// The settings of one run.
#[derive(Clone, Copy, Debug, PartialEq, Eq, Structural)]
pub struct Application {
    /// Number of rounds.
    pub count: usize,
    /// Size of each random input buffer, in bytes.
    pub size: usize,
    /// The one curve benchmark to run; all of them when absent.
    pub bench: Option<Bench>,
}

/// The settings of a run, the defaults standing for what the command line left out.
pub fn application(count: Option<usize>, size: Option<usize>, bench: Option<Bench>) -> (r: Application)
    ensures
        r.count == (match count {
            Some(c) => c,
            None => DEFAULT_COUNT,
        }),
        r.size == (match size {
            Some(s) => s,
            None => DEFAULT_SIZE,
        }),
        r.bench == bench,
{
    let count = match count {
        Some(c) => c,
        None => DEFAULT_COUNT,
    };
    let size = match size {
        Some(s) => s,
        None => DEFAULT_SIZE,
    };
    Application { count, size, bench }
}

} // verus!
