use vstd::prelude::*;

verus! {

/// Failure taxonomy of the pipeline.
///
/// `Network`: transport or timeout failure on a single request.
/// `Parse`: markup did not match the expected structure.
/// `Cache`: the persistent store was unreachable or a write failed.
/// `Config`: an invalid concurrency limit or malformed filter.
#[derive(Debug, Clone, Copy, PartialEq, Eq, Structural)]
pub enum ScrapeError {
    Network,
    Parse,
    Cache,
    Config,
}

} // verus!
