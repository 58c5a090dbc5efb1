use vstd::prelude::*;

verus! {

/// The user-tunable settings of the pipeline: how many page or detail
/// requests may be in flight at once (valid range one to fifty).
#[derive(Debug, Clone, Copy, PartialEq, Eq, Structural)]
pub struct SettingsPage {
    pub max_parallelism: usize,
}

impl SettingsPage {
    /// The default setting: twenty parallel connections.
    pub fn default() -> (r: SettingsPage)
        ensures
            r.max_parallelism == 20,
    {
        SettingsPage { max_parallelism: 20 }
    }
}

} // verus!
