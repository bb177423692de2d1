//! How long the service lets its callers wait.

use vstd::prelude::*;

verus! {

/// Timeouts for different functions in seconds.
#[derive(Clone, Copy, Debug, PartialEq, Eq)]
pub struct Timeouts {
    pub controllers_config_get_config: u64,
}

} // verus!
