//! What the supply chain sends to its suppliers.

use vstd::prelude::*;

verus! {

/// A request, with the one-shot capability `replier` through which its answer is to be
/// sent. The capability is whatever the channel in use provides.
pub enum ConfigSupplyRequest<R> {
    GetConfig { stage: String, environment: String, component: String, replier: R },
}

} // verus!
