//! What every supplier of a supply chain is made with.

use vstd::prelude::*;

verus! {

/// The environments that a supplier builds, in the order in which it builds them, and
/// the extension that the packager gives its archives.
pub struct ConfigSupplierInit {
    pub environments: Vec<String>,
    pub extension: String,
}

} // verus!
