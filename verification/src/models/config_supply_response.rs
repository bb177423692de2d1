//! What a supplier sends back through a request's reply channel.

use crate::error::{Error, ErrorView};
use crate::error_kind::UNEXPECTED_RESPONSE_TYPE;
use vstd::prelude::*;
use vstd::string::StringExecFns;

verus! {

#[derive(Debug, PartialEq)]
#[allow(inconsistent_fields)]
pub enum ConfigSupplyResponse {
    Update { result: Result<(), Error> },
    GetConfig { result: Result<Vec<u8>, Error> },
}

/// The failure that stands for a response of another variant than the one asked for.
pub open spec fn unexpected_response() -> ErrorView {
    ErrorView {
        kind: UNEXPECTED_RESPONSE_TYPE@,
        message: "received an unexpected response type for get config request: Update"@,
    }
}

impl ConfigSupplyResponse {
    /// What the response means to the caller that asked for a configuration: the
    /// result that it carries, or a failure if it answers another kind of request.
    pub fn into_config(self) -> (result: Result<Vec<u8>, Error>)
        ensures
            match self {
                ConfigSupplyResponse::GetConfig { result: carried } => result == carried,
                ConfigSupplyResponse::Update { .. } => result is Err && result->Err_0@
                    == unexpected_response(),
            },
    {
        match self {
            ConfigSupplyResponse::GetConfig { result } => result,
            ConfigSupplyResponse::Update { .. } => Err(
                Error::new(
                    String::from_str(UNEXPECTED_RESPONSE_TYPE),
                    String::from_str(
                        "received an unexpected response type for get config request: Update",
                    ),
                ),
            ),
        }
    }
}

} // verus!
