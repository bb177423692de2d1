//! What the service answers to a request for a configuration.

use crate::error::{rendered, Error, ErrorView};
use crate::error_kind::{is_clients_fault, is_error_kind_clients_fault};
use vstd::prelude::*;

verus! {

pub const OK: u16 = 200;

pub const BAD_REQUEST: u16 = 400;

pub const REQUEST_TIMEOUT: u16 = 408;

pub const INTERNAL_SERVER_ERROR: u16 = 500;

/// What a client asks for. The stage is not the client's to choose.
#[derive(Debug)]
pub struct GetConfigQueryParams {
    pub environment: String,
    pub component: String,
}

impl Clone for GetConfigQueryParams {
    fn clone(&self) -> (copy: Self)
        ensures
            copy.environment@ == self.environment@,
            copy.component@ == self.component@,
    {
        GetConfigQueryParams {
            environment: self.environment.clone(),
            component: self.component.clone(),
        }
    }
}

/// What came of handing a request to the supply chain under a deadline.
#[derive(Debug, PartialEq)]
pub enum Delivery {
    /// The deadline passed first; `cause` says so in words.
    TimedOut { cause: String },
    /// The supply chain answered in time.
    Answered { result: Result<Vec<u8>, Error> },
}

/// The status that a failure is answered with: a bad request if the failure is the
/// client's fault, a server error if not.
pub open spec fn failure_status(error: ErrorView) -> u16 {
    if is_clients_fault(error.kind) {
        BAD_REQUEST
    } else {
        INTERNAL_SERVER_ERROR
    }
}

/// The answer to a request: status and archive, or status and the failure in words.
pub fn get_config(delivery: Delivery) -> (response: Result<(u16, Vec<u8>), (u16, String)>)
    ensures
        match delivery {
            Delivery::TimedOut { cause } => response is Err && response->Err_0.0
                == REQUEST_TIMEOUT && response->Err_0.1@ == cause@,
            Delivery::Answered { result: Ok(config) } => response is Ok && response->Ok_0.0 == OK
                && response->Ok_0.1@ == config@,
            Delivery::Answered { result: Err(error) } => response is Err && response->Err_0.0
                == failure_status(error@) && response->Err_0.1@ == rendered(error@),
        },
{
    match delivery {
        Delivery::TimedOut { cause } => Err((REQUEST_TIMEOUT, cause)),
        Delivery::Answered { result: Ok(config) } => Ok((OK, config)),
        Delivery::Answered { result: Err(error) } => {
            if is_error_kind_clients_fault(error.error_kind()) {
                Err((BAD_REQUEST, error.to_string()))
            } else {
                Err((INTERNAL_SERVER_ERROR, error.to_string()))
            }
        },
    }
}

} // verus!
