//! What the service answers to the probes of its health.

use crate::controllers::config::{INTERNAL_SERVER_ERROR, OK};
use crate::error::{rendered, Error};
use vstd::prelude::*;
use vstd::string::StringExecFns;

verus! {

/// The request by which readiness is probed: stage, environment and component.
pub fn readiness_probe() -> (probe: (String, String, String))
    ensures
        probe.0@ == "dummy"@,
        probe.1@ == "development"@,
        probe.2@ == "dummy"@,
{
    (String::from_str("dummy"), String::from_str("development"), String::from_str("dummy"))
}

/// The service is ready if the probe was served, whatever it brought.
pub fn get_readiness(result: Result<Vec<u8>, Error>) -> (response: Result<u16, (u16, String)>)
    ensures
        match result {
            Ok(_) => response == Ok::<u16, (u16, String)>(OK),
            Err(error) => response is Err && response->Err_0.0 == INTERNAL_SERVER_ERROR
                && response->Err_0.1@ == rendered(error@),
        },
{
    match result {
        Ok(_) => Ok(OK),
        Err(error) => Err((INTERNAL_SERVER_ERROR, error.to_string())),
    }
}

/// The service is alive whenever it answers.
pub fn get_liveness() -> (status: u16)
    ensures
        status == OK,
{
    OK
}

} // verus!
