//! The stable identifiers by which a failure is classified.

use crate::text::same_text;
use vstd::prelude::*;

verus! {

pub const GIT_ERROR: &'static str = "git_error";

pub const PATH_CONVERSION_ERROR: &'static str = "path_conversion_error";

pub const CONFIG_BUILD_FAILURE: &'static str = "config_build_failure";

pub const COMMAND_READ_FAILURE: &'static str = "command_read_failure";

pub const FILE_NOT_FOUND: &'static str = "file_not_found";

pub const FAILED_TO_READ: &'static str = "failed_to_read";

pub const FAILED_TO_DELETE_FILE: &'static str = "failed_to_delete_file";

pub const CHANNEL_COMMUNICATION_FAILURE: &'static str = "channel_communication_failure";

pub const UNEXPECTED_RESPONSE_TYPE: &'static str = "unexpected_response_type";

pub const NOT_FOUND: &'static str = "not_found";

/// A failure is the client's fault exactly when its kind is `not_found`.
pub open spec fn is_clients_fault(error_kind: Seq<char>) -> bool {
    error_kind == NOT_FOUND@
}

pub fn is_error_kind_clients_fault(error_kind: &str) -> (answer: bool)
    ensures
        answer == is_clients_fault(error_kind@),
{
    same_text(error_kind, NOT_FOUND)
}

} // verus!
