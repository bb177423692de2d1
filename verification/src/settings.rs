//! What the service reads from its configuration file: the keys it looks under, and
//! what it makes of the values.

use vstd::prelude::*;
use vstd::string::StringExecFns;

verus! {

pub const ENVIRONMENTS: &'static str = "Environments";

pub const STATIC_STAGES: &'static str = "StaticStages";

pub const CONFIG_SUPPLIERS_COUNT: &'static str = "ConfigSuppliersCount";

pub const GIT: &'static str = "Git";

pub const REPOSITORY: &'static str = "Repository";

pub const USERNAME_SECRET: &'static str = "UsernameSecret";

pub const PASSWORD_SECRET: &'static str = "PasswordSecret";

pub const AUTHORIZATION: &'static str = "Authorization";

pub const ISSUERS: &'static str = "Issuers";

pub const AUDIENCE: &'static str = "Audience";

pub const JWKS_URI: &'static str = "JwksUri";

pub const TCP_LISTENER: &'static str = "TcpListener";

pub const ADDRESS: &'static str = "Address";

pub const PORT: &'static str = "Port";

pub const TIMEOUTS: &'static str = "Timeouts";

/// The address to listen at: host and port with a colon between.
pub open spec fn listen_address(address: Seq<char>, port: Seq<char>) -> Seq<char> {
    address + ":"@ + port
}

pub fn get_address(address: &str, port: &str) -> (listen_at: String)
    ensures
        listen_at@ == listen_address(address@, port@),
{
    let mut listen_at = String::from_str(address);
    listen_at.append(":");
    listen_at.append(port);
    listen_at
}

} // verus!
