//! bleebo: publishes static sites on subdomains of a shared host.
//!
//! The library holds the decisions of the command-line client and of the
//! server: who may act on which site, how passwords are checked and made,
//! which file answers a request and which address each client request goes to.

use vstd::prelude::*;

pub mod auth_guard;
pub mod client;
pub mod password;
pub mod server;
pub mod status;
pub mod users;

verus! {

/// Directory the server serves sites from (each site is a subdirectory).
pub const SITES_FOLDER: &'static str = "site";

/// Host suffix stripped from the host header to find the site being asked for.
pub const BASE_HOST_SUFFIX: &'static str = ".bleebo.dev";

/// Server the client sends its requests to.
pub const SERVER_HOST: &'static str = "https://bleebo.dev";

} // verus!
