//! The fixed texts of the two informational endpoints.

use vstd::prelude::*;

verus! {

/// The greeting returned at the service root.
pub fn hello_message() -> (r: String)
    ensures
        r@ == "API Rust with Actix Web is running!!!"@,
{
    "API Rust with Actix Web is running!!!".to_owned()
}

/// The liveness answer of the health endpoint.
pub fn health_status() -> (r: String)
    ensures
        r@ == "UP"@,
{
    "UP".to_owned()
}

} // verus!
