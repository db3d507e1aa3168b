//! Mailing-list signup: validated subscriber values and the registration
//! pipeline that turns a raw form submission into a record to persist or a
//! well-defined rejection.
pub mod configuration;
pub mod domain;
pub mod email_client;
pub mod routes;

use vstd::prelude::*;

verus! {

} // verus!
