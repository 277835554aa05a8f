//! Authorization-and-resolution core of a multi-tenant control plane.
//!
//! The crate answers two questions for every operation: which stored object
//! does a request name, and is the caller allowed to act on it — while
//! guaranteeing that an unauthorized caller cannot distinguish "object does
//! not exist" from "object exists but access is denied".

pub mod actor;
pub mod authz;
pub mod datastore;
pub mod hardware;
pub mod ids;
pub mod lookup;
pub mod metrics;
pub mod net;
pub mod ports;
pub mod resource;
pub mod roles;
pub mod services;
pub mod silo_group;
pub mod ui;
pub mod users;

use vstd::prelude::*;

verus! {

} // verus!
