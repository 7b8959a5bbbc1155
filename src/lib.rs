//! A control plane for the scrape jobs of a monitoring daemon: the job list of
//! its configuration document, the read-mutate-persist-reload-rollback
//! protocol that changes it, the lookup of the daemon to signal, and the
//! shared-secret guard in front of every request.

use vstd::prelude::*;

pub mod config;
pub mod daemon;
pub mod reconcile;
pub mod registry;
pub mod security;

verus! {

} // verus!
