//! Identifiers of this application on the peer-to-peer network.

use vstd::prelude::*;

verus! {

/// The application name under which Spacedrive nodes find each other.
pub const SPACEDRIVE_APP_ID: &'static str = "spacedrive";

} // verus!
