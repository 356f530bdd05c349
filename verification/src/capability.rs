//! Which way of asking the host supports.
//!
//! Hosts from version 6.3 on answer a query for the command line of a
//! process. On older ones the command line has to be read from the target's
//! memory. The fact does not change while the host runs: it is to be found
//! out once and handed to whoever needs it.

use vstd::prelude::*;

verus! {

/// The version that a host reported of itself.
#[derive(Clone, Copy, Debug, PartialEq, Eq, Structural)]
pub struct OsVersion {
    pub major: u32,
    pub minor: u32,
}

/// The major version of the first host with the newer query.
pub const NEWER_QUERY_MAJOR: u32 = 6;

/// The minor version of the first host with the newer query.
pub const NEWER_QUERY_MINOR: u32 = 3;

/// Whether a host supports the newer query, going by the version it
/// reported: version 6.3 and every later one does. A host whose version is
/// not known counts as one that does.
pub open spec fn is_newer_host(probe: Option<OsVersion>) -> bool {
    match probe {
        Some(version) => version.major > NEWER_QUERY_MAJOR || (version.major == NEWER_QUERY_MAJOR
            && version.minor >= NEWER_QUERY_MINOR),
        None => true,
    }
}

/// Decides from the host's version whether it supports the newer query.
/// `None` stands for a version that could not be found out.
pub fn windows_8_1_or_newer(probe: Option<OsVersion>) -> (newer: bool)
    ensures
        newer == is_newer_host(probe),
{
    match probe {
        Some(version) => version.major > NEWER_QUERY_MAJOR || (version.major == NEWER_QUERY_MAJOR
            && version.minor >= NEWER_QUERY_MINOR),
        None => true,
    }
}

} // verus!
