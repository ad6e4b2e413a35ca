//! Whether the machine can reach the network.

use vstd::prelude::*;
use crate::error::InstallerError;

verus! {

/// Network connectivity.
#[derive(Debug, Clone, Copy, PartialEq, Eq, Structural)]
pub enum NetworkStatus {
    /// The network can be reached
    Connected,
    /// The network cannot be reached
    Disconnected,
    /// The check took too long
    Timeout,
    /// Could not be told
    Unknown,
}

/// The name shown for a status.
pub open spec fn network_status_name(s: NetworkStatus) -> Seq<char> {
    match s {
        NetworkStatus::Connected => "Connected"@,
        NetworkStatus::Disconnected => "Disconnected"@,
        NetworkStatus::Timeout => "Timeout"@,
        NetworkStatus::Unknown => "Unknown"@,
    }
}

/// The description shown for a status.
pub open spec fn network_status_description(s: NetworkStatus) -> Seq<char> {
    match s {
        NetworkStatus::Connected => "Network connectivity is available"@,
        NetworkStatus::Disconnected => "No network connectivity detected"@,
        NetworkStatus::Timeout => "Network check timed out"@,
        NetworkStatus::Unknown => "Unable to determine network status"@,
    }
}

impl NetworkStatus {
    /// Whether the network can be reached.
    pub fn is_connected(&self) -> (r: bool)
        ensures
            r == (*self == NetworkStatus::Connected),
    {
        match self {
            NetworkStatus::Connected => true,
            _ => false,
        }
    }

    /// The name shown for the status.
    pub fn as_str(&self) -> (r: &'static str)
        ensures
            r@ == network_status_name(*self),
    {
        match self {
            NetworkStatus::Connected => "Connected",
            NetworkStatus::Disconnected => "Disconnected",
            NetworkStatus::Timeout => "Timeout",
            NetworkStatus::Unknown => "Unknown",
        }
    }

    /// What the status means.
    pub fn description(&self) -> (r: &'static str)
        ensures
            r@ == network_status_description(*self),
    {
        match self {
            NetworkStatus::Connected => "Network connectivity is available",
            NetworkStatus::Disconnected => "No network connectivity detected",
            NetworkStatus::Timeout => "Network check timed out",
            NetworkStatus::Unknown => "Unable to determine network status",
        }
    }
}

/// The network status: connected in a simulation, else connected exactly
/// when one of the probes that were tried succeeded (a ping to 1.1.1.1, a
/// ping to 8.8.8.8, then a name lookup of nixos.org). `probe_outcomes` holds
/// the outcomes of the probes in the order they were tried; a caller may
/// stop at the first success.
pub fn check_network(mock: bool, probe_outcomes: &[bool]) -> (r: Result<NetworkStatus, InstallerError>)
    ensures
        r matches Ok(s) && s == (if mock || exists|k: int| 0 <= k < probe_outcomes@.len() && probe_outcomes@[k] {
            NetworkStatus::Connected
        } else {
            NetworkStatus::Disconnected
        }),
{
    if mock {
        return Ok(NetworkStatus::Connected);
    }
    let mut i: usize = 0;
    while i < probe_outcomes.len()
        invariant
            i <= probe_outcomes@.len(),
            forall|k: int| 0 <= k < i ==> !probe_outcomes@[k],
        decreases probe_outcomes@.len() - i,
    {
        if probe_outcomes[i] {
            return Ok(NetworkStatus::Connected);
        }
        i = i + 1;
    }
    Ok(NetworkStatus::Disconnected)
}

/// The network status within a time limit of `timeout_secs` seconds:
/// connected in a simulation; else timed out when the probes did not finish
/// within the limit (`finished_in_time` is false); else the status
/// `check_network` gives for the probes' outcomes.
pub fn check_network_with_timeout(
    timeout_secs: u64,
    mock: bool,
    finished_in_time: bool,
    probe_outcomes: &[bool],
) -> (r: Result<NetworkStatus, InstallerError>)
    ensures
        r matches Ok(s) && s == (if mock || (finished_in_time
            && exists|k: int| 0 <= k < probe_outcomes@.len() && probe_outcomes@[k]) {
            NetworkStatus::Connected
        } else if !finished_in_time {
            NetworkStatus::Timeout
        } else {
            NetworkStatus::Disconnected
        }),
{
    if !mock && !finished_in_time {
        return Ok(NetworkStatus::Timeout);
    }
    check_network(mock, probe_outcomes)
}

} // verus!
