//! Error kinds of the probe and assembly layer, and their HTTP mapping.

use vstd::prelude::*;

verus! {

/// Why a probe or an assembly step failed.
///
/// Single-entity views are all-or-nothing: any of these aborts the whole
/// request. The bulk process view never surfaces `ProcessGone`; it skips
/// the affected entry instead.
#[derive(Clone, Copy, Debug, PartialEq, Eq, Structural)]
pub enum ProbeError {
    /// The OS interface could not be queried at all.
    ProbeUnavailable,
    /// A core index at or past the number of cores.
    IndexOutOfRange,
    /// The requested pid is not in the process table.
    NoSuchProcess,
    /// A process left the table between enumeration and detail fetch.
    ProcessGone,
    /// A detail sub-fetch failed for a specifically requested pid.
    ProcessUnavailable,
}

impl ProbeError {
    /// The HTTP status this error surfaces as: 404 where the client named
    /// a core or a process that is not there, 500 where the host itself
    /// could not be queried.
    pub open spec fn http_status_spec(self) -> u16 {
        match self {
            ProbeError::ProbeUnavailable => 500,
            ProbeError::IndexOutOfRange => 404,
            ProbeError::NoSuchProcess => 404,
            ProbeError::ProcessGone => 404,
            ProbeError::ProcessUnavailable => 500,
        }
    }

    /// Whether the error is the client's: a name or index that resolves to
    /// nothing, as opposed to a host-side probe failure.
    pub open spec fn is_client_error(self) -> bool {
        400 <= self.http_status_spec() < 500
    }

    /// The HTTP status code for this error. Never 2xx: a failed probe must
    /// not look like a successful response.
    pub fn http_status(&self) -> (code: u16)
        ensures
            code == self.http_status_spec(),
            code >= 400,
    {
        match self {
            ProbeError::ProbeUnavailable => 500,
            ProbeError::IndexOutOfRange => 404,
            ProbeError::NoSuchProcess => 404,
            ProbeError::ProcessGone => 404,
            ProbeError::ProcessUnavailable => 500,
        }
    }

    /// A short human-readable description, for the error body.
    pub open spec fn describe_spec(self) -> Seq<char> {
        match self {
            ProbeError::ProbeUnavailable => "host probe unavailable"@,
            ProbeError::IndexOutOfRange => "cpu index out of range"@,
            ProbeError::NoSuchProcess => "no such process"@,
            ProbeError::ProcessGone => "process exited during enumeration"@,
            ProbeError::ProcessUnavailable => "process details unavailable"@,
        }
    }

    /// The description as an owned string.
    pub fn describe(&self) -> (s: String)
        ensures
            s@ == self.describe_spec(),
    {
        match self {
            ProbeError::ProbeUnavailable => String::from_str("host probe unavailable"),
            ProbeError::IndexOutOfRange => String::from_str("cpu index out of range"),
            ProbeError::NoSuchProcess => String::from_str("no such process"),
            ProbeError::ProcessGone => String::from_str("process exited during enumeration"),
            ProbeError::ProcessUnavailable => String::from_str("process details unavailable"),
        }
    }
}

} // verus!
