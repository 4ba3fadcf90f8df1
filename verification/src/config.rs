pub mod policy;
pub mod transmission;

use vstd::prelude::*;

use crate::config::policy::DeletePolicy;
use crate::config::transmission::Transmission;

verus! {

/// Why a policy or instance definition is rejected at construction time.
#[derive(Clone, Copy, Debug, PartialEq, Eq, Structural)]
pub enum ConfigError {
    /// A deletion condition with no threshold set: it would delete every
    /// torrent its precondition governs, immediately.
    EmptyCondition,
    /// A duration string that the duration grammar rejects.
    InvalidDuration,
    /// A duration whose seconds do not fit the signed range used here.
    DurationOutOfRange,
}

/// What `parse_duration::parse` yields for a duration string: the parsed
/// duration's whole seconds, or nothing where the grammar rejects the
/// string. The result is a function of the string alone.
pub uninterp spec fn parsed_duration_secs(s: Seq<char>) -> Option<u64>;

/// Relies on parse_duration::parse: parses a human-readable duration
/// ("1 min", "2 days") deterministically from the string alone.
#[verifier::external_body]
pub(crate) fn parse_duration_secs(s: &str) -> (r: Option<u64>)
    ensures
        r == parsed_duration_secs(s@),
{
    parse_duration::parse(s).ok().map(|d| d.as_secs())
}

/// Parses a duration string into signed seconds, the unit in which
/// conditions and poll intervals are held.
pub(crate) fn duration_secs_i64(s: &str) -> (r: Result<i64, ConfigError>)
    ensures
        r is Ok <==> (parsed_duration_secs(s@) matches Some(u) && u <= i64::MAX),
        r matches Ok(n) ==> parsed_duration_secs(s@) == Some(n as u64) && n >= 0,
        parsed_duration_secs(s@) is None ==> r == Result::<i64, ConfigError>::Err(
            ConfigError::InvalidDuration,
        ),
        (parsed_duration_secs(s@) matches Some(u) && u > i64::MAX) ==> r == Result::<
            i64,
            ConfigError,
        >::Err(ConfigError::DurationOutOfRange),
{
    match parse_duration_secs(s) {
        Some(u) => {
            if u <= i64::MAX as u64 {
                Ok(u as i64)
            } else {
                Err(ConfigError::DurationOutOfRange)
            }
        },
        None => Err(ConfigError::InvalidDuration),
    }
}

/// One remote download-client endpoint together with the ordered list of
/// deletion policies bound to it.
#[derive(Clone, Debug, PartialEq)]
pub struct Instance {
    pub transmission: Transmission,
    pub policies: Vec<DeletePolicy>,
}

impl Instance {
    pub fn new(transmission: Transmission, policies: Vec<DeletePolicy>) -> (r: Self)
        ensures
            r.transmission == transmission,
            r.policies == policies,
    {
        Instance { transmission, policies }
    }
}

} // verus!
