use vstd::prelude::*;

use crate::config::{duration_secs_i64, parsed_duration_secs, ConfigError};
use crate::util::{contains_string, decimal_string, seq_contains_chars, spec_decimal};
use crate::{Torrent, TorrentStatus};

verus! {

/// A set of conditions that indicate that a torrent is governed by a
/// particular policy.
///
/// The policy itself doesn't need to match, this is just to indicate
/// that it *could* even match.
#[derive(Clone, Debug, PartialEq, Eq)]
pub struct PolicyMatch {
    /// The tracker URL hostnames (only the host, not the path or
    /// port) that the policy should apply to.
    pub trackers: Vec<String>,
    /// The number of files that must be present in a torrent for the
    /// policy to match. If None, any number of files matches.
    pub min_file_count: Option<i64>,
    /// The maximum number of files that may be present in a torrent
    /// for the policy to match. If None, any number of files matches.
    pub max_file_count: Option<i64>,
}

/// What `url::Url::host_str` yields for a URL string: the parsed,
/// normalized hostname if the string is a valid URL with a host. The
/// result is a function of the string alone.
pub uninterp spec fn url_host(s: Seq<char>) -> Option<Seq<char>>;

/// Relies on url::Url::parse and url::Url::host_str: parsing a URL and
/// extracting its host are pure functions of the URL string.
#[verifier::external_body]
fn host_of_url(url: &str) -> (r: Option<String>)
    ensures
        r is Some <==> url_host(url@) is Some,
        r matches Some(h) ==> url_host(url@) == Some(h@),
{
    url::Url::parse(url).ok().and_then(|u| u.host_str().map(|h| h.to_owned()))
}

/// Whether the URL string `u` names a host that is in `p`'s tracker set.
pub open spec fn tracker_url_matches(p: PolicyMatch, u: String) -> bool {
    url_host(u@) matches Some(h) && seq_contains_chars(p.trackers@, h)
}

/// Whether any of the torrent's tracker URLs names a host in `p`'s set.
pub open spec fn spec_tracker_match(p: PolicyMatch, t: Torrent) -> bool {
    exists|i: int|
        0 <= i < t.trackers@.len() && #[trigger] tracker_url_matches(p, t.trackers@[i])
}

/// Whether a file count of `n` lies within `p`'s inclusive bounds.
pub open spec fn spec_file_count_ok(p: PolicyMatch, n: int) -> bool {
    &&& (p.min_file_count matches Some(min) ==> n >= min)
    &&& (p.max_file_count matches Some(max) ==> n <= max)
}

/// The precondition gate: whether a torrent is governed by a policy with
/// precondition `p`. Only seeding torrents with a tracker host in the
/// policy's set and a file count within the bounds are governed.
pub open spec fn spec_governs(p: PolicyMatch, t: Torrent) -> bool {
    &&& t.status is Seeding
    &&& spec_tracker_match(p, t)
    &&& spec_file_count_ok(p, t.num_files as int)
}

impl PolicyMatch {
    pub fn new(trackers: Vec<String>) -> (r: Self)
        ensures
            r.trackers == trackers,
            r.min_file_count is None,
            r.max_file_count is None,
    {
        PolicyMatch { trackers, min_file_count: None, max_file_count: None }
    }

    pub fn with_min_file_count(self, min_file_count: i64) -> (r: Self)
        ensures
            r == (PolicyMatch { min_file_count: Some(min_file_count), ..self }),
    {
        Self { min_file_count: Some(min_file_count), ..self }
    }

    pub fn with_max_file_count(self, max_file_count: i64) -> (r: Self)
        ensures
            r == (PolicyMatch { max_file_count: Some(max_file_count), ..self }),
    {
        Self { max_file_count: Some(max_file_count), ..self }
    }

    /// The precondition gate on one torrent.
    pub(crate) fn governed_by_policy(&self, t: &Torrent) -> (r: bool)
        ensures
            r == spec_governs(*self, *t),
    {
        if !matches!(t.status, TorrentStatus::Seeding) {
            return false;
        }
        let n = t.num_files as i128;
        if let Some(min) = self.min_file_count {
            if n < min as i128 {
                return false;
            }
        }
        if let Some(max) = self.max_file_count {
            if n > max as i128 {
                return false;
            }
        }
        let mut i: usize = 0;
        while i < t.trackers.len()
            invariant
                0 <= i <= t.trackers@.len(),
                t.status is Seeding,
                spec_file_count_ok(*self, t.num_files as int),
                forall|k: int| 0 <= k < i ==> !#[trigger] tracker_url_matches(*self, t.trackers@[k]),
            decreases t.trackers@.len() - i,
        {
            match host_of_url(t.trackers[i].as_str()) {
                Some(h) => {
                    if contains_string(&self.trackers, &h) {
                        proof {
                            assert(tracker_url_matches(*self, t.trackers@[i as int]));
                        }
                        return true;
                    }
                },
                None => {},
            }
            i = i + 1;
        }
        false
    }
}

/// Conditions for matching a torrent that are governed by a policy on
/// a transmission instance.
///
/// There's a second set of conditions that need to match: See [PolicyMatch].
#[derive(Clone, Copy, Debug, PartialEq)]
pub struct Condition {
    /// The ratio (in thousandths) at which a torrent qualifies for
    /// deletion, even if it has been seeded for less than
    /// [`Self::max_seeding_time`].
    pub max_ratio: Option<i64>,
    /// The minimum time (in seconds) that a torrent must have been
    /// seeding for, to qualify for deletion.
    ///
    /// Even if the [`Self::max_ratio`] requirement is met, the torrent
    /// won't be deleted unless it's been seeding this long.
    pub min_seeding_time: Option<i64>,
    /// The seeding time (in seconds) at which a torrent qualifies for
    /// deletion.
    pub max_seeding_time: Option<i64>,
}

/// The closed result of testing a Condition against one torrent: no
/// match, a match by ratio, or a match by seed time — never two at once.
#[derive(Clone, Copy, Debug, PartialEq, Eq, Structural)]
pub enum ConditionMatch {
    /// Preconditions met, but did not match.
    NoMatch,
    /// Matches based on ratio, carrying the ratio (in thousandths) that
    /// met the threshold: the reported ratio, or the computed ratio where
    /// the reported one was negative.
    Ratio(i64),
    /// Matches based on seed time, carrying the elapsed seconds.
    SeedTime(i128),
}

impl ConditionMatch {
    pub fn is_match(&self) -> (r: bool)
        ensures
            r == !(self is NoMatch),
    {
        !matches!(self, ConditionMatch::NoMatch)
    }

    pub fn is_real_mismatch(&self) -> (r: bool)
        ensures
            r == (self is NoMatch),
    {
        matches!(self, ConditionMatch::NoMatch)
    }
}

/// A condition is valid when at least one threshold is set; one with none
/// set would delete every governed torrent immediately.
pub open spec fn spec_condition_valid(c: Condition) -> bool {
    c.max_ratio is Some || c.min_seeding_time is Some || c.max_seeding_time is Some
}

/// The outcome of testing condition `c` against torrent `t` at instant
/// `now` (seconds since the epoch), assuming the precondition gate has
/// already succeeded. The order of the tests defines the tie-breaks:
/// a torrent under its minimum seeding time never matches, and a ratio
/// match wins over a seed-time match when both thresholds are reached.
pub open spec fn condition_outcome(c: Condition, t: Torrent, now: i64) -> ConditionMatch {
    match t.done_date {
        None => ConditionMatch::NoMatch,
        Some(done) => {
            if done == 0 && c.min_seeding_time is Some {
                ConditionMatch::NoMatch
            } else {
                let seed_time = now - done;
                if c.min_seeding_time matches Some(min) && seed_time < min {
                    ConditionMatch::NoMatch
                } else if c.max_ratio matches Some(r) && t.upload_ratio >= r {
                    ConditionMatch::Ratio(t.upload_ratio)
                } else if c.max_ratio matches Some(r) && t.upload_ratio < 0
                    && t.computed_upload_ratio >= r {
                    ConditionMatch::Ratio(t.computed_upload_ratio)
                } else if c.max_seeding_time matches Some(max) && seed_time >= max {
                    ConditionMatch::SeedTime(seed_time as i128)
                } else {
                    ConditionMatch::NoMatch
                }
            }
        },
    }
}

impl Condition {
    pub fn new() -> (r: Self)
        ensures
            r.max_ratio is None,
            r.min_seeding_time is None,
            r.max_seeding_time is None,
    {
        Condition { max_ratio: None, min_seeding_time: None, max_seeding_time: None }
    }

    /// Sets the minimum seeding time from a duration string.
    pub fn with_min_seeding_time(self, min_seeding_time: &str) -> (r: Result<Self, ConfigError>)
        ensures
            r is Ok <==> (parsed_duration_secs(min_seeding_time@) matches Some(u) && u
                <= i64::MAX),
            r matches Ok(c) ==> {
                &&& c.min_seeding_time matches Some(n) && parsed_duration_secs(min_seeding_time@)
                    == Some(n as u64)
                &&& c.max_ratio == self.max_ratio
                &&& c.max_seeding_time == self.max_seeding_time
            },
            parsed_duration_secs(min_seeding_time@) is None ==> r == Result::<
                Condition,
                ConfigError,
            >::Err(ConfigError::InvalidDuration),
            (parsed_duration_secs(min_seeding_time@) matches Some(u) && u > i64::MAX) ==> r
                == Result::<Condition, ConfigError>::Err(ConfigError::DurationOutOfRange),
    {
        match duration_secs_i64(min_seeding_time) {
            Ok(n) => Ok(Self { min_seeding_time: Some(n), ..self }),
            Err(e) => Err(e),
        }
    }

    /// Sets the maximum seeding time from a duration string.
    pub fn with_max_seeding_time(self, max_seeding_time: &str) -> (r: Result<Self, ConfigError>)
        ensures
            r is Ok <==> (parsed_duration_secs(max_seeding_time@) matches Some(u) && u
                <= i64::MAX),
            r matches Ok(c) ==> {
                &&& c.max_seeding_time matches Some(n) && parsed_duration_secs(max_seeding_time@)
                    == Some(n as u64)
                &&& c.max_ratio == self.max_ratio
                &&& c.min_seeding_time == self.min_seeding_time
            },
            parsed_duration_secs(max_seeding_time@) is None ==> r == Result::<
                Condition,
                ConfigError,
            >::Err(ConfigError::InvalidDuration),
            (parsed_duration_secs(max_seeding_time@) matches Some(u) && u > i64::MAX) ==> r
                == Result::<Condition, ConfigError>::Err(ConfigError::DurationOutOfRange),
    {
        match duration_secs_i64(max_seeding_time) {
            Ok(n) => Ok(Self { max_seeding_time: Some(n), ..self }),
            Err(e) => Err(e),
        }
    }

    /// Sets the ratio threshold, in thousandths of the upload ratio.
    pub fn with_max_ratio(self, max_ratio: i64) -> (r: Self)
        ensures
            r == (Condition { max_ratio: Some(max_ratio), ..self }),
    {
        Self { max_ratio: Some(max_ratio), ..self }
    }

    /// Rejects a condition with no threshold set; such a condition would
    /// delete all torrents matching the tracker immediately.
    pub fn sanity_check(self) -> (r: Result<Self, ConfigError>)
        ensures
            r is Ok <==> spec_condition_valid(self),
            r matches Ok(c) ==> c == self,
            !spec_condition_valid(self) ==> r == Result::<Condition, ConfigError>::Err(
                ConfigError::EmptyCondition,
            ),
    {
        if self.max_ratio.is_none() && self.min_seeding_time.is_none()
            && self.max_seeding_time.is_none() {
            Err(ConfigError::EmptyCondition)
        } else {
            Ok(self)
        }
    }

    /// Returns how the condition matches a given torrent at instant `now`
    /// (seconds since the epoch). Callers run this only once the
    /// precondition gate has succeeded; it does not re-check it.
    pub fn matches_torrent(&self, t: &Torrent, now: i64) -> (r: ConditionMatch)
        ensures
            r == condition_outcome(*self, *t, now),
    {
        match t.done_date {
            None => ConditionMatch::NoMatch,
            Some(done) => {
                if done == 0 && self.min_seeding_time.is_some() {
                    // The epoch itself can never be a useful completion
                    // time: it would never age past a minimum.
                    return ConditionMatch::NoMatch;
                }
                let seed_time: i128 = now as i128 - done as i128;
                if let Some(min) = self.min_seeding_time {
                    if seed_time < min as i128 {
                        return ConditionMatch::NoMatch;
                    }
                }
                if let Some(max_ratio) = self.max_ratio {
                    if t.upload_ratio >= max_ratio {
                        return ConditionMatch::Ratio(t.upload_ratio);
                    }
                    if t.upload_ratio < 0 && t.computed_upload_ratio >= max_ratio {
                        // The reported ratio is anomalous; fall back to
                        // the ratio computed from bytes uploaded.
                        return ConditionMatch::Ratio(t.computed_upload_ratio);
                    }
                }
                if let Some(max) = self.max_seeding_time {
                    if seed_time >= max as i128 {
                        return ConditionMatch::SeedTime(seed_time);
                    }
                }
                ConditionMatch::NoMatch
            },
        }
    }
}

/// Specifies a condition for torrents that can be deleted.
#[derive(Clone, Debug, PartialEq)]
pub struct DeletePolicy {
    pub name: Option<String>,
    /// The condition under which a torrent is governed by this policy.
    pub precondition: PolicyMatch,
    /// The condition indicating whether to delete a governed torrent.
    pub match_when: Condition,
    /// Whether deletion also removes the downloaded data from disk.
    pub delete_data: bool,
}

/// A policy that can be applied to a given torrent.
pub struct ApplicableDeletePolicy<'a> {
    pub torrent: &'a Torrent,
    pub policy: &'a DeletePolicy,
}

impl ApplicableDeletePolicy<'_> {
    /// Checks whether the torrent can be deleted at instant `now`.
    pub fn matches(&self, now: i64) -> (r: ConditionMatch)
        ensures
            r == condition_outcome(self.policy.match_when, *self.torrent, now),
    {
        self.policy.match_when.matches_torrent(self.torrent, now)
    }
}

/// The label a policy reports under: its name, or its position in the
/// instance's policy list.
pub open spec fn spec_name_or_index(p: DeletePolicy, index: int) -> Seq<char> {
    match p.name {
        Some(n) => n@,
        None => spec_decimal(index as nat),
    }
}

impl DeletePolicy {
    /// Constructs a "no-op" deletion policy that will not delete data if matched.
    pub fn new_noop(name: &str, apply_when: PolicyMatch, match_when: Condition) -> (r: Result<
        Self,
        ConfigError,
    >)
        ensures
            r is Ok <==> spec_condition_valid(match_when),
            r matches Ok(p) ==> {
                &&& p.name matches Some(n) && n@ == name@
                &&& p.precondition == apply_when
                &&& p.match_when == match_when
                &&& p.delete_data == false
            },
            !spec_condition_valid(match_when) ==> (r matches Err(e) && e
                == ConfigError::EmptyCondition),
    {
        match match_when.sanity_check() {
            Ok(mw) => Ok(
                DeletePolicy {
                    name: Some(name.to_owned()),
                    precondition: apply_when,
                    match_when: mw,
                    delete_data: false,
                },
            ),
            Err(e) => Err(e),
        }
    }

    /// Constructs a deletion policy that actually does delete data if matched.
    pub fn new_real(name: &str, apply_when: PolicyMatch, match_when: Condition) -> (r: Result<
        Self,
        ConfigError,
    >)
        ensures
            r is Ok <==> spec_condition_valid(match_when),
            r matches Ok(p) ==> {
                &&& p.name matches Some(n) && n@ == name@
                &&& p.precondition == apply_when
                &&& p.match_when == match_when
                &&& p.delete_data == true
            },
            !spec_condition_valid(match_when) ==> (r matches Err(e) && e
                == ConfigError::EmptyCondition),
    {
        match match_when.sanity_check() {
            Ok(mw) => Ok(
                DeletePolicy {
                    name: Some(name.to_owned()),
                    precondition: apply_when,
                    match_when: mw,
                    delete_data: true,
                },
            ),
            Err(e) => Err(e),
        }
    }

    /// Ensures that the policy can be applied to a torrent, and only
    /// if it is, allows chaining a `.matches` call.
    pub fn applicable<'a>(&'a self, t: &'a Torrent) -> (r: Option<ApplicableDeletePolicy<'a>>)
        ensures
            r is Some <==> spec_governs(self.precondition, *t),
            r matches Some(a) ==> a.policy == self && a.torrent == t,
    {
        if self.precondition.governed_by_policy(t) {
            Some(ApplicableDeletePolicy { torrent: t, policy: self })
        } else {
            None
        }
    }

    /// The policy's reporting label: its name, or its position in the
    /// instance's policy list rendered in decimal.
    pub fn name_or_index(&self, index: usize) -> (r: String)
        ensures
            r@ == spec_name_or_index(*self, index as int),
    {
        match &self.name {
            Some(n) => n.clone(),
            None => decimal_string(index),
        }
    }
}

/// The outcome of resolving one torrent against one policy at instant
/// `now`: nothing where the precondition gate fails (the torrent is
/// outside the policy's governed domain), else the condition's outcome.
pub open spec fn policy_outcome(p: DeletePolicy, t: Torrent, now: i64) -> Option<ConditionMatch> {
    if spec_governs(p.precondition, t) {
        Some(condition_outcome(p.match_when, t, now))
    } else {
        None
    }
}

/// Law: evaluating the same (torrent, policy, instant-in-time) pair twice
/// yields identical outcomes. The outcome is a pure function of those
/// three inputs — `applicable` and `matches` ensure that every evaluation
/// equals `policy_outcome`, so any two of them agree.
pub proof fn lemma_evaluation_deterministic(
    p: DeletePolicy,
    t: Torrent,
    now: i64,
    r1: Option<ConditionMatch>,
    r2: Option<ConditionMatch>,
)
    requires
        r1 == policy_outcome(p, t, now),
        r2 == policy_outcome(p, t, now),
    ensures
        r1 == r2,
{
}

} // verus!
