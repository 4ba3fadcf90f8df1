use vstd::prelude::*;

use crate::config::{duration_secs_i64, parsed_duration_secs, ConfigError};

verus! {

pub const DEFAULT_POLL_INTERVAL_MINS: i64 = 5;

/// A transmission instance: endpoint, optional credentials, and how often
/// the poller visits it.
#[derive(Clone, Debug, PartialEq, Eq)]
pub struct Transmission {
    pub url: String,
    pub user: Option<String>,
    pub password: Option<String>,
    /// Poll interval in seconds; defaults to five minutes.
    pub poll_interval: i64,
}

impl Transmission {
    pub fn new(url: &str) -> (r: Self)
        ensures
            r.url@ == url@,
            r.user is None,
            r.password is None,
            r.poll_interval == DEFAULT_POLL_INTERVAL_MINS * 60,
    {
        Transmission {
            url: url.to_owned(),
            user: None,
            password: None,
            poll_interval: DEFAULT_POLL_INTERVAL_MINS * 60,
        }
    }

    pub fn with_user(self, user: &str) -> (r: Self)
        ensures
            r.user matches Some(u) && u@ == user@,
            r.url == self.url,
            r.password == self.password,
            r.poll_interval == self.poll_interval,
    {
        Transmission { user: Some(user.to_owned()), ..self }
    }

    pub fn with_password(self, password: &str) -> (r: Self)
        ensures
            r.password matches Some(p) && p@ == password@,
            r.url == self.url,
            r.user == self.user,
            r.poll_interval == self.poll_interval,
    {
        Transmission { password: Some(password.to_owned()), ..self }
    }

    /// Sets the poll interval from a duration string such as "10 min".
    pub fn with_poll_interval(self, interval: &str) -> (r: Result<Self, ConfigError>)
        ensures
            r is Ok <==> (parsed_duration_secs(interval@) matches Some(u) && u <= i64::MAX),
            r matches Ok(t) ==> {
                &&& parsed_duration_secs(interval@) == Some(t.poll_interval as u64)
                &&& t.poll_interval >= 0
                &&& t.url == self.url
                &&& t.user == self.user
                &&& t.password == self.password
            },
            parsed_duration_secs(interval@) is None ==> (r matches Err(e) && e
                == ConfigError::InvalidDuration),
            (parsed_duration_secs(interval@) matches Some(u) && u > i64::MAX) ==> (r matches Err(
                e,
            ) && e == ConfigError::DurationOutOfRange),
    {
        match duration_secs_i64(interval) {
            Ok(n) => Ok(Transmission { poll_interval: n, ..self }),
            Err(e) => Err(e),
        }
    }
}

} // verus!
