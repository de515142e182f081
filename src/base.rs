//! Values shared by every rendered page, and the response timer.

use crate::config::Settings;
use vstd::prelude::*;

verus! {

/// Why the response timer could not be read.
#[derive(Clone, Copy, Debug, PartialEq, Eq, Structural)]
pub enum TimerError {
    /// The clock went backwards since the timer was started.
    ClockSkew,
    /// The timer was stopped without having been started.
    NotStarted,
}

/// Values for the base page template.
#[derive(Clone, Debug)]
pub struct Base {
    /// The revision of the running build.
    pub rev: String,
    /// Whether the RSS surface is enabled.
    pub rss: bool,
    /// The externally visible base URL.
    pub url: String,
    /// The start time while the timer runs; the elapsed time once stopped.
    pub time: Option<u128>,
}

impl Base {
    /// Builds the base values from the configuration and the build revision.
    pub fn new(config: &Settings, rev: &str) -> (r: Base)
        ensures
            r.rev@ == rev@,
            r.rss == config.endpoint.rss,
            r.url@ == config.server.base_url@,
            r.time is None,
    {
        Base {
            rev: String::from_str(rev),
            rss: config.endpoint.rss,
            url: config.server.base_url.clone(),
            time: None,
        }
    }

    /// Starts the response timer at `now`, or stops it at `now`, keeping the
    /// elapsed milliseconds. `now` is the current time in milliseconds since
    /// the Unix epoch.
    pub fn timer(&mut self, start: bool, now: u128) -> (r: Result<(), TimerError>)
        ensures
            final(self).rev == old(self).rev,
            final(self).rss == old(self).rss,
            final(self).url == old(self).url,
            start ==> r is Ok && final(self).time == Some(now),
            !start ==> match old(self).time {
                Some(t) => if t <= now {
                    r is Ok && final(self).time == Some((now - t) as u128)
                } else {
                    r == Err::<(), TimerError>(TimerError::ClockSkew) && final(self).time
                        == old(self).time
                },
                None => r == Err::<(), TimerError>(TimerError::NotStarted) && final(self).time
                    == old(self).time,
            },
    {
        if start {
            self.time = Some(now);
            Ok(())
        } else {
            match self.time {
                Some(t) => {
                    if t > now {
                        return Err(TimerError::ClockSkew);
                    }
                    self.time = Some(now - t);
                    Ok(())
                },
                None => Err(TimerError::NotStarted),
            }
        }
    }
}

} // verus!
