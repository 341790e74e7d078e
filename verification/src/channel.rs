//! The event channel between the status poller and the presentation
//! layer: a latest-value slot, so a slow consumer never queues samples,
//! and the decision one poll tick makes.

use vstd::prelude::*;
use vstd::string::StringExecFns;
use crate::status::{decode_status, spec_decode, SpotifyStatus};

verus! {

/// The fixed topic name status snapshots are published under.
pub fn status_event_name() -> (s: String)
    ensures
        s@ == "spotify-status-update"@,
{
    String::from_str("spotify-status-update")
}

/// The one-way conduit carrying status snapshots to the consumer. It
/// keeps only the most recent sample: publishing replaces whatever was
/// there, unread.
pub struct StatusChannel {
    pub latest: Option<SpotifyStatus>,
}

/// The channel after a sample is published: it holds that sample and
/// nothing else.
pub open spec fn after_publish(c: StatusChannel, st: SpotifyStatus) -> StatusChannel {
    StatusChannel { latest: Some(st) }
}

impl StatusChannel {
    /// A channel with no sample yet.
    pub fn new() -> (c: StatusChannel)
        ensures
            c.latest is None,
    {
        StatusChannel { latest: None }
    }

    /// Publishes a sample: the channel now holds it, whatever it held
    /// before.
    pub fn publish(&mut self, st: SpotifyStatus)
        ensures
            *final(self) == after_publish(*old(self), st),
    {
        self.latest = Some(st);
    }

    /// Takes the latest sample out of the channel, leaving it empty.
    pub fn take(&mut self) -> (r: Option<SpotifyStatus>)
        ensures
            r == old(self).latest,
            final(self).latest is None,
    {
        self.latest.take()
    }
}

/// The latest sample wins: publishing twice leaves the channel exactly
/// as publishing the second sample alone would, so an unread sample is
/// replaced, never queued.
pub proof fn lemma_latest_wins(c: StatusChannel, s1: SpotifyStatus, s2: SpotifyStatus)
    ensures
        after_publish(after_publish(c, s1), s2) == after_publish(c, s2),
{
}

/// One tick of the status poller, given what the external bridge call
/// produced: `None` when the bridge could not be run, otherwise its
/// trimmed standard output. A line that decodes is published; anything
/// else publishes nothing and leaves the channel untouched — the next
/// tick retries unconditionally.
pub fn poll_tick(chan: &mut StatusChannel, raw: Option<&str>) -> (published: bool)
    ensures
        match raw {
            Some(line) => match spec_decode(line@) {
                Some(stv) => {
                    &&& published
                    &&& final(chan).latest matches Some(p) && p@ == stv
                },
                None => !published && *final(chan) == *old(chan),
            },
            None => !published && *final(chan) == *old(chan),
        },
{
    match raw {
        Some(line) => {
            match decode_status(line) {
                Some(st) => {
                    chan.publish(st);
                    true
                },
                None => false,
            }
        },
        None => false,
    }
}

} // verus!
