use vstd::prelude::*;

use crate::snapshot::{poll_data_ok, snapshot_matches, PollData, Snapshot};
use crate::stats::audit_ok;

verus! {

/// The shared state between the poller (sole writer) and the presentation
/// layer (sole reader): the latest snapshot, plus the error log that
/// accumulates across poll cycles until a user action clears it.  The
/// driver wraps a `Store` in its mutual-exclusion primitive; every
/// operation here is a short, lock-friendly structure update with no I/O.
#[derive(Debug, Clone, PartialEq, Eq)]
pub struct Store {
    pub snapshot: Snapshot,
    pub errors: Vec<String>,
}

impl Store {
    /// A store holding the given snapshot and no errors.
    pub fn new(snapshot: Snapshot) -> (s: Store)
        ensures
            s.snapshot == snapshot,
            s.errors@.len() == 0,
    {
        Store { snapshot, errors: Vec::new() }
    }

    /// The current snapshot; readers always see one consistent, fully
    /// built value.
    pub fn read(&self) -> (r: &Snapshot)
        ensures
            *r == self.snapshot,
    {
        &self.snapshot
    }

    /// Swap in a freshly built snapshot wholesale.  The error log is
    /// untouched.
    pub fn replace_snapshot(&mut self, new_snapshot: Snapshot)
        ensures
            final(self).snapshot == new_snapshot,
            final(self).errors == old(self).errors,
    {
        self.snapshot = new_snapshot;
    }

    /// Record a failure message.  The snapshot is untouched: the dashboard
    /// keeps displaying the last known good data.
    pub fn append_error(&mut self, message: String)
        ensures
            final(self).errors@ == old(self).errors@.push(message),
            final(self).snapshot == old(self).snapshot,
    {
        self.errors.push(message);
    }

    /// Dismiss all recorded errors (a user action); the snapshot is
    /// untouched.
    pub fn clear_errors(&mut self)
        ensures
            final(self).errors@.len() == 0,
            final(self).snapshot == old(self).snapshot,
    {
        self.errors.clear();
    }

    /// The display width changed: recompute the two histogram series of
    /// the current snapshot from its already-fetched relay events, without
    /// a fresh network poll.  Nothing else changes.
    pub fn on_resize(&mut self, new_width: u16)
        requires
            audit_ok(old(self).snapshot.audit),
            new_width >= 3,
        ensures
            final(self).errors == old(self).errors,
            final(self).snapshot.screen_width == new_width,
            crate::snapshot::lines_match(
                final(self).snapshot,
                old(self).snapshot.audit.relayed@,
                old(self).snapshot.built_at,
                new_width,
            ),
            final(self).snapshot.audit == old(self).snapshot.audit,
            final(self).snapshot.channels == old(self).snapshot.channels,
            final(self).snapshot.built_at == old(self).snapshot.built_at,
            old(self).snapshot.wf() ==> final(self).snapshot.wf(),
    {
        self.snapshot.resize(new_width);
    }

    /// Finish one poll cycle: on success, build a fresh snapshot from the
    /// fetched records and publish it, leaving the error log alone; on
    /// failure, append the single failure message and leave the previous
    /// snapshot authoritative.  A cycle either fully replaces the snapshot
    /// or changes nothing but the error log.
    pub fn complete_cycle(&mut self, outcome: Result<PollData, String>, now: u64)
        requires
            old(self).snapshot.screen_width >= 3,
            match outcome {
                Ok(d) => poll_data_ok(d),
                Err(_) => true,
            },
        ensures
            match outcome {
                Ok(d) => {
                    &&& snapshot_matches(
                        final(self).snapshot,
                        old(self).snapshot.node_info,
                        d.channels@,
                        d.audit,
                        d.nodes@,
                        d.hosted@,
                        d.fiat@,
                        now,
                        old(self).snapshot.screen_width,
                    )
                    &&& final(self).snapshot.wf()
                    &&& final(self).errors == old(self).errors
                },
                Err(m) => {
                    &&& final(self).snapshot == old(self).snapshot
                    &&& final(self).errors@ == old(self).errors@.push(m)
                },
            },
    {
        match outcome {
            Ok(data) => {
                self.snapshot.rebuild(data, now);
            },
            Err(message) => {
                self.errors.push(message);
            },
        }
    }
}

} // verus!
