//! The reconciliation state machine.
//!
//! A `SyncSession` makes every decision of a sync run: whether the
//! configuration changed, which configured entry is handled next, whether an
//! entry is installed or skipped, when the new fingerprint is committed and
//! when running shells are told to reload. The surrounding program only
//! carries out the returned actions — probe a directory, run the clone,
//! write the lock file, deliver the signal — and reports each result back as
//! an event.
//!
//! Entry-level failures (an unresolvable source, a failed clone) are
//! recorded and skipped, never fatal: every entry gets its turn. The
//! fingerprint is committed only after the whole list has been processed,
//! and committed even when entries failed: the lock tracks "configuration
//! last processed", so a permanently broken entry is not retried on every
//! shell startup. Shells are notified exactly once, after the commit.

use vstd::prelude::*;
use crate::config::Config;
use crate::fingerprint::{
    needs_reconciliation,
    opt_bytes_view,
    spec_needs_reconciliation,
    Fingerprint,
};
use crate::identity::{resolve, resolved_identity, PluginIdentity};

verus! {

/// Where a sync run stands.
#[derive(Clone, Copy, PartialEq, Eq, Structural, Debug)]
pub enum SyncPhase {
    /// The configuration matches the committed fingerprint: nothing to do.
    Unchanged,
    /// Deciding what to do with the next configured entry.
    Resolving,
    /// Waiting to hear whether the current plugin is already on disk.
    AwaitingPresence,
    /// Waiting for the outcome of the clone of the current plugin.
    AwaitingClone,
    /// Waiting for the new fingerprint to be written to the lock file.
    AwaitingCommit,
    /// Waiting for running shells to be told to reload.
    AwaitingNotify,
    /// The run is over.
    Finished,
}

/// How one configured entry fared.
#[derive(Clone, Copy, PartialEq, Eq, Structural, Debug)]
pub enum PluginOutcome {
    /// No identity could be derived from the source; the entry was skipped.
    InvalidSource,
    /// The plugin was already on disk; nothing was installed.
    AlreadyInstalled,
    /// The plugin was cloned.
    Installed,
    /// The clone failed; the plugin remains absent.
    InstallFailed,
}

/// What the surrounding program reports back to the session.
#[derive(Clone, Copy, PartialEq, Eq, Structural, Debug)]
pub enum SyncEvent {
    /// Nothing to report; the session decides its next move.
    Tick,
    /// Whether the current plugin's marker was found on disk.
    Presence { installed: bool },
    /// Whether the clone of the current plugin succeeded.
    CloneDone { ok: bool },
    /// The new fingerprint was written to the lock file.
    LockWritten,
    /// Running shells have been told to reload.
    ShellsNotified,
}

/// What the surrounding program must do next.
#[derive(Debug)]
pub enum SyncAction {
    /// Feed the next `Tick`; the session has more decisions to make.
    Continue,
    /// Report whether this plugin's marker directory exists.
    CheckPresence { source: String, identity: PluginIdentity },
    /// Clone `source` into the directory of `identity`, and report how it went.
    Install { source: String, identity: PluginIdentity },
    /// Write the session's fingerprint to the lock file.
    CommitLock,
    /// Tell running shells to reload.
    NotifyShells,
    /// The run is over; `changed` tells whether reconciliation happened.
    Done { changed: bool },
}

/// An outcome is recorded against the entry it belongs to: `InvalidSource`
/// exactly for the sources that resolve to no identity.
pub open spec fn outcome_matches(source: Seq<char>, outcome: PluginOutcome) -> bool {
    match outcome {
        PluginOutcome::InvalidSource => resolved_identity(source) is None,
        PluginOutcome::AlreadyInstalled => resolved_identity(source) is Some,
        PluginOutcome::Installed => resolved_identity(source) is Some,
        PluginOutcome::InstallFailed => resolved_identity(source) is Some,
    }
}

/// Which events answer which phase.
pub open spec fn event_fits(phase: SyncPhase, event: SyncEvent) -> bool {
    match phase {
        SyncPhase::Unchanged => event is Tick,
        SyncPhase::Resolving => event is Tick,
        SyncPhase::AwaitingPresence => event is Presence,
        SyncPhase::AwaitingClone => event is CloneDone,
        SyncPhase::AwaitingCommit => event is LockWritten,
        SyncPhase::AwaitingNotify => event is ShellsNotified,
        SyncPhase::Finished => event is Tick,
    }
}

/// One sync run over a configured plugin list.
pub struct SyncSession {
    /// The configured sources, in configuration order.
    pub plugins: Vec<String>,
    /// The fingerprint of the configuration being processed.
    pub fingerprint: Fingerprint,
    /// Whether the configuration differed from the committed lock.
    pub changed: bool,
    /// How many entries have been fully handled.
    pub idx: usize,
    /// The current phase.
    pub phase: SyncPhase,
    /// The identity of the entry being probed or cloned.
    pub pending: Option<PluginIdentity>,
    /// One outcome per handled entry, in configuration order.
    pub outcomes: Vec<PluginOutcome>,
}

impl SyncSession {
    pub open spec fn wf(&self) -> bool {
        &&& self.idx <= self.plugins@.len()
        &&& self.outcomes@.len() == self.idx as int
        &&& forall|k: int|
            0 <= k < self.idx ==> outcome_matches(self.plugins@[k]@, #[trigger] self.outcomes@[k])
        &&& (self.phase is AwaitingPresence || self.phase is AwaitingClone) ==> {
            &&& self.idx < self.plugins@.len()
            &&& (self.pending matches Some(id) && resolved_identity(
                self.plugins@[self.idx as int]@,
            ) == Some((id.owner@, id.name@)) && id.wf())
        }
        &&& (self.phase is AwaitingCommit || self.phase is AwaitingNotify) ==> self.idx
            == self.plugins@.len()
        &&& (self.phase is Unchanged ==> !self.changed && self.idx == 0)
        &&& (!(self.phase is Unchanged || self.phase is Finished) ==> self.changed)
    }

    /// Opens a sync run: compares the configuration's fingerprint with the
    /// lock file's contents and decides whether reconciliation is owed —
    /// always on a first run, otherwise exactly on a changed document.
    pub fn new(config: Config, fingerprint: Fingerprint, lock_bytes: Option<Vec<u8>>) -> (s:
        SyncSession)
        ensures
            s.wf(),
            s.plugins@ == config.plugins@,
            s.fingerprint == fingerprint,
            s.changed == spec_needs_reconciliation(fingerprint@, opt_bytes_view(lock_bytes)),
            s.phase == if s.changed {
                SyncPhase::Resolving
            } else {
                SyncPhase::Unchanged
            },
            s.idx == 0,
            s.outcomes@.len() == 0,
    {
        let changed = needs_reconciliation(&fingerprint, &lock_bytes);
        SyncSession {
            plugins: config.plugins,
            fingerprint,
            changed,
            idx: 0,
            phase: if changed {
                SyncPhase::Resolving
            } else {
                SyncPhase::Unchanged
            },
            pending: None,
            outcomes: Vec::new(),
        }
    }

    /// Feeds the session the answer to its last action and receives the next
    /// one. Entry-level failures only record an outcome and move on; an
    /// `Install` action is only ever issued straight after the plugin was
    /// reported absent; an unchanged configuration reaches `Done` without a
    /// single probe or install.
    pub fn step(&mut self, event: SyncEvent) -> (a: SyncAction)
        requires
            old(self).wf(),
            event_fits(old(self).phase, event),
        ensures
            final(self).wf(),
            final(self).plugins == old(self).plugins,
            final(self).fingerprint == old(self).fingerprint,
            final(self).changed == old(self).changed,
            old(self).idx <= final(self).idx,
            forall|k: int|
                0 <= k < old(self).idx ==> final(self).outcomes@[k] == old(self).outcomes@[k],
            (old(self).phase is Unchanged || old(self).phase is Finished) ==> (a == (SyncAction::Done {
                changed: old(self).changed,
            }) && final(self).phase is Finished && final(self).idx == old(self).idx),
            old(self).phase is Resolving ==> match a {
                SyncAction::CheckPresence { source, identity } => {
                    &&& final(self).phase is AwaitingPresence
                    &&& final(self).idx < final(self).plugins@.len()
                    &&& source@ == final(self).plugins@[final(self).idx as int]@
                    &&& resolved_identity(source@) == Some((identity.owner@, identity.name@))
                    &&& identity.wf()
                },
                SyncAction::CommitLock => {
                    &&& final(self).phase is AwaitingCommit
                    &&& final(self).idx == final(self).plugins@.len()
                },
                _ => false,
            },
            old(self).phase is Resolving ==> forall|k: int|
                old(self).idx <= k < final(self).idx ==> resolved_identity(
                    final(self).plugins@[k]@,
                ) is None && (#[trigger] final(self).outcomes@[k]) is InvalidSource,
            (old(self).phase is AwaitingPresence && event == (SyncEvent::Presence {
                installed: true,
            })) ==> {
                &&& a is Continue
                &&& final(self).phase is Resolving
                &&& final(self).idx == old(self).idx + 1
                &&& final(self).outcomes@ == old(self).outcomes@.push(
                    PluginOutcome::AlreadyInstalled,
                )
            },
            (old(self).phase is AwaitingPresence && event == (SyncEvent::Presence {
                installed: false,
            })) ==> {
                &&& final(self).phase is AwaitingClone
                &&& final(self).idx == old(self).idx
                &&& final(self).outcomes == old(self).outcomes
                &&& (a matches SyncAction::Install { source, identity } && source@ == old(self).plugins@[old(self).idx as int]@ && resolved_identity(source@) == Some(
                    (identity.owner@, identity.name@),
                ) && identity.wf())
            },
            (old(self).phase is AwaitingClone && event == (SyncEvent::CloneDone { ok: true }))
                ==> {
                &&& a is Continue
                &&& final(self).phase is Resolving
                &&& final(self).idx == old(self).idx + 1
                &&& final(self).outcomes@ == old(self).outcomes@.push(PluginOutcome::Installed)
            },
            (old(self).phase is AwaitingClone && event == (SyncEvent::CloneDone { ok: false }))
                ==> {
                &&& a is Continue
                &&& final(self).phase is Resolving
                &&& final(self).idx == old(self).idx + 1
                &&& final(self).outcomes@ == old(self).outcomes@.push(
                    PluginOutcome::InstallFailed,
                )
            },
            old(self).phase is AwaitingCommit ==> (a is NotifyShells && final(self).phase is AwaitingNotify && final(self).idx == old(self).idx && final(self).outcomes
                == old(self).outcomes),
            old(self).phase is AwaitingNotify ==> (a == (SyncAction::Done {
                changed: old(self).changed,
            }) && final(self).phase is Finished && final(self).idx == old(self).idx && final(self).outcomes == old(self).outcomes),
            a is Install ==> (old(self).phase is AwaitingPresence && event == (SyncEvent::Presence {
                installed: false,
            })),
            (a is CheckPresence || a is Install) ==> old(self).changed,
    {
        match self.phase {
            SyncPhase::Unchanged => {
                self.phase = SyncPhase::Finished;
                SyncAction::Done { changed: self.changed }
            },
            SyncPhase::Finished => {
                SyncAction::Done { changed: self.changed }
            },
            SyncPhase::Resolving => {
                while self.idx < self.plugins.len()
                    invariant
                        old(self).wf(),
                        old(self).phase is Resolving,
                        self.wf(),
                        self.phase is Resolving,
                        self.plugins == old(self).plugins,
                        self.fingerprint == old(self).fingerprint,
                        self.changed == old(self).changed,
                        self.pending == old(self).pending,
                        old(self).idx <= self.idx,
                        forall|k: int|
                            0 <= k < old(self).idx ==> self.outcomes@[k] == old(self).outcomes@[k],
                        forall|k: int|
                            old(self).idx <= k < self.idx ==> resolved_identity(
                                self.plugins@[k]@,
                            ) is None && (#[trigger] self.outcomes@[k]) is InvalidSource,
                    decreases self.plugins@.len() - self.idx,
                {
                    let source = self.plugins[self.idx].clone();
                    match resolve(source.as_str()) {
                        Ok(id) => {
                            let held = PluginIdentity {
                                owner: id.owner.clone(),
                                name: id.name.clone(),
                            };
                            self.pending = Some(held);
                            self.phase = SyncPhase::AwaitingPresence;
                            return SyncAction::CheckPresence { source, identity: id };
                        },
                        Err(_) => {
                            self.outcomes.push(PluginOutcome::InvalidSource);
                            self.idx = self.idx + 1;
                        },
                    }
                }
                self.phase = SyncPhase::AwaitingCommit;
                SyncAction::CommitLock
            },
            SyncPhase::AwaitingPresence => match event {
                SyncEvent::Presence { installed } => {
                    if installed {
                        proof {
                            assert(self.plugins.len() == self.plugins@.len());
                        }
                        self.outcomes.push(PluginOutcome::AlreadyInstalled);
                        self.idx = self.idx + 1;
                        self.pending = None;
                        self.phase = SyncPhase::Resolving;
                        SyncAction::Continue
                    } else {
                        let source = self.plugins[self.idx].clone();
                        let id = match &self.pending {
                            Some(p) => PluginIdentity {
                                owner: p.owner.clone(),
                                name: p.name.clone(),
                            },
                            None => {
                                // ruled out: wf ties a pending identity to
                                // this phase
                                proof {
                                    assert(false);
                                }
                                PluginIdentity { owner: source.clone(), name: source.clone() }
                            },
                        };
                        self.phase = SyncPhase::AwaitingClone;
                        SyncAction::Install { source, identity: id }
                    }
                },
                _ => {
                    // ruled out: only a fitting event answers this phase
                    proof {
                        assert(false);
                    }
                    SyncAction::Continue
                },
            },
            SyncPhase::AwaitingClone => match event {
                SyncEvent::CloneDone { ok } => {
                    proof {
                        assert(self.plugins.len() == self.plugins@.len());
                    }
                    self.outcomes.push(
                        if ok {
                            PluginOutcome::Installed
                        } else {
                            PluginOutcome::InstallFailed
                        },
                    );
                    self.idx = self.idx + 1;
                    self.pending = None;
                    self.phase = SyncPhase::Resolving;
                    SyncAction::Continue
                },
                _ => {
                    // ruled out: only a fitting event answers this phase
                    proof {
                        assert(false);
                    }
                    SyncAction::Continue
                },
            },
            SyncPhase::AwaitingCommit => {
                self.phase = SyncPhase::AwaitingNotify;
                SyncAction::NotifyShells
            },
            SyncPhase::AwaitingNotify => {
                self.phase = SyncPhase::Finished;
                SyncAction::Done { changed: self.changed }
            },
        }
    }
}

} // verus!
