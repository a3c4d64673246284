use vstd::prelude::*;
use crate::hosts::{
    append_hosts_block, free_of, has_block_marker, has_sub, lemma_strip_idempotent, stripped,
    strip_hosts_block, with_block, HOSTS_START,
};

verus! {

/// Published when the blocker could not be switched.
#[derive(Debug, Clone)]
pub struct BlockingErrorEvent {
    pub message: String,
}

/// Where the blocker stands within an enable or disable operation.
#[derive(Debug, Clone, Copy, PartialEq, Eq, Structural)]
pub enum Stage {
    Idle,
    /// Enabling: waiting for notifications to be suppressed.
    EnableSuppressing,
    /// Enabling: waiting for the hosts text.
    EnableReading,
    /// Enabling: waiting for the blocked hosts text to be written.
    EnableWriting,
    /// Enabling failed: waiting for notifications to be restored.
    EnableRollingBack,
    /// Disabling while off: waiting for the hosts text.
    CleanupReading,
    /// Disabling while off: waiting for a leftover block to be removed.
    CleanupWriting,
    /// Disabling: waiting for notifications to be restored.
    DisableRestoring,
    /// Disabling: waiting for the hosts text.
    DisableReading,
    /// Disabling: waiting for the unblocked hosts text to be written.
    DisableWriting,
}

/// The next thing the caller must do on the blocker's behalf.
#[derive(Debug)]
pub enum BlockerAction {
    /// Turn system notifications off and report their previous setting.
    SuppressNotifications,
    /// Read the hosts text.
    ReadHosts,
    /// Replace the hosts text with the given one.
    WriteHosts(String),
    /// Put the notification setting back as it was.
    RestoreNotifications { prev: Option<u32>, existed: bool },
    /// The operation is over, with its result.
    Finish(Result<(), String>),
}

/// What came of the last action.
#[derive(Debug)]
pub enum OsOutcome {
    /// The previous notification value and whether it existed.
    Suppressed(Result<(Option<u32>, bool), String>),
    HostsRead(Result<String, String>),
    HostsWritten(Result<(), String>),
    Restored(Result<(), String>),
}

/// The focus-mode switch: blocks distracting hosts and mutes notifications
/// while on, and remembers how to restore the notification setting.
#[derive(Debug, Clone)]
pub struct FocusBlocker {
    pub enabled: bool,
    pub toast_prev: Option<u32>,
    pub toast_prev_existed: bool,
    /// Notifications are muted by this blocker right now.
    pub suppressed: bool,
    pub stage: Stage,
    /// The error an enable failed with, kept while rolling back.
    pub failure: String,
}

impl FocusBlocker {
    /// Muted notifications go with active blocking, but for the moments
    /// inside an enable where the blocking is not yet on or is being undone;
    /// once a disable has restored them they stay unmuted.
    pub open spec fn consistent(self) -> bool {
        &&& self.suppressed ==> (self.enabled || self.stage == Stage::EnableReading || self.stage
            == Stage::EnableWriting || self.stage == Stage::EnableRollingBack)
        &&& (self.stage == Stage::DisableReading || self.stage == Stage::DisableWriting)
            ==> !self.suppressed
        &&& self.enabling() ==> !self.enabled
        &&& (self.stage == Stage::CleanupReading || self.stage == Stage::CleanupWriting)
            ==> !self.enabled
        &&& self.disabling() ==> self.enabled
    }

    /// Inside an enable of a blocker that was off.
    pub open spec fn enabling(self) -> bool {
        self.stage == Stage::EnableSuppressing || self.stage == Stage::EnableReading || self.stage
            == Stage::EnableWriting || self.stage == Stage::EnableRollingBack
    }

    /// Inside a disable of a blocker that was on.
    pub open spec fn disabling(self) -> bool {
        self.stage == Stage::DisableRestoring || self.stage == Stage::DisableReading || self.stage
            == Stage::DisableWriting
    }

    /// `o` is the outcome the current stage waits for.
    pub open spec fn awaiting(self, o: OsOutcome) -> bool {
        match o {
            OsOutcome::Suppressed(_) => self.stage == Stage::EnableSuppressing,
            OsOutcome::HostsRead(_) => self.stage == Stage::EnableReading || self.stage
                == Stage::CleanupReading || self.stage == Stage::DisableReading,
            OsOutcome::HostsWritten(_) => self.stage == Stage::EnableWriting || self.stage
                == Stage::CleanupWriting || self.stage == Stage::DisableWriting,
            OsOutcome::Restored(_) => self.stage == Stage::EnableRollingBack || self.stage
                == Stage::DisableRestoring,
        }
    }

    pub open spec fn at(self, stage: Stage) -> FocusBlocker {
        FocusBlocker { stage, ..self }
    }

    /// The saved notification setting, forgotten.
    pub open spec fn forgotten(self) -> FocusBlocker {
        FocusBlocker { toast_prev: None, toast_prev_existed: false, ..self }
    }

    /// The blocker and action after `enable` on an idle blocker.
    pub open spec fn enable_spec(self) -> (FocusBlocker, BlockerAction) {
        if self.enabled {
            (self, BlockerAction::Finish(Ok(())))
        } else {
            (self.at(Stage::EnableSuppressing), BlockerAction::SuppressNotifications)
        }
    }

    /// The blocker and action after `disable` on an idle blocker.
    pub open spec fn disable_spec(self) -> (FocusBlocker, BlockerAction) {
        if !self.enabled {
            (self.at(Stage::CleanupReading), BlockerAction::ReadHosts)
        } else {
            (
                self.at(Stage::DisableRestoring),
                BlockerAction::RestoreNotifications {
                    prev: self.toast_prev,
                    existed: self.toast_prev_existed,
                },
            )
        }
    }

    /// `r` is an action that the stage of `self` waits on: an operation that
    /// is over leaves the blocker idle, any other action is one whose outcome
    /// the current stage accepts.
    pub open spec fn leads_to(self, r: BlockerAction) -> bool {
        match r {
            BlockerAction::Finish(_) => self.stage == Stage::Idle,
            BlockerAction::SuppressNotifications => self.stage == Stage::EnableSuppressing,
            BlockerAction::ReadHosts => self.stage == Stage::EnableReading || self.stage
                == Stage::CleanupReading || self.stage == Stage::DisableReading,
            BlockerAction::WriteHosts(_) => self.stage == Stage::EnableWriting || self.stage
                == Stage::CleanupWriting || self.stage == Stage::DisableWriting,
            BlockerAction::RestoreNotifications { .. } => self.stage == Stage::EnableRollingBack
                || self.stage == Stage::DisableRestoring,
        }
    }

    /// The rollback of an enable ran into an error of its own.
    pub open spec fn rollback_failed(self, o: OsOutcome) -> bool {
        self.stage == Stage::EnableRollingBack && o matches OsOutcome::Restored(Err(_))
    }

    /// `n` and `r` are the blocker and action after feeding `o` to `self`.
    pub open spec fn resumed(self, o: OsOutcome, n: FocusBlocker, r: BlockerAction) -> bool {
        let idle = self.at(Stage::Idle);
        match o {
            OsOutcome::Suppressed(Err(e)) => n == idle && r == BlockerAction::Finish(Err(e)),
            OsOutcome::Suppressed(Ok((p, x))) => n == (FocusBlocker {
                toast_prev: p,
                toast_prev_existed: x,
                suppressed: true,
                stage: Stage::EnableReading,
                ..self
            }) && r == BlockerAction::ReadHosts,
            OsOutcome::HostsRead(Err(e)) => if self.stage == Stage::EnableReading {
                n == (FocusBlocker { stage: Stage::EnableRollingBack, failure: e, ..self })
                    && r == (BlockerAction::RestoreNotifications {
                    prev: self.toast_prev,
                    existed: self.toast_prev_existed,
                })
            } else if self.stage == Stage::CleanupReading {
                n == idle && r == BlockerAction::Finish(Ok(()))
            } else {
                n == idle && r == BlockerAction::Finish(Err(e))
            },
            OsOutcome::HostsRead(Ok(t)) => if self.stage == Stage::EnableReading {
                n == self.at(Stage::EnableWriting) && (r matches BlockerAction::WriteHosts(w)
                    && w@ == with_block(t@))
            } else if self.stage == Stage::CleanupReading && !has_sub(t@, HOSTS_START@) {
                n == idle && r == BlockerAction::Finish(Ok(()))
            } else {
                n == self.at(
                    if self.stage == Stage::CleanupReading {
                        Stage::CleanupWriting
                    } else {
                        Stage::DisableWriting
                    },
                ) && (r matches BlockerAction::WriteHosts(w) && w@ == stripped(t@))
            },
            OsOutcome::HostsWritten(Err(e)) => if self.stage == Stage::EnableWriting {
                n == (FocusBlocker { stage: Stage::EnableRollingBack, failure: e, ..self })
                    && r == (BlockerAction::RestoreNotifications {
                    prev: self.toast_prev,
                    existed: self.toast_prev_existed,
                })
            } else if self.stage == Stage::CleanupWriting {
                n == idle && r == BlockerAction::Finish(Ok(()))
            } else {
                n == idle && r == BlockerAction::Finish(Err(e))
            },
            OsOutcome::HostsWritten(Ok(())) => if self.stage == Stage::EnableWriting {
                n == (FocusBlocker { enabled: true, ..idle }) && r == BlockerAction::Finish(
                    Ok(()),
                )
            } else if self.stage == Stage::CleanupWriting {
                n == idle && r == BlockerAction::Finish(Ok(()))
            } else {
                n == (FocusBlocker { enabled: false, ..idle.forgotten() }) && r
                    == BlockerAction::Finish(Ok(()))
            },
            OsOutcome::Restored(res) => if self.stage == Stage::EnableRollingBack {
                n == (FocusBlocker { suppressed: res is Err, ..idle.forgotten() }) && r
                    == BlockerAction::Finish(Err(self.failure))
            } else {
                match res {
                    Err(e) => n == idle && r == BlockerAction::Finish(Err(e)),
                    Ok(()) => n == (FocusBlocker {
                        suppressed: false,
                        ..self.at(Stage::DisableReading)
                    }) && r == BlockerAction::ReadHosts,
                }
            },
        }
    }

    /// An idle blocker that is off and knows of nothing muted.
    pub fn new() -> (r: Self)
        ensures
            !r.enabled,
            !r.suppressed,
            r.toast_prev is None,
            !r.toast_prev_existed,
            r.stage == Stage::Idle,
            r.failure@.len() == 0,
            r.consistent(),
    {
        FocusBlocker {
            enabled: false,
            toast_prev: None,
            toast_prev_existed: false,
            suppressed: false,
            stage: Stage::Idle,
            failure: String::new(),
        }
    }

}

impl Default for FocusBlocker {
    fn default() -> (r: Self)
        ensures
            !r.enabled,
            !r.suppressed,
            r.toast_prev is None,
            !r.toast_prev_existed,
            r.stage == Stage::Idle,
            r.consistent(),
    {
        FocusBlocker::new()
    }
}

impl FocusBlocker {
    /// No operation is under way.
    pub fn is_idle(&self) -> (r: bool)
        ensures
            r == (self.stage == Stage::Idle),
    {
        self.stage == Stage::Idle
    }

    /// Whether `o` is the outcome the current stage waits for.
    pub fn awaits(&self, o: &OsOutcome) -> (r: bool)
        ensures
            r == self.awaiting(*o),
    {
        match o {
            OsOutcome::Suppressed(_) => self.stage == Stage::EnableSuppressing,
            OsOutcome::HostsRead(_) => self.stage == Stage::EnableReading || self.stage
                == Stage::CleanupReading || self.stage == Stage::DisableReading,
            OsOutcome::HostsWritten(_) => self.stage == Stage::EnableWriting || self.stage
                == Stage::CleanupWriting || self.stage == Stage::DisableWriting,
            OsOutcome::Restored(_) => self.stage == Stage::EnableRollingBack || self.stage
                == Stage::DisableRestoring,
        }
    }

    /// Starts turning focus mode on: nothing to do when it is on already,
    /// else notifications are muted first.
    pub fn enable(&mut self) -> (r: BlockerAction)
        requires
            old(self).stage == Stage::Idle,
        ensures
            (*final(self), r) == old(self).enable_spec(),
            final(self).leads_to(r),
            old(self).consistent() ==> final(self).consistent(),
    {
        if self.enabled {
            return BlockerAction::Finish(Ok(()));
        }
        self.stage = Stage::EnableSuppressing;
        BlockerAction::SuppressNotifications
    }

    /// Starts turning focus mode off: notifications are restored first; when
    /// it is off already, only a leftover block is cleaned up.
    pub fn disable(&mut self) -> (r: BlockerAction)
        requires
            old(self).stage == Stage::Idle,
        ensures
            (*final(self), r) == old(self).disable_spec(),
            final(self).leads_to(r),
            old(self).consistent() ==> final(self).consistent(),
    {
        if !self.enabled {
            self.stage = Stage::CleanupReading;
            return BlockerAction::ReadHosts;
        }
        self.stage = Stage::DisableRestoring;
        BlockerAction::RestoreNotifications {
            prev: self.toast_prev,
            existed: self.toast_prev_existed,
        }
    }

    /// Starts a disable whose failure the caller will not act on.
    pub fn ensure_disabled(&mut self) -> (r: BlockerAction)
        requires
            old(self).stage == Stage::Idle,
        ensures
            (*final(self), r) == old(self).disable_spec(),
            final(self).leads_to(r),
            old(self).consistent() ==> final(self).consistent(),
    {
        self.disable()
    }

    fn finish(&mut self, res: Result<(), String>) -> (r: BlockerAction)
        ensures
            *final(self) == old(self).at(Stage::Idle),
            r == BlockerAction::Finish(res),
    {
        self.stage = Stage::Idle;
        BlockerAction::Finish(res)
    }

    fn roll_back(&mut self, e: String) -> (r: BlockerAction)
        ensures
            *final(self) == (FocusBlocker {
                stage: Stage::EnableRollingBack,
                failure: e,
                ..*old(self)
            }),
            r == (BlockerAction::RestoreNotifications {
                prev: old(self).toast_prev,
                existed: old(self).toast_prev_existed,
            }),
    {
        self.stage = Stage::EnableRollingBack;
        self.failure = e;
        BlockerAction::RestoreNotifications {
            prev: self.toast_prev,
            existed: self.toast_prev_existed,
        }
    }

    /// Takes the outcome of the last action and returns the next one.
    pub fn resume(&mut self, o: OsOutcome) -> (r: BlockerAction)
        requires
            old(self).awaiting(o),
        ensures
            old(self).resumed(o, *final(self), r),
            final(self).leads_to(r),
            old(self).consistent() && !old(self).rollback_failed(o) ==> final(self).consistent(),
    {
        match o {
            OsOutcome::Suppressed(Err(e)) => self.finish(Err(e)),
            OsOutcome::Suppressed(Ok((p, x))) => {
                self.toast_prev = p;
                self.toast_prev_existed = x;
                self.suppressed = true;
                self.stage = Stage::EnableReading;
                BlockerAction::ReadHosts
            },
            OsOutcome::HostsRead(Err(e)) => {
                if self.stage == Stage::EnableReading {
                    self.roll_back(e)
                } else if self.stage == Stage::CleanupReading {
                    self.finish(Ok(()))
                } else {
                    self.finish(Err(e))
                }
            },
            OsOutcome::HostsRead(Ok(t)) => {
                if self.stage == Stage::EnableReading {
                    self.stage = Stage::EnableWriting;
                    BlockerAction::WriteHosts(append_hosts_block(t.as_str()))
                } else if self.stage == Stage::CleanupReading && !has_block_marker(t.as_str()) {
                    self.finish(Ok(()))
                } else {
                    self.stage =
                    if self.stage == Stage::CleanupReading {
                        Stage::CleanupWriting
                    } else {
                        Stage::DisableWriting
                    };
                    BlockerAction::WriteHosts(strip_hosts_block(t.as_str()))
                }
            },
            OsOutcome::HostsWritten(Err(e)) => {
                if self.stage == Stage::EnableWriting {
                    self.roll_back(e)
                } else if self.stage == Stage::CleanupWriting {
                    self.finish(Ok(()))
                } else {
                    self.finish(Err(e))
                }
            },
            OsOutcome::HostsWritten(Ok(())) => {
                if self.stage == Stage::EnableWriting {
                    self.enabled = true;
                } else if self.stage == Stage::DisableWriting {
                    self.enabled = false;
                    self.toast_prev = None;
                    self.toast_prev_existed = false;
                }
                self.finish(Ok(()))
            },
            OsOutcome::Restored(res) => {
                if self.stage == Stage::EnableRollingBack {
                    self.toast_prev = None;
                    self.toast_prev_existed = false;
                    self.suppressed = res.is_err();
                    let e = self.failure.clone();
                    self.finish(Err(e))
                } else {
                    match res {
                        Err(e) => self.finish(Err(e)),
                        Ok(()) => {
                            self.suppressed = false;
                            self.stage = Stage::DisableReading;
                            BlockerAction::ReadHosts
                        },
                    }
                }
            },
        }
    }
}

/// Never muted while off: from a consistent blocker every step keeps it
/// consistent (unless undoing a failed enable itself fails), so an idle
/// blocker has notifications muted only while blocking is on; every failed
/// enable ends off and unmuted, and every successful disable ends off and
/// unmuted.
pub proof fn lemma_never_muted_while_off(
    b: FocusBlocker,
    o: OsOutcome,
    n: FocusBlocker,
    r: BlockerAction,
)
    requires
        b.consistent(),
        b.awaiting(o),
        b.resumed(o, n, r),
        !b.rollback_failed(o),
    ensures
        n.consistent(),
        n.stage == Stage::Idle ==> (n.suppressed ==> n.enabled),
        (b.enabling() && (r matches BlockerAction::Finish(Err(_)))) ==> !n.enabled
            && !n.suppressed,
        ((b.disabling() || b.stage == Stage::CleanupReading || b.stage == Stage::CleanupWriting)
            && (r matches BlockerAction::Finish(Ok(_)))) ==> !n.enabled && !n.suppressed,
{
}

/// Enabling twice acts as enabling once: once an enable has succeeded, a
/// second one finishes at once with success and changes nothing.
pub proof fn lemma_enable_idempotent(b: FocusBlocker, n: FocusBlocker, r: BlockerAction)
    requires
        b.stage == Stage::EnableWriting,
        b.resumed(OsOutcome::HostsWritten(Ok(())), n, r),
    ensures
        r == BlockerAction::Finish(Ok(())),
        n.enable_spec() == (n, BlockerAction::Finish(Ok(()))),
{
}

/// Disabling twice acts as disabling once: after a successful disable, a
/// second one leaves the notification setting and the on/off state alone;
/// it only reads the hosts text and, if a block is still there, writes the
/// text with the block removed, and then succeeds.
pub proof fn lemma_disable_idempotent(
    b: FocusBlocker,
    n: FocusBlocker,
    r: BlockerAction,
    o: OsOutcome,
    n2: FocusBlocker,
    r2: BlockerAction,
)
    requires
        b.consistent(),
        b.stage == Stage::DisableWriting,
        b.resumed(OsOutcome::HostsWritten(Ok(())), n, r),
        n.disable_spec().0.awaiting(o),
        n.disable_spec().0.resumed(o, n2, r2),
    ensures
        r == BlockerAction::Finish(Ok(())),
        n.disable_spec().1 matches BlockerAction::ReadHosts,
        n2.enabled == n.enabled,
        n2.suppressed == n.suppressed,
        n2.toast_prev == n.toast_prev,
        n2.toast_prev_existed == n.toast_prev_existed,
        (r2 matches BlockerAction::Finish(Ok(_))) || (o matches OsOutcome::HostsRead(Ok(t)) && (
        r2 matches BlockerAction::WriteHosts(w) && w@ == stripped(t@))),
{
}

/// Disabling twice leaves the hosts text as disabling once did: when the
/// second disable reads back the text the first one wrote (stripped from a
/// text without carriage returns), it either finishes at once or writes that
/// same text again, and it changes neither the on/off state nor the saved
/// notification setting.
pub proof fn lemma_second_disable_keeps_hosts(
    t0: Seq<char>,
    n: FocusBlocker,
    t: String,
    n2: FocusBlocker,
    r2: BlockerAction,
)
    requires
        free_of(t0, '\r'),
        !n.enabled,
        n.stage == Stage::Idle,
        t@ == stripped(t0),
        n.disable_spec().0.resumed(OsOutcome::HostsRead(Ok(t)), n2, r2),
    ensures
        n.disable_spec().1 matches BlockerAction::ReadHosts,
        (r2 matches BlockerAction::Finish(Ok(_))) || (r2 matches BlockerAction::WriteHosts(w)
            && w@ == t@),
        n2.enabled == n.enabled,
        n2.suppressed == n.suppressed,
        n2.toast_prev == n.toast_prev,
        n2.toast_prev_existed == n.toast_prev_existed,
{
    lemma_strip_idempotent(t0);
}

/// Exact restoration survives a failed disable: putting the notification
/// setting back keeps the saved setting, and when the disable then fails on
/// reading or writing the hosts text, blocking stays on and a retried
/// disable restores the very setting that the enable saved.
pub proof fn lemma_retried_disable_restores_saved(
    b: FocusBlocker,
    n: FocusBlocker,
    r: BlockerAction,
    m: FocusBlocker,
    o: OsOutcome,
    n2: FocusBlocker,
    r2: BlockerAction,
)
    requires
        b.consistent(),
        b.stage == Stage::DisableRestoring,
        b.resumed(OsOutcome::Restored(Ok(())), n, r),
        m.consistent(),
        m.stage == Stage::DisableReading || m.stage == Stage::DisableWriting,
        m.awaiting(o),
        m.resumed(o, n2, r2),
        r2 matches BlockerAction::Finish(Err(_)),
    ensures
        n.toast_prev == b.toast_prev,
        n.toast_prev_existed == b.toast_prev_existed,
        n2.enabled,
        n2.stage == Stage::Idle,
        n2.toast_prev == m.toast_prev,
        n2.toast_prev_existed == m.toast_prev_existed,
        n2.disable_spec().1 == (BlockerAction::RestoreNotifications {
            prev: m.toast_prev,
            existed: m.toast_prev_existed,
        }),
{
}

} // verus!
