use vstd::prelude::*;
use crate::cache::{CacheOp, PairedCache, set_insert};
use crate::device::{DeviceInfo, DeviceModel, DeviceProps, PairingState, record_of};
use crate::error::ManagerError;
use crate::registry::{DeviceRegistry, purge_spec, upsert_spec};

verus! {

/// How long a scan session may run, in milliseconds.
pub const SCAN_TIMEOUT_MS: u64 = 30000;

/// Where a scan session is in its life.
#[derive(Clone, Copy, Debug, PartialEq, Eq, Structural)]
pub enum ScanPhase {
    Idle,
    Running,
    Completed,
    Cancelled,
}

/// The one discovery session of the program; times are milliseconds on a
/// clock that the caller reads.
#[derive(Clone, Copy, Debug, PartialEq, Eq, Structural)]
pub struct ScanSession {
    pub phase: ScanPhase,
    pub started_ms: u64,
}

/// The session has run for its whole allotted time at `now`.
pub open spec fn expired_spec(s: ScanSession, now: u64) -> bool {
    now >= s.started_ms + SCAN_TIMEOUT_MS
}

/// The session still takes discovery events at `now`.
pub open spec fn accepts_spec(s: ScanSession, now: u64) -> bool {
    s.phase == ScanPhase::Running && !expired_spec(s, now)
}

/// Starting: refused while a session runs, else a fresh run from `now`.
pub open spec fn start_spec(s: ScanSession, now: u64) -> (ScanSession, Result<(), ManagerError>) {
    if s.phase == ScanPhase::Running {
        (s, Err(ManagerError::AlreadyRunning))
    } else {
        (ScanSession { phase: ScanPhase::Running, started_ms: now }, Ok(()))
    }
}

/// Cancelling: ends a running session, does nothing to any other.
pub open spec fn cancel_spec(s: ScanSession) -> ScanSession {
    if s.phase == ScanPhase::Running {
        ScanSession { phase: ScanPhase::Cancelled, ..s }
    } else {
        s
    }
}

/// Looking at the clock: a running session whose time is up completes.
pub open spec fn poll_spec(s: ScanSession, now: u64) -> ScanSession {
    if s.phase == ScanPhase::Running && expired_spec(s, now) {
        ScanSession { phase: ScanPhase::Completed, ..s }
    } else {
        s
    }
}

/// A discovery event with no address or no name is noise.
pub open spec fn is_noise(p: DeviceProps) -> bool {
    p.address@.len() == 0 || match p.name {
        Some(n) => n@.len() == 0,
        None => true,
    }
}

/// What one discovery event does to the registry and the known set: noise
/// changes nothing; a paired device becomes known (its marker is written), and
/// gets no row; any other device's record is stored.
pub open spec fn scan_effect(reg: Seq<DeviceModel>, known: Seq<Seq<char>>, p: DeviceProps) -> (
    Seq<DeviceModel>,
    Seq<Seq<char>>,
) {
    if is_noise(p) {
        (reg, known)
    } else if p.paired {
        (reg, set_insert(known, p.address@))
    } else {
        (upsert_spec(reg, record_of(p)), known)
    }
}

/// What an event does when it reaches a session at `now`: nothing once the
/// session has stopped taking events.
pub open spec fn session_effect(
    s: ScanSession,
    now: u64,
    reg: Seq<DeviceModel>,
    known: Seq<Seq<char>>,
    p: DeviceProps,
) -> (Seq<DeviceModel>, Seq<Seq<char>>) {
    if accepts_spec(s, now) {
        scan_effect(reg, known, p)
    } else {
        (reg, known)
    }
}

/// What became of one discovery event.
#[derive(Clone, Debug, PartialEq, Eq)]
pub enum ScanOutcome {
    /// The session no longer takes events.
    Ignored,
    /// The event had no address or no name.
    Discarded,
    /// A paired device already known.
    AlreadyKnown,
    /// A paired device seen for the first time: its marker is to be written.
    MarkPaired(CacheOp),
    /// The device's record was stored in the registry.
    Stored,
}

impl ScanSession {
    /// A session that has never run.
    pub fn new() -> (s: ScanSession)
        ensures
            s.phase == ScanPhase::Idle,
    {
        ScanSession { phase: ScanPhase::Idle, started_ms: 0 }
    }

    /// Whether the session is running.
    pub fn is_running(&self) -> (b: bool)
        ensures
            b == (self.phase == ScanPhase::Running),
    {
        self.phase == ScanPhase::Running
    }

    /// Whether the session's time is up at `now`.
    pub fn expired(&self, now: u64) -> (b: bool)
        ensures
            b == expired_spec(*self, now),
    {
        now >= self.started_ms && now - self.started_ms >= SCAN_TIMEOUT_MS
    }

    /// Whether the session takes discovery events at `now`.
    pub fn accepts(&self, now: u64) -> (b: bool)
        ensures
            b == accepts_spec(*self, now),
    {
        self.is_running() && !self.expired(now)
    }

    /// Starts a run at `now`; fails with `AlreadyRunning`, changing nothing,
    /// while a run is active.
    pub fn start(&mut self, now: u64) -> (r: Result<(), ManagerError>)
        ensures
            (*final(self), r) == start_spec(*old(self), now),
    {
        if self.is_running() {
            Err(ManagerError::AlreadyRunning)
        } else {
            self.phase = ScanPhase::Running;
            self.started_ms = now;
            Ok(())
        }
    }

    /// Asks a running session to stop; harmless at any other point.
    pub fn cancel(&mut self)
        ensures
            *final(self) == cancel_spec(*old(self)),
    {
        if self.is_running() {
            self.phase = ScanPhase::Cancelled;
        }
    }

    /// Completes a running session whose time is up; returns whether it still runs.
    pub fn poll(&mut self, now: u64) -> (running: bool)
        ensures
            *final(self) == poll_spec(*old(self), now),
            running == (final(self).phase == ScanPhase::Running),
    {
        if self.is_running() && self.expired(now) {
            self.phase = ScanPhase::Completed;
        }
        self.is_running()
    }
}

/// Starts a scan at `now`: while one runs this fails with `AlreadyRunning` and
/// changes nothing; otherwise the unpaired records of the previous pass are
/// dropped (paired and connected ones stay, in order) and the session runs.
pub fn begin_scan(session: &mut ScanSession, registry: &mut DeviceRegistry, now: u64) -> (r: Result<
    (),
    ManagerError,
>)
    requires
        old(registry).wf(),
    ensures
        final(registry).wf(),
        (*final(session), r) == start_spec(*old(session), now),
        r is Ok ==> final(registry)@ == purge_spec(old(registry)@),
        r is Err ==> final(registry)@ == old(registry)@,
{
    if session.is_running() {
        Err(ManagerError::AlreadyRunning)
    } else {
        registry.purge_unpaired();
        session.start(now)
    }
}

/// Handles one discovery event reaching the session at `now`. Once the
/// session is cancelled or its time is up the event is ignored and nothing
/// changes (a session found out of time completes). Otherwise: noise is
/// discarded; a paired device not yet known becomes known and its marker is to
/// be written; any other device that is not paired has its record stored.
pub fn scan_event(
    session: &mut ScanSession,
    registry: &mut DeviceRegistry,
    known: &mut PairedCache,
    p: &DeviceProps,
    now: u64,
) -> (r: ScanOutcome)
    requires
        old(registry).wf(),
        old(known).wf(),
    ensures
        final(registry).wf(),
        final(known).wf(),
        *final(session) == poll_spec(*old(session), now),
        (final(registry)@, final(known)@) == session_effect(
            *old(session),
            now,
            old(registry)@,
            old(known)@,
            *p,
        ),
        (r == ScanOutcome::Ignored) == !accepts_spec(*old(session), now),
        (r == ScanOutcome::Discarded) == (accepts_spec(*old(session), now) && is_noise(*p)),
        (r == ScanOutcome::Stored) == (accepts_spec(*old(session), now) && !is_noise(*p)
            && !p.paired),
        (r == ScanOutcome::AlreadyKnown) == (accepts_spec(*old(session), now) && !is_noise(*p)
            && p.paired && old(known)@.contains(p.address@)),
        r is MarkPaired <==> (accepts_spec(*old(session), now) && !is_noise(*p) && p.paired
            && !old(known)@.contains(p.address@)),
        r is MarkPaired ==> r == ScanOutcome::MarkPaired(CacheOp::Create(p.address)),
{
    if !session.accepts(now) {
        session.poll(now);
        return ScanOutcome::Ignored;
    }
    let named = match &p.name {
        Some(n) => n.unicode_len() > 0,
        None => false,
    };
    if p.address.unicode_len() == 0 || !named {
        ScanOutcome::Discarded
    } else if p.paired {
        if known.insert(p.address.clone()) {
            ScanOutcome::MarkPaired(CacheOp::Create(p.address.clone()))
        } else {
            ScanOutcome::AlreadyKnown
        }
    } else {
        registry.upsert(DeviceInfo::from_props(p));
        ScanOutcome::Stored
    }
}

/// At most one scan runs at a time: starting one while another runs fails
/// with `AlreadyRunning`, and starting after the previous run was cancelled or
/// has completed succeeds.
pub proof fn lemma_one_scan_at_a_time(s: ScanSession, t1: u64, t2: u64)
    requires
        s.phase == ScanPhase::Running,
    ensures
        start_spec(s, t2).1 == Err::<(), ManagerError>(ManagerError::AlreadyRunning),
        start_spec(s, t2).0 == s,
        start_spec(cancel_spec(s), t2).1 is Ok,
        expired_spec(s, t1) ==> start_spec(poll_spec(s, t1), t2).1 is Ok,
        !expired_spec(s, t1) ==> start_spec(poll_spec(s, t1), t2).1 is Err,
{
}

/// The purge before a scan removes only unpaired records: every paired or
/// connected record stays, unchanged, and everything kept was there before.
pub proof fn lemma_purge_keeps_paired(s: Seq<DeviceModel>)
    ensures
        forall|i: int|
            0 <= i < s.len() && s[i].pairing_state != PairingState::Unpaired ==> #[trigger] purge_spec(
                s,
            ).contains(s[i]),
        forall|i: int|
            0 <= i < purge_spec(s).len() ==> #[trigger] purge_spec(s)[i].pairing_state
                != PairingState::Unpaired && s.contains(purge_spec(s)[i]),
{
    let pred = |d: DeviceModel| d.pairing_state != PairingState::Unpaired;
    s.filter_lemma(pred);
    assert forall|i: int| 0 <= i < purge_spec(s).len() implies #[trigger] purge_spec(
        s,
    )[i].pairing_state != PairingState::Unpaired && s.contains(purge_spec(s)[i]) by {
        assert(purge_spec(s).contains(purge_spec(s)[i]));
        s.lemma_filter_contains_rev(pred, purge_spec(s)[i]);
    }
}

/// A run that reaches its time limit without being cancelled ends by itself,
/// and the registry cannot tell it from a run cancelled at the same moment:
/// neither ending touches the registry, and from then on no discovery event
/// changes the registry or the known set, under either ending.
pub proof fn lemma_timeout_like_cancel(
    s: ScanSession,
    now: u64,
    later: u64,
    reg: Seq<DeviceModel>,
    known: Seq<Seq<char>>,
    p: DeviceProps,
)
    requires
        s.phase == ScanPhase::Running,
        expired_spec(s, now),
        later >= now,
    ensures
        poll_spec(s, now).phase == ScanPhase::Completed,
        cancel_spec(s).phase == ScanPhase::Cancelled,
        session_effect(s, now, reg, known, p) == (reg, known),
        session_effect(poll_spec(s, now), later, reg, known, p) == (reg, known),
        session_effect(cancel_spec(s), later, reg, known, p) == (reg, known),
{
}

} // verus!
