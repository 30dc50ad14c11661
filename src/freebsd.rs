//! FreeBSD: a read is bracketed by attaching to the target as its tracer and,
//! when this reader took the trace lock, detaching again.
//!
//! The caller runs the session: it makes the call that each [`Action`] names
//! (`ptrace(PT_ATTACH)`, `waitpid` and `WIFSTOPPED`, `ptrace(PT_IO)` with a
//! `PIOD_READ_D` descriptor, `ptrace(PT_DETACH)`) and hands what it observed
//! back to [`Session::step`] as an [`Event`].
use vstd::prelude::*;

use crate::error::ReadError;

verus! {

/// FreeBSD's `EBUSY`: `PT_ATTACH` returns it when another tracer holds the
/// target.
pub const EBUSY: i32 = 16;

/// Whether this reader owns the trace lock it ends up with.
#[derive(Clone, Copy, Debug, PartialEq, Eq, Structural)]
pub enum PtraceLockState {
    /// The lock was taken by this reader, which must release it.
    Release,
    /// Another tracer held the target already; its lock is left alone.
    NoRelease,
}

/// Where a session stands with respect to the target's trace lock.
#[derive(Clone, Copy, Debug, PartialEq, Eq, Structural)]
pub enum TraceState {
    Unattached,
    AttachedByUs,
    AttachedByOther,
    Detached,
}

/// Which answer the session waits for.
#[derive(Clone, Copy, Debug, PartialEq, Eq, Structural)]
pub enum Phase {
    Attaching,
    Waiting,
    Reading,
    Detaching,
    Done,
}

/// The call the caller must make next, or the end of the read.
#[derive(Clone, Copy, Debug, PartialEq, Eq)]
pub enum Action {
    /// `ptrace(PT_ATTACH, pid, NULL, 0)`.
    Attach,
    /// `waitpid(pid, &status, 0)`, then `WIFSTOPPED(status)`.
    WaitStopped,
    /// `ptrace(PT_IO, pid, &desc, 0)` reading the whole buffer at the address.
    ReadIo,
    /// `ptrace(PT_DETACH, pid, NULL, 0)`.
    Detach,
    /// The read is over, with this result.
    Finish(Result<(), ReadError>),
}

/// What the caller observed from the call it was asked to make. `errno` is
/// the OS error code recorded right after that call.
#[derive(Clone, Copy, Debug, PartialEq, Eq)]
pub enum Event {
    Attached { status: i32, errno: i32 },
    Waited { stopped: bool, errno: i32 },
    ReadDone { status: i32, transferred: usize, errno: i32 },
    DetachDone { status: i32, errno: i32 },
}

/// One read of `len` bytes in progress.
#[derive(Clone, Copy, Debug)]
pub struct Session {
    pub phase: Phase,
    pub trace: TraceState,
    pub len: usize,
    /// The result of the read itself, kept while the lock is released.
    pub outcome: Result<(), ReadError>,
}

/// What answering `PT_ATTACH` means: the lock is busy, the attach failed, or
/// it succeeded and the target must now be seen to stop.
#[derive(Clone, Copy, Debug, PartialEq, Eq)]
pub enum AttachOutcome {
    Busy,
    Failed(ReadError),
    Acquired,
}

pub open spec fn attach_outcome_spec(status: i32, errno: i32) -> AttachOutcome {
    if status != -1 {
        AttachOutcome::Acquired
    } else if errno == EBUSY {
        AttachOutcome::Busy
    } else {
        AttachOutcome::Failed(ReadError::Os(errno))
    }
}

pub open spec fn stop_outcome_spec(stopped: bool, errno: i32) -> Result<PtraceLockState, ReadError> {
    if stopped {
        Ok(PtraceLockState::Release)
    } else {
        Err(ReadError::Os(errno))
    }
}

pub open spec fn io_outcome_spec(status: i32, requested: usize, transferred: usize, errno: i32) -> Result<(), ReadError> {
    if status == -1 {
        Err(ReadError::Os(errno))
    } else if transferred != requested {
        Err(ReadError::ShortRead { expected: requested, got: transferred })
    } else {
        Ok(())
    }
}

pub open spec fn detach_outcome_spec(status: i32, errno: i32) -> Result<(), ReadError> {
    if status == -1 {
        Err(ReadError::Os(errno))
    } else {
        Ok(())
    }
}

/// Read what `ptrace(PT_ATTACH)` returned.
pub fn attach_outcome(status: i32, errno: i32) -> (r: AttachOutcome)
    ensures
        r == attach_outcome_spec(status, errno),
{
    if status != -1 {
        AttachOutcome::Acquired
    } else if errno == EBUSY {
        AttachOutcome::Busy
    } else {
        AttachOutcome::Failed(ReadError::Os(errno))
    }
}

/// Read what waiting for the freshly attached target reported.
pub fn stop_outcome(stopped: bool, errno: i32) -> (r: Result<PtraceLockState, ReadError>)
    ensures
        r == stop_outcome_spec(stopped, errno),
{
    if stopped {
        Ok(PtraceLockState::Release)
    } else {
        Err(ReadError::Os(errno))
    }
}

/// Read what `ptrace(PT_IO)` returned for a request of `requested` bytes, of
/// which the descriptor says `transferred` were moved.
pub fn io_outcome(status: i32, requested: usize, transferred: usize, errno: i32) -> (r: Result<(), ReadError>)
    ensures
        r == io_outcome_spec(status, requested, transferred, errno),
{
    if status == -1 {
        Err(ReadError::Os(errno))
    } else if transferred != requested {
        Err(ReadError::ShortRead { expected: requested, got: transferred })
    } else {
        Ok(())
    }
}

/// Read what `ptrace(PT_DETACH)` returned.
pub fn detach_outcome(status: i32, errno: i32) -> (r: Result<(), ReadError>)
    ensures
        r == detach_outcome_spec(status, errno),
{
    if status == -1 {
        Err(ReadError::Os(errno))
    } else {
        Ok(())
    }
}

/// Whether the reader must release the lock after reading.
pub fn should_detach(lock: PtraceLockState) -> (r: bool)
    ensures
        r == (lock == PtraceLockState::Release),
{
    match lock {
        PtraceLockState::Release => true,
        PtraceLockState::NoRelease => false,
    }
}

/// Whether `e` answers the call that a session in `phase` asked for.
pub open spec fn answers(phase: Phase, e: Event) -> bool {
    match e {
        Event::Attached { .. } => phase == Phase::Attaching,
        Event::Waited { .. } => phase == Phase::Waiting,
        Event::ReadDone { .. } => phase == Phase::Reading,
        Event::DetachDone { .. } => phase == Phase::Detaching,
    }
}

/// The call that a session in `phase` has asked for, or `Finish` once done.
pub open spec fn pending(s: Session) -> Action {
    match s.phase {
        Phase::Attaching => Action::Attach,
        Phase::Waiting => Action::WaitStopped,
        Phase::Reading => Action::ReadIo,
        Phase::Detaching => Action::Detach,
        Phase::Done => Action::Finish(s.outcome),
    }
}

/// The session on which a read of `len` bytes begins.
pub open spec fn initial(len: usize) -> Session {
    if len == 0 {
        Session { phase: Phase::Done, trace: TraceState::Unattached, len, outcome: Ok(()) }
    } else {
        Session { phase: Phase::Attaching, trace: TraceState::Unattached, len, outcome: Ok(()) }
    }
}

/// The session after `e`. Only a lock taken by this reader is ever released,
/// and a read under such a lock is always followed by the release.
pub open spec fn next(s: Session, e: Event) -> Session {
    match e {
        Event::Attached { status, errno } => match attach_outcome_spec(status, errno) {
            AttachOutcome::Busy => Session { phase: Phase::Reading, trace: TraceState::AttachedByOther, ..s },
            AttachOutcome::Failed(err) => Session { phase: Phase::Done, outcome: Err(err), ..s },
            AttachOutcome::Acquired => Session { phase: Phase::Waiting, ..s },
        },
        Event::Waited { stopped, errno } => match stop_outcome_spec(stopped, errno) {
            Ok(_) => Session { phase: Phase::Reading, trace: TraceState::AttachedByUs, ..s },
            Err(err) => Session { phase: Phase::Done, outcome: Err(err), ..s },
        },
        Event::ReadDone { status, transferred, errno } => {
            let read = io_outcome_spec(status, s.len, transferred, errno);
            if s.trace == TraceState::AttachedByUs {
                Session { phase: Phase::Detaching, outcome: read, ..s }
            } else {
                Session { phase: Phase::Done, outcome: read, ..s }
            }
        },
        Event::DetachDone { status, errno } => match detach_outcome_spec(status, errno) {
            Ok(()) => Session { phase: Phase::Done, trace: TraceState::Detached, ..s },
            Err(err) => Session { phase: Phase::Done, outcome: Err(err), ..s },
        },
    }
}

impl Session {
    /// The phase and the trace state agree: nobody holds a lock for this
    /// reader before the target stopped, and only a lock of this reader is
    /// ever being released.
    pub open spec fn wf(self) -> bool {
        match self.phase {
            Phase::Attaching | Phase::Waiting => self.trace == TraceState::Unattached,
            Phase::Reading => self.trace == TraceState::AttachedByUs || self.trace == TraceState::AttachedByOther,
            Phase::Detaching => self.trace == TraceState::AttachedByUs,
            Phase::Done => true,
        }
    }

    /// Begin a read of `len` bytes. A zero-length read finishes at once,
    /// successfully, without any call.
    pub fn start(len: usize) -> (r: (Session, Action))
        ensures
            r.0 == initial(len),
            r.1 == pending(r.0),
            r.0.wf(),
    {
        if len == 0 {
            let s = Session { phase: Phase::Done, trace: TraceState::Unattached, len, outcome: Ok(()) };
            (s, Action::Finish(Ok(())))
        } else {
            let s = Session { phase: Phase::Attaching, trace: TraceState::Unattached, len, outcome: Ok(()) };
            (s, Action::Attach)
        }
    }

    /// Whether `e` answers the call this session asked for.
    pub fn expects(&self, e: &Event) -> (r: bool)
        ensures
            r == answers(self.phase, *e),
    {
        match e {
            Event::Attached { .. } => matches!(self.phase, Phase::Attaching),
            Event::Waited { .. } => matches!(self.phase, Phase::Waiting),
            Event::ReadDone { .. } => matches!(self.phase, Phase::Reading),
            Event::DetachDone { .. } => matches!(self.phase, Phase::Detaching),
        }
    }

    /// Take in the answer to the last call; return the new session and what
    /// to do next.
    pub fn step(&self, e: Event) -> (r: (Session, Action))
        ensures
            r.0 == next(*self, e),
            r.1 == pending(r.0),
            self.wf() && answers(self.phase, e) ==> r.0.wf(),
    {
        match e {
            Event::Attached { status, errno } => match attach_outcome(status, errno) {
                AttachOutcome::Busy => {
                    let s = Session { phase: Phase::Reading, trace: TraceState::AttachedByOther, ..*self };
                    (s, Action::ReadIo)
                },
                AttachOutcome::Failed(err) => {
                    let s = Session { phase: Phase::Done, outcome: Err(err), ..*self };
                    (s, Action::Finish(Err(err)))
                },
                AttachOutcome::Acquired => {
                    let s = Session { phase: Phase::Waiting, ..*self };
                    (s, Action::WaitStopped)
                },
            },
            Event::Waited { stopped, errno } => match stop_outcome(stopped, errno) {
                Ok(_) => {
                    let s = Session { phase: Phase::Reading, trace: TraceState::AttachedByUs, ..*self };
                    (s, Action::ReadIo)
                },
                Err(err) => {
                    let s = Session { phase: Phase::Done, outcome: Err(err), ..*self };
                    (s, Action::Finish(Err(err)))
                },
            },
            Event::ReadDone { status, transferred, errno } => {
                let read = io_outcome(status, self.len, transferred, errno);
                let lock = match self.trace {
                    TraceState::AttachedByUs => PtraceLockState::Release,
                    _ => PtraceLockState::NoRelease,
                };
                if should_detach(lock) {
                    let s = Session { phase: Phase::Detaching, outcome: read, ..*self };
                    (s, Action::Detach)
                } else {
                    let s = Session { phase: Phase::Done, outcome: read, ..*self };
                    (s, Action::Finish(read))
                }
            },
            Event::DetachDone { status, errno } => match detach_outcome(status, errno) {
                Ok(()) => {
                    let s = Session { phase: Phase::Done, trace: TraceState::Detached, ..*self };
                    (s, Action::Finish(self.outcome))
                },
                Err(err) => {
                    let s = Session { phase: Phase::Done, outcome: Err(err), ..*self };
                    (s, Action::Finish(Err(err)))
                },
            },
        }
    }
}

/// A target that another tool already traces is read without failing on the
/// busy lock: the busy answer leads straight to the read, and once the read
/// is answered the session ends with the read's own result, never asking to
/// release the other tool's lock.
pub proof fn busy_lock_is_read_through_and_kept(len: usize, status: i32, transferred: usize, errno: i32)
    requires
        len > 0,
    ensures
        ({
            let attached = next(initial(len), Event::Attached { status: -1i32, errno: EBUSY });
            let read = next(attached, Event::ReadDone { status, transferred, errno });
            &&& pending(attached) == Action::ReadIo
            &&& attached.trace == TraceState::AttachedByOther
            &&& pending(read) == Action::Finish(io_outcome_spec(status, len, transferred, errno))
        }),
{
}

/// Only a lock that this reader took is ever released, and a read made under
/// such a lock is always followed by the release, whatever the read gave.
pub proof fn detach_exactly_when_lock_is_ours(s: Session, e: Event)
    requires
        s.wf(),
        answers(s.phase, e),
    ensures
        pending(next(s, e)) == Action::Detach ==> s.trace == TraceState::AttachedByUs,
        s.phase == Phase::Reading && s.trace == TraceState::AttachedByUs ==> pending(next(s, e)) == Action::Detach,
{
}

/// A failed release outweighs the read; otherwise the session ends with what
/// the read gave.
pub proof fn detach_result_decides_last(s: Session, status: i32, errno: i32)
    requires
        s.wf(),
        s.phase == Phase::Detaching,
    ensures
        pending(next(s, Event::DetachDone { status, errno })) == Action::Finish(
            if status == -1 { Err(ReadError::Os(errno)) } else { s.outcome },
        ),
{
}

} // verus!
