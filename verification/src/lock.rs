//! The lock engine: from a lock request to the platform's calls, and from
//! the platform's replies to one result.
//!
//! An operation starts with [`lock_shared`], [`lock_exclusive`],
//! [`try_lock_shared`], [`try_lock_exclusive`] or [`unlock`], which give the
//! first [`LockStep`]. While the step is a call, the caller performs it on
//! the open file and hands the reply to [`LockState::resume`]. No lock is
//! remembered here: a state holds the request under way and nothing else.

use vstd::prelude::*;
use crate::error::LockError;
use crate::platform::{LockPrimitive, UnixCodes};

verus! {

/// How a lock is shared with other holders.
#[derive(Clone, Copy, Debug, PartialEq, Eq, Structural)]
pub enum LockMode {
    /// Any number of references may hold it together.
    Shared,
    /// One reference holds it alone.
    Exclusive,
}

/// What to do when the lock cannot be granted at once.
#[derive(Clone, Copy, Debug, PartialEq, Eq, Structural)]
pub enum BlockingPolicy {
    /// Wait until it is granted.
    Wait,
    /// Give up with [`LockError::Contended`].
    FailImmediately,
}

/// A request for a lock.
#[derive(Clone, Copy, Debug, PartialEq, Eq, Structural)]
pub struct LockRequest {
    pub mode: LockMode,
    pub policy: BlockingPolicy,
}

/// An operation of the lock engine.
#[derive(Clone, Copy, Debug, PartialEq, Eq, Structural)]
pub enum LockCommand {
    /// Take the lock; it replaces the one that the reference holds.
    Acquire(LockRequest),
    /// Give up what the reference holds.
    Release,
}

/// The operation of a `flock` call.
#[derive(Clone, Copy, Debug, PartialEq, Eq, Structural)]
pub enum FlockOperation {
    Shared,
    Exclusive,
    Unlock,
}

/// The command form of a record-lock call.
#[derive(Clone, Copy, Debug, PartialEq, Eq, Structural)]
pub enum RecordLockForm {
    /// `F_SETLK`: fail if the lock is held elsewhere.
    NonWaiting,
    /// `F_SETLKW`: wait for the lock.
    Waiting,
}

/// The lock type of a record-lock call.
#[derive(Clone, Copy, Debug, PartialEq, Eq, Structural)]
pub enum RecordLockKind {
    /// `F_RDLCK`.
    Read,
    /// `F_WRLCK`.
    Write,
    /// `F_UNLCK`.
    Unlock,
}

/// A call for the platform to perform on the open file. Every call is on the
/// whole file.
#[derive(Clone, Copy, Debug, PartialEq, Eq, Structural)]
pub enum LockCall {
    /// `flock(fd, operation)`, with `LOCK_NB` if `nonblocking`.
    Flock { operation: FlockOperation, nonblocking: bool },
    /// `fcntl(fd, form, lock)` with a lock of type `kind` from offset 0 and
    /// of length 0, that is to the end of the file.
    RecordLock { form: RecordLockForm, kind: RecordLockKind },
    /// `LockFileEx` on the whole range.
    LockRange { exclusive: bool, fail_immediately: bool },
    /// `UnlockFile` on the whole range.
    UnlockRange,
}

/// Where an operation stands.
#[derive(Clone, Copy, Debug, PartialEq, Eq, Structural)]
pub enum LockPhase {
    /// The lock that the reference holds is being dropped, before the new
    /// one is asked for. Only range locks need this: with them a new lock
    /// does not replace the old one. Between the two calls the reference
    /// holds nothing.
    Clearing,
    /// The call that decides the result is under way.
    Deciding,
}

/// An operation under way.
#[derive(Clone, Copy, Debug, PartialEq, Eq, Structural)]
pub struct LockState {
    pub primitive: LockPrimitive,
    pub command: LockCommand,
    pub phase: LockPhase,
}

/// What comes next in an operation.
#[derive(Clone, Copy, Debug, PartialEq, Eq)]
pub enum LockStep {
    /// Perform `call`, then hand the reply to [`LockState::resume`] of `state`.
    Call { state: LockState, call: LockCall },
    /// The operation is over.
    Done(Result<(), LockError>),
}

/// What an error code of the platform means to the engine.
#[derive(Clone, Copy, Debug, PartialEq, Eq, Structural)]
pub enum Verdict {
    /// There was nothing to unlock: as good as success.
    Nothing,
    /// The lock is held elsewhere.
    Contended,
    /// A signal interrupted the call: it is made again.
    Interrupted,
    /// A failure to report as it is.
    Failure,
}

impl LockCommand {
    /// Whether the operation gives up rather than waits.
    pub open spec fn nonblocking(self) -> bool {
        self matches LockCommand::Acquire(r) && r.policy == BlockingPolicy::FailImmediately
    }

    /// Whether the operation asks for an exclusive lock.
    pub open spec fn exclusive(self) -> bool {
        self matches LockCommand::Acquire(r) && r.mode == LockMode::Exclusive
    }
}

impl LockPrimitive {
    /// The phase in which `command` starts.
    pub open spec fn first_phase(self, command: LockCommand) -> LockPhase {
        if self is RangeLock && command is Acquire {
            LockPhase::Clearing
        } else {
            LockPhase::Deciding
        }
    }

    /// The call that `command` makes in `phase`.
    pub open spec fn call_in(self, command: LockCommand, phase: LockPhase) -> LockCall {
        match self {
            LockPrimitive::Flock(_) => LockCall::Flock {
                operation: match command {
                    LockCommand::Acquire(r) => match r.mode {
                        LockMode::Shared => FlockOperation::Shared,
                        LockMode::Exclusive => FlockOperation::Exclusive,
                    },
                    LockCommand::Release => FlockOperation::Unlock,
                },
                nonblocking: command.nonblocking(),
            },
            LockPrimitive::RecordLock(_) => LockCall::RecordLock {
                form: if command.nonblocking() {
                    RecordLockForm::NonWaiting
                } else {
                    RecordLockForm::Waiting
                },
                kind: match command {
                    LockCommand::Acquire(r) => match r.mode {
                        LockMode::Shared => RecordLockKind::Read,
                        LockMode::Exclusive => RecordLockKind::Write,
                    },
                    LockCommand::Release => RecordLockKind::Unlock,
                },
            },
            LockPrimitive::RangeLock(_) => if command is Acquire && phase == LockPhase::Deciding {
                LockCall::LockRange {
                    exclusive: command.exclusive(),
                    fail_immediately: command.nonblocking(),
                }
            } else {
                LockCall::UnlockRange
            },
        }
    }

    /// Whether `code` says that the lock is held elsewhere.
    pub open spec fn is_contention(self, code: i32) -> bool {
        match self {
            LockPrimitive::Flock(codes) => code == codes.would_block,
            LockPrimitive::RecordLock(codes) => code == codes.would_block || code == codes.denied,
            LockPrimitive::RangeLock(codes) => code == codes.lock_violation,
        }
    }

    /// Whether `code` says that a signal interrupted the call.
    pub open spec fn is_interruption(self, code: i32) -> bool {
        match self {
            LockPrimitive::Flock(codes) => code == codes.interrupted,
            LockPrimitive::RecordLock(codes) => code == codes.interrupted,
            LockPrimitive::RangeLock(_) => false,
        }
    }

    /// Whether `code`, as the reply to `call`, says that there was nothing
    /// to unlock.
    pub open spec fn is_nothing_to_unlock(self, call: LockCall, code: i32) -> bool {
        self matches LockPrimitive::RangeLock(codes) && call is UnlockRange && code
            == codes.not_locked
    }

    /// What `code` means as the reply to `call`. Contention is looked for
    /// before interruption, so that no code of contention is ever retried.
    pub open spec fn verdict(self, call: LockCall, code: i32) -> Verdict {
        if self.is_nothing_to_unlock(call, code) {
            Verdict::Nothing
        } else if self.is_contention(code) {
            Verdict::Contended
        } else if self.is_interruption(code) {
            Verdict::Interrupted
        } else {
            Verdict::Failure
        }
    }

    /// The first step of `command`.
    pub open spec fn first_step(self, command: LockCommand) -> LockStep {
        LockState { primitive: self, command, phase: self.first_phase(command) }.repeated()
    }

    /// The code by which this primitive itself reports contention.
    pub open spec fn contention_code(self) -> i32 {
        match self {
            LockPrimitive::Flock(codes) => codes.would_block,
            LockPrimitive::RecordLock(codes) => codes.would_block,
            LockPrimitive::RangeLock(codes) => codes.lock_violation,
        }
    }

    /// The platform's code for `error`: the code of contention for
    /// [`LockError::Contended`], else the code that the error carries.
    pub fn native_code(&self, error: LockError) -> (code: i32)
        ensures
            code == match error {
                LockError::Contended => self.contention_code(),
                LockError::Os(c) => c,
            },
    {
        match error {
            LockError::Contended => match *self {
                LockPrimitive::Flock(codes) => codes.would_block,
                LockPrimitive::RecordLock(codes) => codes.would_block,
                LockPrimitive::RangeLock(codes) => codes.lock_violation,
            },
            LockError::Os(c) => c,
        }
    }

    /// Reads an error code that came back from `call`.
    pub fn classify(&self, call: LockCall, code: i32) -> (verdict: Verdict)
        ensures
            verdict == self.verdict(call, code),
    {
        match *self {
            LockPrimitive::Flock(codes) => unix_verdict(codes, false, code),
            LockPrimitive::RecordLock(codes) => unix_verdict(codes, true, code),
            LockPrimitive::RangeLock(codes) => {
                let unlocking = match call {
                    LockCall::UnlockRange => true,
                    _ => false,
                };
                if unlocking && code == codes.not_locked {
                    Verdict::Nothing
                } else if code == codes.lock_violation {
                    Verdict::Contended
                } else {
                    Verdict::Failure
                }
            },
        }
    }

    /// Starts `command`.
    pub fn start(&self, command: LockCommand) -> (step: LockStep)
        ensures
            step == self.first_step(command),
            step is Call,
    {
        let acquiring = match command {
            LockCommand::Acquire(_) => true,
            LockCommand::Release => false,
        };
        let phase = match *self {
            LockPrimitive::RangeLock(_) => if acquiring {
                LockPhase::Clearing
            } else {
                LockPhase::Deciding
            },
            _ => LockPhase::Deciding,
        };
        let state = LockState { primitive: *self, command, phase };
        LockStep::Call { state, call: state.call() }
    }
}

/// Reads an error code of a Unix-like system; `emulated` says that record
/// locks stand in for `flock`.
fn unix_verdict(codes: UnixCodes, emulated: bool, code: i32) -> (verdict: Verdict)
    ensures
        verdict == if code == codes.would_block || (emulated && code == codes.denied) {
            Verdict::Contended
        } else if code == codes.interrupted {
            Verdict::Interrupted
        } else {
            Verdict::Failure
        },
{
    if code == codes.would_block || (emulated && code == codes.denied) {
        Verdict::Contended
    } else if code == codes.interrupted {
        Verdict::Interrupted
    } else {
        Verdict::Failure
    }
}

impl LockState {
    /// The call that this state waits for.
    pub open spec fn pending(self) -> LockCall {
        self.primitive.call_in(self.command, self.phase)
    }

    /// The step that makes this state's call (again).
    pub open spec fn repeated(self) -> LockStep {
        LockStep::Call { state: self, call: self.pending() }
    }

    /// The step after this state's call went through.
    pub open spec fn advanced(self) -> LockStep {
        match self.phase {
            LockPhase::Clearing => LockState {
                primitive: self.primitive,
                command: self.command,
                phase: LockPhase::Deciding,
            }.repeated(),
            LockPhase::Deciding => LockStep::Done(Ok(())),
        }
    }

    /// The step after `reply` came back from this state's call.
    pub open spec fn next_step(self, reply: Result<(), i32>) -> LockStep {
        match reply {
            Ok(()) => self.advanced(),
            Err(code) => match self.primitive.verdict(self.pending(), code) {
                Verdict::Nothing => self.advanced(),
                Verdict::Contended => LockStep::Done(Err(LockError::Contended)),
                Verdict::Interrupted => self.repeated(),
                Verdict::Failure => LockStep::Done(Err(LockError::Os(code))),
            },
        }
    }

    /// The call that this state waits for.
    pub fn call(&self) -> (call: LockCall)
        ensures
            call == self.pending(),
    {
        let (acquiring, exclusive, nonblocking) = match self.command {
            LockCommand::Acquire(r) => (
                true,
                match r.mode {
                    LockMode::Exclusive => true,
                    LockMode::Shared => false,
                },
                match r.policy {
                    BlockingPolicy::FailImmediately => true,
                    BlockingPolicy::Wait => false,
                },
            ),
            LockCommand::Release => (false, false, false),
        };
        match self.primitive {
            LockPrimitive::Flock(_) => LockCall::Flock {
                operation: if !acquiring {
                    FlockOperation::Unlock
                } else if exclusive {
                    FlockOperation::Exclusive
                } else {
                    FlockOperation::Shared
                },
                nonblocking,
            },
            LockPrimitive::RecordLock(_) => LockCall::RecordLock {
                form: if nonblocking {
                    RecordLockForm::NonWaiting
                } else {
                    RecordLockForm::Waiting
                },
                kind: if !acquiring {
                    RecordLockKind::Unlock
                } else if exclusive {
                    RecordLockKind::Write
                } else {
                    RecordLockKind::Read
                },
            },
            LockPrimitive::RangeLock(_) => {
                let deciding = match self.phase {
                    LockPhase::Deciding => true,
                    LockPhase::Clearing => false,
                };
                if acquiring && deciding {
                    LockCall::LockRange { exclusive, fail_immediately: nonblocking }
                } else {
                    LockCall::UnlockRange
                }
            },
        }
    }

    /// Takes the reply to this state's call: `Ok` if the call went through,
    /// else the platform's error code. Gives the next step.
    ///
    /// - Contention, in whichever code the platform reports it, ends the
    ///   operation with [`LockError::Contended`].
    /// - After an interruption the same call is made again.
    /// - Unlocking where nothing was locked counts as going through.
    /// - Any other code ends the operation with that code.
    /// - After a call that went through, the operation is over, or, if the
    ///   old lock was being dropped, the new one is asked for.
    pub fn resume(self, reply: Result<(), i32>) -> (step: LockStep)
        ensures
            step == self.next_step(reply),
    {
        let call = self.call();
        match reply {
            Ok(()) => self.advance(),
            Err(code) => match self.primitive.classify(call, code) {
                Verdict::Nothing => self.advance(),
                Verdict::Contended => LockStep::Done(Err(LockError::Contended)),
                Verdict::Interrupted => LockStep::Call { state: self, call },
                Verdict::Failure => LockStep::Done(Err(LockError::Os(code))),
            },
        }
    }

    /// The step after this state's call went through.
    fn advance(self) -> (step: LockStep)
        ensures
            step == self.advanced(),
    {
        match self.phase {
            LockPhase::Clearing => {
                let state = LockState {
                    primitive: self.primitive,
                    command: self.command,
                    phase: LockPhase::Deciding,
                };
                LockStep::Call { state, call: state.call() }
            },
            LockPhase::Deciding => LockStep::Done(Ok(())),
        }
    }
}

/// Starts taking a shared lock, waiting for it if need be.
pub fn lock_shared(primitive: LockPrimitive) -> (step: LockStep)
    ensures
        step == primitive.first_step(
            LockCommand::Acquire(
                LockRequest { mode: LockMode::Shared, policy: BlockingPolicy::Wait },
            ),
        ),
{
    primitive.start(
        LockCommand::Acquire(LockRequest { mode: LockMode::Shared, policy: BlockingPolicy::Wait }),
    )
}

/// Starts taking an exclusive lock, waiting for it if need be.
pub fn lock_exclusive(primitive: LockPrimitive) -> (step: LockStep)
    ensures
        step == primitive.first_step(
            LockCommand::Acquire(
                LockRequest { mode: LockMode::Exclusive, policy: BlockingPolicy::Wait },
            ),
        ),
{
    primitive.start(
        LockCommand::Acquire(
            LockRequest { mode: LockMode::Exclusive, policy: BlockingPolicy::Wait },
        ),
    )
}

/// Starts taking a shared lock, giving up if it is held elsewhere.
pub fn try_lock_shared(primitive: LockPrimitive) -> (step: LockStep)
    ensures
        step == primitive.first_step(
            LockCommand::Acquire(
                LockRequest { mode: LockMode::Shared, policy: BlockingPolicy::FailImmediately },
            ),
        ),
{
    primitive.start(
        LockCommand::Acquire(
            LockRequest { mode: LockMode::Shared, policy: BlockingPolicy::FailImmediately },
        ),
    )
}

/// Starts taking an exclusive lock, giving up if it is held elsewhere.
pub fn try_lock_exclusive(primitive: LockPrimitive) -> (step: LockStep)
    ensures
        step == primitive.first_step(
            LockCommand::Acquire(
                LockRequest { mode: LockMode::Exclusive, policy: BlockingPolicy::FailImmediately },
            ),
        ),
{
    primitive.start(
        LockCommand::Acquire(
            LockRequest { mode: LockMode::Exclusive, policy: BlockingPolicy::FailImmediately },
        ),
    )
}

/// Starts giving up whatever the reference holds.
pub fn unlock(primitive: LockPrimitive) -> (step: LockStep)
    ensures
        step == primitive.first_step(LockCommand::Release),
{
    primitive.start(LockCommand::Release)
}

/// The operation word of a `flock` call: one bit for the operation, and the
/// bit of `LOCK_NB` with it if the call is not to wait.
pub open spec fn flock_word(operation: FlockOperation, nonblocking: bool) -> int {
    let bit: int = match operation {
        FlockOperation::Shared => 1,
        FlockOperation::Exclusive => 2,
        FlockOperation::Unlock => 8,
    };
    if nonblocking {
        bit + 4
    } else {
        bit
    }
}

/// The operation word to hand to `flock` for `operation`.
pub fn flock_flags(operation: FlockOperation, nonblocking: bool) -> (word: i32)
    ensures
        word == flock_word(operation, nonblocking),
{
    let bit = match operation {
        FlockOperation::Shared => lock_sh(),
        FlockOperation::Exclusive => lock_ex(),
        FlockOperation::Unlock => lock_un(),
    };
    if nonblocking {
        let no_wait = lock_nb();
        assert(1i32 | 4i32 == 5i32 && 2i32 | 4i32 == 6i32 && 8i32 | 4i32 == 12i32) by (bit_vector);
        bit | no_wait
    } else {
        bit
    }
}

/// Contention is normalised: whichever of the platform's codes says that the
/// lock is held elsewhere, the operation ends with [`LockError::Contended`],
/// and it ends so for no other code.
pub proof fn lemma_contention_is_normalised(state: LockState, code: i32)
    requires
        !state.primitive.is_nothing_to_unlock(state.pending(), code),
    ensures
        state.primitive.is_contention(code) <==> state.next_step(Err(code)) == LockStep::Done(
            Err(LockError::Contended),
        ),
{
}

/// The step at which an operation stands after the call of `state` was
/// interrupted `times` times in a row, each time with `code`.
pub open spec fn after_interruptions(state: LockState, code: i32, times: nat) -> LockStep
    decreases times,
{
    if times == 0 {
        state.repeated()
    } else {
        match after_interruptions(state, code, (times - 1) as nat) {
            LockStep::Call { state: interrupted, .. } => interrupted.next_step(Err(code)),
            LockStep::Done(result) => LockStep::Done(result),
        }
    }
}

/// Interruptions change nothing: however often the call is interrupted, the
/// operation stands where it stood, about to make the same call.
pub proof fn lemma_interruptions_change_nothing(state: LockState, code: i32, times: nat)
    requires
        state.primitive.is_interruption(code),
        !state.primitive.is_contention(code),
    ensures
        after_interruptions(state, code, times) == state.repeated(),
    decreases times,
{
    if times > 0 {
        lemma_interruptions_change_nothing(state, code, (times - 1) as nat);
    }
}

/// Any other failure keeps its code: what is neither contention nor
/// interruption nor an unlock of nothing ends the operation with the code
/// that the platform gave.
pub proof fn lemma_failure_keeps_its_code(state: LockState, code: i32)
    requires
        state.primitive.verdict(state.pending(), code) == Verdict::Failure,
    ensures
        state.next_step(Err(code)) == LockStep::Done(Err(LockError::Os(code))),
{
}

/// `libc::LOCK_SH`, which is 1 on every system that has it.
#[verifier::external_body]
fn lock_sh() -> (bit: i32)
    ensures
        bit == 1,
{
    libc::LOCK_SH
}

/// `libc::LOCK_EX`, which is 2 on every system that has it.
#[verifier::external_body]
fn lock_ex() -> (bit: i32)
    ensures
        bit == 2,
{
    libc::LOCK_EX
}

/// `libc::LOCK_NB`, which is 4 on every system that has it.
#[verifier::external_body]
fn lock_nb() -> (bit: i32)
    ensures
        bit == 4,
{
    libc::LOCK_NB
}

/// `libc::LOCK_UN`, which is 8 on every system that has it.
#[verifier::external_body]
fn lock_un() -> (bit: i32)
    ensures
        bit == 8,
{
    libc::LOCK_UN
}

} // verus!
