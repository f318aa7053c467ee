//! The platforms' locking rules, as a ghost model, and what the lock engine
//! achieves under them.
//!
//! The operating system keeps the table of locks; nothing here exists at run
//! time. The model says who owns a lock on each platform, when a request is
//! granted, and what a call does to the table. [`run`] plays an operation of
//! the engine against it. The laws at the end are proved of every table and
//! every owner.

use vstd::prelude::*;
use crate::error::LockError;
use crate::platform::LockPrimitive;
use crate::lock::{
    BlockingPolicy, FlockOperation, LockCall, LockCommand, LockMode, LockRequest, LockStep,
    RecordLockForm, RecordLockKind,
};

verus! {

/// An open file reference, as far as the ownership of locks goes.
pub struct Reference {
    /// The process that holds the reference.
    pub process: nat,
    /// The open file description (on Windows: the file object) behind it.
    pub description: nat,
    /// The descriptor or handle itself.
    pub handle: nat,
}

impl Reference {
    /// The duplicate of this reference under the new descriptor or handle
    /// `handle`: same process, same open file description.
    pub open spec fn duplicate(self, handle: nat) -> Reference {
        Reference { process: self.process, description: self.description, handle }
    }

    /// To whom a lock taken through this reference belongs: with `flock` to
    /// the open file description, with record locks to the process, with
    /// range locks to the handle.
    ///
    /// The platforms differ in this, and the difference is theirs to keep.
    /// With `flock` a duplicate shares the lock of its original, and the lock
    /// goes when the last of them is closed. With range locks a duplicate has
    /// no part in the lock of its original, and yet the lock stays until the
    /// handle and all its duplicates are closed. Closing is not part of this
    /// model.
    pub open spec fn owner(self, primitive: LockPrimitive) -> nat {
        match primitive {
            LockPrimitive::Flock(_) => self.description,
            LockPrimitive::RecordLock(_) => self.process,
            LockPrimitive::RangeLock(_) => self.handle,
        }
    }
}

/// The locks of one owner on one file.
pub struct Holding {
    pub exclusive: bool,
    /// How many shared locks. Only range locks pile up.
    pub shared: nat,
}

impl Holding {
    pub open spec fn nothing() -> Holding {
        Holding { exclusive: false, shared: 0 }
    }

    /// One lock of mode `mode`.
    pub open spec fn only(mode: LockMode) -> Holding {
        match mode {
            LockMode::Shared => Holding { exclusive: false, shared: 1 },
            LockMode::Exclusive => Holding { exclusive: true, shared: 0 },
        }
    }

    /// This holding and one more lock of mode `mode`.
    pub open spec fn and(self, mode: LockMode) -> Holding {
        match mode {
            LockMode::Shared => Holding { exclusive: self.exclusive, shared: self.shared + 1 },
            LockMode::Exclusive => Holding { exclusive: true, shared: self.shared },
        }
    }

    /// This holding less one lock: the exclusive one if there is one, else a
    /// shared one.
    pub open spec fn less_one(self) -> Holding {
        if self.exclusive {
            Holding { exclusive: false, shared: self.shared }
        } else {
            Holding { exclusive: false, shared: (self.shared - 1) as nat }
        }
    }

    /// Nothing, or one lock.
    pub open spec fn single(self) -> bool {
        ||| self == Holding::nothing()
        ||| self == Holding::only(LockMode::Shared)
        ||| self == Holding::only(LockMode::Exclusive)
    }

    /// Whether this holding keeps another owner from a lock of mode `mode`.
    pub open spec fn bars(self, mode: LockMode) -> bool {
        match mode {
            LockMode::Shared => self.exclusive,
            LockMode::Exclusive => self != Holding::nothing(),
        }
    }
}

/// The locks on one file: what each owner holds.
pub struct LockTable {
    pub held: Map<nat, Holding>,
}

impl LockTable {
    /// What `owner` holds.
    pub open spec fn of(self, owner: nat) -> Holding {
        if self.held.dom().contains(owner) {
            self.held[owner]
        } else {
            Holding::nothing()
        }
    }

    /// The table in which `owner` holds `holding`.
    pub open spec fn put(self, owner: nat, holding: Holding) -> LockTable {
        LockTable { held: self.held.insert(owner, holding) }
    }

    /// No one but `owner` holds a lock.
    pub open spec fn only_holder(self, owner: nat) -> bool {
        forall|o: nat| o != owner ==> #[trigger] self.of(o) == Holding::nothing()
    }
}

/// What a platform does where its rules leave it open.
pub struct Habits {
    /// The code with which a request is refused.
    pub busy: i32,
    /// Whether a refused request costs the requester the lock it held
    /// (`flock` may drop the old lock before it asks for the new one).
    pub forfeits: bool,
}

impl Habits {
    /// `busy` is a code by which `primitive` reports contention, and only
    /// `flock` forfeits.
    pub open spec fn fits(self, primitive: LockPrimitive) -> bool {
        &&& primitive.is_contention(self.busy)
        &&& self.forfeits ==> primitive is Flock
    }
}

/// Whether no owner but `owner` keeps a lock of mode `mode` from it.
pub open spec fn unbarred(table: LockTable, owner: nat, mode: LockMode) -> bool {
    forall|o: nat| o != owner ==> !(#[trigger] table.of(o)).bars(mode)
}

/// Whether `owner` can have a lock of mode `mode` now. With `flock` and
/// record locks only the locks of others count, and the owner's own lock is
/// replaced. With range locks the owner's own locks count too: it can add a
/// shared lock to its exclusive one, and nothing to a lock that keeps
/// others out.
pub open spec fn grantable(
    primitive: LockPrimitive,
    table: LockTable,
    owner: nat,
    mode: LockMode,
) -> bool {
    &&& unbarred(table, owner, mode)
    &&& primitive is RangeLock && mode == LockMode::Exclusive ==> table.of(owner)
        == Holding::nothing()
}

/// The reply to a request for a lock of mode `mode`, and the table after it.
/// A lock that can be granted is granted: with `flock` and record locks it
/// takes the place of the owner's lock, with range locks it is one more. One
/// that cannot is refused if the request is not to wait. `None`: the call
/// waits.
pub open spec fn answer_request(
    primitive: LockPrimitive,
    habits: Habits,
    table: LockTable,
    owner: nat,
    mode: LockMode,
    nonblocking: bool,
) -> Option<(Result<(), i32>, LockTable)> {
    if grantable(primitive, table, owner, mode) {
        let holding = if primitive is RangeLock {
            table.of(owner).and(mode)
        } else {
            Holding::only(mode)
        };
        Some((Ok(()), table.put(owner, holding)))
    } else if nonblocking {
        let left = if habits.forfeits {
            table.put(owner, Holding::nothing())
        } else {
            table
        };
        Some((Err(habits.busy), left))
    } else {
        None
    }
}

/// The reply of the platform to `call` by `owner`, and the table after it.
/// Unlocking gives up the owner's lock, and with range locks one lock at a
/// time; there it fails where nothing is locked. `None`: the call waits, or
/// the platform has no such call.
pub open spec fn answer(
    primitive: LockPrimitive,
    habits: Habits,
    table: LockTable,
    owner: nat,
    call: LockCall,
) -> Option<(Result<(), i32>, LockTable)> {
    match (primitive, call) {
        (LockPrimitive::Flock(_), LockCall::Flock { operation, nonblocking }) => match operation {
            FlockOperation::Shared => answer_request(
                primitive,
                habits,
                table,
                owner,
                LockMode::Shared,
                nonblocking,
            ),
            FlockOperation::Exclusive => answer_request(
                primitive,
                habits,
                table,
                owner,
                LockMode::Exclusive,
                nonblocking,
            ),
            FlockOperation::Unlock => Some((Ok(()), table.put(owner, Holding::nothing()))),
        },
        (LockPrimitive::RecordLock(_), LockCall::RecordLock { form, kind }) => match kind {
            RecordLockKind::Read => answer_request(
                primitive,
                habits,
                table,
                owner,
                LockMode::Shared,
                form == RecordLockForm::NonWaiting,
            ),
            RecordLockKind::Write => answer_request(
                primitive,
                habits,
                table,
                owner,
                LockMode::Exclusive,
                form == RecordLockForm::NonWaiting,
            ),
            RecordLockKind::Unlock => Some((Ok(()), table.put(owner, Holding::nothing()))),
        },
        (LockPrimitive::RangeLock(_), LockCall::LockRange { exclusive, fail_immediately }) => {
            let mode = if exclusive {
                LockMode::Exclusive
            } else {
                LockMode::Shared
            };
            answer_request(primitive, habits, table, owner, mode, fail_immediately)
        },
        (LockPrimitive::RangeLock(codes), LockCall::UnlockRange) => {
            if table.of(owner) == Holding::nothing() {
                Some((Err(codes.not_locked), table))
            } else {
                Some((Ok(()), table.put(owner, table.of(owner).less_one())))
            }
        },
        _ => None,
    }
}

/// Plays the operation that stands at `step` to its end, for at most `calls`
/// calls: each call of the engine gets the platform's answer, and the engine
/// the reply. Gives the result and the table after it; `None` if a call waits.
pub open spec fn follow(
    primitive: LockPrimitive,
    habits: Habits,
    step: LockStep,
    table: LockTable,
    owner: nat,
    calls: nat,
) -> Option<(Result<(), LockError>, LockTable)>
    decreases calls,
{
    match step {
        LockStep::Done(result) => Some((result, table)),
        LockStep::Call { state, call } => if calls == 0 {
            None
        } else {
            match answer(primitive, habits, table, owner, call) {
                None => None,
                Some((reply, after)) => follow(
                    primitive,
                    habits,
                    state.next_step(reply),
                    after,
                    owner,
                    (calls - 1) as nat,
                ),
            }
        },
    }
}

/// Plays `command` by `owner` from its first step. No operation takes more
/// than two calls while none is interrupted.
pub open spec fn run(
    primitive: LockPrimitive,
    habits: Habits,
    command: LockCommand,
    table: LockTable,
    owner: nat,
) -> Option<(Result<(), LockError>, LockTable)> {
    follow(primitive, habits, primitive.first_step(command), table, owner, 2)
}

/// The operation that asks for a lock of mode `mode` without waiting.
pub open spec fn trying(mode: LockMode) -> LockCommand {
    LockCommand::Acquire(LockRequest { mode, policy: BlockingPolicy::FailImmediately })
}

/// The operation that asks for a lock of mode `mode` and waits for it.
pub open spec fn waiting(mode: LockMode) -> LockCommand {
    LockCommand::Acquire(LockRequest { mode, policy: BlockingPolicy::Wait })
}

/// `outcome` is a result `result` with a table in which `owner` holds
/// `holding` and no one else holds anything.
pub open spec fn ends_with(
    outcome: Option<(Result<(), LockError>, LockTable)>,
    result: Result<(), LockError>,
    owner: nat,
    holding: Holding,
) -> bool {
    outcome matches Some((r, t)) && r == result && t.of(owner) == holding && t.only_holder(owner)
}

/// `outcome` is the refusal: the contended error.
pub open spec fn refused(outcome: Option<(Result<(), LockError>, LockTable)>) -> bool {
    outcome matches Some((r, _)) && r == Err::<(), LockError>(LockError::Contended)
}

/// `outcome` is success.
pub open spec fn granted(outcome: Option<(Result<(), LockError>, LockTable)>) -> bool {
    outcome matches Some((r, _)) && r == Ok::<(), LockError>(())
}

/// What `put` does to the table: `owner` holds `holding`, all others what
/// they held.
proof fn lemma_put(table: LockTable, owner: nat, holding: Holding)
    ensures
        table.put(owner, holding).of(owner) == holding,
        forall|o: nat| o != owner ==> #[trigger] table.put(owner, holding).of(o) == table.of(o),
        table.only_holder(owner) ==> table.put(owner, holding).only_holder(owner),
{
    assert forall|o: nat| o != owner implies #[trigger] table.put(owner, holding).of(o)
        == table.of(o) by {}
}

/// Taking a lock replaces the lock that the owner holds, on every platform:
/// an owner that holds a lock of mode `old` and asks for one of mode `new`
/// gets it, and then holds that lock and no other.
pub proof fn lemma_acquire_replaces(
    primitive: LockPrimitive,
    habits: Habits,
    table: LockTable,
    owner: nat,
    old: LockMode,
    new: LockMode,
    policy: BlockingPolicy,
)
    requires
        habits.fits(primitive),
        table.of(owner) == Holding::only(old),
        table.only_holder(owner),
    ensures
        ends_with(
            run(
                primitive,
                habits,
                LockCommand::Acquire(LockRequest { mode: new, policy }),
                table,
                owner,
            ),
            Ok(()),
            owner,
            Holding::only(new),
        ),
{
    reveal_with_fuel(follow, 3);
    let cleared = table.put(owner, Holding::nothing());
    lemma_put(table, owner, Holding::nothing());
    lemma_put(table, owner, Holding::only(new));
    lemma_put(cleared, owner, Holding::only(new));
}

/// Lock replacement, seen from a second owner. While `a` holds an exclusive
/// lock, `b` is refused a shared one. Once `a` has asked for a shared lock,
/// which it gets, `a` holds a shared lock and `b` gets one too.
pub proof fn lemma_lock_replacement(
    primitive: LockPrimitive,
    habits: Habits,
    table: LockTable,
    a: nat,
    b: nat,
)
    requires
        habits.fits(primitive),
        a != b,
        table.of(a) == Holding::only(LockMode::Exclusive),
        table.only_holder(a),
    ensures
        refused(run(primitive, habits, trying(LockMode::Shared), table, b)),
        ends_with(
            run(primitive, habits, waiting(LockMode::Shared), table, a),
            Ok(()),
            a,
            Holding::only(LockMode::Shared),
        ),
        run(primitive, habits, waiting(LockMode::Shared), table, a) matches Some((_, after))
            && granted(run(primitive, habits, trying(LockMode::Shared), after, b)),
{
    reveal_with_fuel(follow, 3);
    lemma_acquire_replaces(
        primitive,
        habits,
        table,
        a,
        LockMode::Exclusive,
        LockMode::Shared,
        BlockingPolicy::Wait,
    );
    let outcome = run(primitive, habits, waiting(LockMode::Shared), table, a)->0;
    let after = outcome.1;
    assert forall|o: nat| o != b implies !(#[trigger] after.of(o)).bars(LockMode::Shared) by {}
}

/// Contention symmetry. While `a` holds an exclusive lock, `b` is refused a
/// shared lock and an exclusive one, each time with the contended error.
/// Once `a` has unlocked, which succeeds, `b` gets either.
pub proof fn lemma_contention_symmetry(
    primitive: LockPrimitive,
    habits: Habits,
    table: LockTable,
    a: nat,
    b: nat,
    mode: LockMode,
)
    requires
        habits.fits(primitive),
        a != b,
        table.of(a) == Holding::only(LockMode::Exclusive),
        table.only_holder(a),
    ensures
        refused(run(primitive, habits, trying(mode), table, b)),
        ends_with(
            run(primitive, habits, LockCommand::Release, table, a),
            Ok(()),
            a,
            Holding::nothing(),
        ),
        run(primitive, habits, LockCommand::Release, table, a) matches Some((_, after))
            && granted(run(primitive, habits, trying(mode), after, b)),
{
    reveal_with_fuel(follow, 3);
    let after = table.put(a, Holding::nothing());
    lemma_put(table, a, Holding::nothing());
    assert forall|o: nat| #[trigger] after.of(o) == Holding::nothing() by {
        if o != a {
            assert(table.of(o) == Holding::nothing());
        }
    }
}

/// Unlocking gives up what the owner holds and always succeeds; where the
/// owner holds nothing, it changes nothing.
pub proof fn lemma_unlock_releases(
    primitive: LockPrimitive,
    habits: Habits,
    table: LockTable,
    owner: nat,
)
    requires
        table.of(owner).single(),
    ensures
        run(primitive, habits, LockCommand::Release, table, owner) matches Some((r, after)) && r
            == Ok::<(), LockError>(()) && after.of(owner) == Holding::nothing() && forall|o: nat|
            o != owner ==> #[trigger] after.of(o) == table.of(o),
{
    reveal_with_fuel(follow, 3);
}

/// Trying never waits. An owner that holds nothing or one lock and tries for
/// a lock gets an answer at once: the lock, exactly if no other owner bars
/// it, else the contended error.
pub proof fn lemma_trying_never_waits(
    primitive: LockPrimitive,
    habits: Habits,
    table: LockTable,
    owner: nat,
    mode: LockMode,
)
    requires
        habits.fits(primitive),
        table.of(owner).single(),
    ensures
        unbarred(table, owner, mode) ==> granted(
            run(primitive, habits, trying(mode), table, owner),
        ),
        !unbarred(table, owner, mode) ==> refused(
            run(primitive, habits, trying(mode), table, owner),
        ),
{
    reveal_with_fuel(follow, 3);
    let cleared = table.put(owner, Holding::nothing());
    lemma_put(table, owner, Holding::nothing());
    if !unbarred(table, owner, mode) {
        let other = choose|o: nat| o != owner && (#[trigger] table.of(o)).bars(mode);
        assert(cleared.of(other).bars(mode));
    }
}

/// Waiting never reports contention. An owner that holds nothing or one
/// lock and waits for a lock either gets it, or gets no answer yet.
pub proof fn lemma_waiting_is_never_refused(
    primitive: LockPrimitive,
    habits: Habits,
    table: LockTable,
    owner: nat,
    mode: LockMode,
)
    requires
        habits.fits(primitive),
        table.of(owner).single(),
    ensures
        run(primitive, habits, waiting(mode), table, owner) matches Some(_) ==> granted(
            run(primitive, habits, waiting(mode), table, owner),
        ),
        unbarred(table, owner, mode) ==> granted(
            run(primitive, habits, waiting(mode), table, owner),
        ),
{
    reveal_with_fuel(follow, 3);
    lemma_put(table, owner, Holding::nothing());
}

/// An owner never holds more than one lock through the engine: where it
/// holds nothing or one lock, it holds nothing or one lock after any
/// operation, and the locks of others are as they were.
pub proof fn lemma_holding_stays_single(
    primitive: LockPrimitive,
    habits: Habits,
    command: LockCommand,
    table: LockTable,
    owner: nat,
)
    requires
        habits.fits(primitive),
        table.of(owner).single(),
    ensures
        run(primitive, habits, command, table, owner) matches Some((_, after)) ==> after.of(
            owner,
        ).single() && forall|o: nat| o != owner ==> #[trigger] after.of(o) == table.of(o),
{
    reveal_with_fuel(follow, 3);
}

/// Duplicates share a lock where locks belong to the open file description
/// or to the process. The duplicate `a.duplicate(handle)` has the owner of
/// `a`: a lock placed through either is replaced through the other, here the
/// exclusive lock by a shared one. A reference `b` of another owner is
/// refused while that exclusive lock is held, whichever of the two placed it.
pub proof fn lemma_duplicates_share(
    primitive: LockPrimitive,
    habits: Habits,
    table: LockTable,
    a: Reference,
    handle: nat,
    b: Reference,
    mode: LockMode,
)
    requires
        !(primitive is RangeLock),
        habits.fits(primitive),
        a.owner(primitive) != b.owner(primitive),
        table.of(a.owner(primitive)) == Holding::only(LockMode::Exclusive),
        table.only_holder(a.owner(primitive)),
    ensures
        a.duplicate(handle).owner(primitive) == a.owner(primitive),
        ends_with(
            run(
                primitive,
                habits,
                waiting(LockMode::Shared),
                table,
                a.duplicate(handle).owner(primitive),
            ),
            Ok(()),
            a.owner(primitive),
            Holding::only(LockMode::Shared),
        ),
        refused(run(primitive, habits, trying(mode), table, b.owner(primitive))),
{
    lemma_lock_replacement(primitive, habits, table, a.owner(primitive), b.owner(primitive));
    lemma_contention_symmetry(
        primitive,
        habits,
        table,
        a.owner(primitive),
        b.owner(primitive),
        mode,
    );
}

/// Duplicates do not share a lock where locks belong to the handle. The
/// duplicate `a.duplicate(handle)` is an owner of its own: while `a` holds an
/// exclusive lock the duplicate holds nothing, and is refused a lock of
/// either mode with the contended error.
pub proof fn lemma_duplicates_are_independent(
    primitive: LockPrimitive,
    habits: Habits,
    table: LockTable,
    a: Reference,
    handle: nat,
    mode: LockMode,
)
    requires
        primitive is RangeLock,
        habits.fits(primitive),
        handle != a.handle,
        table.of(a.owner(primitive)) == Holding::only(LockMode::Exclusive),
        table.only_holder(a.owner(primitive)),
    ensures
        a.duplicate(handle).owner(primitive) != a.owner(primitive),
        table.of(a.duplicate(handle).owner(primitive)) == Holding::nothing(),
        refused(
            run(primitive, habits, trying(mode), table, a.duplicate(handle).owner(primitive)),
        ),
{
    lemma_contention_symmetry(
        primitive,
        habits,
        table,
        a.owner(primitive),
        a.duplicate(handle).owner(primitive),
        mode,
    );
}

} // verus!
