//! What the platforms' commands do to a file's storage, as a ghost model,
//! and what an allocation achieves under it.
//!
//! Nothing here exists at run time. The model keeps three numbers of a file:
//! the bytes reserved for it, its length, and where its file pointer stands.
//! It says what each command may do to them when it goes through and when it
//! fails. [`advance`] plays an allocation against any course of events that
//! the model admits.

use vstd::prelude::*;
use crate::error::IoError;
use crate::platform::AllocationTier;
use crate::allocation::{first_step, AllocStep, Extent, NativeSize, SpaceCommand};

verus! {

/// The storage of a file.
pub struct Space {
    /// The bytes that are reserved for the file.
    pub physical: nat,
    /// The length of the file as a reader sees it.
    pub logical: nat,
    /// Where the file pointer stands.
    pub pointer: nat,
}

/// Whether `extent` is a true measurement of a file in state `space`.
pub open spec fn reports(space: Space, extent: Extent) -> bool {
    &&& extent.allocated.bytes() == space.physical
    &&& extent.len == space.logical
}

/// Whether `command`, going through, may take a file from `before` to
/// `after`. How much more than asked the platform reserves is left open.
pub open spec fn performs(command: SpaceCommand, before: Space, after: Space) -> bool {
    match command {
        SpaceCommand::Reserve { offset, len } => {
            &&& after.physical >= before.physical
            &&& after.physical >= offset + len
            &&& after.logical >= before.logical
            &&& after.logical >= offset + len
        },
        SpaceCommand::Preallocate { len, .. } => {
            &&& after.physical >= before.physical
            &&& after.physical >= len
            &&& after.logical == before.logical
        },
        SpaceCommand::SetLen { len } => {
            &&& after.logical == len
            &&& len >= before.logical ==> after.physical >= before.physical
        },
        SpaceCommand::Seek { offset } => {
            &&& after.physical == before.physical
            &&& after.logical == before.logical
            &&& after.pointer == offset
        },
        SpaceCommand::SetEndOfFile => {
            &&& after.logical == before.pointer
            &&& after.physical >= before.pointer
            &&& before.pointer >= before.logical ==> after.physical >= before.physical
        },
    }
}

/// Whether a command that fails may take a file from `before` to `after`:
/// it may have reserved part of what was asked, and takes nothing back.
pub open spec fn falters(before: Space, after: Space) -> bool {
    &&& after.physical >= before.physical
    &&& after.logical == before.logical
}

/// What happens at one step of an allocation.
pub enum Event {
    /// The file was measured, or measuring failed with a code.
    Measured(Result<Extent, i32>),
    /// A command came back, and left the file in this state.
    Commanded(Result<(), i32>, Space),
}

/// Whether the model admits `event` at `step` on a file in state `space`: a
/// measurement is a true one, and a command does what it may.
pub open spec fn admits(step: AllocStep, space: Space, event: Event) -> bool {
    match (step, event) {
        (AllocStep::Measure(_), Event::Measured(reply)) => reply matches Ok(extent) ==> reports(
            space,
            extent,
        ),
        (AllocStep::Command(state), Event::Commanded(reply, after)) => match reply {
            Ok(()) => performs(state.command, space, after),
            Err(_) => falters(space, after),
        },
        _ => false,
    }
}

/// The step and the state of the file after `event`, which `step` admits.
pub open spec fn after_event(step: AllocStep, space: Space, event: Event) -> (AllocStep, Space) {
    match (step, event) {
        (AllocStep::Measure(state), Event::Measured(reply)) => (state.next_step(reply), space),
        (AllocStep::Command(state), Event::Commanded(reply, after)) => (
            state.next_step(reply),
            after,
        ),
        _ => (step, space),
    }
}

/// Plays the allocation that stands at `step` on a file in state `space`:
/// each step is met by the next of `events`. Gives the step that is reached
/// and the state of the file then; `None` where the events are not a course
/// that the model admits for this allocation.
pub open spec fn advance(step: AllocStep, space: Space, events: Seq<Event>) -> Option<
    (AllocStep, Space),
>
    decreases events.len(),
{
    if events.len() == 0 {
        Some((step, space))
    } else if admits(step, space, events[0]) {
        let (next, after) = after_event(step, space, events[0]);
        advance(next, after, events.skip(1))
    } else {
        None
    }
}

/// The result of the allocation that stands at `step`, and the state of the
/// file, if `events` take it to its end.
pub open spec fn follow(step: AllocStep, space: Space, events: Seq<Event>) -> Option<
    (Result<(), IoError>, Space),
> {
    match advance(step, space, events) {
        Some((AllocStep::Done(result), end)) => Some((result, end)),
        _ => None,
    }
}

/// Whether `command` asks for `len` bytes, no more and no less, counted from
/// the start of the file.
pub open spec fn asks_for(command: SpaceCommand, len: u64) -> bool {
    match command {
        SpaceCommand::Reserve { offset, len: l } => offset == 0 && l == len,
        SpaceCommand::Preallocate { len: l, .. } => l == len,
        SpaceCommand::SetLen { len: l } => l == len,
        SpaceCommand::Seek { offset } => offset == len,
        SpaceCommand::SetEndOfFile => true,
    }
}

/// What an allocation of `len` bytes owes when it ends well, on a file that
/// was in state `start`: the length is at least `len`; except where only the
/// length is seen to, at least `len` bytes are reserved; no less is reserved
/// than before; and the file is no shorter than before, except where the
/// end of file is set to force the allocation.
pub open spec fn fulfilled(tier: AllocationTier, len: u64, start: Space, end: Space) -> bool {
    &&& end.logical >= len
    &&& end.physical >= start.physical
    &&& tier != AllocationTier::LengthOnly ==> end.physical >= len
    &&& tier != AllocationTier::EndOfFile ==> end.logical >= start.logical
}

/// What holds of an allocation of `len` bytes under way, at `step` with the
/// file in state `space`:
/// - nothing was taken from the file so far;
/// - a command asks for `len` bytes exactly, a length is set only where the
///   file is shorter, and the end of file is set where the pointer stands at
///   `len`;
/// - each step is one of the tier, and space is asked for only while less
///   than `len` bytes are reserved;
/// - an allocation that has ended well is fulfilled.
pub open spec fn on_course(
    tier: AllocationTier,
    len: u64,
    start: Space,
    step: AllocStep,
    space: Space,
) -> bool {
    &&& space.physical >= start.physical
    &&& tier != AllocationTier::EndOfFile ==> space.logical >= start.logical
    &&& match step {
        AllocStep::Done(result) => result is Ok ==> fulfilled(tier, len, start, space),
        AllocStep::Measure(state) => {
            &&& state.len == len
            &&& state.tier == tier
            &&& tier != AllocationTier::Native
            &&& state.allocated ==> tier == AllocationTier::EndOfFile && space.physical >= len
        },
        AllocStep::Command(state) => {
            &&& state.len == len
            &&& asks_for(state.command, len)
            &&& match state.command {
                SpaceCommand::Reserve { .. } => tier == AllocationTier::Native,
                SpaceCommand::Preallocate { .. } => {
                    &&& tier == AllocationTier::ContiguousPreferring
                    &&& state.measured_len == space.logical
                    &&& len > start.physical
                },
                SpaceCommand::SetLen { .. } => {
                    &&& tier != AllocationTier::Native
                    &&& len > space.logical
                    &&& tier != AllocationTier::LengthOnly ==> space.physical >= len
                },
                SpaceCommand::Seek { .. } => {
                    &&& tier == AllocationTier::EndOfFile
                    &&& len > space.physical
                },
                SpaceCommand::SetEndOfFile => {
                    &&& tier == AllocationTier::EndOfFile
                    &&& len > space.physical
                    &&& space.pointer == len
                },
            }
        },
    }
}

/// One event keeps an allocation on course.
proof fn lemma_event_keeps_course(
    tier: AllocationTier,
    len: u64,
    start: Space,
    step: AllocStep,
    space: Space,
    event: Event,
)
    requires
        on_course(tier, len, start, step, space),
        admits(step, space, event),
    ensures
        on_course(
            tier,
            len,
            start,
            after_event(step, space, event).0,
            after_event(step, space, event).1,
        ),
{
}

/// An allocation stays on course: whatever the events, within what the
/// model admits, [`on_course`] holds of every step that is reached.
pub proof fn lemma_allocation_stays_on_course(
    tier: AllocationTier,
    len: u64,
    start: Space,
    step: AllocStep,
    space: Space,
    events: Seq<Event>,
)
    requires
        on_course(tier, len, start, step, space),
    ensures
        advance(step, space, events) matches Some((reached, then)) ==> on_course(
            tier,
            len,
            start,
            reached,
            then,
        ),
    decreases events.len(),
{
    if events.len() > 0 && admits(step, space, events[0]) {
        lemma_event_keeps_course(tier, len, start, step, space, events[0]);
        let (next, after) = after_event(step, space, events[0]);
        lemma_allocation_stays_on_course(tier, len, start, next, after, events.skip(1));
    }
}

/// Allocation reaches what was asked. Whatever the platform did on the way,
/// within what the model admits: an allocation of `len` bytes that ends well
/// leaves the file at least `len` bytes long, with no less reserved than
/// before, and, except where only the length is seen to, with at least `len`
/// bytes reserved.
pub proof fn lemma_allocate_reaches(
    tier: AllocationTier,
    len: u64,
    start: Space,
    events: Seq<Event>,
)
    ensures
        follow(first_step(tier, len), start, events) matches Some((result, end)) ==> (result is Ok
            ==> fulfilled(tier, len, start, end)),
{
    lemma_allocation_stays_on_course(tier, len, start, first_step(tier, len), start, events);
}

/// Allocation monotonicity. After an allocation of `len` bytes that ended
/// well, every true measurement of the file shows at least `len` bytes
/// reserved, which is what [`crate::allocation::allocated_size`] gives for
/// it, and a length of at least `len`. Where only the length is seen to,
/// the length alone is owed.
pub proof fn lemma_measured_after_allocate(
    tier: AllocationTier,
    len: u64,
    start: Space,
    events: Seq<Event>,
    extent: Extent,
)
    requires
        follow(first_step(tier, len), start, events) matches Some((result, end)) && result is Ok
            && reports(end, extent),
    ensures
        extent.len >= len,
        tier != AllocationTier::LengthOnly ==> extent.allocated.bytes() >= len,
{
    lemma_allocate_reaches(tier, len, start, events);
}

/// The length is never cut down: every command that an allocation of `len`
/// bytes comes to asks for `len` bytes exactly.
pub proof fn lemma_length_is_never_cut(
    tier: AllocationTier,
    len: u64,
    start: Space,
    events: Seq<Event>,
)
    ensures
        advance(first_step(tier, len), start, events) matches Some((AllocStep::Command(state), _))
            ==> asks_for(state.command, len),
{
    lemma_allocation_stays_on_course(tier, len, start, first_step(tier, len), start, events);
}

/// How many events an allocation at `step` can still meet.
pub open spec fn events_left(step: AllocStep) -> nat {
    match step {
        AllocStep::Done(_) => 0,
        AllocStep::Measure(state) => if state.allocated {
            2
        } else {
            5
        },
        AllocStep::Command(state) => match state.command {
            SpaceCommand::Reserve { .. } => 1,
            SpaceCommand::Preallocate { contiguous: true, .. } => 3,
            SpaceCommand::Preallocate { contiguous: false, .. } => 2,
            SpaceCommand::SetLen { .. } => 1,
            SpaceCommand::Seek { .. } => 4,
            SpaceCommand::SetEndOfFile => 3,
        },
    }
}

/// Every event brings an allocation nearer to its end.
proof fn lemma_event_brings_nearer(step: AllocStep, space: Space, event: Event)
    requires
        admits(step, space, event),
    ensures
        events_left(after_event(step, space, event).0) < events_left(step),
{
}

/// An allocation ends: from `step` it meets no more than
/// [`events_left`]`(step)` events, whatever they are.
pub proof fn lemma_allocation_ends(step: AllocStep, space: Space, events: Seq<Event>)
    ensures
        advance(step, space, events) is Some ==> events.len() <= events_left(step),
    decreases events.len(),
{
    if events.len() > 0 && admits(step, space, events[0]) {
        lemma_event_brings_nearer(step, space, events[0]);
        let (next, after) = after_event(step, space, events[0]);
        lemma_allocation_ends(next, after, events.skip(1));
    }
}

/// Where enough is reserved and the file is long enough, an allocation that
/// measures first asks nothing more of the platform and succeeds.
pub proof fn lemma_enough_is_left_alone(tier: AllocationTier, len: u64, extent: Extent)
    requires
        tier != AllocationTier::Native,
        extent.allocated.bytes() >= len,
        extent.len >= len,
    ensures
        first_step(tier, len) matches AllocStep::Measure(state) && state.next_step(Ok(extent))
            == AllocStep::Done(Ok(())),
{
}

/// The file that has at least `len` bytes reserved and is at least `len`
/// bytes long, and is else as `start`.
pub open spec fn grown(start: Space, len: u64) -> Space {
    Space {
        physical: if start.physical >= len {
            start.physical
        } else {
            len as nat
        },
        logical: if start.logical >= len {
            start.logical
        } else {
            len as nat
        },
        pointer: start.pointer,
    }
}

/// A course of events on which nothing fails: the platform reserves what is
/// asked and no more.
pub open spec fn smooth_course(tier: AllocationTier, len: u64, start: Space) -> Seq<Event> {
    let measured = Event::Measured(
        Ok(Extent { allocated: NativeSize::Bytes(start.physical as u64), len: start.logical as u64 }),
    );
    let reserved = Space { physical: grown(start, len).physical, ..start };
    let extended = Event::Commanded(Ok(()), Space { logical: len as nat, ..reserved });
    match tier {
        AllocationTier::Native => seq![Event::Commanded(Ok(()), grown(start, len))],
        AllocationTier::LengthOnly => if len > start.logical {
            seq![measured, Event::Commanded(Ok(()), Space { logical: len as nat, ..start })]
        } else {
            seq![measured]
        },
        AllocationTier::ContiguousPreferring => if len > start.physical {
            if len > start.logical {
                seq![measured, Event::Commanded(Ok(()), reserved), extended]
            } else {
                seq![measured, Event::Commanded(Ok(()), reserved)]
            }
        } else if len > start.logical {
            seq![measured, extended]
        } else {
            seq![measured]
        },
        AllocationTier::EndOfFile => if len > start.physical {
            let sought = Space { pointer: len as nat, ..start };
            let cut = Space { physical: len as nat, logical: len as nat, pointer: len as nat };
            seq![
                measured,
                Event::Commanded(Ok(()), sought),
                Event::Commanded(Ok(()), cut),
                Event::Measured(
                    Ok(Extent { allocated: NativeSize::Bytes(len), len }),
                ),
            ]
        } else if len > start.logical {
            seq![measured, extended]
        } else {
            seq![measured]
        },
    }
}

/// Allocation can end well: the model admits a course of events on which
/// every allocation succeeds, for a file whose numbers fit in 64 bits.
pub proof fn lemma_allocation_can_end_well(tier: AllocationTier, len: u64, start: Space)
    requires
        start.physical <= u64::MAX,
        start.logical <= u64::MAX,
    ensures
        follow(first_step(tier, len), start, smooth_course(tier, len, start)) matches Some(
            (result, end),
        ) && result is Ok,
{
    reveal_with_fuel(advance, 6);
}

} // verus!
