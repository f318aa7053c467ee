//! The allocation engine: making sure that a file has a number of bytes of
//! storage behind it, by the best means that the platform has.
//!
//! [`allocate`] gives the first [`AllocStep`] of the operation. A step asks
//! the caller to measure the file, or to perform a command on it, and takes
//! the reply in `resume`. [`allocated_size`] reads a measurement.
//!
//! The requested length goes into every command as it is: nothing here
//! rounds it or cuts it down.

use vstd::prelude::*;
use crate::error::IoError;
use crate::platform::AllocationTier;

verus! {

/// The size of a block in which Unix-like systems count a file's allocation.
pub const BLOCK_BYTES: u64 = 512;

/// The allocation of a file, as the platform reports it.
#[derive(Clone, Copy, Debug, PartialEq, Eq, Structural)]
pub enum NativeSize {
    /// A number of blocks of [`BLOCK_BYTES`] bytes (`st_blocks`).
    Blocks(u64),
    /// A number of bytes (`AllocationSize`).
    Bytes(u64),
}

/// A measurement of a file.
#[derive(Clone, Copy, Debug, PartialEq, Eq, Structural)]
pub struct Extent {
    /// The storage that is reserved for the file.
    pub allocated: NativeSize,
    /// The length of the file as a reader sees it. It may be more than the
    /// allocation (a sparse file) or less.
    pub len: u64,
}

/// A command for the platform to perform on the open file.
#[derive(Clone, Copy, Debug, PartialEq, Eq, Structural)]
pub enum SpaceCommand {
    /// `posix_fallocate(fd, offset, len)`: reserve the range and extend the
    /// length to its end.
    Reserve { offset: u64, len: u64 },
    /// `fcntl(fd, F_PREALLOCATE)` for `len` bytes: in one piece if
    /// `contiguous`, else in as many as it takes.
    Preallocate { contiguous: bool, len: u64 },
    /// Set the length of the file to `len`.
    SetLen { len: u64 },
    /// Move the file pointer to `offset` from the start.
    Seek { offset: u64 },
    /// Put the end of the file where the file pointer is.
    SetEndOfFile,
}

/// An allocation that waits for a measurement.
#[derive(Clone, Copy, Debug, PartialEq, Eq, Structural)]
pub struct Measuring {
    pub tier: AllocationTier,
    /// The requested length.
    pub len: u64,
    /// Whether the allocation is settled, and the measurement is for the
    /// length alone.
    pub allocated: bool,
}

/// An allocation that waits for a command to come back.
#[derive(Clone, Copy, Debug, PartialEq, Eq, Structural)]
pub struct Commanding {
    /// The requested length.
    pub len: u64,
    /// The length of the file when it was measured.
    pub measured_len: u64,
    /// The command under way.
    pub command: SpaceCommand,
}

/// What comes next in an allocation.
#[derive(Clone, Copy, Debug, PartialEq, Eq)]
pub enum AllocStep {
    /// Measure the file, then hand the reply to [`Measuring::resume`].
    Measure(Measuring),
    /// Perform the command of the state, then hand the reply to
    /// [`Commanding::resume`].
    Command(Commanding),
    /// The operation is over.
    Done(Result<(), IoError>),
}

impl NativeSize {
    /// The allocation in bytes.
    pub open spec fn bytes(self) -> nat {
        match self {
            NativeSize::Blocks(n) => (n * BLOCK_BYTES) as nat,
            NativeSize::Bytes(n) => n as nat,
        }
    }

    /// Whether the allocation in bytes fits in 64 bits.
    pub fn fits_in_u64(&self) -> (fits: bool)
        ensures
            fits == (self.bytes() <= u64::MAX),
    {
        match *self {
            NativeSize::Blocks(n) => n.checked_mul(BLOCK_BYTES).is_some(),
            NativeSize::Bytes(_) => true,
        }
    }

    /// Whether the allocation is less than `len` bytes.
    pub fn falls_short_of(&self, len: u64) -> (short: bool)
        ensures
            short == (self.bytes() < len),
    {
        match *self {
            NativeSize::Blocks(n) => {
                assert(n * BLOCK_BYTES <= u64::MAX * 512) by (nonlinear_arith)
                    requires
                        n <= u64::MAX,
                        BLOCK_BYTES == 512,
                ;
                (n as u128) * (BLOCK_BYTES as u128) < len as u128
            },
            NativeSize::Bytes(n) => n < len,
        }
    }
}

/// The step that makes sure of the length, once the allocation is settled:
/// the length is set to `len` if the file was shorter, and left alone if not.
pub open spec fn length_step(len: u64, measured_len: u64) -> AllocStep {
    if len > measured_len {
        AllocStep::Command(
            Commanding { len, measured_len, command: SpaceCommand::SetLen { len } },
        )
    } else {
        AllocStep::Done(Ok(()))
    }
}

/// The first step of an allocation of `len` bytes.
pub open spec fn first_step(tier: AllocationTier, len: u64) -> AllocStep {
    match tier {
        AllocationTier::Native => AllocStep::Command(
            Commanding {
                len,
                measured_len: 0,
                command: SpaceCommand::Reserve { offset: 0, len },
            },
        ),
        _ => AllocStep::Measure(Measuring { tier, len, allocated: false }),
    }
}

impl Measuring {
    /// The step after the measurement `reply`.
    pub open spec fn next_step(self, reply: Result<Extent, i32>) -> AllocStep {
        match reply {
            Err(code) => AllocStep::Done(Err(IoError::Os(code))),
            Ok(extent) => if self.allocated || extent.allocated.bytes() >= self.len {
                // Enough is reserved: nothing is asked of the platform for it.
                length_step(self.len, extent.len)
            } else {
                match self.tier {
                    AllocationTier::ContiguousPreferring => AllocStep::Command(
                        Commanding {
                            len: self.len,
                            measured_len: extent.len,
                            command: SpaceCommand::Preallocate { contiguous: true, len: self.len },
                        },
                    ),
                    AllocationTier::EndOfFile => AllocStep::Command(
                        Commanding {
                            len: self.len,
                            measured_len: extent.len,
                            command: SpaceCommand::Seek { offset: self.len },
                        },
                    ),
                    _ => length_step(self.len, extent.len),
                }
            },
        }
    }

    /// Takes the measurement of the file, or the platform's error code, and
    /// gives the next step.
    ///
    /// - An error ends the operation with its code.
    /// - Where at least the requested length is reserved already, no
    ///   reservation is asked for.
    /// - The length is set only where the file is shorter than requested.
    pub fn resume(self, reply: Result<Extent, i32>) -> (step: AllocStep)
        ensures
            step == self.next_step(reply),
    {
        match reply {
            Err(code) => AllocStep::Done(Err(IoError::Os(code))),
            Ok(extent) => {
                let reserve = !self.allocated && extent.allocated.falls_short_of(self.len);
                if reserve {
                    match self.tier {
                        AllocationTier::ContiguousPreferring => {
                            return AllocStep::Command(
                                Commanding {
                                    len: self.len,
                                    measured_len: extent.len,
                                    command: SpaceCommand::Preallocate {
                                        contiguous: true,
                                        len: self.len,
                                    },
                                },
                            );
                        },
                        AllocationTier::EndOfFile => {
                            return AllocStep::Command(
                                Commanding {
                                    len: self.len,
                                    measured_len: extent.len,
                                    command: SpaceCommand::Seek { offset: self.len },
                                },
                            );
                        },
                        _ => {},
                    }
                }
                ensure_length(self.len, extent.len)
            },
        }
    }
}

impl Commanding {
    /// The step after the command went through.
    pub open spec fn advanced(self) -> AllocStep {
        match self.command {
            SpaceCommand::Reserve { .. } => AllocStep::Done(Ok(())),
            SpaceCommand::Preallocate { .. } => length_step(self.len, self.measured_len),
            SpaceCommand::SetLen { .. } => AllocStep::Done(Ok(())),
            SpaceCommand::Seek { .. } => AllocStep::Command(
                Commanding {
                    len: self.len,
                    measured_len: self.measured_len,
                    command: SpaceCommand::SetEndOfFile,
                },
            ),
            SpaceCommand::SetEndOfFile => AllocStep::Measure(
                Measuring { tier: AllocationTier::EndOfFile, len: self.len, allocated: true },
            ),
        }
    }

    /// The step after the command failed with `code`.
    pub open spec fn failed(self, code: i32) -> AllocStep {
        match self.command {
            SpaceCommand::Preallocate { contiguous: true, len } => AllocStep::Command(
                Commanding {
                    len: self.len,
                    measured_len: self.measured_len,
                    command: SpaceCommand::Preallocate { contiguous: false, len },
                },
            ),
            _ => AllocStep::Done(Err(IoError::Os(code))),
        }
    }

    /// The step after `reply` came back from the command.
    pub open spec fn next_step(self, reply: Result<(), i32>) -> AllocStep {
        match reply {
            Ok(()) => self.advanced(),
            Err(code) => self.failed(code),
        }
    }

    /// Takes the reply to the command of this state: `Ok` if it went
    /// through, else the platform's error code. Gives the next step.
    ///
    /// - Where space could not be had in one piece, the same amount is
    ///   asked for in pieces; only if that fails too the operation fails.
    /// - Any other failure ends the operation with its code.
    /// - After a reservation the length is seen to.
    pub fn resume(self, reply: Result<(), i32>) -> (step: AllocStep)
        ensures
            step == self.next_step(reply),
    {
        match reply {
            Ok(()) => match self.command {
                SpaceCommand::Reserve { .. } => AllocStep::Done(Ok(())),
                SpaceCommand::Preallocate { .. } => ensure_length(self.len, self.measured_len),
                SpaceCommand::SetLen { .. } => AllocStep::Done(Ok(())),
                SpaceCommand::Seek { .. } => AllocStep::Command(
                    Commanding {
                        len: self.len,
                        measured_len: self.measured_len,
                        command: SpaceCommand::SetEndOfFile,
                    },
                ),
                SpaceCommand::SetEndOfFile => AllocStep::Measure(
                    Measuring { tier: AllocationTier::EndOfFile, len: self.len, allocated: true },
                ),
            },
            Err(code) => match self.command {
                SpaceCommand::Preallocate { contiguous: true, len } => AllocStep::Command(
                    Commanding {
                        len: self.len,
                        measured_len: self.measured_len,
                        command: SpaceCommand::Preallocate { contiguous: false, len },
                    },
                ),
                _ => AllocStep::Done(Err(IoError::Os(code))),
            },
        }
    }
}

/// Sets the length to `len` where the file, of length `measured_len`, is
/// shorter.
fn ensure_length(len: u64, measured_len: u64) -> (step: AllocStep)
    ensures
        step == length_step(len, measured_len),
{
    if len > measured_len {
        AllocStep::Command(Commanding { len, measured_len, command: SpaceCommand::SetLen { len } })
    } else {
        AllocStep::Done(Ok(()))
    }
}

/// Starts making sure that the file has at least `len` bytes reserved and is
/// at least `len` bytes long.
///
/// Under [`AllocationTier::LengthOnly`] only the length is seen to: after
/// success the file is at least `len` bytes long, and nothing is promised of
/// its allocation. Under [`AllocationTier::EndOfFile`] the end of the file is
/// set at `len` to force the allocation: a file that was longer, with less
/// than `len` bytes reserved, is `len` bytes long afterwards.
pub fn allocate(tier: AllocationTier, len: u64) -> (step: AllocStep)
    ensures
        step == first_step(tier, len),
        !(step is Done),
{
    match tier {
        AllocationTier::Native => AllocStep::Command(
            Commanding {
                len,
                measured_len: 0,
                command: SpaceCommand::Reserve { offset: 0, len },
            },
        ),
        _ => AllocStep::Measure(Measuring { tier, len, allocated: false }),
    }
}

/// The bytes that are reserved for a file, from its measurement `reply`; an
/// error code of the platform is handed on.
pub fn allocated_size(reply: Result<Extent, i32>) -> (size: Result<u64, IoError>)
    requires
        reply matches Ok(extent) ==> extent.allocated.bytes() <= u64::MAX,
    ensures
        size == match reply {
            Ok(extent) => Ok::<u64, IoError>(extent.allocated.bytes() as u64),
            Err(code) => Err::<u64, IoError>(IoError::Os(code)),
        },
{
    match reply {
        Ok(extent) => match extent.allocated {
            NativeSize::Blocks(n) => Ok(n * BLOCK_BYTES),
            NativeSize::Bytes(n) => Ok(n),
        },
        Err(code) => Err(IoError::Os(code)),
    }
}

} // verus!
