//! Statistics of the filesystem that holds a path.

use vstd::prelude::*;
use crate::error::IoError;

verus! {

/// What the platform reports of a filesystem, in its own units (blocks of
/// the fragment size, or clusters).
#[derive(Clone, Copy, Debug, PartialEq, Eq, Structural)]
pub struct NativeStats {
    /// The size of a unit in bytes.
    pub unit_size: u64,
    /// The units that are free.
    pub free_units: u64,
    /// The units that are free to a user without privileges.
    pub available_units: u64,
    /// All units of the filesystem.
    pub total_units: u64,
}

/// A snapshot of a filesystem's space, in bytes.
#[derive(Clone, Copy, Debug, PartialEq, Eq, Structural)]
pub struct FsStats {
    pub free_space: u64,
    pub available_space: u64,
    pub total_space: u64,
    pub allocation_granularity: u64,
}

/// What comes first in a query for statistics.
#[derive(Clone, Copy, Debug, PartialEq, Eq, Structural)]
pub enum StatsStep {
    /// Ask the platform for the statistics of the filesystem at the path,
    /// then hand the reply to [`stats`].
    Query,
    /// The path cannot be handed to the platform.
    Done(IoError),
}

impl NativeStats {
    /// Each of the three amounts, in bytes, fits in 64 bits.
    pub open spec fn fits(self) -> bool {
        &&& self.unit_size * self.free_units <= u64::MAX
        &&& self.unit_size * self.available_units <= u64::MAX
        &&& self.unit_size * self.total_units <= u64::MAX
    }

    /// Whether each of the three amounts, in bytes, fits in 64 bits.
    pub fn fits_in_u64(&self) -> (fits: bool)
        ensures
            fits == self.fits(),
    {
        self.unit_size.checked_mul(self.free_units).is_some() && self.unit_size.checked_mul(
            self.available_units,
        ).is_some() && self.unit_size.checked_mul(self.total_units).is_some()
    }

    /// The counts are such as a filesystem has: its units have a size, and
    /// no more of them are available than there are.
    pub open spec fn sound(self) -> bool {
        &&& self.unit_size > 0
        &&& self.available_units <= self.total_units
    }

    /// The statistics in bytes: each count times the size of a unit.
    pub open spec fn in_bytes(self) -> FsStats {
        FsStats {
            free_space: (self.unit_size * self.free_units) as u64,
            available_space: (self.unit_size * self.available_units) as u64,
            total_space: (self.unit_size * self.total_units) as u64,
            allocation_granularity: self.unit_size,
        }
    }
}

impl FsStats {
    /// The bytes that are free.
    pub fn free_space(&self) -> (bytes: u64)
        ensures
            bytes == self.free_space,
    {
        self.free_space
    }

    /// The bytes that are free to a user without privileges.
    pub fn available_space(&self) -> (bytes: u64)
        ensures
            bytes == self.available_space,
    {
        self.available_space
    }

    /// The size of the filesystem in bytes.
    pub fn total_space(&self) -> (bytes: u64)
        ensures
            bytes == self.total_space,
    {
        self.total_space
    }

    /// The size in bytes of the unit in which the filesystem hands out space.
    pub fn allocation_granularity(&self) -> (bytes: u64)
        ensures
            bytes == self.allocation_granularity,
    {
        self.allocation_granularity
    }
}

/// Whether `path` holds a zero byte: such a path has no form in the
/// platform's own encoding, which ends a path at the first zero.
pub open spec fn has_nul(path: Seq<u8>) -> bool {
    exists|i: int| 0 <= i < path.len() && path[i] == 0
}

/// Starts the query for the statistics of the filesystem that holds `path`,
/// given as its bytes. A path with a zero byte is turned down as invalid
/// input; for any other the platform is to be asked.
pub fn statvfs(path: &[u8]) -> (step: StatsStep)
    ensures
        step == if has_nul(path@) {
            StatsStep::Done(IoError::InvalidInput)
        } else {
            StatsStep::Query
        },
{
    let mut i: usize = 0;
    while i < path.len()
        invariant
            i <= path.len(),
            forall|j: int| 0 <= j < i ==> path@[j] != 0,
        decreases path.len() - i,
    {
        if path[i] == 0 {
            return StatsStep::Done(IoError::InvalidInput);
        }
        i += 1;
    }
    StatsStep::Query
}

/// Takes the platform's reply to the query: its counts, or its error code.
/// Gives the statistics in bytes, each amount the count times the size of a
/// unit, or the error with its code.
pub fn stats(reply: Result<NativeStats, i32>) -> (result: Result<FsStats, IoError>)
    requires
        reply matches Ok(native) ==> native.fits(),
    ensures
        result == match reply {
            Ok(native) => Ok::<FsStats, IoError>(native.in_bytes()),
            Err(code) => Err::<FsStats, IoError>(IoError::Os(code)),
        },
{
    match reply {
        Ok(native) => Ok(
            FsStats {
                free_space: native.unit_size * native.free_units,
                available_space: native.unit_size * native.available_units,
                total_space: native.unit_size * native.total_units,
                allocation_granularity: native.unit_size,
            },
        ),
        Err(code) => Err(IoError::Os(code)),
    }
}

/// Statistics are consistent: of sound counts, no more space is available
/// than there is in all, the granularity is not zero, and nothing times the
/// free space is more than the total.
pub proof fn lemma_stats_consistent(native: NativeStats)
    requires
        native.fits(),
        native.sound(),
    ensures
        native.in_bytes().available_space <= native.in_bytes().total_space,
        native.in_bytes().allocation_granularity > 0,
        native.in_bytes().free_space * 0 <= native.in_bytes().total_space,
{
    assert(native.unit_size * native.available_units <= native.unit_size * native.total_units)
        by (nonlinear_arith)
        requires
            native.available_units <= native.total_units,
    ;
}

} // verus!
