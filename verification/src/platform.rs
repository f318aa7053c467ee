//! The platforms, and what each of them offers for locking and allocation.

use vstd::prelude::*;

verus! {

/// The Unix-like systems that are told apart.
#[derive(Clone, Copy, Debug, PartialEq, Eq, Structural)]
pub enum UnixOs {
    Linux,
    Android,
    FreeBsd,
    Emscripten,
    Nacl,
    MacOs,
    Ios,
    OpenBsd,
    NetBsd,
    DragonFly,
    Solaris,
    Illumos,
    Haiku,
}

/// The error codes of a Unix-like system that the lock engine reads.
#[derive(Clone, Copy, Debug, PartialEq, Eq, Structural)]
pub struct UnixCodes {
    /// `EWOULDBLOCK`: the lock is held elsewhere.
    pub would_block: i32,
    /// `EINTR`: a signal interrupted the call.
    pub interrupted: i32,
    /// `EACCES`: how a record lock says that the lock is held elsewhere.
    pub denied: i32,
}

/// The error codes of Windows that the lock engine reads.
#[derive(Clone, Copy, Debug, PartialEq, Eq, Structural)]
pub struct WindowsCodes {
    /// `ERROR_LOCK_VIOLATION`: the range is locked elsewhere.
    pub lock_violation: i32,
    /// `ERROR_NOT_LOCKED`: the range to unlock was not locked.
    pub not_locked: i32,
}

/// The native locking primitive, with the codes by which it reports.
#[derive(Clone, Copy, Debug, PartialEq, Eq, Structural)]
pub enum LockPrimitive {
    /// `flock`: whole-file locks that belong to the open file description.
    Flock(UnixCodes),
    /// `fcntl` record locks standing in for `flock`; they belong to the process.
    RecordLock(UnixCodes),
    /// `LockFileEx` and `UnlockFile` on the whole range; locks belong to the
    /// handle, and a new one does not replace an old one.
    RangeLock(WindowsCodes),
}

/// What a platform offers for reserving space.
#[derive(Clone, Copy, Debug, PartialEq, Eq, Structural)]
pub enum AllocationTier {
    /// One call reserves the blocks and extends the length.
    Native,
    /// Space is reserved contiguously if possible, else in pieces; the
    /// length is extended apart from that.
    ContiguousPreferring,
    /// Nothing reserves space; only the length is extended. After success
    /// the length is at least the requested one, the allocation may be less.
    LengthOnly,
    /// Setting the end of file at the requested offset forces the allocation.
    EndOfFile,
}

/// A platform: the system and its error codes.
#[derive(Clone, Copy, Debug, PartialEq, Eq, Structural)]
pub enum Platform {
    Unix(UnixOs, UnixCodes),
    Windows(WindowsCodes),
}

impl UnixOs {
    /// The way this system reserves space.
    pub open spec fn tier(self) -> AllocationTier {
        match self {
            UnixOs::Linux | UnixOs::Android | UnixOs::FreeBsd | UnixOs::Emscripten | UnixOs::Nacl
                => AllocationTier::Native,
            UnixOs::MacOs | UnixOs::Ios => AllocationTier::ContiguousPreferring,
            UnixOs::OpenBsd | UnixOs::NetBsd | UnixOs::DragonFly | UnixOs::Solaris
            | UnixOs::Illumos | UnixOs::Haiku => AllocationTier::LengthOnly,
        }
    }

    /// Whether this system lacks `flock`, so that record locks stand in.
    pub open spec fn lacks_flock(self) -> bool {
        self == UnixOs::Solaris
    }
}

impl Platform {
    /// The locking primitive of this platform: record locks where the
    /// system lacks `flock`, range locks on Windows, `flock` everywhere else.
    pub open spec fn primitive(self) -> LockPrimitive {
        match self {
            Platform::Unix(os, codes) => if os.lacks_flock() {
                LockPrimitive::RecordLock(codes)
            } else {
                LockPrimitive::Flock(codes)
            },
            Platform::Windows(codes) => LockPrimitive::RangeLock(codes),
        }
    }

    /// The allocation tier of this platform.
    pub open spec fn tier(self) -> AllocationTier {
        match self {
            Platform::Unix(os, _) => os.tier(),
            Platform::Windows(_) => AllocationTier::EndOfFile,
        }
    }

    /// The Unix-like platform `os`, with the error codes of the system that
    /// this library was built for.
    pub fn unix(os: UnixOs) -> (p: Platform)
        ensures
            p matches Platform::Unix(o, codes) && o == os && codes.distinct(),
    {
        Platform::Unix(os, UnixCodes::native())
    }

    /// Windows, reporting with `codes`.
    pub fn windows(codes: WindowsCodes) -> (p: Platform)
        ensures
            p == Platform::Windows(codes),
    {
        Platform::Windows(codes)
    }

    /// The locking primitive of this platform.
    pub fn lock_primitive(&self) -> (primitive: LockPrimitive)
        ensures
            primitive == self.primitive(),
    {
        match *self {
            Platform::Unix(os, codes) => match os {
                UnixOs::Solaris => LockPrimitive::RecordLock(codes),
                _ => LockPrimitive::Flock(codes),
            },
            Platform::Windows(codes) => LockPrimitive::RangeLock(codes),
        }
    }

    /// The allocation tier of this platform.
    pub fn allocation_tier(&self) -> (tier: AllocationTier)
        ensures
            tier == self.tier(),
    {
        match *self {
            Platform::Unix(os, _) => match os {
                UnixOs::Linux => AllocationTier::Native,
                UnixOs::Android => AllocationTier::Native,
                UnixOs::FreeBsd => AllocationTier::Native,
                UnixOs::Emscripten => AllocationTier::Native,
                UnixOs::Nacl => AllocationTier::Native,
                UnixOs::MacOs => AllocationTier::ContiguousPreferring,
                UnixOs::Ios => AllocationTier::ContiguousPreferring,
                UnixOs::OpenBsd => AllocationTier::LengthOnly,
                UnixOs::NetBsd => AllocationTier::LengthOnly,
                UnixOs::DragonFly => AllocationTier::LengthOnly,
                UnixOs::Solaris => AllocationTier::LengthOnly,
                UnixOs::Illumos => AllocationTier::LengthOnly,
                UnixOs::Haiku => AllocationTier::LengthOnly,
            },
            Platform::Windows(_) => AllocationTier::EndOfFile,
        }
    }
}

impl UnixCodes {
    /// No two of the three codes are the same.
    pub open spec fn distinct(self) -> bool {
        &&& self.would_block != self.interrupted
        &&& self.would_block != self.denied
        &&& self.interrupted != self.denied
    }

    /// The codes of the system that this library was built for.
    pub fn native() -> (codes: UnixCodes)
        ensures
            codes.distinct(),
    {
        native_codes()
    }
}

/// Reads `libc::EWOULDBLOCK`, `libc::EINTR` and `libc::EACCES`. Their values
/// differ from system to system; on each of them the three are different
/// numbers, and no more than that is claimed.
#[verifier::external_body]
fn native_codes() -> (codes: UnixCodes)
    ensures
        codes.distinct(),
{
    UnixCodes {
        would_block: libc::EWOULDBLOCK,
        interrupted: libc::EINTR,
        denied: libc::EACCES,
    }
}

} // verus!
