//! The engines at work on real files: each call that an engine asks for is
//! made on an open file, and the reply is handed back.

use fs4::allocation::{allocate, allocated_size, AllocStep, Extent, NativeSize, SpaceCommand};
use fs4::duplication::{duplicate, duplicated, inspected, DuplicateStep};
use fs4::error::{lock_error, IoError, LockError};
use fs4::lock::{
    lock_exclusive, lock_shared, try_lock_exclusive, try_lock_shared, unlock, FlockOperation,
    LockCall, LockStep, RecordLockForm, RecordLockKind,
};
use fs4::platform::{AllocationTier, LockPrimitive, Platform, UnixCodes, UnixOs};
use fs4::stats::{stats, statvfs, FsStats, NativeStats, StatsStep};
use rustix::fd::{AsFd, AsRawFd, OwnedFd};
use rustix::fs::{Mode, OFlags};
use rustix::io::FdFlags;
use std::path::Path;

async fn open_async(path: &Path) -> smol::fs::File {
    smol::fs::OpenOptions::new().write(true).create(true).open(path).await.unwrap()
}

fn open(path: &Path) -> OwnedFd {
    rustix::fs::open(
        path,
        OFlags::CREATE | OFlags::RDWR | OFlags::CLOEXEC,
        Mode::from_raw_mode(0o600),
    )
    .unwrap()
}

fn flock() -> LockPrimitive {
    Platform::unix(UnixOs::Linux).lock_primitive()
}

fn perform(file: &impl AsFd, call: LockCall) -> Result<(), i32> {
    let operation = match call {
        LockCall::Flock { operation, nonblocking } => match (operation, nonblocking) {
            (FlockOperation::Shared, false) => rustix::fs::FlockOperation::LockShared,
            (FlockOperation::Shared, true) => rustix::fs::FlockOperation::NonBlockingLockShared,
            (FlockOperation::Exclusive, false) => rustix::fs::FlockOperation::LockExclusive,
            (FlockOperation::Exclusive, true) => {
                rustix::fs::FlockOperation::NonBlockingLockExclusive
            }
            (FlockOperation::Unlock, false) => rustix::fs::FlockOperation::Unlock,
            (FlockOperation::Unlock, true) => rustix::fs::FlockOperation::NonBlockingUnlock,
        },
        LockCall::RecordLock { form, kind } => match (kind, form) {
            (RecordLockKind::Read, RecordLockForm::Waiting) => {
                rustix::fs::FlockOperation::LockShared
            }
            (RecordLockKind::Read, RecordLockForm::NonWaiting) => {
                rustix::fs::FlockOperation::NonBlockingLockShared
            }
            (RecordLockKind::Write, RecordLockForm::Waiting) => {
                rustix::fs::FlockOperation::LockExclusive
            }
            (RecordLockKind::Write, RecordLockForm::NonWaiting) => {
                rustix::fs::FlockOperation::NonBlockingLockExclusive
            }
            (RecordLockKind::Unlock, RecordLockForm::Waiting) => rustix::fs::FlockOperation::Unlock,
            (RecordLockKind::Unlock, RecordLockForm::NonWaiting) => {
                rustix::fs::FlockOperation::NonBlockingUnlock
            }
        },
        other => panic!("no such call here: {:?}", other),
    };
    let done = match call {
        LockCall::RecordLock { .. } => rustix::fs::fcntl_lock(file, operation),
        _ => rustix::fs::flock(file, operation),
    };
    done.map_err(|e| e.raw_os_error())
}

fn run(file: &impl AsFd, first: LockStep) -> Result<(), LockError> {
    let mut step = first;
    loop {
        match step {
            LockStep::Done(result) => return result,
            LockStep::Call { state, call } => step = state.resume(perform(file, call)),
        }
    }
}

fn measure(file: &impl AsFd) -> Result<Extent, i32> {
    match rustix::fs::fstat(file) {
        Ok(stat) => Ok(Extent {
            allocated: NativeSize::Blocks(stat.st_blocks as u64),
            len: stat.st_size as u64,
        }),
        Err(e) => Err(e.raw_os_error()),
    }
}

fn command(file: &impl AsFd, command: SpaceCommand) -> Result<(), i32> {
    let done = match command {
        SpaceCommand::Reserve { offset, len } => {
            rustix::fs::fallocate(file, rustix::fs::FallocateFlags::empty(), offset, len)
        }
        // Reserving without touching the length is what preallocation does.
        SpaceCommand::Preallocate { len, .. } => {
            rustix::fs::fallocate(file, rustix::fs::FallocateFlags::KEEP_SIZE, 0, len)
        }
        SpaceCommand::SetLen { len } => rustix::fs::ftruncate(file, len),
        SpaceCommand::Seek { offset } => {
            rustix::fs::seek(file, rustix::fs::SeekFrom::Start(offset)).map(|_| ())
        }
        SpaceCommand::SetEndOfFile => {
            rustix::fs::tell(file).and_then(|at| rustix::fs::ftruncate(file, at))
        }
    };
    done.map_err(|e| e.raw_os_error())
}

fn run_allocate(file: &impl AsFd, tier: AllocationTier, len: u64) -> Result<(), IoError> {
    let mut step = allocate(tier, len);
    loop {
        match step {
            AllocStep::Done(result) => return result,
            AllocStep::Measure(state) => step = state.resume(measure(file)),
            AllocStep::Command(state) => step = state.resume(command(file, state.command)),
        }
    }
}

fn run_duplicate(file: &impl AsFd) -> Result<OwnedFd, IoError> {
    let mut step: DuplicateStep<OwnedFd> = duplicate();
    loop {
        match step {
            DuplicateStep::Done(result) => return result,
            DuplicateStep::Inspect => {
                step = inspected(
                    rustix::io::fcntl_getfd(file)
                        .map(|flags| flags.contains(FdFlags::CLOEXEC))
                        .map_err(|e| e.raw_os_error()),
                )
            }
            DuplicateStep::Duplicate { close_on_exec } => {
                let made = if close_on_exec {
                    rustix::io::fcntl_dupfd_cloexec(file, 0)
                } else {
                    rustix::io::dup(file)
                };
                step = duplicated(made.map_err(|e| e.raw_os_error()))
            }
        }
    }
}

fn run_statvfs(path: &Path) -> Result<FsStats, IoError> {
    match statvfs(path.as_os_str().as_encoded_bytes()) {
        StatsStep::Done(error) => Err(error),
        StatsStep::Query => stats(
            rustix::fs::statvfs(path)
                .map(|s| NativeStats {
                    unit_size: s.f_frsize,
                    free_units: s.f_bfree,
                    available_units: s.f_bavail,
                    total_units: s.f_blocks,
                })
                .map_err(|e| e.raw_os_error()),
        ),
    }
}

fn raw_os_error(error: LockError) -> i32 {
    flock().native_code(error)
}

/// The duplicate has a descriptor of its own.
#[test]
fn duplicate_new_fd() {
    smol::block_on(async {
        let tempdir = tempdir::TempDir::new("fs4").unwrap();
        let path = tempdir.path().join("fs4");
        let file1 = open_async(&path).await;
        let file2 = run_duplicate(&file1).unwrap();
        assert_ne!(file1.as_raw_fd(), file2.as_raw_fd());
    })
}

/// The duplicate has the flags of the original, the close-on-exec flag among
/// them.
#[test]
fn duplicate_cloexec() {
    smol::block_on(async {
        let tempdir = tempdir::TempDir::new("fs4").unwrap();
        let path = tempdir.path().join("fs4");
        let file1 = open_async(&path).await;
        let file2 = run_duplicate(&file1).unwrap();

        assert_eq!(
            rustix::fs::fcntl_getfl(&file1).unwrap(),
            rustix::fs::fcntl_getfl(&file2).unwrap()
        );
        assert!(rustix::io::fcntl_getfd(&file1).unwrap().contains(FdFlags::CLOEXEC));
        assert_eq!(
            rustix::io::fcntl_getfd(&file1).unwrap(),
            rustix::io::fcntl_getfd(&file2).unwrap()
        );
    })
}

/// A reference that is not closed on exec has a duplicate that is not either.
#[test]
fn duplicate_keeps_inheritance() {
    let tempdir = tempdir::TempDir::new("fs4").unwrap();
    let path = tempdir.path().join("fs4");
    let file1 = open(&path);
    rustix::io::fcntl_setfd(&file1, FdFlags::empty()).unwrap();
    let file2 = run_duplicate(&file1).unwrap();
    assert!(!rustix::io::fcntl_getfd(&file2).unwrap().contains(FdFlags::CLOEXEC));
}

/// Locking a descriptor replaces the lock that it holds.
#[test]
fn sync_impl_lock_replace() {
    let tempdir = tempdir::TempDir::new("fs4").unwrap();
    let path = tempdir.path().join("fs4");
    let file1 = open(&path);
    let file2 = open(&path);

    // Creating a shared lock will drop an exclusive lock.
    run(&file1, lock_exclusive(flock())).unwrap();
    run(&file1, lock_shared(flock())).unwrap();
    run(&file2, lock_shared(flock())).unwrap();

    // Attempting to replace a shared lock with an exclusive lock will fail
    // with multiple lock holders, and remove the original shared lock.
    assert_eq!(
        raw_os_error(run(&file2, try_lock_exclusive(flock())).unwrap_err()),
        raw_os_error(lock_error())
    );
    run(&file1, lock_shared(flock())).unwrap();
}

/// Locking a descriptor replaces the lock that it holds, for files that an
/// async runtime opened as for any other.
#[test]
fn smol_impl_lock_replace() {
    smol::block_on(async {
        let tempdir = tempdir::TempDir::new("fs4").unwrap();
        let path = tempdir.path().join("fs4");
        let file1 = open_async(&path).await;
        let file2 = open_async(&path).await;

        // Creating a shared lock will drop an exclusive lock.
        run(&file1, lock_exclusive(flock())).unwrap();
        run(&file1, lock_shared(flock())).unwrap();
        run(&file2, lock_shared(flock())).unwrap();

        // Attempting to replace a shared lock with an exclusive lock will fail
        // with multiple lock holders, and remove the original shared lock.
        assert_eq!(
            raw_os_error(run(&file2, try_lock_exclusive(flock())).unwrap_err()),
            raw_os_error(lock_error())
        );
        run(&file1, lock_shared(flock())).unwrap();
    })
}

/// Locks are shared among duplicated descriptors.
#[test]
fn lock_duplicate() {
    smol::block_on(async {
        let tempdir = tempdir::TempDir::new("fs4").unwrap();
        let path = tempdir.path().join("fs4");
        let file1 = open_async(&path).await;
        let file2 = run_duplicate(&file1).unwrap();
        let file3 = open_async(&path).await;

        // Create a lock through fd1, then replace it through fd2.
        run(&file1, lock_shared(flock())).unwrap();
        run(&file2, lock_exclusive(flock())).unwrap();
        assert_eq!(
            raw_os_error(run(&file3, try_lock_shared(flock())).unwrap_err()),
            raw_os_error(lock_error())
        );

        // Either of the file descriptors should be able to unlock.
        run(&file1, unlock(flock())).unwrap();
        run(&file3, lock_shared(flock())).unwrap();
    })
}

/// A lock placed through the duplicate bars a third reference as well.
#[test]
fn lock_placed_through_duplicate_bars_others() {
    let tempdir = tempdir::TempDir::new("fs4").unwrap();
    let path = tempdir.path().join("fs4");
    let file1 = open(&path);
    let file2 = run_duplicate(&file1).unwrap();
    let file3 = open(&path);

    run(&file2, lock_exclusive(flock())).unwrap();
    assert_eq!(run(&file3, try_lock_shared(flock())), Err(LockError::Contended));
    assert_eq!(run(&file3, try_lock_exclusive(flock())), Err(LockError::Contended));
    // The original replaces what the duplicate placed.
    run(&file1, lock_shared(flock())).unwrap();
    assert_eq!(run(&file3, try_lock_shared(flock())), Ok(()));
}

/// While one reference holds the exclusive lock a second is refused a shared
/// one; after the first has taken a shared lock the second gets one too.
#[test]
fn lock_replacement_lets_second_reference_in() {
    let tempdir = tempdir::TempDir::new("fs4").unwrap();
    let path = tempdir.path().join("fs4");
    let a = open(&path);
    let b = open(&path);

    run(&a, lock_exclusive(flock())).unwrap();
    assert_eq!(run(&b, try_lock_shared(flock())), Err(LockError::Contended));
    assert_eq!(run(&a, lock_shared(flock())), Ok(()));
    assert_eq!(run(&b, try_lock_shared(flock())), Ok(()));
}

/// While one reference holds the exclusive lock a second is refused either
/// lock; after the first has unlocked the second gets either.
#[test]
fn contention_is_symmetric() {
    let tempdir = tempdir::TempDir::new("fs4").unwrap();
    let path = tempdir.path().join("fs4");
    let a = open(&path);
    let b = open(&path);

    run(&a, lock_exclusive(flock())).unwrap();
    assert_eq!(run(&b, try_lock_shared(flock())), Err(lock_error()));
    assert_eq!(run(&b, try_lock_exclusive(flock())), Err(lock_error()));
    assert_eq!(run(&a, unlock(flock())), Ok(()));
    assert_eq!(run(&b, try_lock_shared(flock())), Ok(()));
    assert_eq!(run(&b, unlock(flock())), Ok(()));
    assert_eq!(run(&b, try_lock_exclusive(flock())), Ok(()));
}

/// Open twice, lock, be refused, unlock, be let in.
#[test]
fn exclusive_lock_then_unlock_end_to_end() {
    let tempdir = tempdir::TempDir::new("fs4").unwrap();
    let path = tempdir.path().join("fs4");
    let a = open(&path);
    let b = open(&path);

    assert_eq!(run(&a, lock_exclusive(flock())), Ok(()));
    assert_eq!(run(&b, try_lock_shared(flock())), Err(LockError::Contended));
    assert_eq!(run(&a, unlock(flock())), Ok(()));
    assert_eq!(run(&b, try_lock_shared(flock())), Ok(()));
}

/// Unlocking a reference that holds no lock succeeds.
#[test]
fn unlock_without_lock_succeeds() {
    let tempdir = tempdir::TempDir::new("fs4").unwrap();
    let path = tempdir.path().join("fs4");
    let a = open(&path);
    assert_eq!(run(&a, unlock(flock())), Ok(()));
    assert_eq!(run(&a, unlock(flock())), Ok(()));
}

/// Many references hold the shared lock together.
#[test]
fn shared_locks_coexist() {
    let tempdir = tempdir::TempDir::new("fs4").unwrap();
    let path = tempdir.path().join("fs4");
    let a = open(&path);
    let b = open(&path);
    let c = open(&path);
    assert_eq!(run(&a, lock_shared(flock())), Ok(()));
    assert_eq!(run(&b, try_lock_shared(flock())), Ok(()));
    assert_eq!(run(&c, lock_shared(flock())), Ok(()));
    assert_eq!(run(&c, try_lock_exclusive(flock())), Err(LockError::Contended));
}

/// Record locks, standing in for `flock`, take and give up a lock.
#[test]
fn record_locks_lock_and_unlock() {
    let tempdir = tempdir::TempDir::new("fs4").unwrap();
    let path = tempdir.path().join("fs4");
    let a = open(&path);
    let emulated = LockPrimitive::RecordLock(UnixCodes::native());
    assert_eq!(run(&a, try_lock_exclusive(emulated)), Ok(()));
    assert_eq!(run(&a, lock_shared(emulated)), Ok(()));
    assert_eq!(run(&a, unlock(emulated)), Ok(()));
    assert_eq!(run(&a, unlock(emulated)), Ok(()));
}

/// A failure of the platform that is neither contention nor interruption
/// comes back with its code.
#[test]
fn record_lock_on_read_only_descriptor_reports_the_code() {
    let tempdir = tempdir::TempDir::new("fs4").unwrap();
    let path = tempdir.path().join("fs4");
    let read_only = rustix::fs::open(&path, OFlags::CREATE | OFlags::RDONLY, Mode::from_raw_mode(0o600))
        .unwrap();
    // A record lock for writing needs a descriptor open for writing.
    let emulated = LockPrimitive::RecordLock(UnixCodes::native());
    assert_eq!(run(&read_only, try_lock_exclusive(emulated)), Err(LockError::Os(libc::EBADF)));
}

/// An empty file, allocated to 4096 bytes, has them reserved and is that long.
#[test]
fn allocate_empty_file_end_to_end() {
    let tempdir = tempdir::TempDir::new("fs4").unwrap();
    let path = tempdir.path().join("fs4");
    let file = open(&path);
    assert_eq!(measure(&file).unwrap().len, 0);

    assert_eq!(run_allocate(&file, AllocationTier::Native, 4096), Ok(()));
    assert!(allocated_size(measure(&file)).unwrap() >= 4096);
    assert!(measure(&file).unwrap().len >= 4096);
}

/// Allocating less than is reserved succeeds and takes nothing away.
#[test]
fn allocate_less_than_reserved_keeps_allocation() {
    let tempdir = tempdir::TempDir::new("fs4").unwrap();
    let path = tempdir.path().join("fs4");
    let file = open(&path);

    assert_eq!(run_allocate(&file, AllocationTier::Native, 16384), Ok(()));
    let before = measure(&file).unwrap();
    assert!(allocated_size(Ok(before)).unwrap() >= 16384);

    assert_eq!(run_allocate(&file, AllocationTier::Native, 4096), Ok(()));
    let after = measure(&file).unwrap();
    assert!(allocated_size(Ok(after)).unwrap() >= allocated_size(Ok(before)).unwrap());
    assert_eq!(after.len, before.len);
}

/// Where only the length is seen to, the file grows to the length asked
/// for, and a smaller request leaves it alone.
#[test]
fn allocate_length_only_extends_the_length() {
    let tempdir = tempdir::TempDir::new("fs4").unwrap();
    let path = tempdir.path().join("fs4");
    let file = open(&path);

    assert_eq!(run_allocate(&file, AllocationTier::LengthOnly, 10000), Ok(()));
    assert_eq!(measure(&file).unwrap().len, 10000);
    assert_eq!(run_allocate(&file, AllocationTier::LengthOnly, 100), Ok(()));
    assert_eq!(measure(&file).unwrap().len, 10000);
}

/// Reserving first and setting the length after leaves an empty file with
/// the bytes reserved and the length set.
#[test]
fn allocate_by_preallocation_then_length() {
    let tempdir = tempdir::TempDir::new("fs4").unwrap();
    let path = tempdir.path().join("fs4");
    let file = open(&path);

    assert_eq!(run_allocate(&file, AllocationTier::ContiguousPreferring, 4096), Ok(()));
    assert!(allocated_size(measure(&file)).unwrap() >= 4096);
    assert_eq!(measure(&file).unwrap().len, 4096);

    // Enough is reserved now: a longer file only has its length set.
    let reserved = allocated_size(measure(&file)).unwrap();
    assert_eq!(run_allocate(&file, AllocationTier::ContiguousPreferring, reserved), Ok(()));
    assert_eq!(measure(&file).unwrap().len, reserved);
    assert_eq!(allocated_size(measure(&file)).unwrap(), reserved);
}

/// Setting the end of file at the requested length makes an empty file that
/// long, and cuts a longer file of which nothing is reserved.
#[test]
fn allocate_by_end_of_file() {
    let tempdir = tempdir::TempDir::new("fs4").unwrap();
    let path = tempdir.path().join("fs4");
    let file = open(&path);

    assert_eq!(run_allocate(&file, AllocationTier::EndOfFile, 4096), Ok(()));
    assert_eq!(measure(&file).unwrap().len, 4096);

    let sparse = open(&tempdir.path().join("sparse"));
    rustix::fs::ftruncate(&sparse, 1 << 20).unwrap();
    assert_eq!(allocated_size(measure(&sparse)), Ok(0));
    assert_eq!(run_allocate(&sparse, AllocationTier::EndOfFile, 4096), Ok(()));
    assert_eq!(measure(&sparse).unwrap().len, 4096);
}

/// A length that the platform cannot take fails with the platform's code.
#[test]
fn allocate_reports_the_platform_error() {
    let tempdir = tempdir::TempDir::new("fs4").unwrap();
    let path = tempdir.path().join("fs4");
    let file = open(&path);
    match run_allocate(&file, AllocationTier::Native, u64::MAX) {
        Err(IoError::Os(_)) => {}
        other => panic!("unexpected: {:?}", other),
    }
    assert_eq!(measure(&file).unwrap().len, 0);
}

/// The allocated size of a file is its block count times 512.
#[test]
fn allocated_size_counts_blocks() {
    let tempdir = tempdir::TempDir::new("fs4").unwrap();
    let path = tempdir.path().join("fs4");
    let file = open(&path);
    assert_eq!(run_allocate(&file, AllocationTier::Native, 8192), Ok(()));
    let blocks = rustix::fs::fstat(&file).unwrap().st_blocks as u64;
    assert_eq!(allocated_size(measure(&file)), Ok(blocks * 512));
}

/// The statistics of a real filesystem are consistent.
#[test]
fn statvfs_of_a_directory_is_consistent() {
    let tempdir = tempdir::TempDir::new("fs4").unwrap();
    let stat = run_statvfs(tempdir.path()).unwrap();
    assert!(stat.available_space() <= stat.total_space());
    assert!(stat.allocation_granularity() > 0);
    assert!(stat.free_space() * 0 <= stat.total_space());
    assert!(stat.free_space() <= stat.total_space());
    assert_eq!(stat.total_space() % stat.allocation_granularity(), 0);
}

/// A path with a zero byte never reaches the platform.
#[test]
fn statvfs_rejects_embedded_nul() {
    assert_eq!(run_statvfs(Path::new("/tmp/a\0b")), Err(IoError::InvalidInput));
}

/// A path that does not exist fails with the platform's code.
#[test]
fn statvfs_of_missing_path_reports_the_code() {
    let tempdir = tempdir::TempDir::new("fs4").unwrap();
    let missing = tempdir.path().join("missing");
    assert_eq!(run_statvfs(&missing), Err(IoError::Os(libc::ENOENT)));
}
