use std::collections::HashMap;

use fs_shim::fd_table::{FileHandle, FileHandler};
use fs_shim::memory::{GuestMemory, PackError, PackedField};
use fs_shim::metadata::{FileKind, HostMetadata, HostTime};
use fs_shim::platform::{Platform, PlatformConsts};
use fs_shim::shim::{EvalContext, HostOp, InterpError, OpenOptions, SeekFrom, Step};

const BASE: u64 = 0x1000;

/// Guest memory of `len` zero bytes with the given strings, NUL-terminated, placed at
/// the given offsets.
fn memory_with(len: usize, strings: &[(usize, &str)]) -> GuestMemory {
    let mut bytes = vec![0u8; len];
    for (off, s) in strings {
        for (i, b) in s.bytes().enumerate() {
            bytes[off + i] = b;
        }
        bytes[off + s.len()] = 0;
    }
    GuestMemory { base: BASE, bytes }
}

fn linux_ctx(strings: &[(usize, &str)]) -> EvalContext {
    EvalContext::new(PlatformConsts::linux(), false, memory_with(256, strings))
}

fn macos_ctx(strings: &[(usize, &str)]) -> EvalContext {
    EvalContext::new(PlatformConsts::macos(), false, memory_with(256, strings))
}

fn done(r: Result<Step, InterpError>) -> i64 {
    match r {
        Ok(Step::Done(v)) => v,
        other => panic!("expected an immediate value, got {:?}", other),
    }
}

/// Opens the string at `ptr` with `flags`, the host handing out `host`.
fn open_as(ctx: &mut EvalContext, ptr: u64, flags: i32, host: u64) -> i32 {
    match ctx.open(ptr, flags) {
        Ok(Step::Host(HostOp::Open { options, .. })) => ctx.open_complete(options, Ok(host)).unwrap(),
        other => panic!("open did not reach the host: {:?}", other),
    }
}

fn close_ok(ctx: &mut EvalContext, fd: i32) -> i64 {
    match ctx.close(fd) {
        Ok(Step::Host(HostOp::Close { .. })) => ctx.try_unwrap_io_result(Ok(0)),
        other => panic!("close did not reach the host: {:?}", other),
    }
}

fn read_u32(mem: &GuestMemory, at: u64) -> u32 {
    let o = (at - mem.base) as usize;
    u32::from_le_bytes([mem.bytes[o], mem.bytes[o + 1], mem.bytes[o + 2], mem.bytes[o + 3]])
}

fn read_u16(mem: &GuestMemory, at: u64) -> u16 {
    let o = (at - mem.base) as usize;
    u16::from_le_bytes([mem.bytes[o], mem.bytes[o + 1]])
}

fn read_u64(mem: &GuestMemory, at: u64) -> u64 {
    let o = (at - mem.base) as usize;
    let mut b = [0u8; 8];
    b.copy_from_slice(&mem.bytes[o..o + 8]);
    u64::from_le_bytes(b)
}

#[test]
fn fds_allocated_in_order_and_lowest_reused() {
    let mut ctx = linux_ctx(&[(0, "/a"), (8, "/b"), (16, "/c"), (24, "/d")]);
    let c = ctx.consts;
    assert_eq!(open_as(&mut ctx, BASE, c.o_rdonly, 10), 3);
    assert_eq!(open_as(&mut ctx, BASE + 8, c.o_rdonly, 11), 4);
    assert_eq!(open_as(&mut ctx, BASE + 16, c.o_rdonly, 12), 5);
    assert_eq!(close_ok(&mut ctx, 4), 0);
    assert_eq!(open_as(&mut ctx, BASE + 24, c.o_rdonly, 13), 4);
    assert_eq!(ctx.file_handler.get(4), Some(FileHandle { host: 13, writable: false }));
}

#[test]
fn dupfd_lands_at_or_above_start() {
    let mut ctx = linux_ctx(&[(0, "/a")]);
    let c = ctx.consts;
    let fd = open_as(&mut ctx, BASE, c.o_wronly, 7);
    let (host, writable, start) = match ctx.fcntl(fd, c.f_dupfd, Some(10)) {
        Ok(Step::Host(HostOp::Clone { host, writable, start })) => (host, writable, start),
        other => panic!("unexpected {:?}", other),
    };
    assert_eq!((host, writable, start), (7, true, 10));
    let new_fd = ctx.dup_complete(writable, start, Ok(8)).unwrap();
    assert_eq!(new_fd, 10);
    assert_ne!(new_fd, fd);
    assert_eq!(ctx.file_handler.get(10), Some(FileHandle { host: 8, writable: true }));
    // The cloexec variant behaves the same; the next free slot at or above 10 is 11.
    match ctx.fcntl(fd, c.f_dupfd_cloexec, Some(10)) {
        Ok(Step::Host(HostOp::Clone { writable, start, .. })) => {
            assert_eq!(ctx.dup_complete(writable, start, Ok(9)).unwrap(), 11)
        }
        other => panic!("unexpected {:?}", other),
    }
}

#[test]
fn dup_of_standard_streams_is_unsupported() {
    let mut ctx = linux_ctx(&[]);
    let c = ctx.consts;
    for fd in 0..3 {
        assert!(matches!(ctx.fcntl(fd, c.f_dupfd, Some(10)), Err(InterpError::DupStdStream)));
    }
}

#[test]
fn dup_needs_a_start_argument() {
    let mut ctx = linux_ctx(&[(0, "/a")]);
    let c = ctx.consts;
    let fd = open_as(&mut ctx, BASE, c.o_rdonly, 1);
    assert!(matches!(ctx.fcntl(fd, c.f_dupfd, None), Err(InterpError::DupMissingStart)));
}

#[test]
fn dup_host_failure_is_recoverable() {
    let mut ctx = linux_ctx(&[(0, "/a")]);
    let c = ctx.consts;
    let fd = open_as(&mut ctx, BASE, c.o_rdonly, 1);
    assert!(matches!(ctx.fcntl(fd, c.f_dupfd, Some(3)), Ok(Step::Host(_))));
    assert_eq!(ctx.dup_complete(false, 3, Err(24)).unwrap(), -1);
    assert_eq!(ctx.last_error, 24);
    assert!(!ctx.file_handler.contains(4));
}

#[test]
fn fcntl_getfd_reports_cloexec() {
    let mut ctx = linux_ctx(&[(0, "/a")]);
    let c = ctx.consts;
    let fd = open_as(&mut ctx, BASE, c.o_rdonly, 1);
    assert_eq!(done(ctx.fcntl(fd, c.f_getfd, None)), c.fd_cloexec as i64);
}

#[test]
fn fcntl_other_command_is_unsupported() {
    let mut ctx = linux_ctx(&[]);
    assert!(matches!(ctx.fcntl(3, 4, None), Err(InterpError::FcntlCommand(4))));
}

#[test]
fn open_with_unmodelled_flag_is_unsupported() {
    let mut ctx = linux_ctx(&[(0, "/a")]);
    let c = ctx.consts;
    let flags = c.o_rdonly | c.o_creat | 0x40000;
    assert!(matches!(ctx.open(BASE, flags), Err(InterpError::UnsupportedFlags(0x40000))));
    // Nothing was allocated: the next open still gets the first descriptor.
    assert_eq!(open_as(&mut ctx, BASE, c.o_rdonly, 1), 3);
}

#[test]
fn open_decodes_options() {
    let ctx = linux_ctx(&[(0, "/a")]);
    let c = ctx.consts;
    let flags = c.o_rdwr | c.o_append | c.o_trunc | c.o_creat | c.o_cloexec;
    match ctx.open(BASE, flags) {
        Ok(Step::Host(HostOp::Open { path, options })) => {
            assert_eq!(path, b"/a".to_vec());
            assert_eq!(
                options,
                OpenOptions { read: true, write: true, append: true, truncate: true, create: true }
            );
        }
        other => panic!("unexpected {:?}", other),
    }
    assert!(matches!(ctx.open(BASE, 3), Err(InterpError::AccessMode)));
}

#[test]
fn open_macos_flag_values() {
    let ctx = macos_ctx(&[(0, "/a")]);
    match ctx.open(BASE, 1 | 8 | 0x200) {
        Ok(Step::Host(HostOp::Open { options, .. })) => {
            assert_eq!(
                options,
                OpenOptions { read: false, write: true, append: true, truncate: false, create: true }
            );
        }
        other => panic!("unexpected {:?}", other),
    }
}

#[test]
fn open_host_error_sets_errno() {
    let mut ctx = linux_ctx(&[(0, "/missing")]);
    let opts = OpenOptions { read: true, write: false, append: false, truncate: false, create: false };
    assert_eq!(ctx.open_complete(opts, Err(2)).unwrap(), -1);
    assert_eq!(ctx.last_error, 2);
}

#[test]
fn open_path_without_terminator_is_a_memory_error() {
    let mut mem = memory_with(4, &[]);
    mem.bytes = vec![b'/', b'a', b'b', b'c'];
    let ctx = EvalContext::new(PlatformConsts::linux(), false, mem);
    assert!(matches!(ctx.open(BASE, 0), Err(InterpError::MemoryAccess)));
}

#[test]
fn close_reports_failed_sync_yet_removes_fd() {
    let mut ctx = linux_ctx(&[(0, "/a")]);
    let c = ctx.consts;
    let fd = open_as(&mut ctx, BASE, c.o_wronly, 5);
    match ctx.close(fd) {
        Ok(Step::Host(HostOp::Close { host, sync })) => {
            assert_eq!((host, sync), (5, true));
            assert_eq!(ctx.try_unwrap_io_result(Err(5)), -1);
            assert_eq!(ctx.last_error, 5);
        }
        other => panic!("unexpected {:?}", other),
    }
    assert!(!ctx.file_handler.contains(fd));
    assert_eq!(done(ctx.close(fd)), -1);
    assert_eq!(ctx.last_error, c.ebadf);
}

#[test]
fn close_read_only_skips_sync() {
    let mut ctx = linux_ctx(&[(0, "/dev/urandom")]);
    let c = ctx.consts;
    let fd = open_as(&mut ctx, BASE, c.o_rdonly, 5);
    assert!(matches!(ctx.close(fd), Ok(Step::Host(HostOp::Close { host: 5, sync: false }))));
}

#[test]
fn partially_valid_buffer_fails_before_io() {
    let mut ctx = linux_ctx(&[(0, "/a")]);
    let c = ctx.consts;
    let fd = open_as(&mut ctx, BASE, c.o_rdwr, 5);
    let end = BASE + 256;
    assert!(matches!(ctx.read(fd, end - 4, 10), Err(InterpError::MemoryAccess)));
    assert!(matches!(ctx.write(fd, end - 4, 10), Err(InterpError::MemoryAccess)));
    assert_eq!(ctx.file_handler.get(fd), Some(FileHandle { host: 5, writable: true }));
    assert_eq!(ctx.last_error, 0);
}

#[test]
fn read_places_host_bytes_in_guest_memory() {
    let mut ctx = linux_ctx(&[(0, "/a")]);
    let c = ctx.consts;
    let fd = open_as(&mut ctx, BASE, c.o_rdonly, 5);
    match ctx.read(fd, BASE + 100, 8) {
        Ok(Step::Host(HostOp::Read { host, count })) => assert_eq!((host, count), (5, 8)),
        other => panic!("unexpected {:?}", other),
    }
    assert_eq!(ctx.read_complete(BASE + 100, 8, Ok(vec![1, 2, 3])).unwrap(), 3);
    assert_eq!(&ctx.memory.bytes[100..104], &[1, 2, 3, 0]);
    assert!(matches!(ctx.read_complete(BASE + 100, 2, Ok(vec![1, 2, 3])), Err(InterpError::HostOverrun)));
    assert_eq!(ctx.read_complete(BASE + 100, 8, Err(4)).unwrap(), -1);
    assert_eq!(ctx.last_error, 4);
}

#[test]
fn write_hands_guest_bytes_to_host() {
    let mut ctx = linux_ctx(&[(0, "/a"), (100, "hey")]);
    let c = ctx.consts;
    let fd = open_as(&mut ctx, BASE, c.o_wronly, 5);
    match ctx.write(fd, BASE + 100, 3) {
        Ok(Step::Host(HostOp::Write { host, bytes })) => {
            assert_eq!(host, 5);
            assert_eq!(bytes, b"hey".to_vec());
        }
        other => panic!("unexpected {:?}", other),
    }
}

#[test]
fn lseek_with_unknown_whence_is_einval() {
    let mut ctx = linux_ctx(&[(0, "/a")]);
    let c = ctx.consts;
    let fd = open_as(&mut ctx, BASE, c.o_rdonly, 5);
    assert_eq!(done(ctx.lseek64(fd, 10, 7)), -1);
    assert_eq!(ctx.last_error, c.einval);
    // The table is not consulted for a bad whence, even for an unknown descriptor.
    assert_eq!(done(ctx.lseek64(99, 10, 7)), -1);
    assert_eq!(ctx.last_error, c.einval);
}

#[test]
fn lseek_decodes_whence() {
    let mut ctx = linux_ctx(&[(0, "/a")]);
    let c = ctx.consts;
    let fd = open_as(&mut ctx, BASE, c.o_rdonly, 5);
    assert!(matches!(ctx.lseek64(fd, 4, c.seek_set), Ok(Step::Host(HostOp::Seek { host: 5, from: SeekFrom::Start(4) }))));
    assert!(matches!(ctx.lseek64(fd, -4, c.seek_cur), Ok(Step::Host(HostOp::Seek { from: SeekFrom::Current(-4), .. }))));
    assert!(matches!(ctx.lseek64(fd, -1, c.seek_end), Ok(Step::Host(HostOp::Seek { from: SeekFrom::End(-1), .. }))));
    assert_eq!(ctx.try_unwrap_io_result(Ok(12)), 12);
}

/// A host file system kept in memory: files by path, open resources by identifier.
struct FakeHost {
    files: HashMap<Vec<u8>, Vec<u8>>,
    open: HashMap<u64, (Vec<u8>, usize)>,
    next: u64,
}

impl FakeHost {
    fn new() -> Self {
        FakeHost { files: HashMap::new(), open: HashMap::new(), next: 100 }
    }

    /// Performs the step's host operation and finishes the call.
    fn run(&mut self, ctx: &mut EvalContext, step: Result<Step, InterpError>) -> i64 {
        match step.unwrap() {
            Step::Done(v) => v,
            Step::Host(HostOp::Open { path, options }) => {
                if !self.files.contains_key(&path) {
                    if !options.create {
                        return ctx.open_complete(options, Err(2)).unwrap() as i64;
                    }
                    self.files.insert(path.clone(), Vec::new());
                }
                if options.truncate {
                    self.files.insert(path.clone(), Vec::new());
                }
                let id = self.next;
                self.next += 1;
                self.open.insert(id, (path, 0));
                ctx.open_complete(options, Ok(id)).unwrap() as i64
            }
            Step::Host(HostOp::Write { host, bytes }) => {
                let (path, pos) = self.open.get_mut(&host).unwrap();
                let file = self.files.get_mut(path).unwrap();
                file.truncate(*pos);
                file.extend_from_slice(&bytes);
                *pos += bytes.len();
                ctx.try_unwrap_io_result(Ok(bytes.len() as i64))
            }
            Step::Host(HostOp::Close { host, .. }) => {
                self.open.remove(&host);
                ctx.try_unwrap_io_result(Ok(0))
            }
            Step::Host(HostOp::Rename { old_path, new_path }) => match self.files.remove(&old_path) {
                Some(data) => {
                    self.files.insert(new_path, data);
                    ctx.try_unwrap_io_result(Ok(0))
                }
                None => ctx.try_unwrap_io_result(Err(2)),
            },
            other => panic!("not needed here: {:?}", other),
        }
    }

    fn read(&mut self, ctx: &mut EvalContext, fd: i32, buf: u64, count: u64) -> i64 {
        match ctx.read(fd, buf, count).unwrap() {
            Step::Done(v) => v,
            Step::Host(HostOp::Read { host, count }) => {
                let (path, pos) = self.open.get_mut(&host).unwrap();
                let file = &self.files[path];
                let end = (*pos + count as usize).min(file.len());
                let data = file[*pos..end].to_vec();
                *pos = end;
                ctx.read_complete(buf, count, Ok(data)).unwrap()
            }
            other => panic!("unexpected {:?}", other),
        }
    }
}

#[test]
fn write_close_rename_read_round_trip() {
    let mut ctx = linux_ctx(&[(0, "/old"), (16, "/new"), (32, "payload")]);
    let c = ctx.consts;
    let mut host = FakeHost::new();
    let step = ctx.open(BASE, c.o_wronly | c.o_creat);
    let fd = host.run(&mut ctx, step) as i32;
    assert_eq!(fd, 3);
    let step = ctx.write(fd, BASE + 32, 7);
    assert_eq!(host.run(&mut ctx, step), 7);
    let step = ctx.close(fd);
    assert_eq!(host.run(&mut ctx, step), 0);
    let step = ctx.rename(BASE, BASE + 16);
    assert_eq!(host.run(&mut ctx, step), 0);
    let step = ctx.open(BASE + 16, c.o_rdonly);
    let fd = host.run(&mut ctx, step) as i32;
    assert_eq!(fd, 3);
    assert_eq!(host.read(&mut ctx, fd, BASE + 128, 64), 7);
    assert_eq!(&ctx.memory.bytes[128..135], b"payload");
}

#[test]
fn rename_and_symlink_reject_null_paths() {
    let mut ctx = linux_ctx(&[(0, "/a")]);
    let c = ctx.consts;
    assert_eq!(done(ctx.rename(0, BASE)), -1);
    assert_eq!(ctx.last_error, c.efault);
    ctx.last_error = 0;
    assert_eq!(done(ctx.symlink(BASE, 0)), -1);
    assert_eq!(ctx.last_error, c.efault);
}

#[test]
fn symlink_and_unlink_read_paths() {
    let mut ctx = linux_ctx(&[(0, "/target"), (16, "/link")]);
    match ctx.symlink(BASE, BASE + 16) {
        Ok(Step::Host(HostOp::Symlink { target, link })) => {
            assert_eq!(target, b"/target".to_vec());
            assert_eq!(link, b"/link".to_vec());
        }
        other => panic!("unexpected {:?}", other),
    }
    match ctx.unlink(BASE + 16) {
        Ok(Step::Host(HostOp::Unlink { path })) => assert_eq!(path, b"/link".to_vec()),
        other => panic!("unexpected {:?}", other),
    }
}

#[test]
fn isolation_refuses_every_call() {
    let mut ctx = EvalContext::new(PlatformConsts::linux(), true, memory_with(64, &[(0, "/a")]));
    assert!(matches!(ctx.open(BASE, 0), Err(InterpError::Isolated)));
    assert!(matches!(ctx.close(3), Err(InterpError::Isolated)));
    assert!(matches!(ctx.read(3, BASE, 1), Err(InterpError::Isolated)));
    assert!(matches!(ctx.write(3, BASE, 1), Err(InterpError::Isolated)));
    assert!(matches!(ctx.lseek64(3, 0, 0), Err(InterpError::Isolated)));
    assert!(matches!(ctx.fcntl(3, 1, None), Err(InterpError::Isolated)));
    assert!(matches!(ctx.unlink(BASE), Err(InterpError::Isolated)));
    assert!(matches!(ctx.rename(BASE, BASE), Err(InterpError::Isolated)));
    assert!(matches!(ctx.symlink(BASE, BASE), Err(InterpError::Isolated)));
    assert!(matches!(ctx.linux_statx(-100, BASE, 0, 0, BASE + 8), Err(InterpError::Isolated)));
}

fn host_meta(kind: FileKind, size: u64, modified: HostTime) -> HostMetadata {
    HostMetadata {
        kind,
        size,
        created: HostTime::Unavailable,
        accessed: HostTime::Unavailable,
        modified,
    }
}

#[test]
fn statx_reports_only_what_host_supplies() {
    let mut ctx = linux_ctx(&[(0, "/tmp/x")]);
    let c = ctx.consts;
    let buf = BASE + 16;
    match ctx.linux_statx(-5, BASE, 0, 0xffff_ffff, buf) {
        Ok(Step::Host(HostOp::MetadataOfPath { path, follow_symlink })) => {
            assert_eq!(path, b"/tmp/x".to_vec());
            assert!(follow_symlink);
        }
        other => panic!("unexpected {:?}", other),
    }
    let meta = host_meta(FileKind::File, 42, HostTime::SinceEpoch { secs: 100, nanos: 5 });
    assert_eq!(ctx.linux_statx_complete(buf, Ok(meta)).unwrap(), 0);
    let mem = &ctx.memory;
    assert_eq!(read_u32(mem, buf), c.statx_type | c.statx_size | c.statx_mtime);
    assert_eq!(read_u32(mem, buf), 577);
    assert_eq!(read_u16(mem, buf + 28) as u32, c.s_ifreg);
    assert_eq!(read_u64(mem, buf + 40), 42);
    assert_eq!(read_u64(mem, buf + 64), 0);
    assert_eq!(read_u64(mem, buf + 112), 100);
    assert_eq!(read_u32(mem, buf + 120), 5);
}

#[test]
fn statx_address_modes() {
    let mut ctx = linux_ctx(&[(0, "rel"), (8, ""), (16, "/abs")]);
    let c = ctx.consts;
    let buf = BASE + 64;
    assert!(matches!(ctx.linux_statx(5, BASE, 0, 0, buf), Err(InterpError::StatxPathMode)));
    assert!(matches!(ctx.linux_statx(c.at_fdcwd as i64, BASE, 0, 0, buf), Ok(Step::Host(HostOp::MetadataOfPath { .. }))));
    let flags = (c.at_empty_path | c.at_symlink_nofollow) as i64;
    assert_eq!(done(ctx.linux_statx(9, BASE + 8, flags, 0, buf)), -1);
    assert_eq!(ctx.last_error, c.ebadf);
    match ctx.linux_statx(5, BASE + 16, c.at_symlink_nofollow as i64, 0, buf) {
        Ok(Step::Host(HostOp::MetadataOfPath { follow_symlink, .. })) => assert!(!follow_symlink),
        other => panic!("unexpected {:?}", other),
    }
    assert_eq!(done(ctx.linux_statx(5, 0, 0, 0, buf)), -1);
    assert_eq!(ctx.last_error, c.efault);
    assert!(matches!(ctx.linux_statx(1 << 40, BASE + 16, 0, 0, buf), Err(InterpError::ArgumentOutOfRange)));
}

#[test]
fn statx_on_empty_path_uses_dirfd() {
    let mut ctx = linux_ctx(&[(0, "/a"), (8, "")]);
    let c = ctx.consts;
    let fd = open_as(&mut ctx, BASE, c.o_rdonly, 44);
    let step = ctx.linux_statx(fd as i64, BASE + 8, c.at_empty_path as i64, 0, BASE + 64);
    assert!(matches!(step, Ok(Step::Host(HostOp::MetadataOfHandle { host: 44 }))));
}

#[test]
fn statx_only_on_linux() {
    let mut ctx = macos_ctx(&[(0, "/a")]);
    assert!(matches!(ctx.linux_statx(-2, BASE, 0, 0, BASE + 8), Err(InterpError::WrongPlatform)));
}

#[test]
fn macos_stat_writes_struct_stat() {
    let mut ctx = macos_ctx(&[(0, "/dir")]);
    let c = ctx.consts;
    match ctx.macos_stat(BASE) {
        Ok(Step::Host(HostOp::MetadataOfPath { path, follow_symlink })) => {
            assert_eq!(path, b"/dir".to_vec());
            assert!(follow_symlink);
        }
        other => panic!("unexpected {:?}", other),
    }
    assert!(matches!(ctx.macos_lstat(BASE), Ok(Step::Host(HostOp::MetadataOfPath { follow_symlink: false, .. }))));
    let buf = BASE + 16;
    let meta = HostMetadata {
        kind: FileKind::Dir,
        size: 4096,
        created: HostTime::SinceEpoch { secs: 1, nanos: 2 },
        accessed: HostTime::SinceEpoch { secs: 3, nanos: 4 },
        modified: HostTime::SinceEpoch { secs: 5, nanos: 6 },
    };
    assert_eq!(ctx.macos_stat_complete(buf, Ok(meta)).unwrap(), 0);
    let mem = &ctx.memory;
    assert_eq!(read_u16(mem, buf + 4) as u32, c.s_ifdir);
    assert_eq!(read_u64(mem, buf + 32), 3);
    assert_eq!(read_u64(mem, buf + 40), 4);
    assert_eq!(read_u64(mem, buf + 48), 5);
    assert_eq!(read_u64(mem, buf + 56), 6);
    assert_eq!(read_u64(mem, buf + 80), 1);
    assert_eq!(read_u64(mem, buf + 88), 2);
    assert_eq!(read_u64(mem, buf + 96), 4096);
}

#[test]
fn macos_stat_host_error_and_early_time() {
    let mut ctx = macos_ctx(&[]);
    assert_eq!(ctx.macos_stat_complete(BASE, Err(2)).unwrap(), -1);
    assert_eq!(ctx.last_error, 2);
    let meta = host_meta(FileKind::Other, 0, HostTime::BeforeEpoch);
    assert!(matches!(ctx.macos_stat_complete(BASE, Ok(meta)), Err(InterpError::TimeBeforeEpoch)));
    let meta = host_meta(FileKind::Other, 0, HostTime::Unavailable);
    assert!(matches!(ctx.macos_stat_complete(BASE + 250, Ok(meta)), Err(InterpError::MemoryAccess)));
    assert!(matches!(ctx.macos_stat(BASE), Ok(Step::Host(_))));
    let mut linux = linux_ctx(&[(0, "/a")]);
    assert!(matches!(linux.macos_stat(BASE), Err(InterpError::WrongPlatform)));
}

#[test]
fn unknown_fd_is_ebadf_everywhere() {
    let mut ctx = macos_ctx(&[]);
    let c = ctx.consts;
    let mut check = |ctx: &mut EvalContext, r: Result<Step, InterpError>| {
        assert_eq!(done(r), -1);
        assert_eq!(ctx.last_error, c.ebadf);
        assert!(!ctx.file_handler.contains(42));
        ctx.last_error = 0;
    };
    let r = ctx.macos_fstat(42);
    check(&mut ctx, r);
    let r = ctx.fcntl(42, c.f_getfd, None);
    check(&mut ctx, r);
    let r = ctx.fcntl(42, c.f_dupfd, Some(3));
    check(&mut ctx, r);
    let r = ctx.read(42, BASE, 4);
    check(&mut ctx, r);
    let r = ctx.write(42, BASE, 4);
    check(&mut ctx, r);
    let r = ctx.close(42);
    check(&mut ctx, r);
    let r = ctx.lseek64(42, 0, c.seek_set);
    check(&mut ctx, r);
}

#[test]
fn fstat_on_open_fd_queries_its_resource() {
    let mut ctx = macos_ctx(&[(0, "/a")]);
    let c = ctx.consts;
    let fd = open_as(&mut ctx, BASE, c.o_rdonly, 31);
    assert!(matches!(ctx.macos_fstat(fd), Ok(Step::Host(HostOp::MetadataOfHandle { host: 31 }))));
}

#[test]
fn table_fills_gaps_from_min_fd() {
    let mut t = FileHandler::new();
    let h = FileHandle { host: 0, writable: false };
    assert_eq!(t.insert_fd(h), 3);
    assert_eq!(t.insert_fd_with_min_fd(h, 7), 7);
    assert_eq!(t.insert_fd_with_min_fd(h, 5), 5);
    assert_eq!(t.insert_fd_with_min_fd(h, 5), 6);
    assert_eq!(t.insert_fd_with_min_fd(h, 5), 8);
    assert_eq!(t.insert_fd(h), 4);
    assert_eq!(t.insert_fd_with_min_fd(h, -20), 9);
    assert_eq!(t.lowest_free_from(i32::MAX), Some(i32::MAX));
    assert_eq!(t.insert_fd_with_min_fd(h, i32::MAX), i32::MAX);
    assert_eq!(t.lowest_free_from(i32::MAX), None);
    assert_eq!(t.remove(6), Some(h));
    assert_eq!(t.remove(6), None);
    assert_eq!(t.insert_fd(h), 6);
}

#[test]
fn packed_write_checks_widths() {
    let mut mem = memory_with(16, &[]);
    let fields = vec![PackedField { width: 2, value: 0x1234 }, PackedField { width: 0, value: 0 }, PackedField { width: 4, value: 7 }];
    assert_eq!(mem.write_packed(BASE + 1, &fields), Ok(()));
    assert_eq!(&mem.bytes[0..8], &[0, 0x34, 0x12, 7, 0, 0, 0, 0]);
    let wide = vec![PackedField { width: 1, value: 256 }];
    assert_eq!(mem.write_packed(BASE, &wide), Err(PackError::ValueTooWide));
    assert_eq!(mem.write_packed(BASE + 14, &fields), Err(PackError::OutOfBounds));
}

#[test]
fn platform_tables() {
    let l = PlatformConsts::linux();
    let m = PlatformConsts::macos();
    assert_eq!(l.platform, Platform::Linux);
    assert_eq!(m.platform, Platform::MacOs);
    assert_eq!((l.o_creat, l.o_append, l.at_fdcwd), (64, 1024, -100));
    assert_eq!((m.o_creat, m.o_append, m.at_fdcwd), (0x200, 8, -2));
}
