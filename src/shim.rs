use vstd::prelude::*;

use crate::fd_table::{fd_floor, has_free_from, is_lowest_free, FileHandle, FileHandler, MIN_NORMAL_FILE_FD};
use crate::memory::{GuestMemory, PackError, PackedField, field_fits, packed_bytes, packed_len};
use crate::metadata::{
    FileMetadata, HostMetadata, has_time_before_epoch, macos_stat_fields, macos_stat_layout,
    normalize, statx_fields, statx_layout,
};
use crate::platform::{Platform, PlatformConsts};

verus! {

/// A condition under which the emulation cannot go on; it ends the whole evaluation.
#[derive(Clone, Copy, Debug, PartialEq, Eq, Structural)]
pub enum InterpError {
    /// The host file system is shut off from the guest.
    Isolated,
    /// The call belongs to another target platform.
    WrongPlatform,
    /// The access mode of `open` is not read-only, write-only or read-write.
    AccessMode,
    /// `open` was asked for these flag bits, which are not modelled.
    UnsupportedFlags(i32),
    /// `fcntl` was asked for this command, which is not modelled.
    FcntlCommand(i32),
    /// The standard streams cannot be duplicated.
    DupStdStream,
    /// `F_DUPFD` came without its third argument.
    DupMissingStart,
    /// `statx` was asked to address its file in a way that is not modelled.
    StatxPathMode,
    /// A pointer-sized argument does not fit a C `int`.
    ArgumentOutOfRange,
    /// Every descriptor the allocation could use is taken.
    FdSpaceExhausted,
    /// Guest memory that the call needs is not valid.
    MemoryAccess,
    /// A value does not fit the field of the target structure it goes to.
    ValueTooWide,
    /// The host handed back more bytes than were asked for.
    HostOverrun,
    /// The host reported a timestamp before the Unix epoch.
    TimeBeforeEpoch,
}

/// How the host is to open a file.
#[derive(Clone, Copy, Debug, PartialEq, Eq, Structural)]
pub struct OpenOptions {
    pub read: bool,
    pub write: bool,
    pub append: bool,
    pub truncate: bool,
    pub create: bool,
}

/// Where a seek counts from.
#[derive(Clone, Copy, Debug, PartialEq, Eq, Structural)]
pub enum SeekFrom {
    Start(u64),
    Current(i64),
    End(i64),
}

/// One operation on the host file system, for the caller to perform.
#[derive(Debug)]
pub enum HostOp {
    Open { path: Vec<u8>, options: OpenOptions },
    /// Duplicate a host resource; the copy goes in at the lowest free descriptor at
    /// or above `start`.
    Clone { host: u64, writable: bool, start: i32 },
    /// Release a host resource, flushing it to storage first when `sync` is set.
    Close { host: u64, sync: bool },
    Read { host: u64, count: u64 },
    Write { host: u64, bytes: Vec<u8> },
    Seek { host: u64, from: SeekFrom },
    Unlink { path: Vec<u8> },
    Rename { old_path: Vec<u8>, new_path: Vec<u8> },
    Symlink { target: Vec<u8>, link: Vec<u8> },
    MetadataOfPath { path: Vec<u8>, follow_symlink: bool },
    MetadataOfHandle { host: u64 },
}

/// What a system call comes to: a value for the guest at once, or a host operation
/// whose outcome decides the value.
#[derive(Debug)]
pub enum Step {
    Done(i64),
    Host(HostOp),
}

/// The state that the file-system shims work on: whether the host is shut off, the
/// target's constants, the descriptor table, guest memory and the guest's last error.
pub struct EvalContext {
    pub isolated: bool,
    pub consts: PlatformConsts,
    pub file_handler: FileHandler,
    pub memory: GuestMemory,
    pub last_error: i32,
}

/// The access-mode bits of `flags`.
pub open spec fn access_mode(flags: i32) -> i32 {
    flags & 3
}

/// The platform's access modes use the two low bits only, and `flags` names one of them.
pub open spec fn access_mode_ok(c: PlatformConsts, flags: i32) -> bool {
    &&& (c.o_rdonly | c.o_wronly | c.o_rdwr) & !3i32 == 0
    &&& (access_mode(flags) == c.o_rdonly || access_mode(flags) == c.o_wronly || access_mode(flags)
        == c.o_rdwr)
}

/// `m` with `bit` set when `flags` has any bit of `bit`.
pub open spec fn mirror_bit(m: i32, flags: i32, bit: i32) -> i32 {
    if flags & bit != 0 {
        m | bit
    } else {
        m
    }
}

/// `flags` rebuilt from the bits that `open` models: the access mode, append,
/// truncate, create and close-on-exec.
pub open spec fn open_mirror(c: PlatformConsts, flags: i32) -> i32 {
    mirror_bit(
        mirror_bit(
            mirror_bit(mirror_bit(access_mode(flags), flags, c.o_append), flags, c.o_trunc),
            flags,
            c.o_creat,
        ),
        flags,
        c.o_cloexec,
    )
}

/// The host options that `flags` asks for.
pub open spec fn open_options(c: PlatformConsts, flags: i32) -> OpenOptions {
    let a = access_mode(flags);
    OpenOptions {
        read: a == c.o_rdonly || (a != c.o_wronly && a == c.o_rdwr),
        write: a != c.o_rdonly && (a == c.o_wronly || a == c.o_rdwr),
        append: flags & c.o_append != 0,
        truncate: flags & c.o_trunc != 0,
        create: flags & c.o_creat != 0,
    }
}

/// The largest byte count that the target's signed size type holds.
pub open spec fn target_isize_max(c: PlatformConsts) -> u64 {
    if c.pointer_bits == 32 {
        0x7fff_ffffu64
    } else {
        0x7fff_ffff_ffff_ffffu64
    }
}

/// The largest byte count that both the target's and the host's signed size type hold.
pub open spec fn count_cap(c: PlatformConsts) -> u64 {
    if target_isize_max(c) < isize::MAX as u64 {
        target_isize_max(c)
    } else {
        isize::MAX as u64
    }
}

/// `count` capped by `count_cap`.
pub open spec fn capped(c: PlatformConsts, count: u64) -> u64 {
    if count < count_cap(c) {
        count
    } else {
        count_cap(c)
    }
}

/// The seek origin that `whence` names, if any.
pub open spec fn seek_from(c: PlatformConsts, offset: i64, whence: i32) -> Option<SeekFrom> {
    if whence == c.seek_set {
        Some(SeekFrom::Start(offset as u64))
    } else if whence == c.seek_cur {
        Some(SeekFrom::Current(offset))
    } else if whence == c.seek_end {
        Some(SeekFrom::End(offset))
    } else {
        None
    }
}

/// Every field of `fields` fits its width.
pub open spec fn all_fit(fields: Seq<PackedField>) -> bool {
    forall|i: int| 0 <= i < fields.len() ==> field_fits(#[trigger] fields[i])
}

impl GuestMemory {
    /// `s` is the NUL-terminated string at `ptr`, without its terminator.
    pub open spec fn is_c_str_at(&self, ptr: u64, s: Seq<u8>) -> bool {
        &&& self.range_ok(ptr, s.len() + 1)
        &&& self.bytes_at(ptr, s.len()) == s
        &&& self.bytes@[ptr - self.base + s.len()] == 0
        &&& !s.contains(0u8)
    }

    /// Some NUL-terminated string starts at `ptr`.
    pub open spec fn has_c_str_at(&self, ptr: u64) -> bool {
        exists|s: Seq<u8>| self.is_c_str_at(ptr, s)
    }

    /// The NUL-terminated string at `ptr`; meaningful where `has_c_str_at(ptr)`.
    pub open spec fn c_str(&self, ptr: u64) -> Seq<u8> {
        choose|s: Seq<u8>| self.is_c_str_at(ptr, s)
    }

    /// At most one NUL-terminated string starts at `ptr`.
    pub proof fn lemma_c_str_unique(&self, ptr: u64, s: Seq<u8>, t: Seq<u8>)
        requires
            self.is_c_str_at(ptr, s),
            self.is_c_str_at(ptr, t),
        ensures
            s == t,
    {
        if s.len() < t.len() {
            assert(t[s.len() as int] == self.bytes@[ptr - self.base + s.len()]);
        } else if t.len() < s.len() {
            assert(s[t.len() as int] == self.bytes@[ptr - self.base + t.len()]);
        } else {
            assert(s =~= t);
        }
    }

    /// The NUL-terminated string at `ptr`, or `None` when none lies in the region.
    pub fn c_str_at(&self, ptr: u64) -> (r: Option<Vec<u8>>)
        ensures
            match r {
                Some(s) => self.has_c_str_at(ptr) && s@ == self.c_str(ptr),
                None => !self.has_c_str_at(ptr),
            },
    {
        let r = self.read_c_str(ptr);
        proof {
            match &r {
                Some(s) => {
                    assert(self.is_c_str_at(ptr, s@));
                    self.lemma_c_str_unique(ptr, s@, self.c_str(ptr));
                },
                None => {
                    if self.has_c_str_at(ptr) {
                        let s = choose|s: Seq<u8>| self.is_c_str_at(ptr, s);
                        let n = s.len() as nat;
                        assert(self.range_ok(ptr, n + 1));
                        assert(self.bytes_at(ptr, n).contains(0u8));
                    }
                },
            }
        }
        r
    }
}

impl EvalContext {
    /// The descriptor table is well formed.
    pub open spec fn wf(&self) -> bool {
        self.file_handler.wf()
    }

    /// `self` differs from `o` at most in the last error.
    pub open spec fn same_but_error(&self, o: &EvalContext) -> bool {
        &&& self.isolated == o.isolated
        &&& self.consts == o.consts
        &&& self.file_handler == o.file_handler
        &&& self.memory.base == o.memory.base
        &&& self.memory.bytes@ == o.memory.bytes@
    }

    /// `self` is `o` after a failure recorded as `errno`.
    pub open spec fn failed_with(&self, o: &EvalContext, errno: i32) -> bool {
        self.same_but_error(o) && self.last_error == errno
    }

    /// `self` is `o` unchanged.
    pub open spec fn unchanged(&self, o: &EvalContext) -> bool {
        self.same_but_error(o) && self.last_error == o.last_error
    }

    /// A context with an empty descriptor table and no error recorded.
    pub fn new(consts: PlatformConsts, isolated: bool, memory: GuestMemory) -> (r: EvalContext)
        ensures
            r.wf(),
            r.file_handler@ == Map::<i32, FileHandle>::empty(),
            r.consts == consts,
            r.isolated == isolated,
            r.memory == memory,
            r.last_error == 0,
    {
        EvalContext { isolated, consts, file_handler: FileHandler::new(), memory, last_error: 0 }
    }

    /// Records `EBADF` for a descriptor that is not in the table and gives `-1`.
    pub fn handle_not_found(&mut self) -> (r: i32)
        ensures
            r == -1,
            final(self).failed_with(old(self), old(self).consts.ebadf),
    {
        self.last_error = self.consts.ebadf;
        -1
    }

    /// The guest's value for a host outcome: the value on success; on failure `-1`,
    /// with the host's error recorded.
    pub fn try_unwrap_io_result(&mut self, result: Result<i64, i32>) -> (r: i64)
        ensures
            match result {
                Ok(v) => r == v && final(self).unchanged(old(self)),
                Err(e) => r == -1 && final(self).failed_with(old(self), e),
            },
    {
        match result {
            Ok(v) => v,
            Err(e) => {
                self.last_error = e;
                -1
            },
        }
    }

    /// Decodes `open(path, flags)` into the host open to perform.
    pub fn open(&self, path_ptr: u64, flags: i32) -> (r: Result<Step, InterpError>)
        ensures
            self.isolated ==> r == Err::<Step, InterpError>(InterpError::Isolated),
            !self.isolated && !access_mode_ok(self.consts, flags) ==> r == Err::<
                Step,
                InterpError,
            >(InterpError::AccessMode),
            !self.isolated && access_mode_ok(self.consts, flags) && flags != open_mirror(
                self.consts,
                flags,
            ) ==> r == Err::<Step, InterpError>(
                InterpError::UnsupportedFlags(flags & !open_mirror(self.consts, flags)),
            ),
            !self.isolated && access_mode_ok(self.consts, flags) && flags == open_mirror(
                self.consts,
                flags,
            ) ==> match r {
                Ok(Step::Host(HostOp::Open { path, options })) => {
                    &&& self.memory.has_c_str_at(path_ptr)
                    &&& path@ == self.memory.c_str(path_ptr)
                    &&& options == open_options(self.consts, flags)
                },
                Err(e) => e == InterpError::MemoryAccess && !self.memory.has_c_str_at(path_ptr),
                _ => false,
            },
    {
        if self.isolated {
            return Err(InterpError::Isolated);
        }
        let c = &self.consts;
        if (c.o_rdonly | c.o_wronly | c.o_rdwr) & !3i32 != 0 {
            return Err(InterpError::AccessMode);
        }
        let mode = flags & 3;
        let mut options = OpenOptions {
            read: false,
            write: false,
            append: false,
            truncate: false,
            create: false,
        };
        if mode == c.o_rdonly {
            options.read = true;
        } else if mode == c.o_wronly {
            options.write = true;
        } else if mode == c.o_rdwr {
            options.read = true;
            options.write = true;
        } else {
            return Err(InterpError::AccessMode);
        }
        let mut mirror: i32 = mode;
        if flags & c.o_append != 0 {
            options.append = true;
            mirror = mirror | c.o_append;
        }
        if flags & c.o_trunc != 0 {
            options.truncate = true;
            mirror = mirror | c.o_trunc;
        }
        if flags & c.o_creat != 0 {
            options.create = true;
            mirror = mirror | c.o_creat;
        }
        if flags & c.o_cloexec != 0 {
            // The host always opens with close-on-exec; the flag needs nothing more.
            mirror = mirror | c.o_cloexec;
        }
        if flags != mirror {
            return Err(InterpError::UnsupportedFlags(flags & !mirror));
        }
        match self.memory.c_str_at(path_ptr) {
            Some(path) => Ok(Step::Host(HostOp::Open { path, options })),
            None => Err(InterpError::MemoryAccess),
        }
    }

    /// Finishes an `open` performed with `options`: a new descriptor at the lowest
    /// free place for the opened resource, or `-1` with the host's error.
    pub fn open_complete(&mut self, options: OpenOptions, outcome: Result<u64, i32>) -> (r: Result<
        i32,
        InterpError,
    >)
        requires
            old(self).wf(),
        ensures
            final(self).wf(),
            match outcome {
                Err(e) => r == Ok::<i32, InterpError>(-1i32) && final(self).failed_with(old(self), e),
                Ok(h) => if has_free_from(old(self).file_handler@, MIN_NORMAL_FILE_FD) {
                    match r {
                        Ok(fd) => {
                            &&& is_lowest_free(old(self).file_handler@, MIN_NORMAL_FILE_FD, fd)
                            &&& final(self).file_handler@ == old(self).file_handler@.insert(
                                fd,
                                FileHandle { host: h, writable: options.write },
                            )
                            &&& final(self).memory.base == old(self).memory.base
                            &&& final(self).memory.bytes@ == old(self).memory.bytes@
                            &&& final(self).consts == old(self).consts
                            &&& final(self).isolated == old(self).isolated
                            &&& final(self).last_error == old(self).last_error
                        },
                        Err(_) => false,
                    }
                } else {
                    &&& r == Err::<i32, InterpError>(InterpError::FdSpaceExhausted)
                    &&& final(self).unchanged(old(self))
                },
            },
    {
        match outcome {
            Err(e) => {
                self.last_error = e;
                Ok(-1)
            },
            Ok(host) => match self.file_handler.lowest_free_from(MIN_NORMAL_FILE_FD) {
                None => Err(InterpError::FdSpaceExhausted),
                Some(_) => Ok(
                    self.file_handler.insert_fd(FileHandle { host, writable: options.write }),
                ),
            },
        }
    }
}

/// `r` is the immediate value `v`.
pub open spec fn is_done(r: Result<Step, InterpError>, v: int) -> bool {
    match r {
        Ok(Step::Done(x)) => x == v,
        _ => false,
    }
}

impl EvalContext {
    /// `self` differs from `o` at most in the descriptor table.
    pub open spec fn same_but_table(&self, o: &EvalContext) -> bool {
        &&& self.isolated == o.isolated
        &&& self.consts == o.consts
        &&& self.memory.base == o.memory.base
        &&& self.memory.bytes@ == o.memory.bytes@
        &&& self.last_error == o.last_error
    }

    /// `self` is `o` after a call that failed with an immediate `-1` and `errno`.
    pub open spec fn done_failed(&self, o: &EvalContext, r: Result<Step, InterpError>, errno: i32) -> bool {
        is_done(r, -1) && self.failed_with(o, errno)
    }

    /// Decodes `fcntl(fd, cmd, start)`. `F_GETFD` reports close-on-exec as set for
    /// every open descriptor; `F_DUPFD` and `F_DUPFD_CLOEXEC` ask the host to clone
    /// the resource.
    pub fn fcntl(&mut self, fd: i32, cmd: i32, start: Option<i32>) -> (r: Result<Step, InterpError>)
        requires
            old(self).wf(),
        ensures
            final(self).wf(),
            r is Err || is_done(r, -1) ==> final(self).same_but_error(old(self)),
            r is Err ==> final(self).unchanged(old(self)),
            old(self).isolated ==> r == Err::<Step, InterpError>(InterpError::Isolated),
            !old(self).isolated && cmd == old(self).consts.f_getfd ==> if old(self).file_handler@.contains_key(fd) {
                is_done(r, old(self).consts.fd_cloexec as int) && final(self).unchanged(old(self))
            } else {
                final(self).done_failed(old(self), r, old(self).consts.ebadf)
            },
            !old(self).isolated && cmd != old(self).consts.f_getfd && (cmd == old(self).consts.f_dupfd
                || cmd == old(self).consts.f_dupfd_cloexec) ==> if fd < MIN_NORMAL_FILE_FD {
                r == Err::<Step, InterpError>(InterpError::DupStdStream)
            } else if start is None {
                r == Err::<Step, InterpError>(InterpError::DupMissingStart)
            } else if !old(self).file_handler@.contains_key(fd) {
                final(self).done_failed(old(self), r, old(self).consts.ebadf)
            } else {
                &&& final(self).unchanged(old(self))
                &&& match r {
                    Ok(Step::Host(HostOp::Clone { host, writable, start: s })) => {
                        &&& host == old(self).file_handler@[fd].host
                        &&& writable == old(self).file_handler@[fd].writable
                        &&& start == Some(s)
                    },
                    _ => false,
                }
            },
            !old(self).isolated && cmd != old(self).consts.f_getfd && cmd != old(self).consts.f_dupfd
                && cmd != old(self).consts.f_dupfd_cloexec ==> r == Err::<Step, InterpError>(
                InterpError::FcntlCommand(cmd),
            ),
    {
        if self.isolated {
            return Err(InterpError::Isolated);
        }
        if cmd == self.consts.f_getfd {
            if self.file_handler.contains(fd) {
                Ok(Step::Done(self.consts.fd_cloexec as i64))
            } else {
                Ok(Step::Done(self.handle_not_found() as i64))
            }
        } else if cmd == self.consts.f_dupfd || cmd == self.consts.f_dupfd_cloexec {
            // Every descriptor is close-on-exec, so the two commands coincide.
            if fd < MIN_NORMAL_FILE_FD {
                return Err(InterpError::DupStdStream);
            }
            let start = match start {
                Some(s) => s,
                None => return Err(InterpError::DupMissingStart),
            };
            match self.file_handler.get(fd) {
                Some(fh) => Ok(Step::Host(HostOp::Clone { host: fh.host, writable: fh.writable, start })),
                None => Ok(Step::Done(self.handle_not_found() as i64)),
            }
        } else {
            Err(InterpError::FcntlCommand(cmd))
        }
    }

    /// Finishes a duplication: the clone goes in at the lowest free descriptor at or
    /// above `max(start, 3)`, or the host's error is recorded and `-1` returned.
    pub fn dup_complete(&mut self, writable: bool, start: i32, outcome: Result<u64, i32>) -> (r: Result<i32, InterpError>)
        requires
            old(self).wf(),
        ensures
            final(self).wf(),
            match outcome {
                Err(e) => r == Ok::<i32, InterpError>(-1i32) && final(self).failed_with(old(self), e),
                Ok(h) => if has_free_from(old(self).file_handler@, fd_floor(start)) {
                    match r {
                        Ok(fd) => {
                            &&& is_lowest_free(old(self).file_handler@, fd_floor(start), fd)
                            &&& final(self).file_handler@ == old(self).file_handler@.insert(
                                fd,
                                FileHandle { host: h, writable },
                            )
                            &&& final(self).same_but_table(old(self))
                        },
                        Err(_) => false,
                    }
                } else {
                    &&& r == Err::<i32, InterpError>(InterpError::FdSpaceExhausted)
                    &&& final(self).unchanged(old(self))
                },
            },
    {
        match outcome {
            Err(e) => {
                self.last_error = e;
                Ok(-1)
            },
            Ok(host) => match self.file_handler.lowest_free_from(start) {
                None => Err(InterpError::FdSpaceExhausted),
                Some(_) => Ok(self.file_handler.insert_fd_with_min_fd(FileHandle { host, writable }, start)),
            },
        }
    }

    /// Decodes `close(fd)`: the descriptor leaves the table at once; the host then
    /// releases the resource, flushing it first when it was writable.
    pub fn close(&mut self, fd: i32) -> (r: Result<Step, InterpError>)
        requires
            old(self).wf(),
        ensures
            final(self).wf(),
            old(self).isolated ==> r == Err::<Step, InterpError>(InterpError::Isolated)
                && final(self).unchanged(old(self)),
            !old(self).isolated && !old(self).file_handler@.contains_key(fd) ==> final(self).done_failed(old(self), r, old(self).consts.ebadf),
            !old(self).isolated && old(self).file_handler@.contains_key(fd) ==> {
                &&& final(self).file_handler@ == old(self).file_handler@.remove(fd)
                &&& final(self).same_but_table(old(self))
                &&& match r {
                    Ok(Step::Host(HostOp::Close { host, sync })) => {
                        &&& host == old(self).file_handler@[fd].host
                        &&& sync == old(self).file_handler@[fd].writable
                    },
                    _ => false,
                }
            },
    {
        if self.isolated {
            return Err(InterpError::Isolated);
        }
        if !self.file_handler.contains(fd) {
            return Ok(Step::Done(self.handle_not_found() as i64));
        }
        match self.file_handler.remove(fd) {
            Some(fh) => Ok(Step::Host(HostOp::Close { host: fh.host, sync: fh.writable })),
            None => Ok(Step::Done(-1)),
        }
    }

    /// The byte count of a transfer of `count` bytes, capped.
    fn cap_count(&self, count: u64) -> (r: u64)
        ensures
            r == capped(self.consts, count),
    {
        let target: u64 = if self.consts.pointer_bits == 32 {
            0x7fff_ffff
        } else {
            0x7fff_ffff_ffff_ffff
        };
        let host: u64 = isize::MAX as u64;
        let cap: u64 = if target < host {
            target
        } else {
            host
        };
        if count < cap {
            count
        } else {
            cap
        }
    }

    /// Decodes `read(fd, buf, count)`. The whole buffer must be valid guest memory
    /// before anything else happens.
    pub fn read(&mut self, fd: i32, buf: u64, count: u64) -> (r: Result<Step, InterpError>)
        requires
            old(self).wf(),
        ensures
            final(self).wf(),
            old(self).isolated ==> r == Err::<Step, InterpError>(InterpError::Isolated)
                && final(self).unchanged(old(self)),
            !old(self).isolated && !old(self).memory.range_ok(buf, count as nat) ==> r == Err::<
                Step,
                InterpError,
            >(InterpError::MemoryAccess) && final(self).unchanged(old(self)),
            !old(self).isolated && old(self).memory.range_ok(buf, count as nat) && !old(self).file_handler@.contains_key(fd) ==> final(self).done_failed(
                old(self),
                r,
                old(self).consts.ebadf,
            ),
            !old(self).isolated && old(self).memory.range_ok(buf, count as nat) && old(self).file_handler@.contains_key(fd) ==> final(self).unchanged(old(self)) && match r {
                Ok(Step::Host(HostOp::Read { host, count: n })) => {
                    &&& host == old(self).file_handler@[fd].host
                    &&& n == capped(old(self).consts, count)
                },
                _ => false,
            },
    {
        if self.isolated {
            return Err(InterpError::Isolated);
        }
        if !self.memory.check_ptr_access(buf, count) {
            return Err(InterpError::MemoryAccess);
        }
        let count = self.cap_count(count);
        match self.file_handler.get(fd) {
            Some(fh) => Ok(Step::Host(HostOp::Read { host: fh.host, count })),
            None => Ok(Step::Done(self.handle_not_found() as i64)),
        }
    }

    /// Finishes a read of at most `count` bytes into `buf`: the bytes the host read
    /// go to guest memory and their number is returned; a host error is recorded and
    /// leaves memory untouched.
    pub fn read_complete(&mut self, buf: u64, count: u64, outcome: Result<Vec<u8>, i32>) -> (r: Result<i64, InterpError>)
        ensures
            final(self).file_handler == old(self).file_handler,
            match outcome {
                Err(e) => r == Ok::<i64, InterpError>(-1i64) && final(self).failed_with(old(self), e),
                Ok(bytes) => if bytes@.len() > count || bytes@.len() > i64::MAX {
                    r == Err::<i64, InterpError>(InterpError::HostOverrun) && final(self).unchanged(old(self))
                } else if !old(self).memory.range_ok(buf, bytes@.len()) {
                    r == Err::<i64, InterpError>(InterpError::MemoryAccess) && final(self).unchanged(old(self))
                } else {
                    &&& r == Ok::<i64, InterpError>(bytes@.len() as i64)
                    &&& final(self).memory.base == old(self).memory.base
                    &&& final(self).memory.bytes@ == old(self).memory.written(buf, bytes@)
                    &&& final(self).isolated == old(self).isolated
                    &&& final(self).consts == old(self).consts
                    &&& final(self).last_error == old(self).last_error
                },
            },
    {
        match outcome {
            Err(e) => {
                self.last_error = e;
                Ok(-1)
            },
            Ok(bytes) => {
                let n = bytes.len() as u64;
                if n > count || n > 0x7fff_ffff_ffff_ffff {
                    return Err(InterpError::HostOverrun);
                }
                if !self.memory.check_ptr_access(buf, n) {
                    return Err(InterpError::MemoryAccess);
                }
                self.memory.write_bytes(buf, &bytes);
                Ok(n as i64)
            },
        }
    }

    /// Decodes `write(fd, buf, count)`. The whole buffer must be valid guest memory
    /// before anything else happens; the host gets the (capped) bytes of `buf`.
    pub fn write(&mut self, fd: i32, buf: u64, count: u64) -> (r: Result<Step, InterpError>)
        requires
            old(self).wf(),
        ensures
            final(self).wf(),
            old(self).isolated ==> r == Err::<Step, InterpError>(InterpError::Isolated)
                && final(self).unchanged(old(self)),
            !old(self).isolated && !old(self).memory.range_ok(buf, count as nat) ==> r == Err::<
                Step,
                InterpError,
            >(InterpError::MemoryAccess) && final(self).unchanged(old(self)),
            !old(self).isolated && old(self).memory.range_ok(buf, count as nat) && !old(self).file_handler@.contains_key(fd) ==> final(self).done_failed(
                old(self),
                r,
                old(self).consts.ebadf,
            ),
            !old(self).isolated && old(self).memory.range_ok(buf, count as nat) && old(self).file_handler@.contains_key(fd) ==> final(self).unchanged(old(self)) && match r {
                Ok(Step::Host(HostOp::Write { host, bytes })) => {
                    &&& host == old(self).file_handler@[fd].host
                    &&& bytes@ == old(self).memory.bytes_at(buf, capped(old(self).consts, count) as nat)
                },
                _ => false,
            },
    {
        if self.isolated {
            return Err(InterpError::Isolated);
        }
        if !self.memory.check_ptr_access(buf, count) {
            return Err(InterpError::MemoryAccess);
        }
        let count = self.cap_count(count);
        match self.file_handler.get(fd) {
            Some(fh) => {
                let bytes = self.memory.read_bytes(buf, count);
                Ok(Step::Host(HostOp::Write { host: fh.host, bytes }))
            },
            None => Ok(Step::Done(self.handle_not_found() as i64)),
        }
    }

    /// Decodes `lseek(fd, offset, whence)`. An unknown `whence` is `EINVAL`, before
    /// the table is consulted.
    pub fn lseek64(&mut self, fd: i32, offset: i64, whence: i32) -> (r: Result<Step, InterpError>)
        requires
            old(self).wf(),
        ensures
            final(self).wf(),
            old(self).isolated ==> r == Err::<Step, InterpError>(InterpError::Isolated)
                && final(self).unchanged(old(self)),
            !old(self).isolated && seek_from(old(self).consts, offset, whence) is None ==> final(self).done_failed(old(self), r, old(self).consts.einval),
            !old(self).isolated && seek_from(old(self).consts, offset, whence) is Some && !old(self).file_handler@.contains_key(fd) ==> final(self).done_failed(
                old(self),
                r,
                old(self).consts.ebadf,
            ),
            !old(self).isolated && seek_from(old(self).consts, offset, whence) is Some && old(self).file_handler@.contains_key(fd) ==> final(self).unchanged(old(self)) && match r {
                Ok(Step::Host(HostOp::Seek { host, from })) => {
                    &&& host == old(self).file_handler@[fd].host
                    &&& seek_from(old(self).consts, offset, whence) == Some(from)
                },
                _ => false,
            },
    {
        if self.isolated {
            return Err(InterpError::Isolated);
        }
        let from = if whence == self.consts.seek_set {
            SeekFrom::Start(offset as u64)
        } else if whence == self.consts.seek_cur {
            SeekFrom::Current(offset)
        } else if whence == self.consts.seek_end {
            SeekFrom::End(offset)
        } else {
            self.last_error = self.consts.einval;
            return Ok(Step::Done(-1));
        };
        match self.file_handler.get(fd) {
            Some(fh) => Ok(Step::Host(HostOp::Seek { host: fh.host, from })),
            None => Ok(Step::Done(self.handle_not_found() as i64)),
        }
    }

    /// Decodes `unlink(path)`.
    pub fn unlink(&self, path_ptr: u64) -> (r: Result<Step, InterpError>)
        ensures
            self.isolated ==> r == Err::<Step, InterpError>(InterpError::Isolated),
            !self.isolated ==> match r {
                Ok(Step::Host(HostOp::Unlink { path })) => self.memory.has_c_str_at(path_ptr)
                    && path@ == self.memory.c_str(path_ptr),
                Err(e) => e == InterpError::MemoryAccess && !self.memory.has_c_str_at(path_ptr),
                _ => false,
            },
    {
        if self.isolated {
            return Err(InterpError::Isolated);
        }
        match self.memory.c_str_at(path_ptr) {
            Some(path) => Ok(Step::Host(HostOp::Unlink { path })),
            None => Err(InterpError::MemoryAccess),
        }
    }

    /// The two strings at `a` and `b`, or `MemoryAccess`.
    fn two_paths(&self, a: u64, b: u64) -> (r: Result<(Vec<u8>, Vec<u8>), InterpError>)
        ensures
            match r {
                Ok((x, y)) => {
                    &&& self.memory.has_c_str_at(a) && x@ == self.memory.c_str(a)
                    &&& self.memory.has_c_str_at(b) && y@ == self.memory.c_str(b)
                },
                Err(e) => e == InterpError::MemoryAccess && !(self.memory.has_c_str_at(a)
                    && self.memory.has_c_str_at(b)),
            },
    {
        let x = match self.memory.c_str_at(a) {
            Some(x) => x,
            None => return Err(InterpError::MemoryAccess),
        };
        let y = match self.memory.c_str_at(b) {
            Some(y) => y,
            None => return Err(InterpError::MemoryAccess),
        };
        Ok((x, y))
    }

    /// Decodes `rename(old, new)`; a null path is `EFAULT`.
    pub fn rename(&mut self, oldpath_ptr: u64, newpath_ptr: u64) -> (r: Result<Step, InterpError>)
        ensures
            old(self).isolated ==> r == Err::<Step, InterpError>(InterpError::Isolated)
                && final(self).unchanged(old(self)),
            !old(self).isolated && (oldpath_ptr == 0 || newpath_ptr == 0) ==> final(self).done_failed(
                old(self),
                r,
                old(self).consts.efault,
            ),
            !old(self).isolated && oldpath_ptr != 0 && newpath_ptr != 0 ==> final(self).unchanged(old(self)) && match r {
                Ok(Step::Host(HostOp::Rename { old_path, new_path })) => {
                    &&& old(self).memory.has_c_str_at(oldpath_ptr)
                    &&& old_path@ == old(self).memory.c_str(oldpath_ptr)
                    &&& old(self).memory.has_c_str_at(newpath_ptr)
                    &&& new_path@ == old(self).memory.c_str(newpath_ptr)
                },
                Err(e) => e == InterpError::MemoryAccess && !(old(self).memory.has_c_str_at(oldpath_ptr)
                    && old(self).memory.has_c_str_at(newpath_ptr)),
                _ => false,
            },
    {
        if self.isolated {
            return Err(InterpError::Isolated);
        }
        if oldpath_ptr == 0 || newpath_ptr == 0 {
            self.last_error = self.consts.efault;
            return Ok(Step::Done(-1));
        }
        let (old_path, new_path) = self.two_paths(oldpath_ptr, newpath_ptr)?;
        Ok(Step::Host(HostOp::Rename { old_path, new_path }))
    }

    /// Decodes `symlink(target, linkpath)`; a null path is `EFAULT`.
    pub fn symlink(&mut self, target_ptr: u64, linkpath_ptr: u64) -> (r: Result<Step, InterpError>)
        ensures
            old(self).isolated ==> r == Err::<Step, InterpError>(InterpError::Isolated)
                && final(self).unchanged(old(self)),
            !old(self).isolated && (target_ptr == 0 || linkpath_ptr == 0) ==> final(self).done_failed(
                old(self),
                r,
                old(self).consts.efault,
            ),
            !old(self).isolated && target_ptr != 0 && linkpath_ptr != 0 ==> final(self).unchanged(old(self)) && match r {
                Ok(Step::Host(HostOp::Symlink { target, link })) => {
                    &&& old(self).memory.has_c_str_at(target_ptr)
                    &&& target@ == old(self).memory.c_str(target_ptr)
                    &&& old(self).memory.has_c_str_at(linkpath_ptr)
                    &&& link@ == old(self).memory.c_str(linkpath_ptr)
                },
                Err(e) => e == InterpError::MemoryAccess && !(old(self).memory.has_c_str_at(target_ptr)
                    && old(self).memory.has_c_str_at(linkpath_ptr)),
                _ => false,
            },
    {
        if self.isolated {
            return Err(InterpError::Isolated);
        }
        if target_ptr == 0 || linkpath_ptr == 0 {
            self.last_error = self.consts.efault;
            return Ok(Step::Done(-1));
        }
        let (target, link) = self.two_paths(target_ptr, linkpath_ptr)?;
        Ok(Step::Host(HostOp::Symlink { target, link }))
    }
}

/// `after` is `before` with the packed write of `fields` at `buf` done as `r` says:
/// `ValueTooWide` when a value does not fit, `MemoryAccess` when the bytes do not lie
/// in guest memory, and otherwise the bytes written and `0` returned.
pub open spec fn packed_outcome(
    before: &EvalContext,
    after: &EvalContext,
    buf: u64,
    fields: Seq<PackedField>,
    r: Result<i32, InterpError>,
) -> bool {
    if !all_fit(fields) {
        r == Err::<i32, InterpError>(InterpError::ValueTooWide) && after.unchanged(before)
    } else if !before.memory.range_ok(buf, packed_len(fields)) {
        r == Err::<i32, InterpError>(InterpError::MemoryAccess) && after.unchanged(before)
    } else {
        &&& r == Ok::<i32, InterpError>(0i32)
        &&& after.memory.bytes@ == before.memory.written(buf, packed_bytes(fields))
        &&& after.memory.base == before.memory.base
        &&& after.isolated == before.isolated
        &&& after.consts == before.consts
        &&& after.file_handler == before.file_handler
        &&& after.last_error == before.last_error
    }
}

/// `r` is what a path-based `stat` on macOS decodes to.
pub open spec fn stat_path_step(
    ecx: &EvalContext,
    follow: bool,
    path_ptr: u64,
    r: Result<Step, InterpError>,
) -> bool {
    if ecx.isolated {
        r == Err::<Step, InterpError>(InterpError::Isolated)
    } else if ecx.consts.platform != Platform::MacOs {
        r == Err::<Step, InterpError>(InterpError::WrongPlatform)
    } else {
        match r {
            Ok(Step::Host(HostOp::MetadataOfPath { path, follow_symlink })) => {
                &&& ecx.memory.has_c_str_at(path_ptr)
                &&& path@ == ecx.memory.c_str(path_ptr)
                &&& follow_symlink == follow
            },
            Err(e) => e == InterpError::MemoryAccess && !ecx.memory.has_c_str_at(path_ptr),
            _ => false,
        }
    }
}

/// `v` fits a C `int`.
pub open spec fn fits_i32(v: i64) -> bool {
    i32::MIN <= v <= i32::MAX
}

/// `r` and `after` are what `statx(dirfd, pathname, flags, _, statxbuf)` decodes to
/// from `before`. Only three ways to name the file are modelled: an absolute path, a
/// path relative to the working directory (`dirfd == AT_FDCWD`), and an empty path
/// with `AT_EMPTY_PATH`, which names `dirfd` itself.
pub open spec fn statx_step(
    before: &EvalContext,
    after: &EvalContext,
    dirfd: i64,
    pathname: u64,
    flags: i64,
    statxbuf: u64,
    r: Result<Step, InterpError>,
) -> bool {
    let c = before.consts;
    if before.isolated {
        r == Err::<Step, InterpError>(InterpError::Isolated) && after.unchanged(before)
    } else if c.platform != Platform::Linux {
        r == Err::<Step, InterpError>(InterpError::WrongPlatform) && after.unchanged(before)
    } else if statxbuf == 0 || pathname == 0 {
        after.done_failed(before, r, c.efault)
    } else if !before.memory.has_c_str_at(pathname) {
        r == Err::<Step, InterpError>(InterpError::MemoryAccess) && after.unchanged(before)
    } else if !fits_i32(flags) || !fits_i32(dirfd) {
        r == Err::<Step, InterpError>(InterpError::ArgumentOutOfRange) && after.unchanged(before)
    } else {
        let path = before.memory.c_str(pathname);
        let empty = path.len() == 0 && (flags as i32) & c.at_empty_path != 0;
        let absolute = path.len() > 0 && path[0] == 47u8;
        if !(absolute || dirfd as i32 == c.at_fdcwd || empty) {
            r == Err::<Step, InterpError>(InterpError::StatxPathMode) && after.unchanged(before)
        } else if empty {
            if before.file_handler@.contains_key(dirfd as i32) {
                &&& after.unchanged(before)
                &&& match r {
                    Ok(Step::Host(HostOp::MetadataOfHandle { host })) => host
                        == before.file_handler@[dirfd as i32].host,
                    _ => false,
                }
            } else {
                after.done_failed(before, r, c.ebadf)
            }
        } else {
            &&& after.unchanged(before)
            &&& match r {
                Ok(Step::Host(HostOp::MetadataOfPath { path: p, follow_symlink })) => {
                    &&& p@ == path
                    &&& follow_symlink == ((flags as i32) & c.at_symlink_nofollow == 0)
                },
                _ => false,
            }
        }
    }
}

impl EvalContext {
    /// Packs `fields` into guest memory at `buf`.
    fn pack_into(&mut self, buf: u64, fields: &Vec<PackedField>) -> (r: Result<i32, InterpError>)
        ensures
            packed_outcome(old(self), final(self), buf, fields@, r),
    {
        match self.memory.write_packed(buf, fields) {
            Ok(()) => Ok(0),
            Err(PackError::ValueTooWide) => Err(InterpError::ValueTooWide),
            Err(PackError::OutOfBounds) => Err(InterpError::MemoryAccess),
        }
    }

    /// Decodes `stat` (`follow_symlink`) or `lstat` on macOS.
    pub fn macos_stat_or_lstat(&self, follow_symlink: bool, path_ptr: u64) -> (r: Result<Step, InterpError>)
        ensures
            stat_path_step(self, follow_symlink, path_ptr, r),
    {
        if self.isolated {
            return Err(InterpError::Isolated);
        }
        if self.consts.platform != Platform::MacOs {
            return Err(InterpError::WrongPlatform);
        }
        match self.memory.c_str_at(path_ptr) {
            Some(path) => Ok(Step::Host(HostOp::MetadataOfPath { path, follow_symlink })),
            None => Err(InterpError::MemoryAccess),
        }
    }

    /// Decodes `stat(path, buf)` on macOS, which follows symbolic links.
    pub fn macos_stat(&self, path_ptr: u64) -> (r: Result<Step, InterpError>)
        ensures
            stat_path_step(self, true, path_ptr, r),
    {
        self.macos_stat_or_lstat(true, path_ptr)
    }

    /// Decodes `lstat(path, buf)` on macOS, which describes a symbolic link itself.
    pub fn macos_lstat(&self, path_ptr: u64) -> (r: Result<Step, InterpError>)
        ensures
            stat_path_step(self, false, path_ptr, r),
    {
        self.macos_stat_or_lstat(false, path_ptr)
    }

    /// Decodes `fstat(fd, buf)` on macOS.
    pub fn macos_fstat(&mut self, fd: i32) -> (r: Result<Step, InterpError>)
        requires
            old(self).wf(),
        ensures
            final(self).wf(),
            old(self).isolated ==> r == Err::<Step, InterpError>(InterpError::Isolated)
                && final(self).unchanged(old(self)),
            !old(self).isolated && old(self).consts.platform != Platform::MacOs ==> r == Err::<
                Step,
                InterpError,
            >(InterpError::WrongPlatform) && final(self).unchanged(old(self)),
            !old(self).isolated && old(self).consts.platform == Platform::MacOs && !old(self).file_handler@.contains_key(fd)
                ==> final(self).done_failed(old(self), r, old(self).consts.ebadf),
            !old(self).isolated && old(self).consts.platform == Platform::MacOs && old(self).file_handler@.contains_key(fd)
                ==> final(self).unchanged(old(self)) && match r {
                Ok(Step::Host(HostOp::MetadataOfHandle { host })) => host == old(self).file_handler@[fd].host,
                _ => false,
            },
    {
        if self.isolated {
            return Err(InterpError::Isolated);
        }
        if self.consts.platform != Platform::MacOs {
            return Err(InterpError::WrongPlatform);
        }
        match FileMetadata::from_fd(self, fd) {
            Some(host) => Ok(Step::Host(HostOp::MetadataOfHandle { host })),
            None => Ok(Step::Done(-1)),
        }
    }

    /// Writes `metadata` to the macOS `struct stat` at `buf`.
    pub fn macos_stat_write_buf(&mut self, metadata: &FileMetadata, buf: u64) -> (r: Result<i32, InterpError>)
        ensures
            packed_outcome(old(self), final(self), buf, macos_stat_fields(old(self).consts, *metadata), r),
    {
        let fields = macos_stat_layout(&self.consts, metadata);
        self.pack_into(buf, &fields)
    }

    /// Finishes `stat`, `lstat` or `fstat` on macOS: the host's metadata goes to the
    /// `struct stat` at `buf`, or the host's error is recorded and `-1` returned.
    pub fn macos_stat_complete(&mut self, buf: u64, outcome: Result<HostMetadata, i32>) -> (r: Result<i32, InterpError>)
        ensures
            match outcome {
                Err(e) => r == Ok::<i32, InterpError>(-1i32) && final(self).failed_with(old(self), e),
                Ok(h) => if has_time_before_epoch(h) {
                    r == Err::<i32, InterpError>(InterpError::TimeBeforeEpoch) && final(self).unchanged(old(self))
                } else {
                    packed_outcome(
                        old(self),
                        final(self),
                        buf,
                        macos_stat_fields(old(self).consts, normalize(old(self).consts, h)),
                        r,
                    )
                },
            },
    {
        match FileMetadata::from_meta(self, outcome)? {
            Some(m) => self.macos_stat_write_buf(&m, buf),
            None => Ok(-1),
        }
    }

    /// Decodes `statx(dirfd, pathname, flags, mask, statxbuf)` on Linux. The
    /// requested mask decides nothing: the call reports whatever the host supplies.
    pub fn linux_statx(
        &mut self,
        dirfd: i64,
        pathname_ptr: u64,
        flags: i64,
        _mask: u32,
        statxbuf_ptr: u64,
    ) -> (r: Result<Step, InterpError>)
        requires
            old(self).wf(),
        ensures
            final(self).wf(),
            statx_step(old(self), final(self), dirfd, pathname_ptr, flags, statxbuf_ptr, r),
    {
        if self.isolated {
            return Err(InterpError::Isolated);
        }
        if self.consts.platform != Platform::Linux {
            return Err(InterpError::WrongPlatform);
        }
        if statxbuf_ptr == 0 || pathname_ptr == 0 {
            self.last_error = self.consts.efault;
            return Ok(Step::Done(-1));
        }
        let path = match self.memory.c_str_at(pathname_ptr) {
            Some(p) => p,
            None => return Err(InterpError::MemoryAccess),
        };
        if flags < i32::MIN as i64 || flags > i32::MAX as i64 || dirfd < i32::MIN as i64 || dirfd
            > i32::MAX as i64 {
            return Err(InterpError::ArgumentOutOfRange);
        }
        let flags = flags as i32;
        let dirfd = dirfd as i32;
        let empty = path.len() == 0 && flags & self.consts.at_empty_path != 0;
        let absolute = path.len() > 0 && path[0] == 47u8;
        if !(absolute || dirfd == self.consts.at_fdcwd || empty) {
            return Err(InterpError::StatxPathMode);
        }
        if empty {
            match FileMetadata::from_fd(self, dirfd) {
                Some(host) => Ok(Step::Host(HostOp::MetadataOfHandle { host })),
                None => Ok(Step::Done(-1)),
            }
        } else {
            let follow_symlink = flags & self.consts.at_symlink_nofollow == 0;
            Ok(Step::Host(HostOp::MetadataOfPath { path, follow_symlink }))
        }
    }

    /// Finishes `statx`: the host's metadata goes to the `struct statx` at `buf`,
    /// with a mask that says which fields hold information, or the host's error is
    /// recorded and `-1` returned.
    pub fn linux_statx_complete(&mut self, buf: u64, outcome: Result<HostMetadata, i32>) -> (r: Result<i32, InterpError>)
        ensures
            match outcome {
                Err(e) => r == Ok::<i32, InterpError>(-1i32) && final(self).failed_with(old(self), e),
                Ok(h) => if has_time_before_epoch(h) {
                    r == Err::<i32, InterpError>(InterpError::TimeBeforeEpoch) && final(self).unchanged(old(self))
                } else {
                    packed_outcome(
                        old(self),
                        final(self),
                        buf,
                        statx_fields(old(self).consts, normalize(old(self).consts, h)),
                        r,
                    )
                },
            },
    {
        match FileMetadata::from_meta(self, outcome)? {
            Some(m) => {
                let fields = statx_layout(&self.consts, &m);
                self.pack_into(buf, &fields)
            },
            None => Ok(-1),
        }
    }
}

} // verus!
