use vstd::prelude::*;

verus! {

/// A target platform whose file-system ABI can be emulated.
#[derive(Clone, Copy, Debug, PartialEq, Eq, Structural)]
pub enum Platform {
    Linux,
    MacOs,
}

/// The numeric values of the target platform's constants that the shims consult,
/// resolved once, and the widths in bytes of the C types of its `stat` structure.
#[derive(Clone, Copy, Debug, PartialEq, Eq, Structural)]
pub struct PlatformConsts {
    /// The platform whose ABI is emulated.
    pub platform: Platform,
    /// Width of a target pointer in bits.
    pub pointer_bits: u64,
    pub o_rdonly: i32,
    pub o_wronly: i32,
    pub o_rdwr: i32,
    pub o_append: i32,
    pub o_trunc: i32,
    pub o_creat: i32,
    pub o_cloexec: i32,
    pub f_getfd: i32,
    pub f_dupfd: i32,
    pub f_dupfd_cloexec: i32,
    pub fd_cloexec: i32,
    pub seek_set: i32,
    pub seek_cur: i32,
    pub seek_end: i32,
    pub einval: i32,
    pub ebadf: i32,
    pub efault: i32,
    pub s_ifreg: u32,
    pub s_ifdir: u32,
    pub s_iflnk: u32,
    pub at_fdcwd: i32,
    pub at_empty_path: i32,
    pub at_symlink_nofollow: i32,
    pub statx_type: u32,
    pub statx_size: u32,
    pub statx_atime: u32,
    pub statx_mtime: u32,
    pub statx_btime: u32,
    pub dev_t: u64,
    pub mode_t: u64,
    pub nlink_t: u64,
    pub ino_t: u64,
    pub uid_t: u64,
    pub gid_t: u64,
    pub time_t: u64,
    pub c_long: u64,
    pub off_t: u64,
    pub blkcnt_t: u64,
    pub blksize_t: u64,
}

/// The table of x86_64 Linux. Linux has no `stat` shim here; its C type widths are
/// given for completeness.
pub open spec fn linux_consts() -> PlatformConsts {
    PlatformConsts {
        platform: Platform::Linux,
        pointer_bits: 64,
        o_rdonly: 0,
        o_wronly: 1,
        o_rdwr: 2,
        o_append: 1024,
        o_trunc: 512,
        o_creat: 64,
        o_cloexec: 524288,
        f_getfd: 1,
        f_dupfd: 0,
        f_dupfd_cloexec: 1030,
        fd_cloexec: 1,
        seek_set: 0,
        seek_cur: 1,
        seek_end: 2,
        einval: 22,
        ebadf: 9,
        efault: 14,
        s_ifreg: 32768,
        s_ifdir: 16384,
        s_iflnk: 40960,
        at_fdcwd: -100i32,
        at_empty_path: 4096,
        at_symlink_nofollow: 256,
        statx_type: 1,
        statx_size: 512,
        statx_atime: 32,
        statx_mtime: 64,
        statx_btime: 2048,
        dev_t: 8,
        mode_t: 4,
        nlink_t: 8,
        ino_t: 8,
        uid_t: 4,
        gid_t: 4,
        time_t: 8,
        c_long: 8,
        off_t: 8,
        blkcnt_t: 8,
        blksize_t: 8,
    }
}

/// The table of x86_64 macOS. macOS has neither `statx` nor `AT_EMPTY_PATH`; those
/// entries are zero and never consulted, as `statx` is refused there.
pub open spec fn macos_consts() -> PlatformConsts {
    PlatformConsts {
        platform: Platform::MacOs,
        pointer_bits: 64,
        o_rdonly: 0,
        o_wronly: 1,
        o_rdwr: 2,
        o_append: 8,
        o_trunc: 1024,
        o_creat: 512,
        o_cloexec: 16777216,
        f_getfd: 1,
        f_dupfd: 0,
        f_dupfd_cloexec: 67,
        fd_cloexec: 1,
        seek_set: 0,
        seek_cur: 1,
        seek_end: 2,
        einval: 22,
        ebadf: 9,
        efault: 14,
        s_ifreg: 32768,
        s_ifdir: 16384,
        s_iflnk: 40960,
        at_fdcwd: -2i32,
        at_empty_path: 0,
        at_symlink_nofollow: 32,
        statx_type: 0,
        statx_size: 0,
        statx_atime: 0,
        statx_mtime: 0,
        statx_btime: 0,
        dev_t: 4,
        mode_t: 2,
        nlink_t: 2,
        ino_t: 8,
        uid_t: 4,
        gid_t: 4,
        time_t: 8,
        c_long: 8,
        off_t: 8,
        blkcnt_t: 8,
        blksize_t: 4,
    }
}

impl PlatformConsts {
    pub fn linux() -> (r: PlatformConsts)
        ensures
            r == linux_consts(),
    {
        PlatformConsts {
            platform: Platform::Linux,
            pointer_bits: 64,
            o_rdonly: 0,
            o_wronly: 1,
            o_rdwr: 2,
            o_append: 1024,
            o_trunc: 512,
            o_creat: 64,
            o_cloexec: 524288,
            f_getfd: 1,
            f_dupfd: 0,
            f_dupfd_cloexec: 1030,
            fd_cloexec: 1,
            seek_set: 0,
            seek_cur: 1,
            seek_end: 2,
            einval: 22,
            ebadf: 9,
            efault: 14,
            s_ifreg: 32768,
            s_ifdir: 16384,
            s_iflnk: 40960,
            at_fdcwd: -100i32,
            at_empty_path: 4096,
            at_symlink_nofollow: 256,
            statx_type: 1,
            statx_size: 512,
            statx_atime: 32,
            statx_mtime: 64,
            statx_btime: 2048,
            dev_t: 8,
            mode_t: 4,
            nlink_t: 8,
            ino_t: 8,
            uid_t: 4,
            gid_t: 4,
            time_t: 8,
            c_long: 8,
            off_t: 8,
            blkcnt_t: 8,
            blksize_t: 8,
        }
    }

    pub fn macos() -> (r: PlatformConsts)
        ensures
            r == macos_consts(),
    {
        PlatformConsts {
            platform: Platform::MacOs,
            pointer_bits: 64,
            o_rdonly: 0,
            o_wronly: 1,
            o_rdwr: 2,
            o_append: 8,
            o_trunc: 1024,
            o_creat: 512,
            o_cloexec: 16777216,
            f_getfd: 1,
            f_dupfd: 0,
            f_dupfd_cloexec: 67,
            fd_cloexec: 1,
            seek_set: 0,
            seek_cur: 1,
            seek_end: 2,
            einval: 22,
            ebadf: 9,
            efault: 14,
            s_ifreg: 32768,
            s_ifdir: 16384,
            s_iflnk: 40960,
            at_fdcwd: -2i32,
            at_empty_path: 0,
            at_symlink_nofollow: 32,
            statx_type: 0,
            statx_size: 0,
            statx_atime: 0,
            statx_mtime: 0,
            statx_btime: 0,
            dev_t: 4,
            mode_t: 2,
            nlink_t: 2,
            ino_t: 8,
            uid_t: 4,
            gid_t: 4,
            time_t: 8,
            c_long: 8,
            off_t: 8,
            blkcnt_t: 8,
            blksize_t: 4,
        }
    }
}

} // verus!
