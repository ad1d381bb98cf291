use vstd::prelude::*;

use crate::memory::PackedField;
use crate::platform::PlatformConsts;
use crate::shim::{EvalContext, InterpError};

verus! {

/// What kind of file the host reports.
#[derive(Clone, Copy, Debug, PartialEq, Eq, Structural)]
pub enum FileKind {
    File,
    Dir,
    Other,
}

/// One timestamp as the host reports it.
#[derive(Clone, Copy, Debug, PartialEq, Eq, Structural)]
pub enum HostTime {
    /// The host cannot supply this kind of timestamp.
    Unavailable,
    /// So long after the Unix epoch.
    SinceEpoch { secs: u64, nanos: u32 },
    /// A moment before the Unix epoch.
    BeforeEpoch,
}

/// The metadata of one file as the host reports it.
#[derive(Clone, Copy, Debug, PartialEq, Eq, Structural)]
pub struct HostMetadata {
    pub kind: FileKind,
    pub size: u64,
    pub created: HostTime,
    pub accessed: HostTime,
    pub modified: HostTime,
}

/// A file's metadata, normalised: the file-type bits of its mode, its size and
/// the timestamps that the host could supply, as seconds and nanoseconds.
#[derive(Clone, Copy, Debug)]
pub struct FileMetadata {
    pub mode: u32,
    pub size: u64,
    pub created: Option<(u64, u32)>,
    pub accessed: Option<(u64, u32)>,
    pub modified: Option<(u64, u32)>,
}

/// The timestamp kept for `t`; `t` must not lie before the epoch.
pub open spec fn time_of(t: HostTime) -> Option<(u64, u32)> {
    match t {
        HostTime::SinceEpoch { secs, nanos } => Some((secs, nanos)),
        _ => None,
    }
}

/// The file-type bits for a file of kind `k`: anything neither a regular file nor a
/// directory counts as a symbolic link.
pub open spec fn mode_of(c: PlatformConsts, k: FileKind) -> u32 {
    match k {
        FileKind::File => c.s_ifreg,
        FileKind::Dir => c.s_ifdir,
        FileKind::Other => c.s_iflnk,
    }
}

/// Some timestamp of `h` lies before the epoch.
pub open spec fn has_time_before_epoch(h: HostMetadata) -> bool {
    h.created is BeforeEpoch || h.accessed is BeforeEpoch || h.modified is BeforeEpoch
}

/// The normalised form of `h`.
pub open spec fn normalize(c: PlatformConsts, h: HostMetadata) -> FileMetadata {
    FileMetadata {
        mode: mode_of(c, h.kind),
        size: h.size,
        created: time_of(h.created),
        accessed: time_of(h.accessed),
        modified: time_of(h.modified),
    }
}

/// Seconds and nanoseconds of `time`, `None` when the host could not supply it, an
/// error when it lies before the epoch.
pub fn extract_sec_and_nsec(time: HostTime) -> (r: Result<Option<(u64, u32)>, InterpError>)
    ensures
        match r {
            Ok(t) => !(time is BeforeEpoch) && t == time_of(time),
            Err(e) => time is BeforeEpoch && e == InterpError::TimeBeforeEpoch,
        },
{
    match time {
        HostTime::Unavailable => Ok(None),
        HostTime::SinceEpoch { secs, nanos } => Ok(Some((secs, nanos))),
        HostTime::BeforeEpoch => Err(InterpError::TimeBeforeEpoch),
    }
}

/// The pair of a timestamp, zeros when it is absent.
pub open spec fn time_or_zero(t: Option<(u64, u32)>) -> (u64, u32) {
    match t {
        Some(p) => p,
        None => (0, 0),
    }
}

fn time_or_zero_exec(t: Option<(u64, u32)>) -> (r: (u64, u32))
    ensures
        r == time_or_zero(t),
{
    match t {
        Some(p) => p,
        None => (0, 0),
    }
}

/// A field of `width` bytes holding `value`.
pub open spec fn pf(width: u64, value: u64) -> PackedField {
    PackedField { width, value }
}

/// The fields of macOS's `struct stat` in order, padding included: a 32-bit pad after
/// `st_rdev` on 64-bit targets only.
pub open spec fn macos_stat_fields(c: PlatformConsts, m: FileMetadata) -> Seq<PackedField> {
    let (a_s, a_n) = time_or_zero(m.accessed);
    let (b_s, b_n) = time_or_zero(m.created);
    let (m_s, m_n) = time_or_zero(m.modified);
    seq![
        pf(c.dev_t, 0), pf(c.mode_t, m.mode as u64), pf(c.nlink_t, 0), pf(c.ino_t, 0),
        pf(c.uid_t, 0), pf(c.gid_t, 0), pf(c.dev_t, 0),
        pf(if c.pointer_bits == 64 { 4 } else { 0 }, 0),
        pf(c.time_t, a_s), pf(c.c_long, a_n as u64), pf(c.time_t, m_s), pf(c.c_long, m_n as u64),
        pf(c.time_t, 0), pf(c.c_long, 0), pf(c.time_t, b_s), pf(c.c_long, b_n as u64),
        pf(c.off_t, m.size), pf(c.blkcnt_t, 0), pf(c.blksize_t, 0), pf(4, 0), pf(4, 0),
    ]
}

/// The mask that `statx` reports for `m`: type and size always, and each timestamp
/// exactly when the host supplied it.
pub open spec fn statx_mask(c: PlatformConsts, m: FileMetadata) -> u32 {
    c.statx_type | c.statx_size | (if m.accessed is Some { c.statx_atime } else { 0 }) | (
    if m.created is Some {
        c.statx_btime
    } else {
        0
    }) | (if m.modified is Some { c.statx_mtime } else { 0 })
}

/// The fields of Linux's `struct statx` in order, padding included; what the host
/// cannot supply is zero.
pub open spec fn statx_fields(c: PlatformConsts, m: FileMetadata) -> Seq<PackedField> {
    let (a_s, a_n) = time_or_zero(m.accessed);
    let (b_s, b_n) = time_or_zero(m.created);
    let (m_s, m_n) = time_or_zero(m.modified);
    seq![
        pf(4, statx_mask(c, m) as u64), pf(4, 0), pf(8, 0), pf(4, 0), pf(4, 0), pf(4, 0),
        pf(2, m.mode as u64), pf(2, 0), pf(8, 0), pf(8, m.size), pf(8, 0), pf(8, 0),
        pf(8, a_s), pf(4, a_n as u64), pf(4, 0),
        pf(8, b_s), pf(4, b_n as u64), pf(4, 0),
        pf(8, 0), pf(4, 0), pf(4, 0),
        pf(8, m_s), pf(4, m_n as u64), pf(4, 0),
        pf(8, 0), pf(8, 0), pf(8, 0), pf(8, 0),
    ]
}

fn field(width: u64, value: u64) -> (r: PackedField)
    ensures
        r == pf(width, value),
{
    PackedField { width, value }
}

/// The fields of macOS's `struct stat` for `m`.
pub fn macos_stat_layout(c: &PlatformConsts, m: &FileMetadata) -> (r: Vec<PackedField>)
    ensures
        r@ == macos_stat_fields(*c, *m),
{
    let (a_s, a_n) = time_or_zero_exec(m.accessed);
    let (b_s, b_n) = time_or_zero_exec(m.created);
    let (m_s, m_n) = time_or_zero_exec(m.modified);
    let pad: u64 = if c.pointer_bits == 64 {
        4
    } else {
        0
    };
    let r = vec![
        field(c.dev_t, 0), field(c.mode_t, m.mode as u64), field(c.nlink_t, 0), field(c.ino_t, 0),
        field(c.uid_t, 0), field(c.gid_t, 0), field(c.dev_t, 0), field(pad, 0),
        field(c.time_t, a_s), field(c.c_long, a_n as u64), field(c.time_t, m_s),
        field(c.c_long, m_n as u64), field(c.time_t, 0), field(c.c_long, 0),
        field(c.time_t, b_s), field(c.c_long, b_n as u64), field(c.off_t, m.size),
        field(c.blkcnt_t, 0), field(c.blksize_t, 0), field(4, 0), field(4, 0),
    ];
    proof {
        assert(r@ =~= macos_stat_fields(*c, *m));
    }
    r
}

/// The mask that `statx` reports for `m`.
pub fn statx_reported_mask(c: &PlatformConsts, m: &FileMetadata) -> (r: u32)
    ensures
        r == statx_mask(*c, *m),
{
    let a: u32 = if m.accessed.is_some() {
        c.statx_atime
    } else {
        0
    };
    let b: u32 = if m.created.is_some() {
        c.statx_btime
    } else {
        0
    };
    let t: u32 = if m.modified.is_some() {
        c.statx_mtime
    } else {
        0
    };
    c.statx_type | c.statx_size | a | b | t
}

/// The fields of Linux's `struct statx` for `m`.
pub fn statx_layout(c: &PlatformConsts, m: &FileMetadata) -> (r: Vec<PackedField>)
    ensures
        r@ == statx_fields(*c, *m),
{
    let (a_s, a_n) = time_or_zero_exec(m.accessed);
    let (b_s, b_n) = time_or_zero_exec(m.created);
    let (m_s, m_n) = time_or_zero_exec(m.modified);
    let mask = statx_reported_mask(c, m);
    let r = vec![
        field(4, mask as u64), field(4, 0), field(8, 0), field(4, 0), field(4, 0), field(4, 0),
        field(2, m.mode as u64), field(2, 0), field(8, 0), field(8, m.size), field(8, 0),
        field(8, 0), field(8, a_s), field(4, a_n as u64), field(4, 0), field(8, b_s),
        field(4, b_n as u64), field(4, 0), field(8, 0), field(4, 0), field(4, 0), field(8, m_s),
        field(4, m_n as u64), field(4, 0), field(8, 0), field(8, 0), field(8, 0), field(8, 0),
    ];
    proof {
        assert(r@ =~= statx_fields(*c, *m));
    }
    r
}

impl FileMetadata {
    /// Normalises a host metadata query. A host error is recorded as the last error
    /// and gives `None`; a timestamp before the epoch is fatal.
    pub fn from_meta(ecx: &mut EvalContext, metadata: Result<HostMetadata, i32>) -> (r: Result<
        Option<FileMetadata>,
        InterpError,
    >)
        ensures
            final(ecx).same_but_error(old(ecx)),
            match metadata {
                Err(e) => r == Ok::<Option<FileMetadata>, InterpError>(None)
                    && final(ecx).last_error == e,
                Ok(h) => final(ecx).last_error == old(ecx).last_error && if has_time_before_epoch(
                    h,
                ) {
                    r == Err::<Option<FileMetadata>, InterpError>(InterpError::TimeBeforeEpoch)
                } else {
                    r == Ok::<Option<FileMetadata>, InterpError>(
                        Some(normalize(old(ecx).consts, h)),
                    )
                },
            },
    {
        let metadata = match metadata {
            Ok(m) => m,
            Err(e) => {
                ecx.last_error = e;
                return Ok(None);
            },
        };
        let mode = match metadata.kind {
            FileKind::File => ecx.consts.s_ifreg,
            FileKind::Dir => ecx.consts.s_ifdir,
            FileKind::Other => ecx.consts.s_iflnk,
        };
        let created = extract_sec_and_nsec(metadata.created)?;
        let accessed = extract_sec_and_nsec(metadata.accessed)?;
        let modified = extract_sec_and_nsec(metadata.modified)?;
        Ok(Some(FileMetadata { mode, size: metadata.size, created, accessed, modified }))
    }

    /// The host resource whose metadata describes `fd`. An absent `fd` is recorded as
    /// `EBADF` and gives `None`.
    pub fn from_fd(ecx: &mut EvalContext, fd: i32) -> (r: Option<u64>)
        requires
            old(ecx).file_handler.wf(),
        ensures
            final(ecx).same_but_error(old(ecx)),
            match r {
                Some(h) => {
                    &&& old(ecx).file_handler@.contains_key(fd)
                    &&& h == old(ecx).file_handler@[fd].host
                    &&& final(ecx).last_error == old(ecx).last_error
                },
                None => !old(ecx).file_handler@.contains_key(fd) && final(ecx).last_error
                    == old(ecx).consts.ebadf,
            },
    {
        match ecx.file_handler.get(fd) {
            Some(fh) => Some(fh.host),
            None => {
                ecx.handle_not_found();
                None
            },
        }
    }
}

} // verus!
