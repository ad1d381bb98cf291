use vstd::prelude::*;

use crate::fd_table::{fd_floor, is_lowest_free, FileHandle, MIN_NORMAL_FILE_FD};
use crate::metadata::{statx_mask, FileMetadata};
use crate::platform::PlatformConsts;

verus! {

/// When the open descriptors are exactly `3 .. n`, the next allocation takes `n`:
/// files opened one after another get 3, 4, 5, ... in order.
pub proof fn lemma_sequential_allocation(m: Map<i32, FileHandle>, n: i32, r: i32)
    requires
        n >= MIN_NORMAL_FILE_FD,
        forall|k: i32| m.contains_key(k) <==> MIN_NORMAL_FILE_FD <= k < n,
        is_lowest_free(m, MIN_NORMAL_FILE_FD, r),
    ensures
        r == n,
{
    if r < n {
        assert(m.contains_key(r));
    } else if r > n {
        assert(m.contains_key(n));
    }
}

/// After `k` is closed, with every descriptor from 3 below `k` still open, the next
/// allocation reuses `k`.
pub proof fn lemma_closed_fd_reused(m: Map<i32, FileHandle>, k: i32, r: i32)
    requires
        k >= MIN_NORMAL_FILE_FD,
        forall|j: i32| MIN_NORMAL_FILE_FD <= j < k ==> m.contains_key(j),
        is_lowest_free(m.remove(k), MIN_NORMAL_FILE_FD, r),
    ensures
        r == k,
{
    if r < k {
        assert(m.remove(k).contains_key(r));
    } else if r > k {
        assert(m.remove(k).contains_key(k));
    }
}

/// A duplicate made with lower bound `start` lies at or above `start` and above the
/// reserved descriptors, and differs from the descriptor it copies.
pub proof fn lemma_dup_fresh(m: Map<i32, FileHandle>, fd: i32, start: i32, r: i32)
    requires
        m.contains_key(fd),
        is_lowest_free(m, fd_floor(start), r),
    ensures
        r >= start,
        r >= MIN_NORMAL_FILE_FD,
        r != fd,
{
}

/// Once `close` has taken `fd` out of the table, whatever the flush then reports,
/// the table no longer holds `fd`, so a second `close` of it finds nothing.
pub proof fn lemma_closed_fd_gone(m: Map<i32, FileHandle>, fd: i32)
    ensures
        !m.remove(fd).contains_key(fd),
{
}

/// When the host supplies no creation or access time but a modification time, the
/// reported mask is exactly type, size and modification time, whatever was asked.
pub proof fn lemma_statx_mask_mtime_only(c: PlatformConsts, m: FileMetadata)
    requires
        m.accessed is None,
        m.created is None,
        m.modified is Some,
    ensures
        statx_mask(c, m) == c.statx_type | c.statx_size | c.statx_mtime,
{
    let t = c.statx_type;
    let s = c.statx_size;
    let x = c.statx_mtime;
    assert(t | s | 0u32 | 0u32 | x == t | s | x) by (bit_vector);
}

} // verus!
