use vstd::prelude::*;

verus! {

/// The lowest descriptor handed out to files opened by the guest; 0, 1 and 2 are
/// the standard streams and are never allocated or removed by the table.
pub const MIN_NORMAL_FILE_FD: i32 = 3;

/// One open host resource, named by the identifier under which the host keeps it,
/// and whether it was opened for writing.
#[derive(Clone, Copy, Debug, PartialEq, Eq, Structural)]
pub struct FileHandle {
    pub host: u64,
    pub writable: bool,
}

/// The first descriptor that an allocation with lower bound `min_fd` may use.
pub open spec fn fd_floor(min_fd: i32) -> i32 {
    if min_fd < MIN_NORMAL_FILE_FD {
        MIN_NORMAL_FILE_FD
    } else {
        min_fd
    }
}

/// `fd` is the lowest descriptor at or above `floor` that `m` does not use.
pub open spec fn is_lowest_free(m: Map<i32, FileHandle>, floor: i32, fd: i32) -> bool {
    &&& floor <= fd
    &&& !m.contains_key(fd)
    &&& forall|k: i32| floor <= k < fd ==> m.contains_key(k)
}

/// Some descriptor at or above `floor` is unused in `m`.
pub open spec fn has_free_from(m: Map<i32, FileHandle>, floor: i32) -> bool {
    exists|k: i32| floor <= k && !m.contains_key(k)
}

/// The descriptor table of one guest process.
///
/// Entries are kept in ascending order of descriptor, with no descriptor twice, so
/// that the lowest free descriptor is found by one ordered scan.
pub struct FileHandler {
    handles: Vec<(i32, FileHandle)>,
    model: Ghost<Map<i32, FileHandle>>,
}

impl FileHandler {
    /// The table as a map from descriptor to handle.
    pub closed spec fn view(&self) -> Map<i32, FileHandle> {
        self.model@
    }

    /// Entries ascend strictly, all lie at or above the reserved descriptors, and
    /// they are exactly the map's entries.
    pub closed spec fn wf(&self) -> bool {
        &&& forall|i: int, j: int|
            0 <= i < j < self.handles@.len() ==> self.handles@[i].0 < self.handles@[j].0
        &&& forall|i: int|
            0 <= i < self.handles@.len() ==> {
                &&& self.handles@[i].0 >= MIN_NORMAL_FILE_FD
                &&& self.model@.contains_key(self.handles@[i].0)
                &&& self.model@[self.handles@[i].0] == self.handles@[i].1
            }
        &&& forall|k: i32| #[trigger]
            self.model@.contains_key(k) ==> exists|i: int|
                0 <= i < self.handles@.len() && self.handles@[i].0 == k
    }

    /// Every descriptor in a well-formed table lies at or above the reserved ones.
    pub proof fn lemma_no_reserved(&self)
        requires
            self.wf(),
        ensures
            forall|k: i32| self@.contains_key(k) ==> k >= MIN_NORMAL_FILE_FD,
    {
        assert forall|k: i32| self@.contains_key(k) implies k >= MIN_NORMAL_FILE_FD by {
            let i = choose|i: int| 0 <= i < self.handles@.len() && self.handles@[i].0 == k;
        }
    }

    pub fn new() -> (r: FileHandler)
        ensures
            r.wf(),
            r@ == Map::<i32, FileHandle>::empty(),
    {
        FileHandler { handles: Vec::new(), model: Ghost(Map::empty()) }
    }

    /// The index of `fd` in the entries, if it is there.
    fn position(&self, fd: i32) -> (r: Option<usize>)
        requires
            self.wf(),
        ensures
            match r {
                Some(i) => i < self.handles@.len() && self.handles@[i as int].0 == fd,
                None => !self@.contains_key(fd),
            },
    {
        let mut i: usize = 0;
        while i < self.handles.len()
            invariant
                i <= self.handles@.len(),
                forall|j: int| 0 <= j < i ==> self.handles@[j].0 != fd,
            decreases self.handles@.len() - i,
        {
            if self.handles[i].0 == fd {
                return Some(i);
            }
            i += 1;
        }
        proof {
            if self@.contains_key(fd) {
                let j = choose|j: int| 0 <= j < self.handles@.len() && self.handles@[j].0 == fd;
                assert(self.handles@[j].0 != fd);
            }
        }
        None
    }

    /// Whether `fd` is open.
    pub fn contains(&self, fd: i32) -> (r: bool)
        requires
            self.wf(),
        ensures
            r == self@.contains_key(fd),
    {
        match self.position(fd) {
            Some(_) => true,
            None => false,
        }
    }

    /// The handle under `fd`, if any.
    pub fn get(&self, fd: i32) -> (r: Option<FileHandle>)
        requires
            self.wf(),
        ensures
            r == (if self@.contains_key(fd) {
                Some(self@[fd])
            } else {
                None::<FileHandle>
            }),
    {
        match self.position(fd) {
            Some(i) => Some(self.handles[i].1),
            None => None,
        }
    }

    /// Takes the handle under `fd` out of the table, if there is one.
    pub fn remove(&mut self, fd: i32) -> (r: Option<FileHandle>)
        requires
            old(self).wf(),
        ensures
            final(self).wf(),
            final(self)@ == old(self)@.remove(fd),
            r == (if old(self)@.contains_key(fd) {
                Some(old(self)@[fd])
            } else {
                None::<FileHandle>
            }),
    {
        match self.position(fd) {
            Some(i) => {
                let ghost before = self.handles@;
                let entry = self.handles.remove(i);
                proof {
                    before.remove_ensures(i as int);
                    self.model@ = self.model@.remove(fd);
                    let after = self.handles@;
                    assert forall|k: i32| #[trigger]
                        self.model@.contains_key(k) implies exists|j: int|
                            0 <= j < after.len() && after[j].0 == k by {
                        let j = choose|j: int| 0 <= j < before.len() && before[j].0 == k;
                        if j < i {
                            assert(after[j].0 == k);
                        } else {
                            assert(after[j - 1].0 == k);
                        }
                    }
                    assert forall|a: int| 0 <= a < after.len() implies
                        self.model@.contains_key(after[a].0) by {
                        if a >= i {
                            assert(after[a] == before[a + 1]);
                        }
                    }
                }
                Some(entry.1)
            },
            None => {
                proof {
                    assert(self.model@.remove(fd) =~= self.model@);
                }
                None
            },
        }
    }

    /// The lowest unused descriptor at or above `max(min_fd, 3)`, or `None` when every
    /// descriptor from there up to `i32::MAX` is in use.
    pub fn lowest_free_from(&self, min_fd: i32) -> (r: Option<i32>)
        requires
            self.wf(),
        ensures
            match r {
                Some(fd) => is_lowest_free(self@, fd_floor(min_fd), fd),
                None => !has_free_from(self@, fd_floor(min_fd)),
            },
    {
        let floor: i32 = if min_fd < MIN_NORMAL_FILE_FD {
            MIN_NORMAL_FILE_FD
        } else {
            min_fd
        };
        let len = self.handles.len();
        let mut i: usize = 0;
        while i < len && self.handles[i].0 < floor
            invariant
                len == self.handles@.len(),
                i <= len,
                forall|j: int| 0 <= j < i ==> self.handles@[j].0 < floor,
            decreases len - i,
        {
            i += 1;
        }
        let mut counter: i32 = floor;
        while i < len
            invariant
                self.wf(),
                len == self.handles@.len(),
                i <= len,
                floor == fd_floor(min_fd),
                floor <= counter,
                forall|k: i32| floor <= k < counter ==> self@.contains_key(k),
                forall|j: int| i <= j < len ==> self.handles@[j].0 >= counter,
                forall|j: int| 0 <= j < i ==> self.handles@[j].0 < counter,
            decreases len - i,
        {
            if self.handles[i].0 != counter {
                proof {
                    if self@.contains_key(counter) {
                        let j = choose|j: int| 0 <= j < len && self.handles@[j].0 == counter;
                        if j > i {
                            assert(self.handles@[i as int].0 < self.handles@[j].0);
                        }
                    }
                }
                return Some(counter);
            }
            if counter == i32::MAX {
                proof {
                    assert(self@.contains_key(counter));
                    assert forall|k: i32| floor <= k implies self@.contains_key(k) by {}
                }
                return None;
            }
            proof {
                assert(self@.contains_key(counter));
                assert forall|j: int| i + 1 <= j < len implies self.handles@[j].0 >= counter + 1 by {
                    assert(self.handles@[i as int].0 < self.handles@[j].0);
                }
            }
            counter += 1;
            i += 1;
        }
        proof {
            if self@.contains_key(counter) {
                let j = choose|j: int| 0 <= j < len && self.handles@[j].0 == counter;
                assert(self.handles@[j].0 < counter);
            }
        }
        Some(counter)
    }

    /// Puts `fh` under the unused descriptor `fd`, keeping the entries in order.
    fn insert_at(&mut self, fd: i32, fh: FileHandle)
        requires
            old(self).wf(),
            !old(self)@.contains_key(fd),
            fd >= MIN_NORMAL_FILE_FD,
        ensures
            final(self).wf(),
            final(self)@ == old(self)@.insert(fd, fh),
    {
        let len = self.handles.len();
        let mut p: usize = 0;
        while p < len && self.handles[p].0 < fd
            invariant
                len == self.handles@.len(),
                p <= len,
                forall|j: int| 0 <= j < p ==> self.handles@[j].0 < fd,
            decreases len - p,
        {
            p += 1;
        }
        let ghost before = self.handles@;
        proof {
            if p < len {
                assert(before[p as int].0 != fd);
                assert forall|j: int| p <= j < len implies before[j].0 > fd by {
                    if j > p {
                        assert(before[p as int].0 < before[j].0);
                    }
                }
            }
        }
        self.handles.insert(p, (fd, fh));
        proof {
            before.insert_ensures(p as int, (fd, fh));
            self.model@ = self.model@.insert(fd, fh);
            let after = self.handles@;
            assert forall|a: int, b: int| 0 <= a < b < after.len() implies after[a].0
                < after[b].0 by {
                if b < p {
                } else if b == p {
                } else if a < p {
                    assert(after[b] == before[b - 1]);
                } else if a == p {
                    assert(after[b] == before[b - 1]);
                } else {
                    assert(after[b] == before[b - 1]);
                    assert(after[a] == before[a - 1]);
                }
            }
            assert forall|a: int| 0 <= a < after.len() implies {
                &&& after[a].0 >= MIN_NORMAL_FILE_FD
                &&& self.model@.contains_key(after[a].0)
                &&& self.model@[after[a].0] == after[a].1
            } by {
                if a > p {
                    assert(after[a] == before[a - 1]);
                }
            }
            assert forall|k: i32| #[trigger]
                self.model@.contains_key(k) implies exists|j: int|
                    0 <= j < after.len() && after[j].0 == k by {
                if k == fd {
                    assert(after[p as int].0 == k);
                } else {
                    let j = choose|j: int| 0 <= j < before.len() && before[j].0 == k;
                    if j < p {
                        assert(after[j].0 == k);
                    } else {
                        assert(after[j + 1].0 == k);
                    }
                }
            }
        }
    }

    /// Inserts `file_handle` under the lowest unused descriptor at or above
    /// `max(min_fd, 3)` and returns that descriptor.
    pub fn insert_fd_with_min_fd(&mut self, file_handle: FileHandle, min_fd: i32) -> (r: i32)
        requires
            old(self).wf(),
            has_free_from(old(self)@, fd_floor(min_fd)),
        ensures
            final(self).wf(),
            is_lowest_free(old(self)@, fd_floor(min_fd), r),
            final(self)@ == old(self)@.insert(r, file_handle),
    {
        match self.lowest_free_from(min_fd) {
            Some(fd) => {
                self.insert_at(fd, file_handle);
                fd
            },
            None => {
                proof {
                    let k = choose|k: i32| fd_floor(min_fd) <= k && !self@.contains_key(k);
                }
                0
            },
        }
    }

    /// Inserts `file_handle` under the lowest unused descriptor at or above 3.
    pub fn insert_fd(&mut self, file_handle: FileHandle) -> (r: i32)
        requires
            old(self).wf(),
            has_free_from(old(self)@, MIN_NORMAL_FILE_FD),
        ensures
            final(self).wf(),
            is_lowest_free(old(self)@, MIN_NORMAL_FILE_FD, r),
            final(self)@ == old(self)@.insert(r, file_handle),
    {
        self.insert_fd_with_min_fd(file_handle, 0)
    }
}

} // verus!
