use vstd::prelude::*;

verus! {

/// One contiguous region of guest memory: addresses `base .. base + bytes.len()` are
/// valid, everything else (the null address included, as long as `base > 0`) is not.
pub struct GuestMemory {
    pub base: u64,
    pub bytes: Vec<u8>,
}

/// One scalar of a packed write: its width in bytes and its unsigned value.
#[derive(Clone, Copy, Debug, PartialEq, Eq, Structural)]
pub struct PackedField {
    pub width: u64,
    pub value: u64,
}

/// `v` with its `n` lowest bytes shifted out.
pub open spec fn shift_bytes(v: nat, n: nat) -> nat
    decreases n,
{
    if n == 0 {
        v
    } else {
        shift_bytes(v / 256, (n - 1) as nat)
    }
}

/// The `n` lowest bytes of `v`, least significant first.
pub open spec fn le_bytes(v: nat, n: nat) -> Seq<u8>
    decreases n,
{
    if n == 0 {
        seq![]
    } else {
        seq![(v % 256) as u8] + le_bytes(v / 256, (n - 1) as nat)
    }
}

/// `f.value` can be written in `f.width` bytes.
pub open spec fn field_fits(f: PackedField) -> bool {
    shift_bytes(f.value as nat, f.width as nat) == 0
}

/// The bytes of `fields`, one after another with nothing between them.
pub open spec fn packed_bytes(fields: Seq<PackedField>) -> Seq<u8>
    decreases fields.len(),
{
    if fields.len() == 0 {
        seq![]
    } else {
        packed_bytes(fields.drop_last()) + le_bytes(
            fields.last().value as nat,
            fields.last().width as nat,
        )
    }
}

/// The total width of `fields`.
pub open spec fn packed_len(fields: Seq<PackedField>) -> nat
    decreases fields.len(),
{
    if fields.len() == 0 {
        0
    } else {
        packed_len(fields.drop_last()) + fields.last().width as nat
    }
}

proof fn lemma_le_bytes_len(v: nat, n: nat)
    ensures
        le_bytes(v, n).len() == n,
    decreases n,
{
    if n > 0 {
        lemma_le_bytes_len(v / 256, (n - 1) as nat);
    }
}

proof fn lemma_packed_len(fields: Seq<PackedField>)
    ensures
        packed_bytes(fields).len() == packed_len(fields),
    decreases fields.len(),
{
    if fields.len() > 0 {
        lemma_packed_len(fields.drop_last());
        lemma_le_bytes_len(fields.last().value as nat, fields.last().width as nat);
    }
}

/// `s` with `data` written over it from index `at`.
pub open spec fn overwrite(s: Seq<u8>, at: int, data: Seq<u8>) -> Seq<u8> {
    s.subrange(0, at) + data + s.subrange(at + data.len(), s.len() as int)
}

impl GuestMemory {
    /// `len` bytes from `ptr` lie inside the region.
    pub open spec fn range_ok(&self, ptr: u64, len: nat) -> bool {
        &&& self.base <= ptr
        &&& ptr + len <= self.base + self.bytes@.len()
    }

    /// The `len` bytes at `ptr`.
    pub open spec fn bytes_at(&self, ptr: u64, len: nat) -> Seq<u8> {
        self.bytes@.subrange(ptr - self.base, ptr - self.base + len)
    }

    /// The region after `data` was written at `ptr`.
    pub open spec fn written(&self, ptr: u64, data: Seq<u8>) -> Seq<u8> {
        overwrite(self.bytes@, ptr - self.base, data)
    }

    /// Whether all `len` bytes from `ptr` are valid memory.
    pub fn check_ptr_access(&self, ptr: u64, len: u64) -> (r: bool)
        ensures
            r == self.range_ok(ptr, len as nat),
    {
        if ptr < self.base {
            return false;
        }
        let off = ptr - self.base;
        off <= self.bytes.len() as u64 && len <= self.bytes.len() as u64 - off
    }

    /// Copies out the `len` bytes at `ptr`.
    pub fn read_bytes(&self, ptr: u64, len: u64) -> (r: Vec<u8>)
        requires
            self.range_ok(ptr, len as nat),
        ensures
            r@ == self.bytes_at(ptr, len as nat),
    {
        let n = self.bytes.len();
        assert(ptr - self.base + len <= n);
        let start = (ptr - self.base) as usize;
        let end = start + len as usize;
        let mut out: Vec<u8> = Vec::new();
        let mut i: usize = start;
        while i < end
            invariant
                start <= i <= end,
                end <= self.bytes@.len(),
                start == ptr - self.base,
                end == start + len,
                out@ == self.bytes@.subrange(start as int, i as int),
            decreases end - i,
        {
            out.push(self.bytes[i]);
            proof {
                assert(self.bytes@.subrange(start as int, i + 1) =~= self.bytes@.subrange(
                    start as int,
                    i as int,
                ).push(self.bytes@[i as int]));
            }
            i += 1;
        }
        out
    }

    /// Writes `data` at `ptr`.
    pub fn write_bytes(&mut self, ptr: u64, data: &Vec<u8>)
        requires
            old(self).range_ok(ptr, data@.len()),
        ensures
            final(self).base == old(self).base,
            final(self).bytes@ == old(self).written(ptr, data@),
    {
        let n = self.bytes.len();
        assert(ptr - self.base + data@.len() <= n);
        let start = (ptr - self.base) as usize;
        let ghost orig = self.bytes@;
        let mut i: usize = 0;
        while i < data.len()
            invariant
                self.base == old(self).base,
                orig == old(self).bytes@,
                n == orig.len(),
                start == ptr - self.base,
                start + data@.len() <= orig.len(),
                i <= data@.len(),
                self.bytes@.len() == orig.len(),
                forall|j: int| 0 <= j < start ==> self.bytes@[j] == orig[j],
                forall|j: int| 0 <= j < i ==> self.bytes@[start + j] == data@[j],
                forall|j: int| start + i <= j < orig.len() ==> self.bytes@[j] == orig[j],
            decreases data@.len() - i,
        {
            self.bytes.set(start + i, data[i]);
            i += 1;
        }
        proof {
            let want = overwrite(orig, start as int, data@);
            assert forall|j: int| 0 <= j < orig.len() implies self.bytes@[j] == want[j] by {
                if j >= start && j < start + data@.len() {
                    assert(self.bytes@[start + (j - start)] == data@[j - start]);
                }
            }
            assert(self.bytes@ =~= want);
        }
    }

    /// The NUL-terminated string at `ptr`, without its terminator, or `None` when no
    /// terminator is found inside the region.
    pub fn read_c_str(&self, ptr: u64) -> (r: Option<Vec<u8>>)
        ensures
            match r {
                Some(s) => {
                    &&& self.range_ok(ptr, s@.len() + 1)
                    &&& self.bytes_at(ptr, s@.len() as nat) == s@
                    &&& self.bytes@[ptr - self.base + s@.len()] == 0
                    &&& !s@.contains(0u8)
                },
                None => forall|n: nat| #[trigger]
                    self.range_ok(ptr, n + 1) ==> self.bytes@[ptr - self.base + n] != 0
                        || self.bytes_at(ptr, n).contains(0u8),
            },
    {
        if ptr < self.base || ptr - self.base >= self.bytes.len() as u64 {
            return None;
        }
        let start = (ptr - self.base) as usize;
        let mut out: Vec<u8> = Vec::new();
        let mut i: usize = start;
        while i < self.bytes.len()
            invariant
                start <= i <= self.bytes@.len(),
                start == ptr - self.base,
                out@ == self.bytes@.subrange(start as int, i as int),
                !out@.contains(0u8),
            decreases self.bytes@.len() - i,
        {
            if self.bytes[i] == 0 {
                return Some(out);
            }
            out.push(self.bytes[i]);
            proof {
                assert(self.bytes@.subrange(start as int, i + 1) =~= self.bytes@.subrange(
                    start as int,
                    i as int,
                ).push(self.bytes@[i as int]));
                assert forall|j: int| 0 <= j < out@.len() implies out@[j] != 0u8 by {
                    if j < out@.len() - 1 {
                        assert(!out@.drop_last().contains(0u8));
                        assert(out@.drop_last()[j] == out@[j]);
                    }
                }
            }
            i += 1;
        }
        proof {
            assert forall|n: nat| #[trigger]
                self.range_ok(ptr, n + 1) implies self.bytes@[ptr - self.base + n] != 0
                    || self.bytes_at(ptr, n).contains(0u8) by {
                if self.bytes@[ptr - self.base + n] == 0 {
                    assert(out@[n as int] == 0u8);
                }
            }
        }
        None
    }

    /// Writes the scalars of `fields` at `ptr`, each right after the one before, least
    /// significant byte first. Fails, writing nothing, when a value does not fit its
    /// width or the whole does not lie in the region.
    pub fn write_packed(&mut self, ptr: u64, fields: &Vec<PackedField>) -> (r: Result<(), PackError>)
        ensures
            final(self).base == old(self).base,
            match r {
                Ok(()) => {
                    &&& forall|i: int| 0 <= i < fields@.len() ==> field_fits(#[trigger] fields@[i])
                    &&& old(self).range_ok(ptr, packed_len(fields@))
                    &&& final(self).bytes@ == old(self).written(ptr, packed_bytes(fields@))
                },
                Err(PackError::ValueTooWide) => {
                    &&& exists|i: int| 0 <= i < fields@.len() && !field_fits(#[trigger] fields@[i])
                    &&& final(self).bytes@ == old(self).bytes@
                },
                Err(PackError::OutOfBounds) => {
                    &&& forall|i: int| 0 <= i < fields@.len() ==> field_fits(#[trigger] fields@[i])
                    &&& !old(self).range_ok(ptr, packed_len(fields@))
                    &&& final(self).bytes@ == old(self).bytes@
                },
            },
    {
        let mut out: Vec<u8> = Vec::new();
        let mut k: usize = 0;
        while k < fields.len()
            invariant
                k <= fields@.len(),
                out@ == packed_bytes(fields@.subrange(0, k as int)),
                forall|i: int| 0 <= i < k ==> field_fits(#[trigger] fields@[i]),
            decreases fields@.len() - k,
        {
            let f = fields[k];
            let mut cur: u64 = f.value;
            let mut n: u64 = 0;
            let ghost prefix = out@;
            while n < f.width
                invariant
                    n <= f.width,
                    prefix == packed_bytes(fields@.subrange(0, k as int)),
                    out@ + le_bytes(cur as nat, (f.width - n) as nat) == prefix + le_bytes(
                        f.value as nat,
                        f.width as nat,
                    ),
                    shift_bytes(cur as nat, (f.width - n) as nat) == shift_bytes(
                        f.value as nat,
                        f.width as nat,
                    ),
                decreases f.width - n,
            {
                proof {
                    let m = (f.width - n) as nat;
                    assert(le_bytes(cur as nat, m) == seq![(cur % 256) as u8] + le_bytes(
                        (cur / 256) as nat,
                        (m - 1) as nat,
                    ));
                    assert(out@.push((cur % 256) as u8) + le_bytes((cur / 256) as nat, (m - 1) as nat)
                        =~= out@ + le_bytes(cur as nat, m));
                }
                out.push((cur % 256) as u8);
                cur = cur / 256;
                n += 1;
            }
            proof {
                assert(le_bytes(cur as nat, 0) =~= Seq::<u8>::empty());
                assert(out@ =~= prefix + le_bytes(f.value as nat, f.width as nat));
                let next = fields@.subrange(0, k + 1);
                assert(next.drop_last() =~= fields@.subrange(0, k as int));
                assert(next.last() == f);
            }
            if cur != 0 {
                proof {
                    assert(!field_fits(fields@[k as int]));
                }
                return Err(PackError::ValueTooWide);
            }
            k += 1;
        }
        proof {
            assert(fields@.subrange(0, fields@.len() as int) =~= fields@);
            lemma_packed_len(fields@);
        }
        if !self.check_ptr_access(ptr, out.len() as u64) {
            return Err(PackError::OutOfBounds);
        }
        self.write_bytes(ptr, &out);
        Ok(())
    }
}

/// Why a packed write did not happen.
#[derive(Clone, Copy, Debug, PartialEq, Eq, Structural)]
pub enum PackError {
    /// A value has more significant bytes than its field's width.
    ValueTooWide,
    /// The fields do not all lie in valid memory.
    OutOfBounds,
}

} // verus!
