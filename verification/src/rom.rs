use vstd::prelude::*;

use crate::consts::{BANK_SIZE, NES_HEADER_LEN};

verus! {

/// `d` with the bytes `b` written at offset `off`; the length is unchanged.
pub open spec fn write_at(d: Seq<u8>, off: int, b: Seq<u8>) -> Seq<u8> {
    Seq::new(d.len(), |i: int| if off <= i < off + b.len() { b[i - off] } else { d[i] })
}

/// Whether `n` bytes starting at `off` lie inside `d`.
pub open spec fn fits(d: Seq<u8>, off: int, n: int) -> bool {
    0 <= off && off + n <= d.len()
}

/// Whether the image starts with an iNES header (`NES` followed by $1A).
pub open spec fn has_ines_header(d: Seq<u8>) -> bool {
    &&& d.len() >= NES_HEADER_LEN
    &&& d[0] == 0x4E
    &&& d[1] == 0x45
    &&& d[2] == 0x53
    &&& d[3] == 0x1A
}

/// File offset of the first byte of PRG bank `bank`.
pub open spec fn bank_base_of(d: Seq<u8>, bank: int) -> int {
    (if has_ines_header(d) { NES_HEADER_LEN as int } else { 0 }) + bank * BANK_SIZE
}

/// CPU address at which a bank containing `cpu` is mapped: $C000 for the fixed
/// bank window, $8000 for the switchable one.
pub open spec fn window_base(cpu: int) -> int {
    if cpu >= 0xC000 {
        0xC000
    } else {
        0x8000
    }
}

/// File offset of CPU address `cpu` in bank `bank`.
pub open spec fn file_offset(d: Seq<u8>, bank: int, cpu: int) -> int {
    bank_base_of(d, bank) + (cpu - window_base(cpu))
}

/// Whether CPU address `cpu` of bank `bank` can be turned into a file offset
/// without leaving the `usize` range.
pub open spec fn cpu_addressable(d: Seq<u8>, bank: int, cpu: int) -> bool {
    &&& 0x8000 <= cpu
    &&& bank_base_of(d, bank) + (cpu - window_base(cpu)) <= usize::MAX
}

/// Whether `n` bytes at CPU address `cpu` of bank `bank` lie inside the image.
pub open spec fn cpu_fits(d: Seq<u8>, bank: int, cpu: int, n: int) -> bool {
    cpu_addressable(d, bank, cpu) && fits(d, file_offset(d, bank, cpu), n)
}

/// `d` with `b` written at CPU address `cpu` of bank `bank`.
pub open spec fn write_cpu(d: Seq<u8>, bank: int, cpu: int, b: Seq<u8>) -> Seq<u8> {
    write_at(d, file_offset(d, bank, cpu), b)
}

/// Whether the window of `pat.len()` bytes at `p` equals `pat`.
pub open spec fn match_at(d: Seq<u8>, p: int, pat: Seq<u8>) -> bool {
    forall|i: int| 0 <= i < pat.len() ==> d[p + i] == #[trigger] pat[i]
}

/// Whether the window at `p` equals `pat` on every bit that `mask` selects.
pub open spec fn masked_match_at(d: Seq<u8>, p: int, pat: Seq<u8>, mask: Seq<u8>) -> bool {
    forall|i: int| 0 <= i < pat.len() ==> d[p + i] & mask[i] == #[trigger] pat[i] & mask[i]
}

/// First file offset of the 16 KiB bank searched by the `find_*` methods.
pub open spec fn search_start(d: Seq<u8>, bank: int) -> int {
    file_offset(d, bank, if bank == 15 { 0xC000 } else { 0x8000 })
}

/// Whether the bank searched by the `find_*` methods lies inside the image.
pub open spec fn searchable(d: Seq<u8>, bank: int) -> bool {
    cpu_addressable(d, bank, if bank == 15 { 0xC000 } else { 0x8000 })
        && search_start(d, bank) + BANK_SIZE <= d.len()
}

/// Offset `q` starts an occurrence of `pat` that lies wholly inside the bank.
pub open spec fn is_hit(d: Seq<u8>, bank: int, pat: Seq<u8>, q: int) -> bool {
    &&& search_start(d, bank) <= q
    &&& q + pat.len() <= search_start(d, bank) + BANK_SIZE
    &&& match_at(d, q, pat)
}

/// Offset `q` starts a masked occurrence of `pat` that lies wholly inside the bank.
pub open spec fn is_masked_hit(d: Seq<u8>, bank: int, pat: Seq<u8>, mask: Seq<u8>, q: int) -> bool {
    &&& search_start(d, bank) <= q
    &&& q + pat.len() <= search_start(d, bank) + BANK_SIZE
    &&& masked_match_at(d, q, pat, mask)
}

/// Whether two images have the same length and the same header state, so that every
/// CPU address maps to the same file offset in both.
pub open spec fn same_layout(d1: Seq<u8>, d2: Seq<u8>) -> bool {
    d1.len() == d2.len() && has_ines_header(d1) == has_ines_header(d2)
}

/// A write past the first four bytes keeps the length and the header, hence the
/// mapping from CPU addresses to file offsets.
pub broadcast proof fn lemma_write_same_layout(d: Seq<u8>, off: int, b: Seq<u8>)
    requires
        off >= 4,
    ensures
        #[trigger] same_layout(write_at(d, off, b), d),
{
    let w = write_at(d, off, b);
    if d.len() >= 4 {
        assert(w[0] == d[0] && w[1] == d[1] && w[2] == d[2] && w[3] == d[3]);
    }
}

/// A write that does not overlap an earlier one leaves the earlier bytes in place.
pub proof fn lemma_disjoint_write_keeps(d: Seq<u8>, o1: int, b1: Seq<u8>, o2: int, b2: Seq<u8>)
    requires
        fits(d, o1, b1.len() as int),
        fits(d, o2, b2.len() as int),
        o1 + b1.len() <= o2 || o2 + b2.len() <= o1,
    ensures
        write_at(write_at(d, o1, b1), o2, b2).subrange(o1, o1 + b1.len()) == b1,
{
    assert(write_at(write_at(d, o1, b1), o2, b2).subrange(o1, o1 + b1.len()) =~= b1);
}

/// A write outside `lo..hi` leaves the bytes of `lo..hi` unchanged.
pub proof fn lemma_write_outside_keeps(d: Seq<u8>, o: int, b: Seq<u8>, lo: int, hi: int)
    requires
        0 <= lo <= hi <= d.len(),
        o + b.len() <= lo || hi <= o,
    ensures
        write_at(d, o, b).subrange(lo, hi) == d.subrange(lo, hi),
{
    assert(write_at(d, o, b).subrange(lo, hi) =~= d.subrange(lo, hi));
}

/// A 16-bit word written little-endian reads back as the same value.
pub proof fn lemma_word_roundtrip(d: Seq<u8>, off: int, v: u16)
    requires
        0 <= off && off + 1 < d.len(),
    ensures
        write_at(d, off, crate::consts::le16(v))[off] + 256 * write_at(
            d,
            off,
            crate::consts::le16(v),
        )[off + 1] == v,
{
}

/// `r` is what a first-occurrence search of `pat` in `bank` must return: the lowest
/// offset of an occurrence, or `None` when there is none.
pub open spec fn first_hit_result(d: Seq<u8>, bank: int, pat: Seq<u8>, r: Option<usize>) -> bool {
    match r {
        Some(q) => is_hit(d, bank, pat, q as int) && forall|q2: int|
            q2 < q ==> !#[trigger] is_hit(d, bank, pat, q2),
        None => forall|q2: int| !#[trigger] is_hit(d, bank, pat, q2),
    }
}

/// `v` lists, in increasing order, every offset at which `pat` occurs in `bank`.
pub open spec fn all_hits_result(d: Seq<u8>, bank: int, pat: Seq<u8>, v: Seq<usize>) -> bool {
    &&& forall|k: int| 0 <= k < v.len() ==> is_hit(d, bank, pat, #[trigger] v[k] as int)
    &&& forall|k1: int, k2: int| 0 <= k1 < k2 < v.len() ==> v[k1] < v[k2]
    &&& forall|q: int| #[trigger] is_hit(d, bank, pat, q) ==> exists|k: int| 0 <= k < v.len() && v[k] == q
}

/// Masked counterpart of `first_hit_result`.
pub open spec fn first_masked_hit_result(
    d: Seq<u8>,
    bank: int,
    pat: Seq<u8>,
    mask: Seq<u8>,
    r: Option<usize>,
) -> bool {
    match r {
        Some(q) => is_masked_hit(d, bank, pat, mask, q as int) && forall|q2: int|
            q2 < q ==> !#[trigger] is_masked_hit(d, bank, pat, mask, q2),
        None => forall|q2: int| !#[trigger] is_masked_hit(d, bank, pat, mask, q2),
    }
}

/// Masked counterpart of `all_hits_result`.
pub open spec fn all_masked_hits_result(
    d: Seq<u8>,
    bank: int,
    pat: Seq<u8>,
    mask: Seq<u8>,
    v: Seq<usize>,
) -> bool {
    &&& forall|k: int| 0 <= k < v.len() ==> is_masked_hit(d, bank, pat, mask, #[trigger] v[k] as int)
    &&& forall|k1: int, k2: int| 0 <= k1 < k2 < v.len() ==> v[k1] < v[k2]
    &&& forall|q: int| #[trigger] is_masked_hit(d, bank, pat, mask, q) ==> exists|k: int|
        0 <= k < v.len() && v[k] == q
}

/// A first-occurrence search and an all-occurrences search of the same pattern in the
/// same bank agree: the first finds nothing exactly when the second lists nothing, and
/// otherwise it finds the first offset that the second lists.
pub proof fn lemma_first_hit_heads_all_hits(
    d: Seq<u8>,
    bank: int,
    pat: Seq<u8>,
    r: Option<usize>,
    v: Seq<usize>,
)
    requires
        first_hit_result(d, bank, pat, r),
        all_hits_result(d, bank, pat, v),
    ensures
        r is None <==> v.len() == 0,
        r matches Some(q) ==> v[0] == q,
{
    if v.len() > 0 {
        assert(is_hit(d, bank, pat, v[0] as int));
    }
    if let Some(q) = r {
        assert(is_hit(d, bank, pat, q as int));
        let k = choose|k: int| 0 <= k < v.len() && v[k] == q;
        if k > 0 {
            assert(v[0] < v[k]);
        }
    }
}

/// The masked searches agree with the plain ones in the same way.
pub proof fn lemma_first_masked_hit_heads_all_masked_hits(
    d: Seq<u8>,
    bank: int,
    pat: Seq<u8>,
    mask: Seq<u8>,
    r: Option<usize>,
    v: Seq<usize>,
)
    requires
        first_masked_hit_result(d, bank, pat, mask, r),
        all_masked_hits_result(d, bank, pat, mask, v),
    ensures
        r is None <==> v.len() == 0,
        r matches Some(q) ==> v[0] == q,
{
    if v.len() > 0 {
        assert(is_masked_hit(d, bank, pat, mask, v[0] as int));
    }
    if let Some(q) = r {
        assert(is_masked_hit(d, bank, pat, mask, q as int));
        let k = choose|k: int| 0 <= k < v.len() && v[k] == q;
        if k > 0 {
            assert(v[0] < v[k]);
        }
    }
}

/// With every mask byte $FF a masked search is an exact search: the same offsets are
/// occurrences of the pattern under both.
pub proof fn lemma_full_mask_is_exact(d: Seq<u8>, bank: int, pat: Seq<u8>, mask: Seq<u8>)
    requires
        mask.len() == pat.len(),
        forall|i: int| 0 <= i < mask.len() ==> #[trigger] mask[i] == 0xFF,
    ensures
        forall|q: int| #[trigger] is_masked_hit(d, bank, pat, mask, q) == is_hit(d, bank, pat, q),
{
    assert(forall|x: u8| #![auto] x & 0xFFu8 == x) by (bit_vector);
    assert forall|q: int| #[trigger] is_masked_hit(d, bank, pat, mask, q) == is_hit(d, bank, pat, q) by {
        if is_hit(d, bank, pat, q) {
            assert forall|i: int| 0 <= i < pat.len() implies d[q + i] & mask[i] == #[trigger] pat[i] & mask[i] by {
                assert(d[q + i] == pat[i]);
                assert(mask[i] == 0xFF);
            }
        }
        if is_masked_hit(d, bank, pat, mask, q) {
            assert forall|i: int| 0 <= i < pat.len() implies d[q + i] == #[trigger] pat[i] by {
                assert(d[q + i] & mask[i] == pat[i] & mask[i]);
                assert(mask[i] == 0xFF);
            }
        }
    }
}

/// A raw ROM image, header included if there is one.
pub struct Rom {
    data: Vec<u8>,
}

impl View for Rom {
    type V = Seq<u8>;

    closed spec fn view(&self) -> Seq<u8> {
        self.data@
    }
}

impl Rom {
    /// Wrap the bytes of a ROM image.
    pub fn from_bytes(data: Vec<u8>) -> (r: Rom)
        ensures
            r@ == data@,
    {
        Rom { data }
    }

    pub fn data(&self) -> (r: &[u8])
        ensures
            r@ == self@,
    {
        self.data.as_slice()
    }

    pub fn data_mut(&mut self) -> (r: &mut [u8])
        ensures
            r@ == old(self)@,
            final(self)@ == final(r)@,
    {
        self.data.as_mut_slice()
    }

    /// Size of the image in bytes.
    pub fn len(&self) -> (r: usize)
        ensures
            r == self@.len(),
    {
        self.data.len()
    }

    fn has_header(&self) -> (r: bool)
        ensures
            r == has_ines_header(self@),
    {
        self.data.len() >= NES_HEADER_LEN && self.data[0] == 0x4E && self.data[1] == 0x45
            && self.data[2] == 0x53 && self.data[3] == 0x1A
    }

    /// Whether `n` bytes at CPU address `cpu` of `bank` lie inside the image.
    pub fn cpu_range_fits(&self, bank: usize, cpu: u16, n: usize) -> (r: bool)
        ensures
            r == cpu_fits(self@, bank as int, cpu as int, n as int),
    {
        if cpu < 0x8000 {
            return false;
        }
        let header: usize = if self.has_header() {
            NES_HEADER_LEN
        } else {
            0
        };
        let within: usize = if cpu >= 0xC000 {
            (cpu - 0xC000) as usize
        } else {
            (cpu - 0x8000) as usize
        };
        let len = self.data.len();
        match bank.checked_mul(BANK_SIZE) {
            None => false,
            Some(b) => match b.checked_add(header) {
                None => false,
                Some(base) => match base.checked_add(within) {
                    None => false,
                    Some(off) => off <= len && n <= len - off,
                },
            },
        }
    }

    pub fn bank_base(&self, bank: usize) -> (r: usize)
        requires
            bank_base_of(self@, bank as int) <= usize::MAX,
        ensures
            r == bank_base_of(self@, bank as int),
    {
        let header = if self.has_header() {
            NES_HEADER_LEN
        } else {
            0
        };
        header + bank * BANK_SIZE
    }

    pub fn cpu_to_file_offset(&self, bank: usize, cpu_addr: u16) -> (r: usize)
        requires
            cpu_addressable(self@, bank as int, cpu_addr as int),
        ensures
            r == file_offset(self@, bank as int, cpu_addr as int),
    {
        let bank_base_addr = if cpu_addr >= 0xC000 {
            0xC000u16
        } else {
            0x8000u16
        };
        let base = self.bank_base(bank);
        let within = (cpu_addr - bank_base_addr) as usize;
        base + within
    }

    pub fn read_byte(&self, offset: usize) -> (r: u8)
        requires
            offset < self@.len(),
        ensures
            r == self@[offset as int],
    {
        self.data[offset]
    }

    pub fn write_byte(&mut self, offset: usize, val: u8)
        requires
            offset < old(self)@.len(),
        ensures
            final(self)@ == old(self)@.update(offset as int, val),
    {
        self.data.set(offset, val);
    }

    fn copy_in(&mut self, offset: usize, bytes: &[u8])
        requires
            fits(old(self)@, offset as int, bytes@.len() as int),
        ensures
            final(self)@ == write_at(old(self)@, offset as int, bytes@),
    {
        let n = bytes.len();
        let total = self.data.len();
        let mut i: usize = 0;
        while i < n
            invariant
                n == bytes@.len(),
                total == self@.len(),
                i <= n,
                offset + n <= self@.len(),
                self@.len() == old(self)@.len(),
                forall|j: int|
                    0 <= j < self@.len() ==> #[trigger] self@[j] == if offset <= j < offset + i {
                        bytes@[j - offset]
                    } else {
                        old(self)@[j]
                    },
            decreases n - i,
        {
            self.data.set(offset + i, bytes[i]);
            i = i + 1;
        }
        assert(self@ =~= write_at(old(self)@, offset as int, bytes@));
    }

    pub fn write_slice(&mut self, offset: usize, bytes: &[u8])
        requires
            fits(old(self)@, offset as int, bytes@.len() as int),
        ensures
            final(self)@ == write_at(old(self)@, offset as int, bytes@),
    {
        self.copy_in(offset, bytes);
    }

    /// Read a little-endian 16-bit word from file offset.
    pub fn read_word(&self, off: usize) -> (r: u16)
        requires
            off + 1 < self@.len(),
        ensures
            r == self@[off as int] + 256 * self@[off + 1],
    {
        let _ = self.data.len();
        let lo = self.read_byte(off) as u16;
        let hi = self.read_byte(off + 1) as u16;
        let r = lo | (hi << 8);
        assert(lo < 256 && hi < 256 ==> lo | (hi << 8) == lo + 256 * hi) by (bit_vector);
        r
    }

    /// Write a little-endian 16-bit word to file offset.
    pub fn write_word(&mut self, off: usize, val: u16)
        requires
            off + 1 < old(self)@.len(),
        ensures
            final(self)@ == write_at(old(self)@, off as int, crate::consts::le16(val)),
    {
        let _ = self.data.len();
        self.write_byte(off, crate::consts::lo_byte(val));
        self.write_byte(off + 1, crate::consts::hi_byte(val));
        assert(self@ =~= write_at(old(self)@, off as int, crate::consts::le16(val)));
    }

    pub fn write_bytes(&mut self, offset: usize, bytes: &[u8])
        requires
            fits(old(self)@, offset as int, bytes@.len() as int),
        ensures
            final(self)@ == write_at(old(self)@, offset as int, bytes@),
    {
        self.copy_in(offset, bytes);
    }

    /// Write a slice of bytes directly at a given file offset.
    pub fn write_slice_at(&mut self, offset: usize, bytes: &[u8])
        requires
            fits(old(self)@, offset as int, bytes@.len() as int),
        ensures
            final(self)@ == write_at(old(self)@, offset as int, bytes@),
    {
        let _ = self.data.len();
        let data = self.data_mut();
        let end = offset + bytes.len();
        let mut i: usize = offset;
        while i < end
            invariant
                end == offset + bytes@.len(),
                offset <= i <= end,
                end <= data@.len(),
                data@.len() == old(self)@.len(),
                forall|j: int|
                    0 <= j < data@.len() ==> #[trigger] data@[j] == if offset <= j < i {
                        bytes@[j - offset]
                    } else {
                        old(self)@[j]
                    },
            decreases end - i,
        {
            data[i] = bytes[i - offset];
            i = i + 1;
        }
        assert(data@ =~= write_at(old(self)@, offset as int, bytes@));
    }

    fn match_here(&self, p: usize, pattern: &[u8]) -> (r: bool)
        requires
            p + pattern@.len() <= self@.len(),
        ensures
            r == match_at(self@, p as int, pattern@),
    {
        let _ = self.data.len();
        let n = pattern.len();
        let mut i: usize = 0;
        while i < n
            invariant
                n == pattern@.len(),
                i <= n,
                p + n <= self@.len(),
                self@.len() <= usize::MAX,
                forall|k: int| 0 <= k < i ==> self@[p + k] == #[trigger] pattern@[k],
            decreases n - i,
        {
            if self.data[p + i] != pattern[i] {
                return false;
            }
            i = i + 1;
        }
        true
    }

    fn masked_match_here(&self, p: usize, pattern: &[u8], mask: &[u8]) -> (r: bool)
        requires
            p + pattern@.len() <= self@.len(),
            mask@.len() == pattern@.len(),
        ensures
            r == masked_match_at(self@, p as int, pattern@, mask@),
    {
        let _ = self.data.len();
        let n = pattern.len();
        let mut i: usize = 0;
        while i < n
            invariant
                n == pattern@.len(),
                n == mask@.len(),
                i <= n,
                p + n <= self@.len(),
                self@.len() <= usize::MAX,
                forall|k: int|
                    0 <= k < i ==> self@[p + k] & mask@[k] == #[trigger] pattern@[k] & mask@[k],
            decreases n - i,
        {
            if self.data[p + i] & mask[i] != pattern[i] & mask[i] {
                return false;
            }
            i = i + 1;
        }
        true
    }

    /// Search for a byte pattern within a given bank.
    /// Returns the file offset of the first match, or None.
    pub fn find_in_bank(&self, bank: usize, pattern: &[u8]) -> (r: Option<usize>)
        requires
            searchable(self@, bank as int),
            pattern@.len() > 0,
        ensures
            first_hit_result(self@, bank as int, pattern@, r),
    {
        let bank_start = self.cpu_to_file_offset(
            bank,
            if bank == 15 {
                0xC000
            } else {
                0x8000
            },
        );
        let _ = self.data.len();
        let bank_end = bank_start + 0x4000;
        let n = pattern.len();
        if n > 0x4000 {
            return None;
        }
        let mut pos = bank_start;
        while n <= bank_end - pos
            invariant
                bank_start == search_start(self@, bank as int),
                bank_end == bank_start + BANK_SIZE,
                bank_end <= self@.len(),
                self@.len() <= usize::MAX,
                n == pattern@.len(),
                0 < n <= BANK_SIZE,
                bank_start <= pos <= bank_end,
                forall|q2: int| q2 < pos ==> !#[trigger] is_hit(self@, bank as int, pattern@, q2),
            decreases bank_end - pos,
        {
            if self.match_here(pos, pattern) {
                return Some(pos);
            }
            pos = pos + 1;
        }
        None
    }

    /// Search for all occurrences of a byte pattern within a given bank.
    /// Returns a vec of file offsets.
    pub fn find_all_in_bank(&self, bank: usize, pattern: &[u8]) -> (r: Vec<usize>)
        requires
            searchable(self@, bank as int),
            pattern@.len() > 0,
        ensures
            all_hits_result(self@, bank as int, pattern@, r@),
    {
        let bank_start = self.cpu_to_file_offset(
            bank,
            if bank == 15 {
                0xC000
            } else {
                0x8000
            },
        );
        let _ = self.data.len();
        let bank_end = bank_start + 0x4000;
        let n = pattern.len();
        let mut out: Vec<usize> = Vec::new();
        if n > 0x4000 {
            return out;
        }
        let mut pos = bank_start;
        while n <= bank_end - pos
            invariant
                bank_start == search_start(self@, bank as int),
                bank_end == bank_start + BANK_SIZE,
                bank_end <= self@.len(),
                self@.len() <= usize::MAX,
                n == pattern@.len(),
                0 < n <= BANK_SIZE,
                bank_start <= pos <= bank_end,
                forall|k: int|
                    0 <= k < out@.len() ==> is_hit(self@, bank as int, pattern@, #[trigger] out@[k] as int)
                        && out@[k] < pos,
                forall|k1: int, k2: int| 0 <= k1 < k2 < out@.len() ==> out@[k1] < out@[k2],
                forall|q: int|
                    q < pos && #[trigger] is_hit(self@, bank as int, pattern@, q) ==> exists|k: int|
                        0 <= k < out@.len() && out@[k] == q,
            decreases bank_end - pos,
        {
            let ghost old_out = out@;
            let m = self.match_here(pos, pattern);
            if m {
                out.push(pos);
            }
            proof {
                assert forall|q: int| q < pos + 1 && #[trigger] is_hit(self@, bank as int, pattern@, q) implies exists|k: int|
                    0 <= k < out@.len() && out@[k] == q by {
                    if q < pos {
                        let k = choose|k: int| 0 <= k < old_out.len() && old_out[k] == q;
                        assert(out@[k] == q);
                    } else {
                        assert(out@[out@.len() - 1] == pos);
                    }
                }
            }
            pos = pos + 1;
        }
        out
    }

    /// Search for a masked byte pattern within a given bank.
    /// `mask` has the same length as `pattern`. A mask byte of $FF means
    /// the corresponding pattern byte must match exactly; $00 means any
    /// byte is accepted (wildcard).
    /// Returns the file offset of the first match, or None.
    pub fn find_masked_in_bank(&self, bank: usize, pattern: &[u8], mask: &[u8]) -> (r: Option<
        usize,
    >)
        requires
            searchable(self@, bank as int),
            pattern@.len() > 0,
            pattern@.len() == mask@.len(),
        ensures
            first_masked_hit_result(self@, bank as int, pattern@, mask@, r),
    {
        let bank_start = self.cpu_to_file_offset(
            bank,
            if bank == 15 {
                0xC000
            } else {
                0x8000
            },
        );
        let _ = self.data.len();
        let bank_end = bank_start + 0x4000;
        let n = pattern.len();
        if n > 0x4000 {
            return None;
        }
        let mut pos = bank_start;
        while n <= bank_end - pos
            invariant
                bank_start == search_start(self@, bank as int),
                bank_end == bank_start + BANK_SIZE,
                bank_end <= self@.len(),
                self@.len() <= usize::MAX,
                n == pattern@.len(),
                n == mask@.len(),
                0 < n <= BANK_SIZE,
                bank_start <= pos <= bank_end,
                forall|q2: int|
                    q2 < pos ==> !#[trigger] is_masked_hit(self@, bank as int, pattern@, mask@, q2),
            decreases bank_end - pos,
        {
            if self.masked_match_here(pos, pattern, mask) {
                return Some(pos);
            }
            pos = pos + 1;
        }
        None
    }

    /// Search for all occurrences of a masked byte pattern within a given bank.
    pub fn find_all_masked_in_bank(&self, bank: usize, pattern: &[u8], mask: &[u8]) -> (r: Vec<
        usize,
    >)
        requires
            searchable(self@, bank as int),
            pattern@.len() > 0,
            pattern@.len() == mask@.len(),
        ensures
            all_masked_hits_result(self@, bank as int, pattern@, mask@, r@),
    {
        let bank_start = self.cpu_to_file_offset(
            bank,
            if bank == 15 {
                0xC000
            } else {
                0x8000
            },
        );
        let _ = self.data.len();
        let bank_end = bank_start + 0x4000;
        let n = pattern.len();
        let mut out: Vec<usize> = Vec::new();
        if n > 0x4000 {
            return out;
        }
        let mut pos = bank_start;
        while n <= bank_end - pos
            invariant
                bank_start == search_start(self@, bank as int),
                bank_end == bank_start + BANK_SIZE,
                bank_end <= self@.len(),
                self@.len() <= usize::MAX,
                n == pattern@.len(),
                n == mask@.len(),
                0 < n <= BANK_SIZE,
                bank_start <= pos <= bank_end,
                forall|k: int|
                    0 <= k < out@.len() ==> is_masked_hit(
                        self@,
                        bank as int,
                        pattern@,
                        mask@,
                        #[trigger] out@[k] as int,
                    ) && out@[k] < pos,
                forall|k1: int, k2: int| 0 <= k1 < k2 < out@.len() ==> out@[k1] < out@[k2],
                forall|q: int|
                    q < pos && #[trigger] is_masked_hit(self@, bank as int, pattern@, mask@, q)
                        ==> exists|k: int| 0 <= k < out@.len() && out@[k] == q,
            decreases bank_end - pos,
        {
            let ghost old_out = out@;
            let m = self.masked_match_here(pos, pattern, mask);
            if m {
                out.push(pos);
            }
            proof {
                assert forall|q: int| q < pos + 1 && #[trigger] is_masked_hit(self@, bank as int, pattern@, mask@, q) implies exists|k: int|
                    0 <= k < out@.len() && out@[k] == q by {
                    if q < pos {
                        let k = choose|k: int| 0 <= k < old_out.len() && old_out[k] == q;
                        assert(out@[k] == q);
                    } else {
                        assert(out@[out@.len() - 1] == pos);
                    }
                }
            }
            pos = pos + 1;
        }
        out
    }
}

} // verus!
