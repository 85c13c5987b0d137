use vstd::prelude::*;

use std::collections::HashMap;

use crate::consts::SCAN_BANKS;
use crate::rom::{cpu_fits, file_offset, lemma_disjoint_write_keeps, lemma_write_same_layout, write_cpu, Rom};

verus! {

broadcast use vstd::std_specs::hash::group_hash_axioms;

/// The free space of one bank, in CPU addresses: `start..end` is the free range found
/// by the scan and `next` the first address not yet handed out.
#[derive(Clone, Copy, PartialEq, Eq, Debug, Structural)]
pub struct BankRegion {
    pub start: u16,
    pub next: u16,
    pub end: u16,
}

/// Index of the last byte among the `n` bytes at `off` that is not $FF, or -1.
pub open spec fn last_non_ff(d: Seq<u8>, off: int, n: int) -> int
    decreases n,
{
    if n <= 0 {
        -1
    } else if d[off + n - 1] != 0xFF {
        n - 1
    } else {
        last_non_ff(d, off, n - 1)
    }
}

/// The region that scanning CPU addresses `base..end` of `bank` finds: it starts two bytes
/// past the last byte that is not $FF (one guard byte is kept), or at `base` when every
/// byte is $FF; it ends one byte early when `end` is not the top of the bank's window.
pub open spec fn scanned_region(d: Seq<u8>, bank: int, base: u16, end: u16) -> BankRegion {
    let l = last_non_ff(d, file_offset(d, bank, base as int), end - base);
    let free_start = if l >= 0 {
        base + l + 2
    } else {
        base as int
    };
    let ceiling = if base >= 0xC000 {
        0x10000int
    } else {
        0xC000int
    };
    let effective_end = if end < ceiling {
        end - 1
    } else {
        end as int
    };
    BankRegion { start: free_start as u16, next: free_start as u16, end: effective_end as u16 }
}

/// The regions found by scanning each entry of `banks` in turn.
pub open spec fn scanned_regions(d: Seq<u8>, banks: Seq<(usize, u16, u16)>) -> Map<usize, BankRegion>
    decreases banks.len(),
{
    if banks.len() == 0 {
        Map::empty()
    } else {
        let (bank, base, end) = banks.last();
        scanned_regions(d, banks.drop_last()).insert(
            bank,
            scanned_region(d, bank as int, base, end),
        )
    }
}

/// Whether every entry of `banks` can be scanned in `d`.
pub open spec fn scan_table_ok(d: Seq<u8>, banks: Seq<(usize, u16, u16)>) -> bool {
    forall|k: int|
        0 <= k < banks.len() ==> {
            let (bank, base, end) = #[trigger] banks[k];
            &&& base <= end < 0xFFFF
            &&& cpu_fits(d, bank as int, base as int, end - base)
        }
}

/// A region never hands out addresses below its start.
pub open spec fn regions_wf(m: Map<usize, BankRegion>) -> bool {
    forall|b: usize| #[trigger] m.contains_key(b) ==> m[b].start <= m[b].next
}

/// Whether `size` bytes can be allocated in `bank`: the bank is managed and its free
/// range still holds `size` bytes.
pub open spec fn can_alloc(m: Map<usize, BankRegion>, bank: usize, size: usize) -> bool {
    m.contains_key(bank) && m[bank].next + size <= m[bank].end
}

/// The regions after allocating `size` bytes in `bank`.
pub open spec fn after_alloc(m: Map<usize, BankRegion>, bank: usize, size: usize) -> Map<
    usize,
    BankRegion,
> {
    m.insert(bank, BankRegion { next: (m[bank].next + size) as u16, ..m[bank] })
}

proof fn lemma_last_non_ff(d: Seq<u8>, off: int, n: int)
    ensures
        -1 <= last_non_ff(d, off, n) < n || (n <= 0 && last_non_ff(d, off, n) == -1),
        last_non_ff(d, off, n) >= 0 ==> d[off + last_non_ff(d, off, n)] != 0xFF,
        forall|j: int| last_non_ff(d, off, n) < j < n ==> #[trigger] d[off + j] == 0xFF,
    decreases n,
{
    if n > 0 && d[off + n - 1] == 0xFF {
        lemma_last_non_ff(d, off, n - 1);
        assert forall|j: int| last_non_ff(d, off, n) < j < n implies #[trigger] d[off + j] == 0xFF by {
            if j < n - 1 {
            }
        }
    }
}

/// Everything the scan of CPU addresses `base..end` leaves free is $FF in the image, and
/// so is the guard byte just below the free range: allocated code never overwrites data.
pub proof fn lemma_scanned_space_is_ff(d: Seq<u8>, bank: int, base: u16, end: u16)
    requires
        base <= end < 0xFFFF,
    ensures
        forall|a: int|
            base <= a < end && scanned_region(d, bank, base, end).start - 1 <= a ==> #[trigger] d[file_offset(
                d,
                bank,
                base as int,
            ) + (a - base)] == 0xFF,
        scanned_region(d, bank, base, end).start == scanned_region(d, bank, base, end).next,
        base <= scanned_region(d, bank, base, end).start <= end as int + 1,
{
    let off = file_offset(d, bank, base as int);
    lemma_last_non_ff(d, off, end - base);
    assert forall|a: int|
        base <= a < end && scanned_region(d, bank, base, end).start - 1 <= a implies #[trigger] d[off + (a
            - base)] == 0xFF by {
        assert(last_non_ff(d, off, end - base) < a - base);
    }
}

/// Two successive allocations in the same bank do not overlap: the second block starts
/// where the first ends. Both lie inside the bank's free range, and an allocation leaves
/// every other bank unchanged.
pub proof fn lemma_allocations_disjoint(m: Map<usize, BankRegion>, bank: usize, n1: usize, n2: usize)
    requires
        regions_wf(m),
        can_alloc(m, bank, n1),
        can_alloc(after_alloc(m, bank, n1), bank, n2),
    ensures
        ({
            let a1 = m[bank].next;
            let m1 = after_alloc(m, bank, n1);
            let a2 = m1[bank].next;
            &&& m[bank].start <= a1
            &&& a1 + n1 == a2
            &&& a2 + n2 <= m[bank].end
            &&& m1[bank].start == m[bank].start
            &&& m1[bank].end == m[bank].end
            &&& regions_wf(m1)
        }),
        forall|b: usize| b != bank && #[trigger] m.contains_key(b) ==> after_alloc(m, bank, n1)[b] == m[b],
        after_alloc(m, bank, n1).dom() == m.dom(),
{
    assert(after_alloc(m, bank, n1).dom() =~= m.dom());
}

/// Code written into two successive allocations of a bank never overlaps in the image:
/// the code of the first allocation is still in place after the second is written,
/// provided the bank's free range lies in one CPU window and the bank is not bank 0
/// (whose first bytes decide the header).
pub proof fn lemma_allocated_code_survives(
    d: Seq<u8>,
    m: Map<usize, BankRegion>,
    bank: usize,
    c1: Seq<u8>,
    c2: Seq<u8>,
)
    requires
        regions_wf(m),
        bank >= 1,
        c1.len() <= usize::MAX,
        c2.len() <= usize::MAX,
        can_alloc(m, bank, c1.len() as usize),
        can_alloc(after_alloc(m, bank, c1.len() as usize), bank, c2.len() as usize),
        m[bank].end <= 0xC000 || m[bank].start >= 0xC000,
        cpu_fits(d, bank as int, m[bank].next as int, c1.len() as int),
        cpu_fits(
            d,
            bank as int,
            after_alloc(m, bank, c1.len() as usize)[bank].next as int,
            c2.len() as int,
        ),
    ensures
        ({
            let a1 = m[bank].next as int;
            let a2 = after_alloc(m, bank, c1.len() as usize)[bank].next as int;
            write_cpu(write_cpu(d, bank as int, a1, c1), bank as int, a2, c2).subrange(
                file_offset(d, bank as int, a1),
                file_offset(d, bank as int, a1) + c1.len(),
            ) == c1
        }),
{
    let a1 = m[bank].next as int;
    let a2 = after_alloc(m, bank, c1.len() as usize)[bank].next as int;
    let o1 = file_offset(d, bank as int, a1);
    let w1 = write_cpu(d, bank as int, a1, c1);
    assert(a2 == a1 + c1.len());
    if c2.len() > 0 {
        lemma_write_same_layout(d, o1, c1);
        assert(file_offset(w1, bank as int, a2) == file_offset(d, bank as int, a2));
        lemma_disjoint_write_keeps(d, o1, c1, file_offset(d, bank as int, a2), c2);
    } else {
        assert(write_cpu(w1, bank as int, a2, c2) =~= w1);
        assert(w1.subrange(o1, o1 + c1.len()) =~= c1);
    }
}

/// An allocation of `size` bytes shrinks the bank's remaining space by exactly `size`.
pub proof fn lemma_allocation_shrinks_remaining(m: Map<usize, BankRegion>, bank: usize, size: usize)
    requires
        can_alloc(m, bank, size),
    ensures
        after_alloc(m, bank, size)[bank].end - after_alloc(m, bank, size)[bank].next == m[bank].end
            - m[bank].next - size,
        after_alloc(m, bank, size)[bank].next <= after_alloc(m, bank, size)[bank].end,
{
}

/// The regions after serving the requests `(bank, size)` of `reqs` in turn.
pub open spec fn after_allocs(m: Map<usize, BankRegion>, reqs: Seq<(usize, usize)>) -> Map<
    usize,
    BankRegion,
>
    decreases reqs.len(),
{
    if reqs.len() == 0 {
        m
    } else {
        after_alloc(after_allocs(m, reqs.drop_last()), reqs.last().0, reqs.last().1)
    }
}

/// Whether every request of `reqs` can be served, each in the state the earlier ones left.
pub open spec fn can_allocs(m: Map<usize, BankRegion>, reqs: Seq<(usize, usize)>) -> bool
    decreases reqs.len(),
{
    if reqs.len() == 0 {
        true
    } else {
        can_allocs(m, reqs.drop_last()) && can_alloc(
            after_allocs(m, reqs.drop_last()),
            reqs.last().0,
            reqs.last().1,
        )
    }
}

/// The address handed out for the request at index `i` of `reqs`.
pub open spec fn alloc_addr(m: Map<usize, BankRegion>, reqs: Seq<(usize, usize)>, i: int) -> int {
    after_allocs(m, reqs.take(i))[reqs[i].0].next as int
}

/// The number of bytes that `reqs` asks of `bank`.
pub open spec fn requested(reqs: Seq<(usize, usize)>, bank: usize) -> int
    decreases reqs.len(),
{
    if reqs.len() == 0 {
        0
    } else {
        requested(reqs.drop_last(), bank) + if reqs.last().0 == bank {
            reqs.last().1 as int
        } else {
            0
        }
    }
}

proof fn lemma_after_allocs(m: Map<usize, BankRegion>, reqs: Seq<(usize, usize)>)
    requires
        can_allocs(m, reqs),
    ensures
        after_allocs(m, reqs).dom() == m.dom(),
        forall|b: usize|
            #[trigger] m.contains_key(b) ==> {
                &&& after_allocs(m, reqs)[b].start == m[b].start
                &&& after_allocs(m, reqs)[b].end == m[b].end
                &&& after_allocs(m, reqs)[b].next == m[b].next + requested(reqs, b)
            },
    decreases reqs.len(),
{
    if reqs.len() > 0 {
        lemma_after_allocs(m, reqs.drop_last());
        let m0 = after_allocs(m, reqs.drop_last());
        assert(after_allocs(m, reqs).dom() =~= m0.dom());
    }
}

proof fn lemma_prefix(reqs: Seq<(usize, usize)>, i: int)
    requires
        0 <= i < reqs.len(),
    ensures
        reqs.take(i + 1).drop_last() == reqs.take(i),
        reqs.take(i + 1).last() == reqs[i],
{
    assert(reqs.take(i + 1).drop_last() =~= reqs.take(i));
}

proof fn lemma_can_allocs_prefix(m: Map<usize, BankRegion>, reqs: Seq<(usize, usize)>, i: int)
    requires
        can_allocs(m, reqs),
        0 <= i <= reqs.len(),
    ensures
        can_allocs(m, reqs.take(i)),
    decreases reqs.len() - i,
{
    if i == reqs.len() {
        assert(reqs.take(i) =~= reqs);
    } else {
        lemma_can_allocs_prefix(m, reqs, i + 1);
        lemma_prefix(reqs, i);
    }
}

proof fn lemma_requested_grows(reqs: Seq<(usize, usize)>, b: usize, i: int, j: int)
    requires
        0 <= i < j <= reqs.len(),
    ensures
        requested(reqs.take(i + 1), b) == requested(reqs.take(i), b) + if reqs[i].0 == b {
            reqs[i].1 as int
        } else {
            0
        },
        requested(reqs.take(i + 1), b) <= requested(reqs.take(j), b),
    decreases j - i,
{
    lemma_prefix(reqs, i);
    if j > i + 1 {
        lemma_requested_grows(reqs, b, i + 1, j);
    }
}

/// A whole run of allocations: every block handed out lies inside its bank's free range,
/// blocks of one bank never overlap and come out in increasing order, and each bank's
/// next free address, hence its remaining space, moves by exactly the bytes asked of it.
pub proof fn lemma_allocation_run(m: Map<usize, BankRegion>, reqs: Seq<(usize, usize)>)
    requires
        regions_wf(m),
        can_allocs(m, reqs),
    ensures
        forall|i: int|
            0 <= i < reqs.len() ==> {
                &&& m.contains_key(#[trigger] reqs[i].0)
                &&& m[reqs[i].0].start <= alloc_addr(m, reqs, i)
                &&& alloc_addr(m, reqs, i) + reqs[i].1 <= m[reqs[i].0].end
            },
        forall|i: int, j: int|
            0 <= i < j < reqs.len() && reqs[i].0 == reqs[j].0 ==> #[trigger] alloc_addr(m, reqs, i)
                + reqs[i].1 <= #[trigger] alloc_addr(m, reqs, j),
        after_allocs(m, reqs).dom() == m.dom(),
        regions_wf(after_allocs(m, reqs)),
        forall|b: usize|
            #[trigger] m.contains_key(b) ==> {
                &&& after_allocs(m, reqs)[b].start == m[b].start
                &&& after_allocs(m, reqs)[b].end == m[b].end
                &&& after_allocs(m, reqs)[b].next == m[b].next + requested(reqs, b)
                &&& after_allocs(m, reqs)[b].end - after_allocs(m, reqs)[b].next == m[b].end
                    - m[b].next - requested(reqs, b)
            },
{
    lemma_after_allocs(m, reqs);
    assert forall|i: int|
        0 <= i < reqs.len() implies {
        &&& m.contains_key(#[trigger] reqs[i].0)
        &&& m[reqs[i].0].start <= alloc_addr(m, reqs, i)
        &&& alloc_addr(m, reqs, i) + reqs[i].1 <= m[reqs[i].0].end
    } by {
        lemma_can_allocs_prefix(m, reqs, i + 1);
        lemma_prefix(reqs, i);
        lemma_after_allocs(m, reqs.take(i));
        let b = reqs[i].0;
        assert(can_alloc(after_allocs(m, reqs.take(i)), b, reqs[i].1));
        assert(after_allocs(m, reqs.take(i)).dom().contains(b));
        lemma_requested_grows(reqs, b, i, i + 1);
        lemma_requested_nonneg(reqs.take(i), b);
    }
    assert forall|i: int, j: int|
        0 <= i < j < reqs.len() && reqs[i].0 == reqs[j].0 implies #[trigger] alloc_addr(m, reqs, i)
        + reqs[i].1 <= #[trigger] alloc_addr(m, reqs, j) by {
        let b = reqs[i].0;
        lemma_can_allocs_prefix(m, reqs, i + 1);
        lemma_can_allocs_prefix(m, reqs, j);
        lemma_prefix(reqs, i);
        lemma_after_allocs(m, reqs.take(i));
        lemma_after_allocs(m, reqs.take(j));
        assert(can_alloc(after_allocs(m, reqs.take(i)), b, reqs[i].1));
        lemma_requested_grows(reqs, b, i, j);
    }
    assert forall|b: usize| #[trigger] after_allocs(m, reqs).contains_key(b) implies after_allocs(
        m,
        reqs,
    )[b].start <= after_allocs(m, reqs)[b].next by {
        lemma_requested_nonneg(reqs, b);
    }
}

/// An allocator fresh from `new` on image `d` hands out only free space: every block of
/// a scanned bank, from the guard byte below it up to the end of the scanned range, is
/// $FF in `d`, so no block covers data and one $FF byte separates data from the first
/// block; each block ends inside the free range, one byte short of the scanned range
/// where data lies above it; and the space left in a bank is the size of its free range
/// less the bytes asked of it. (Blocks of one bank never overlap: `lemma_allocation_run`.)
pub proof fn lemma_fresh_allocations_use_free_space(d: Seq<u8>, reqs: Seq<(usize, usize)>)
    requires
        scan_table_ok(d, SCAN_BANKS@),
        can_allocs(scanned_regions(d, SCAN_BANKS@), reqs),
    ensures
        forall|i: int, k: int|
            #![trigger reqs[i], SCAN_BANKS@[k]]
            0 <= i < reqs.len() && 0 <= k < 3 && reqs[i].0 == SCAN_BANKS@[k].0 ==> {
                let (b, base, end) = SCAN_BANKS@[k];
                let a = alloc_addr(scanned_regions(d, SCAN_BANKS@), reqs, i);
                &&& a + reqs[i].1 <= scanned_region(d, b as int, base, end).end
                &&& forall|q: int|
                    base <= q < end && a - 1 <= q ==> #[trigger] d[file_offset(d, b as int, base as int)
                        + (q - base)] == 0xFF
            },
        forall|k: int|
            0 <= k < 3 ==> {
                let (b, base, end) = #[trigger] SCAN_BANKS@[k];
                let r = after_allocs(scanned_regions(d, SCAN_BANKS@), reqs)[b];
                let f = scanned_region(d, b as int, base, end);
                r.end - r.next == f.end - f.start - requested(reqs, b)
            },
{
    let m = scanned_regions(d, SCAN_BANKS@);
    let t = SCAN_BANKS@;
    assert(t =~= seq![(12usize, 0x8000u16, 0xC000u16), (14usize, 0x8000u16, 0xC000u16), (15usize, 0xC000u16, 0xFFE0u16)]);
    assert(t.drop_last().drop_last().drop_last() =~= Seq::<(usize, u16, u16)>::empty());
    assert forall|k: int| 0 <= k < 3 implies #[trigger] m.contains_key(t[k].0) && m[t[k].0] == scanned_region(
        d,
        t[k].0 as int,
        t[k].1,
        t[k].2,
    ) by {
        reveal_with_fuel(scanned_regions, 4);
    }
    assert forall|k: int| 0 <= k < 3 implies {
        let (b, base, end) = #[trigger] t[k];
        &&& base <= end < 0xFFFF
        &&& scanned_region(d, b as int, base, end).start == scanned_region(d, b as int, base, end).next
        &&& base <= scanned_region(d, b as int, base, end).start
        &&& forall|a: int|
            base <= a < end && scanned_region(d, b as int, base, end).start - 1 <= a ==> #[trigger] d[file_offset(
                d,
                b as int,
                base as int,
            ) + (a - base)] == 0xFF
    } by {
        lemma_scanned_space_is_ff(d, t[k].0 as int, t[k].1, t[k].2);
    }
    assert(m.dom() =~= set![12usize, 14usize, 15usize]) by {
        reveal_with_fuel(scanned_regions, 4);
    }
    assert(regions_wf(m)) by {
        assert(m.contains_key(t[0].0) && m.contains_key(t[1].0) && m.contains_key(t[2].0));
    }
    lemma_allocation_run(m, reqs);
    assert forall|k: int| 0 <= k < 3 implies {
        let (b, base, end) = #[trigger] t[k];
        let r = after_allocs(m, reqs)[b];
        let f = scanned_region(d, b as int, base, end);
        r.end - r.next == f.end - f.start - requested(reqs, b)
    } by {
        assert(m.contains_key(t[k].0));
    }
}

proof fn lemma_requested_nonneg(reqs: Seq<(usize, usize)>, b: usize)
    ensures
        requested(reqs, b) >= 0,
    decreases reqs.len(),
{
    if reqs.len() > 0 {
        lemma_requested_nonneg(reqs.drop_last(), b);
    }
}

/// `a - b`, or 0 when `b` is larger.
pub open spec fn sat_sub(a: u16, b: u16) -> u16 {
    if a >= b {
        (a - b) as u16
    } else {
        0
    }
}

/// Hands out CPU addresses from the trailing free space ($FF bytes) of some banks.
pub struct FreeSpaceAllocator {
    banks: HashMap<usize, BankRegion>,
}

impl View for FreeSpaceAllocator {
    type V = Map<usize, BankRegion>;

    closed spec fn view(&self) -> Map<usize, BankRegion> {
        self.banks@
    }
}

/// Scan one bank for its trailing free space.
fn scan_bank(rom: &Rom, bank: usize, cpu_base: u16, cpu_end: u16) -> (r: BankRegion)
    requires
        cpu_base <= cpu_end < 0xFFFF,
        cpu_fits(rom@, bank as int, cpu_base as int, cpu_end - cpu_base),
    ensures
        r == scanned_region(rom@, bank as int, cpu_base, cpu_end),
{
    let size = (cpu_end - cpu_base) as usize;
    let file_off = rom.cpu_to_file_offset(bank, cpu_base);
    let data = rom.data();
    let ghost off = file_off as int;

    // Walk backwards to find the last non-0xFF byte
    let _ = data.len();
    let mut i = size;
    while i > 0 && data[file_off + i - 1] == 0xFF
        invariant
            i <= size,
            size == cpu_end - cpu_base,
            off == file_offset(rom@, bank as int, cpu_base as int),
            off == file_off,
            data@ == rom@,
            off + size <= data@.len(),
            data@.len() <= usize::MAX,
            last_non_ff(rom@, off, size as int) == last_non_ff(rom@, off, i as int),
        decreases i,
    {
        i = i - 1;
    }
    let last_used: Option<usize> = if i > 0 {
        Some(i - 1)
    } else {
        None
    };
    proof {
        match last_used {
            Some(j) => assert(last_non_ff(rom@, off, size as int) == j),
            None => assert(last_non_ff(rom@, off, size as int) == -1),
        }
    }

    // Reserve one 0xFF byte as a guard — faxedit/faxiscripts data
    // may depend on a trailing 0xFF terminator.
    let free_start = match last_used {
        Some(i) => cpu_base + (i as u16) + 2,  // +1 past data, +1 guard byte
        None => cpu_base,  // entire bank is free
    };

    // If cpu_end doesn't land on a bank boundary, there's data above
    // the free region (e.g. title string at $FFE0 in bank 15).
    // Reserve a guard byte before that data too.
    let bank_ceiling = if cpu_base >= 0xC000 {
        0x10000u32
    } else {
        0xC000u32
    };
    let effective_end = if (cpu_end as u32) < bank_ceiling {
        cpu_end - 1  // guard byte before upper data
    } else {
        cpu_end
    };
    BankRegion { start: free_start, next: free_start, end: effective_end }
}

impl FreeSpaceAllocator {
    // Create a new allocator by scanning the ROM for trailing 0xFF bytes
    // in each bank listed in `SCAN_BANKS`.
    pub fn new(rom: &Rom) -> (r: FreeSpaceAllocator)
        requires
            scan_table_ok(rom@, SCAN_BANKS@),
        ensures
            r@ == scanned_regions(rom@, SCAN_BANKS@),
            regions_wf(r@),
    {
        let mut banks: HashMap<usize, BankRegion> = HashMap::new();
        let table = SCAN_BANKS;
        let mut k: usize = 0;
        while k < 3
            invariant
                k <= 3,
                table@ == SCAN_BANKS@,
                scan_table_ok(rom@, SCAN_BANKS@),
                banks@ == scanned_regions(rom@, SCAN_BANKS@.take(k as int)),
                regions_wf(banks@),
            decreases 3 - k,
        {
            let (bank, cpu_base, cpu_end) = table[k];
            assert(table@[k as int] == SCAN_BANKS@[k as int]);
            let region = scan_bank(rom, bank, cpu_base, cpu_end);
            banks.insert(bank, region);
            assert(SCAN_BANKS@.take(k + 1).drop_last() =~= SCAN_BANKS@.take(k as int));
            k = k + 1;
        }
        assert(SCAN_BANKS@.take(3) =~= SCAN_BANKS@);
        FreeSpaceAllocator { banks }
    }

    // Allocate `size` bytes in the given bank.
    // Returns the CPU address of the allocated block.
    pub fn allocate(&mut self, bank: usize, size: usize) -> (r: u16)
        requires
            can_alloc(old(self)@, bank, size),
        ensures
            r == old(self)@[bank].next,
            final(self)@ == after_alloc(old(self)@, bank, size),
            regions_wf(old(self)@) ==> regions_wf(final(self)@),
    {
        let region = match self.banks.get(&bank) {
            Some(r) => *r,
            None => {
                assert(false);
                BankRegion { start: 0, next: 0, end: 0 }
            },
        };
        let addr = region.next;
        let new_next = region.next + size as u16;
        self.banks.insert(bank, BankRegion { start: region.start, next: new_next, end: region.end });
        proof {
            assert(final(self)@ =~= after_alloc(old(self)@, bank, size));
        }
        addr
    }

    // Report remaining free space in a bank.
    pub fn remaining(&self, bank: usize) -> (r: Option<u16>)
        requires
            self@.contains_key(bank) ==> self@[bank].next <= self@[bank].end,
        ensures
            r == if self@.contains_key(bank) {
                Some((self@[bank].end - self@[bank].next) as u16)
            } else {
                None::<u16>
            },
    {
        match self.banks.get(&bank) {
            Some(r) => Some(r.end - r.next),
            None => None,
        }
    }

    /// (available, used) bytes of the free range of `bank`, each clamped at zero.
    pub fn usage(&self, bank: usize) -> (r: Option<(u16, u16)>)
        ensures
            r == if self@.contains_key(bank) {
                Some((sat_sub(self@[bank].end, self@[bank].start), sat_sub(self@[bank].next, self@[bank].start)))
            } else {
                None::<(u16, u16)>
            },
    {
        match self.banks.get(&bank) {
            Some(r) => {
                let total = if r.end >= r.start {
                    r.end - r.start
                } else {
                    0
                };
                let used = if r.next >= r.start {
                    r.next - r.start
                } else {
                    0
                };
                Some((total, used))
            },
            None => None,
        }
    }

    /// The free-space region of `bank`, if the allocator manages that bank.
    pub fn region(&self, bank: usize) -> (r: Option<BankRegion>)
        ensures
            r == if self@.contains_key(bank) {
                Some(self@[bank])
            } else {
                None::<BankRegion>
            },
    {
        match self.banks.get(&bank) {
            Some(r) => Some(*r),
            None => None,
        }
    }
}

} // verus!
