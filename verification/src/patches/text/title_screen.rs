use vstd::prelude::*;

use crate::patches::text::{title_code, TitleDict};
use crate::rom::{bank_base_of, lemma_write_outside_keeps, lemma_write_same_layout, write_at, Rom};
use vstd::std_specs::iter::IteratorSpec;

verus! {

broadcast use lemma_write_same_layout;

/// The upper-case form of `s` that `str::to_uppercase` returns: every character replaced
/// by its Unicode upper-case mapping, which may be several characters long.
pub uninterp spec fn uppercase(s: Seq<char>) -> Seq<char>;

/// Calls `str::to_uppercase`. Its result is a function of the text alone, named
/// `uppercase`; which characters it gives for which is not stated here.
#[verifier::external_body]
fn to_uppercase(s: &str) -> (r: String)
    ensures
        r@ == uppercase(s@),
{
    s.to_uppercase()
}

/// Number of bytes in the UTF-8 encoding of `c`.
pub open spec fn utf8_width(c: char) -> int {
    let v = c as u32;
    if v <= 0x7F {
        1
    } else if v <= 0x7FF {
        2
    } else if v <= 0xFFFF {
        3
    } else {
        4
    }
}

/// Number of bytes in the UTF-8 encoding of `s`: what `str::len` returns.
pub open spec fn utf8_len(s: Seq<char>) -> int
    decreases s.len(),
{
    if s.len() == 0 {
        0
    } else {
        utf8_len(s.drop_last()) + utf8_width(s.last())
    }
}

/// How many leading characters of `s` fit, encoded, in `n` bytes.
pub open spec fn chars_fitting(s: Seq<char>, n: int) -> int
    decreases s.len(),
{
    if s.len() == 0 {
        0
    } else if utf8_len(s) <= n {
        s.len() as int
    } else {
        chars_fitting(s.drop_last(), n)
    }
}

/// Whether cutting the encoding of `s` to `n` bytes, as `String::truncate` does, is
/// needless or ends on a character boundary; otherwise the truncation panics.
pub open spec fn cut_at_boundary(s: Seq<char>, n: int) -> bool {
    utf8_len(s) <= n || utf8_len(s.take(chars_fitting(s, n))) == n
}

/// The `n + 1` bytes of a title slot after the upper-case text `u` is written into it,
/// where `old` holds the slot's bytes before: when `u` is shorter than `n` bytes it is
/// padded with spaces to `n` characters; otherwise it is cut to its first `n` bytes and
/// the characters kept are written, leaving the rest of the slot as it was; the last
/// byte is the 0 terminator. Each character is drawn with its tile.
pub open spec fn title_text_bytes(old: Seq<u8>, u: Seq<char>, n: int) -> Seq<u8> {
    let k = chars_fitting(u, n);
    Seq::new(
        (n + 1) as nat,
        |i: int|
            if i == n {
                0u8
            } else if i < k {
                title_code(u[i])
            } else if utf8_len(u) < n {
                0x20u8
            } else {
                old[i]
            },
    )
}

proof fn lemma_utf8_len_prefix(s: Seq<char>, j: int)
    requires
        0 <= j < s.len(),
    ensures
        utf8_len(s.take(j + 1)) == utf8_len(s.take(j)) + utf8_width(s[j]),
        1 <= utf8_width(s[j]) <= 4,
{
    assert(s.take(j + 1).drop_last() =~= s.take(j));
}

proof fn lemma_utf8_len_grows(s: Seq<char>, i: int, j: int)
    requires
        0 <= i <= j <= s.len(),
    ensures
        utf8_len(s.take(i)) + (j - i) <= utf8_len(s.take(j)),
    decreases j - i,
{
    if i < j {
        lemma_utf8_len_grows(s, i, j - 1);
        lemma_utf8_len_prefix(s, j - 1);
    }
}

proof fn lemma_chars_fitting(s: Seq<char>, n: int, k: int)
    requires
        0 <= k <= s.len(),
        utf8_len(s.take(k)) <= n,
        k < s.len() ==> utf8_len(s.take(k + 1)) > n,
    ensures
        chars_fitting(s, n) == k,
    decreases s.len(),
{
    assert(s.take(s.len() as int) =~= s);
    if s.len() > 0 {
        if utf8_len(s) <= n {
            if k < s.len() {
                lemma_utf8_len_grows(s, k + 1, s.len() as int);
            }
        } else {
            let t = s.drop_last();
            assert(k < s.len());
            assert(t.take(k) =~= s.take(k));
            if k + 1 < s.len() {
                assert(t.take(k + 1) =~= s.take(k + 1));
            }
            lemma_chars_fitting(t, n, k);
        }
    }
}

/// UTF-8 width of one character, as `char::len_utf8` gives it.
fn utf8_width_of(c: char) -> (w: usize)
    ensures
        w == utf8_width(c),
{
    let v = c as u32;
    if v <= 0x7F {
        1
    } else if v <= 0x7FF {
        2
    } else if v <= 0xFFFF {
        3
    } else {
        4
    }
}

/// The characters of `s` that fit, encoded, in `n` bytes, the bytes they take, and
/// whether they are all of `s`.
fn measure_fit(s: &str, n: usize) -> (r: (Vec<char>, usize, bool))
    ensures
        r.2 == (r.0@.len() == s@.len()),
        r.0@ == s@.take(chars_fitting(s@, n as int)),
        r.0@.len() == chars_fitting(s@, n as int),
        r.0@.len() <= s@.len(),
        r.1 == utf8_len(r.0@),
        r.1 <= n,
        r.0@.len() == s@.len() ==> utf8_len(s@) == r.1,
        r.0@.len() < s@.len() ==> utf8_len(s@) > n,
{
    let mut chars = s.chars();
    let mut fitting: Vec<char> = Vec::new();
    let mut used: usize = 0;
    let mut all = false;
    assert(s@.skip(0) =~= s@);
    loop
        invariant_except_break
            fitting@.len() <= s@.len(),
            fitting@ == s@.take(fitting@.len() as int),
            used == utf8_len(fitting@),
            used <= n,
            chars.remaining() == s@.skip(fitting@.len() as int),
            chars.obeys_prophetic_iter_laws(),
            !all,
        ensures
            all == (fitting@.len() == s@.len()),
            fitting@.len() <= s@.len(),
            fitting@ == s@.take(fitting@.len() as int),
            used == utf8_len(fitting@),
            used <= n,
            fitting@.len() < s@.len() ==> used + utf8_width(s@[fitting@.len() as int]) > n,
        decreases s@.len() - fitting@.len(),
    {
        let ghost k = fitting@.len() as int;
        match chars.next() {
            Some(c) => {
                assert(k < s@.len());
                assert(c == s@[k]);
                let w = utf8_width_of(c);
                if w > n - used {
                    break;
                }
                proof {
                    lemma_utf8_len_prefix(s@, k);
                }
                used = used + w;
                fitting.push(c);
                assert(fitting@ =~= s@.take(k + 1));
                assert(chars.remaining() =~= s@.skip(k + 1));
            },
            None => {
                assert(k == s@.len());
                all = true;
                break;
            },
        }
    }
    let ghost k = fitting@.len() as int;
    proof {
        if k < s@.len() {
            lemma_utf8_len_prefix(s@, k);
            lemma_utf8_len_grows(s@, k + 1, s@.len() as int);
            assert(s@.take(s@.len() as int) =~= s@);
        } else {
            assert(s@.take(k) =~= s@);
        }
        lemma_chars_fitting(s@, n as int, k);
    }
    (fitting, used, all)
}

/// Whether the upper-case text `s` can be cut to `n` bytes without splitting a character.
fn cuts_at_boundary(s: &str, n: usize) -> (b: bool)
    ensures
        b == cut_at_boundary(s@, n as int),
{
    let (_fitting, used, all) = measure_fit(s, n);
    all || used == n
}

/// Write the upper-case text `upper` into the title slot (start, capacity including the
/// terminator): padded with spaces, or cut to the slot's width in bytes, then encoded
/// character by character and closed with 0x00.
pub fn write_title_text(rom: &mut Rom, dict: &TitleDict, slot: (usize, usize), upper: &str)
    requires
        slot.1 >= 1,
        slot.0 + slot.1 <= old(rom)@.len(),
        cut_at_boundary(upper@, slot.1 - 1),
    ensures
        final(rom)@ == write_at(
            old(rom)@,
            slot.0 as int,
            title_text_bytes(old(rom)@.subrange(slot.0 as int, slot.0 + slot.1), upper@, slot.1 - 1),
        ),
{
    let (start, cap_incl_term) = slot;
    // Maximum visible chars we can store in this slot
    let max_chars = cap_incl_term - 1;
    let _ = rom.len();
    let ghost line = title_text_bytes(old(rom)@.subrange(start as int, start + cap_incl_term), upper@, max_chars as int);
    // Cut to max_chars bytes, or pad with spaces to max_chars characters
    let (fitting, used, _all) = measure_fit(upper, max_chars);
    let pad = used < max_chars;
    proof {
        if fitting@.len() < upper@.len() {
            assert(used == max_chars);
        }
        assert(pad == (utf8_len(upper@) < max_chars));
    }
    let mut i: usize = 0;
    while i < max_chars
        invariant
            max_chars == slot.1 - 1,
            start == slot.0,
            start + max_chars < rom@.len(),
            rom@.len() == old(rom)@.len(),
            rom@.len() <= usize::MAX,
            i <= max_chars,
            fitting@ == upper@.take(chars_fitting(upper@, max_chars as int)),
            fitting@.len() == chars_fitting(upper@, max_chars as int),
            fitting@.len() <= upper@.len(),
            pad == (utf8_len(upper@) < max_chars),
            line == title_text_bytes(old(rom)@.subrange(start as int, start + slot.1), upper@, max_chars as int),
            rom@ == write_at(old(rom)@, start as int, line.take(i as int)),
        decreases max_chars - i,
    {
        if i < fitting.len() {
            let b = dict.encode(fitting[i]);
            assert(fitting@[i as int] == upper@[i as int]);
            assert(line[i as int] == b);
            rom.write_byte(start + i, b);
        } else if pad {
            assert(line[i as int] == 0x20);
            rom.write_byte(start + i, 0x20);
        } else {
            assert(line[i as int] == old(rom)@[start + i]);
        }
        assert(rom@ =~= write_at(old(rom)@, start as int, line.take(i + 1)));
        i = i + 1;
    }
    // Write terminator
    rom.write_byte(start + max_chars, 0x00);
    assert(rom@ =~= write_at(old(rom)@, start as int, line));
}

/// Upper-case `text`, then write it into the title slot as `write_title_text` does.
fn write_title_line(rom: &mut Rom, dict: &TitleDict, slot: (usize, usize), text: &str)
    requires
        slot.1 >= 1,
        slot.0 + slot.1 <= old(rom)@.len(),
        cut_at_boundary(uppercase(text@), slot.1 - 1),
    ensures
        final(rom)@ == write_at(
            old(rom)@,
            slot.0 as int,
            title_text_bytes(old(rom)@.subrange(slot.0 as int, slot.0 + slot.1), uppercase(text@), slot.1 - 1),
        ),
{
    let upper = to_uppercase(text);
    write_title_text(rom, dict, slot, upper.as_str());
}

/// File offset of the first byte of the title text ($9DCC in bank 12).
pub open spec fn title_start(d: Seq<u8>) -> int {
    bank_base_of(d, 12) + (0x9DCC - 0x8000)
}

/// File offset of the last byte of the title text ($9E0D in bank 12).
pub open spec fn title_end(d: Seq<u8>) -> int {
    bank_base_of(d, 12) + (0x9E0D - 0x8000)
}

/// The first offset from `p` on that holds 0, or `end + 1` when none up to `end` does.
pub open spec fn first_zero(d: Seq<u8>, p: int, end: int) -> int
    decreases end + 1 - p,
{
    if p > end || d[p] == 0 {
        p
    } else {
        first_zero(d, p + 1, end)
    }
}

/// Up to `want` slots (start, capacity including the 0 terminator) of the 0-terminated
/// strings packed from `cur` to `end`. A slot whose terminator is at or past `end` is the
/// last one.
pub open spec fn title_slots(d: Seq<u8>, cur: int, end: int, want: nat) -> Seq<(int, int)>
    decreases want,
{
    if want == 0 || cur > end {
        Seq::empty()
    } else {
        let p = first_zero(d, cur, end);
        let slot = (cur, p - cur + 1);
        if p < end {
            seq![slot] + title_slots(d, p + 1, end, (want - 1) as nat)
        } else {
            seq![slot]
        }
    }
}

proof fn lemma_first_zero(d: Seq<u8>, p: int, end: int)
    requires
        p <= end + 1,
    ensures
        p <= first_zero(d, p, end) <= end + 1,
        first_zero(d, p, end) <= end ==> d[first_zero(d, p, end)] == 0,
        forall|q: int| p <= q < first_zero(d, p, end) ==> d[q] != 0,
    decreases end + 1 - p,
{
    if p <= end && d[p] != 0 {
        lemma_first_zero(d, p + 1, end);
    }
}

/// The image after writing the upper-case lines `u0`, `u1`, `u2` into the three slots
/// `s` of `d`.
pub open spec fn title_written(d: Seq<u8>, s: Seq<(int, int)>, u0: Seq<char>, u1: Seq<char>, u2: Seq<char>) -> Seq<u8> {
    write_at(
        write_at(
            write_at(d, s[0].0, title_text_bytes(d.subrange(s[0].0, s[0].0 + s[0].1), u0, s[0].1 - 1)),
            s[1].0,
            title_text_bytes(d.subrange(s[1].0, s[1].0 + s[1].1), u1, s[1].1 - 1),
        ),
        s[2].0,
        title_text_bytes(d.subrange(s[2].0, s[2].0 + s[2].1), u2, s[2].1 - 1),
    )
}

/// The slots found in the title region of `d`.
pub open spec fn found_slots(d: Seq<u8>) -> Seq<(int, int)> {
    title_slots(d, title_start(d), title_end(d), 3)
}

/// What the title patch needs of the image: the region lies in it, and so does the
/// third line's terminator where three slots are found.
pub open spec fn title_region_ok(d: Seq<u8>) -> bool {
    &&& title_end(d) < d.len()
    &&& found_slots(d).len() == 3 ==> found_slots(d)[2].0 + found_slots(d)[2].1 <= d.len()
}

/// Whether each of the three lines, upper-cased, fits its slot without being cut inside a
/// character (trivially so when fewer than three slots are found).
pub open spec fn title_lines_cut_ok(d: Seq<u8>, l0: Seq<char>, l1: Seq<char>, l2: Seq<char>) -> bool {
    let s = found_slots(d);
    s.len() == 3 ==> {
        &&& cut_at_boundary(uppercase(l0), s[0].1 - 1)
        &&& cut_at_boundary(uppercase(l1), s[1].1 - 1)
        &&& cut_at_boundary(uppercase(l2), s[2].1 - 1)
    }
}

/// What `patch_title_lines` does: with three slots, the upper-cased lines are written into
/// them and their capacities returned; with fewer, nothing is written and their number
/// is returned.
pub open spec fn title_patch_result(
    d: Seq<u8>,
    w: Seq<u8>,
    l0: Seq<char>,
    l1: Seq<char>,
    l2: Seq<char>,
    r: Result<[usize; 3], usize>,
) -> bool {
    let s = found_slots(d);
    match r {
        Ok(caps) => s.len() == 3 && caps@ == seq![s[0].1 as usize, s[1].1 as usize, s[2].1 as usize]
            && w == title_written(d, s, uppercase(l0), uppercase(l1), uppercase(l2)),
        Err(n) => n == s.len() && n < 3 && w == d,
    }
}

/// The three slots found in the title region follow each other with no gap, each holding
/// at least its terminator.
proof fn lemma_slots_back_to_back(d: Seq<u8>)
    requires
        found_slots(d).len() == 3,
    ensures
        ({
            let s = found_slots(d);
            &&& s[0].0 == title_start(d)
            &&& s[0].1 >= 1 && s[1].1 >= 1 && s[2].1 >= 1
            &&& s[0].0 + s[0].1 == s[1].0
            &&& s[1].0 + s[1].1 == s[2].0
        }),
{
    let a = title_start(d);
    let e = title_end(d);
    let s = found_slots(d);
    let p0 = first_zero(d, a, e);
    lemma_first_zero(d, a, e);
    assert(p0 < e);
    let t1 = title_slots(d, p0 + 1, e, 2);
    assert(s == seq![(a, p0 - a + 1)] + t1);
    let p1 = first_zero(d, p0 + 1, e);
    lemma_first_zero(d, p0 + 1, e);
    assert(p1 < e);
    let t2 = title_slots(d, p1 + 1, e, 1);
    assert(t1 == seq![(p0 + 1, p1 - p0)] + t2);
    let p2 = first_zero(d, p1 + 1, e);
    lemma_first_zero(d, p1 + 1, e);
    assert(s[0] == (a, p0 - a + 1));
    assert(s[1] == (p0 + 1, p1 - p0));
    assert(s[2] == (p1 + 1, p2 - p1));
}

/// Each line that `patch_title_lines` writes ends up whole in its own slot: the slots do
/// not overlap, so a later line never disturbs an earlier one.
pub proof fn lemma_title_lines_land_in_their_slots(d: Seq<u8>, u0: Seq<char>, u1: Seq<char>, u2: Seq<char>)
    requires
        0 <= title_start(d),
        title_region_ok(d),
        found_slots(d).len() == 3,
    ensures
        ({
            let s = found_slots(d);
            let w = title_written(d, s, u0, u1, u2);
            &&& w.subrange(s[0].0, s[0].0 + s[0].1) == title_text_bytes(d.subrange(s[0].0, s[0].0 + s[0].1), u0, s[0].1 - 1)
            &&& w.subrange(s[1].0, s[1].0 + s[1].1) == title_text_bytes(d.subrange(s[1].0, s[1].0 + s[1].1), u1, s[1].1 - 1)
            &&& w.subrange(s[2].0, s[2].0 + s[2].1) == title_text_bytes(d.subrange(s[2].0, s[2].0 + s[2].1), u2, s[2].1 - 1)
        }),
{
    let s = found_slots(d);
    lemma_slots_back_to_back(d);
    let b0 = title_text_bytes(d.subrange(s[0].0, s[0].0 + s[0].1), u0, s[0].1 - 1);
    let b1 = title_text_bytes(d.subrange(s[1].0, s[1].0 + s[1].1), u1, s[1].1 - 1);
    let b2 = title_text_bytes(d.subrange(s[2].0, s[2].0 + s[2].1), u2, s[2].1 - 1);
    assert(b0.len() == s[0].1 && b1.len() == s[1].1 && b2.len() == s[2].1);
    let w1 = write_at(d, s[0].0, b0);
    let w2 = write_at(w1, s[1].0, b1);
    let w3 = write_at(w2, s[2].0, b2);
    assert(w1.subrange(s[0].0, s[0].0 + s[0].1) =~= b0);
    lemma_write_outside_keeps(w1, s[1].0, b1, s[0].0, s[0].0 + s[0].1);
    lemma_write_outside_keeps(w2, s[2].0, b2, s[0].0, s[0].0 + s[0].1);
    assert(w2.subrange(s[1].0, s[1].0 + s[1].1) =~= b1);
    lemma_write_outside_keeps(w2, s[2].0, b2, s[1].0, s[1].0 + s[1].1);
    assert(w3.subrange(s[2].0, s[2].0 + s[2].1) =~= b2);
}

/// Scan the title region for up to three 0-terminated slots (start, capacity including
/// the terminator).
fn find_title_slots(rom: &Rom) -> (slots: Vec<(usize, usize)>)
    requires
        title_end(rom@) < rom@.len(),
    ensures
        found_slots(rom@) == slots@.map_values(|s: (usize, usize)| (s.0 as int, s.1 as int)),
        slots@.len() <= 3,
{
    let bank: usize = 12;
    let bank_base_cpu: u16 = 0x8000;  // PRG bank base for bank 12
    let start_cpu: u16 = 0x9DCC;
    let end_cpu: u16 = 0x9E0D;  // inclusive

    let start_off = rom.bank_base(bank) + (start_cpu - bank_base_cpu) as usize;
    let end_off = rom.bank_base(bank) + (end_cpu - bank_base_cpu) as usize;
    let ghost d = rom@;
    let ghost all = title_slots(d, start_off as int, end_off as int, 3);

    let _ = rom.len();
    let mut slots: Vec<(usize, usize)> = Vec::with_capacity(3);
    let mut cur = start_off;

    while cur <= end_off && slots.len() < 3
        invariant_except_break
            start_off == title_start(d),
            end_off == title_end(d),
            end_off < d.len(),
            d.len() <= usize::MAX,
            rom@ == d,
            start_off <= cur,
            slots@.len() <= 3,
            all == slots@.map_values(|s: (usize, usize)| (s.0 as int, s.1 as int)) + title_slots(
                d,
                cur as int,
                end_off as int,
                (3 - slots@.len()) as nat,
            ),
        ensures
            slots@.len() <= 3,
            all == slots@.map_values(|s: (usize, usize)| (s.0 as int, s.1 as int)),
        decreases end_off + 1 - cur,
    {
        // Scan until 0x00 or end
        let mut p = cur;
        while p <= end_off && rom.read_byte(p) != 0x00
            invariant
                cur <= p <= end_off + 1,
                end_off < rom@.len(),
                d.len() <= usize::MAX,
                rom@ == d,
                first_zero(d, cur as int, end_off as int) == first_zero(d, p as int, end_off as int),
            decreases end_off + 1 - p,
        {
            p = p + 1;
        }
        // Capacity is bytes [cur..=p] (including the 0x00 terminator)
        let cap = (p - cur) + 1;
        let ghost old_slots = slots@;
        slots.push((cur, cap));
        let ghost rest = title_slots(d, cur as int, end_off as int, (3 - old_slots.len()) as nat);
        assert(p == first_zero(d, cur as int, end_off as int));
        assert(slots@.map_values(|s: (usize, usize)| (s.0 as int, s.1 as int)) =~= old_slots.map_values(
            |s: (usize, usize)| (s.0 as int, s.1 as int),
        ).push((cur as int, cap as int)));

        // Next slot starts after the terminator
        if p < end_off {
            assert(rest =~= seq![(cur as int, cap as int)] + title_slots(
                d,
                p + 1,
                end_off as int,
                (3 - slots@.len()) as nat,
            ));
            cur = p + 1;
        } else {
            assert(rest =~= seq![(cur as int, cap as int)]);
            break;
        }
    }
    proof {
        if cur > end_off || slots@.len() >= 3 {
            assert(title_slots(d, cur as int, end_off as int, (3 - slots@.len()) as nat) =~= Seq::<
                (int, int),
            >::empty());
        }
    }
    slots
}

/// Patch the 3 title lines stored in PRG bank 12 between $9DCC–$9E0D.
/// Each line is a 0x00-terminated string; lines are packed back-to-back.
/// Returns the capacity of each slot (terminator included) when the lines were written,
/// or the number of slots found when there are fewer than three and nothing was written.
pub fn patch_title_lines(rom: &mut Rom, line0: &str, line1: &str, line2: &str) -> (r: Result<
    [usize; 3],
    usize,
>)
    requires
        title_region_ok(old(rom)@),
        title_lines_cut_ok(old(rom)@, line0@, line1@, line2@),
    ensures
        title_patch_result(old(rom)@, final(rom)@, line0@, line1@, line2@, r),
{
    let ghost d = rom@;
    // Discover the three slots (start, capacity_including_terminator)
    let slots = find_title_slots(rom);
    let ghost all = found_slots(d);

    // Basic safety: must have at least 3 slots
    if slots.len() < 3 {
        return Err(slots.len());
    }
    let dict = TitleDict::new();

    let s0 = slots[0];
    let s1 = slots[1];
    let s2 = slots[2];
    assert(all[0] == (s0.0 as int, s0.1 as int));
    assert(all[1] == (s1.0 as int, s1.1 as int));
    assert(all[2] == (s2.0 as int, s2.1 as int));
    proof {
        lemma_slots_back_to_back(d);
    }
    // Write each line respecting its slot capacity
    write_title_line(rom, &dict, s0, line0);
    let ghost w1 = rom@;
    assert(w1.subrange(s1.0 as int, s1.0 + s1.1) =~= d.subrange(s1.0 as int, s1.0 + s1.1));
    write_title_line(rom, &dict, s1, line1);
    let ghost w2 = rom@;
    assert(w2.subrange(s2.0 as int, s2.0 + s2.1) =~= d.subrange(s2.0 as int, s2.0 + s2.1));
    write_title_line(rom, &dict, s2, line2);
    let caps = [s0.1, s1.1, s2.1];
    assert(caps@ =~= seq![all[0].1 as usize, all[1].1 as usize, all[2].1 as usize]);
    Ok(caps)
}

/// The title patch for any text: where an upper-cased line would have to be cut inside a
/// character to fit its slot, nothing is written and `None` comes back; otherwise the
/// patch runs and its result comes back.
pub fn patch_title_lines_checked(rom: &mut Rom, line0: &str, line1: &str, line2: &str) -> (r: Option<
    Result<[usize; 3], usize>,
>)
    requires
        title_region_ok(old(rom)@),
    ensures
        r is None <==> !title_lines_cut_ok(old(rom)@, line0@, line1@, line2@),
        r is None ==> final(rom)@ == old(rom)@,
        r matches Some(x) ==> title_patch_result(old(rom)@, final(rom)@, line0@, line1@, line2@, x),
{
    let slots = find_title_slots(rom);
    if slots.len() == 3 {
        let ghost s = found_slots(rom@);
        assert(s[0].1 == slots@[0].1 && s[1].1 == slots@[1].1 && s[2].1 == slots@[2].1);
        proof {
            lemma_slots_back_to_back(rom@);
        }
        let u0 = to_uppercase(line0);
        let u1 = to_uppercase(line1);
        let u2 = to_uppercase(line2);
        let ok0 = cuts_at_boundary(u0.as_str(), slots[0].1 - 1);
        let ok1 = cuts_at_boundary(u1.as_str(), slots[1].1 - 1);
        let ok2 = cuts_at_boundary(u2.as_str(), slots[2].1 - 1);
        if !(ok0 && ok1 && ok2) {
            return None;
        }
    }
    Some(patch_title_lines(rom, line0, line1, line2))
}

} // verus!
