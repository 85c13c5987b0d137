use vstd::prelude::*;

use crate::rom::{bank_base_of, write_at, Rom};
use vstd::std_specs::iter::IteratorSpec;

verus! {

/// File offset of the first message ($8300 in bank 13).
pub open spec fn dialog_start(d: Seq<u8>) -> int {
    bank_base_of(d, 13) + (0x8300 - 0x8000)
}

/// File offset where a new message is inserted ($B3BA in bank 13).
pub open spec fn dialog_insert(d: Seq<u8>) -> int {
    bank_base_of(d, 13) + (0xB3BA - 0x8000)
}

/// Number of $FF bytes among offsets `lo..hi`.
pub open spec fn count_ff(d: Seq<u8>, lo: int, hi: int) -> int
    decreases hi - lo,
{
    if hi <= lo {
        0
    } else {
        count_ff(d, lo, hi - 1) + if d[hi - 1] == 0xFF {
            1int
        } else {
            0
        }
    }
}

/// The byte a message character is stored as: space is $FD, newline $FE, and any other
/// character the low 8 bits of its code.
pub open spec fn dialog_byte(ch: char) -> u8 {
    if ch == ' ' {
        0xFD
    } else if ch == '\n' {
        0xFE
    } else {
        ((ch as u32) % 256) as u8
    }
}

/// The bytes of a message: its characters, then the $FF terminator.
pub open spec fn dialog_bytes(t: Seq<char>) -> Seq<u8> {
    Seq::new(t.len(), |i: int| dialog_byte(t[i])) + seq![0xFFu8]
}

/// How a message is stored: one byte per character, in order, then the $FF
/// terminator. A space is stored as $FD, a newline as $FE, and every other character as
/// the low 8 bits of its code point (so 'e' is $65 and 'E' is $45).
pub proof fn lemma_message_encoding(t: Seq<char>)
    ensures
        dialog_bytes(t).len() == t.len() + 1,
        dialog_bytes(t)[t.len() as int] == 0xFF,
        forall|i: int|
            0 <= i < t.len() ==> {
                &&& t[i] == ' ' ==> #[trigger] dialog_bytes(t)[i] == 0xFD
                &&& t[i] == '\n' ==> dialog_bytes(t)[i] == 0xFE
                &&& t[i] != ' ' && t[i] != '\n' ==> dialog_bytes(t)[i] as int == (t[i] as u32) as int % 256
            },
{
}

proof fn lemma_count_ff_bound(d: Seq<u8>, lo: int, hi: int)
    ensures
        0 <= count_ff(d, lo, hi) <= if hi > lo {
            hi - lo
        } else {
            0
        },
    decreases hi - lo,
{
    if hi > lo {
        lemma_count_ff_bound(d, lo, hi - 1);
    }
}

/// Append a message after the last one of bank 13 and return its number: one more than
/// the count of messages (terminators) already in the block, modulo 256.
pub fn add_dialog_message(rom: &mut Rom, text: &str) -> (r: u8)
    requires
        dialog_insert(old(rom)@) + text@.len() < old(rom)@.len(),
    ensures
        r == (count_ff(old(rom)@, dialog_start(old(rom)@), dialog_insert(old(rom)@)) % 256 + 1) % 256,
        final(rom)@ == write_at(old(rom)@, dialog_insert(old(rom)@), dialog_bytes(text@)),
{
    let bank_base = rom.bank_base(13);
    let start_off = bank_base + 0x300;
    let insert_off = bank_base + 0x33BA;
    let ghost d = rom@;

    // Count existing messages (0xFF terminators) from $8300 up to $B3B9
    let mut term_count: u16 = 0;
    let mut p = start_off;
    while p < insert_off
        invariant
            start_off <= p <= insert_off,
            insert_off == start_off + 0x30BA,
            insert_off < d.len(),
            rom@ == d,
            term_count == count_ff(d, start_off as int, p as int),
        decreases insert_off - p,
    {
        proof {
            lemma_count_ff_bound(d, start_off as int, p as int);
        }
        if rom.read_byte(p) == 0xFF {
            term_count = term_count + 1;
        }
        p = p + 1;
    }

    proof {
        lemma_count_ff_bound(d, start_off as int, insert_off as int);
    }
    let _ = rom.len();

    // Write new message at $B3BA
    let ghost t = text@;
    let ghost msg = dialog_bytes(t);
    let mut w = insert_off;
    let mut it = text.chars();
    let ghost n = t.len();
    let mut i: usize = 0;
    loop
        invariant_except_break
            w == insert_off + i,
            i <= n,
            n == t.len(),
            insert_off + n < rom@.len(),
            rom@.len() <= usize::MAX,
            msg == dialog_bytes(t),
            rom@ == write_at(d, insert_off as int, msg.take(i as int)),
            it.remaining() == t.skip(i as int),
            it.obeys_prophetic_iter_laws(),
        ensures
            i == n,
            w == insert_off + n,
            rom@ == write_at(d, insert_off as int, msg.take(n as int)),
        decreases n - i,
    {
        match it.next() {
            Some(ch) => {
                assert(ch == t[i as int]);
                let b = if ch == ' ' {
                    0xFD
                } else if ch == '\n' {
                    0xFE
                } else {
                    (ch as u32 % 256) as u8
                };
                assert(b == dialog_byte(ch));
                assert(msg[i as int] == b);
                rom.write_byte(w, b);
                assert(rom@ =~= write_at(d, insert_off as int, msg.take(i + 1)));
                w = w + 1;
                i = i + 1;
            },
            None => {
                break;
            },
        }
    }
    rom.write_byte(w, 0xFF);
    assert(rom@ =~= write_at(d, insert_off as int, msg));

    // Next available message index = number of existing terminators + 1
    // (the disassembly's "Message N" is one higher than the 0-based count we scanned)
    let low = (term_count % 256) as u8;
    let new_index = if low == 255 {
        0
    } else {
        low + 1
    };
    new_index
}

} // verus!
