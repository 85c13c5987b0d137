use vstd::prelude::*;

use crate::rom::write_at;

verus! {

/// An edit list seen as (offset, bytes) pairs over mathematical integers.
pub open spec fn edits_view(e: Seq<(usize, Vec<u8>)>) -> Seq<(int, Seq<u8>)> {
    Seq::new(e.len(), |k: int| (e[k].0 as int, e[k].1@))
}

/// Whether `e` covers offset `i`.
pub open spec fn covers(e: (int, Seq<u8>), i: int) -> bool {
    e.0 <= i < e.0 + e.1.len()
}

/// `bytes` at `start` is a maximal run of offsets where `o` and `m` differ, holding the
/// bytes of `m`.
pub open spec fn is_run(o: Seq<u8>, m: Seq<u8>, start: int, bytes: Seq<u8>) -> bool {
    &&& bytes.len() > 0
    &&& 0 <= start
    &&& start + bytes.len() <= o.len()
    &&& forall|i: int|
        0 <= i < bytes.len() ==> o[start + i] != m[start + i] && (#[trigger] bytes[i]) == m[start + i]
    &&& start == 0 || o[start - 1] == m[start - 1]
    &&& start + bytes.len() == o.len() || o[start + bytes.len()] == m[start + bytes.len()]
}

/// The edits of `e` do not overlap and come in increasing order, with at least one
/// offset between two of them.
pub open spec fn edits_ordered(e: Seq<(int, Seq<u8>)>) -> bool {
    forall|k1: int, k2: int|
        0 <= k1 < k2 < e.len() ==> #[trigger] e[k1].0 + e[k1].1.len() < #[trigger] e[k2].0
}

/// `e` is the list of maximal runs where `o` and `m` differ, in increasing order.
pub open spec fn diff_result(o: Seq<u8>, m: Seq<u8>, e: Seq<(int, Seq<u8>)>) -> bool {
    &&& forall|k: int| 0 <= k < e.len() ==> is_run(o, m, (#[trigger] e[k]).0, e[k].1)
    &&& edits_ordered(e)
    &&& forall|i: int|
        0 <= i < o.len() && o[i] != m[i] ==> exists|k: int| 0 <= k < e.len() && #[trigger] covers(e[k], i)
}

/// `base` with the edits of `e` written in order.
pub open spec fn apply_edits(base: Seq<u8>, e: Seq<(int, Seq<u8>)>) -> Seq<u8>
    decreases e.len(),
{
    if e.len() == 0 {
        base
    } else {
        write_at(apply_edits(base, e.drop_last()), e.last().0, e.last().1)
    }
}

/// Writing ordered, non-overlapping edits that lie inside `base`: each offset holds the
/// byte of the edit covering it, or its old byte when no edit covers it.
pub proof fn lemma_apply_edits_pointwise(base: Seq<u8>, e: Seq<(int, Seq<u8>)>)
    requires
        edits_ordered(e),
        forall|k: int| 0 <= k < e.len() ==> 0 <= (#[trigger] e[k]).0 && e[k].0 + e[k].1.len() <= base.len(),
    ensures
        apply_edits(base, e).len() == base.len(),
        forall|i: int, k: int|
            0 <= k < e.len() && #[trigger] covers(e[k], i) ==> #[trigger] apply_edits(base, e)[i]
                == e[k].1[i - e[k].0],
        forall|i: int|
            0 <= i < base.len() && (forall|k: int| 0 <= k < e.len() ==> !#[trigger] covers(e[k], i))
                ==> #[trigger] apply_edits(base, e)[i] == base[i],
    decreases e.len(),
{
    if e.len() > 0 {
        let p = e.drop_last();
        assert forall|k1: int, k2: int|
            0 <= k1 < k2 < p.len() implies #[trigger] p[k1].0 + p[k1].1.len() < #[trigger] p[k2].0 by {
            assert(p[k1] == e[k1] && p[k2] == e[k2]);
            assert(e[k1].0 + e[k1].1.len() < e[k2].0);
        }
        assert forall|k: int| 0 <= k < p.len() implies 0 <= (#[trigger] p[k]).0 && p[k].0 + p[k].1.len()
            <= base.len() by {
            assert(p[k] == e[k]);
        }
        lemma_apply_edits_pointwise(base, p);
        let last = e.len() - 1;
        assert(e[last] == e.last());
        assert(0 <= e[last].0 && e[last].0 + e[last].1.len() <= base.len());
        assert forall|i: int, k: int|
            0 <= k < e.len() && #[trigger] covers(e[k], i) implies #[trigger] apply_edits(base, e)[i]
            == e[k].1[i - e[k].0] by {
            if k < last {
                assert(p[k] == e[k]);
                assert(covers(p[k], i));
                assert(e[k].0 + e[k].1.len() < e[last].0);
            }
        }
        assert forall|i: int|
            0 <= i < base.len() && (forall|k: int| 0 <= k < e.len() ==> !#[trigger] covers(e[k], i))
            implies #[trigger] apply_edits(base, e)[i] == base[i] by {
            assert(!covers(e[last], i));
            assert forall|k: int| 0 <= k < p.len() implies !#[trigger] covers(p[k], i) by {
                assert(p[k] == e[k]);
                assert(!covers(e[k], i));
            }
        }
    }
}

/// Writing the differences of `modified` from `original` over `original` gives back
/// `modified`: the edit list that `diff_roms` returns is a complete patch.
pub proof fn lemma_diff_then_apply(o: Seq<u8>, m: Seq<u8>, e: Seq<(int, Seq<u8>)>)
    requires
        o.len() == m.len(),
        diff_result(o, m, e),
    ensures
        apply_edits(o, e) == m,
{
    assert forall|k: int| 0 <= k < e.len() implies 0 <= (#[trigger] e[k]).0 && e[k].0 + e[k].1.len()
        <= o.len() by {
        assert(is_run(o, m, e[k].0, e[k].1));
    }
    lemma_apply_edits_pointwise(o, e);
    let a = apply_edits(o, e);
    assert forall|i: int| 0 <= i < o.len() implies a[i] == m[i] by {
        if exists|k: int| 0 <= k < e.len() && #[trigger] covers(e[k], i) {
            let k = choose|k: int| 0 <= k < e.len() && #[trigger] covers(e[k], i);
            assert(is_run(o, m, e[k].0, e[k].1));
            let t = i - e[k].0;
            assert(e[k].1[t] == m[e[k].0 + t]);
        } else {
            assert(o[i] == m[i]);
        }
    }
    assert(a =~= m);
}

/// The regions of `original` and `modified` that differ, as (offset, new bytes).
pub fn diff_roms(original: &[u8], modified: &[u8]) -> (r: Vec<(usize, Vec<u8>)>)
    requires
        original@.len() == modified@.len(),
    ensures
        diff_result(original@, modified@, edits_view(r@)),
{
    let n = original.len();
    let mut edits: Vec<(usize, Vec<u8>)> = Vec::new();

    let mut i: usize = 0;
    while i < n
        invariant
            n == original@.len(),
            n == modified@.len(),
            i <= n,
            forall|k: int|
                0 <= k < edits@.len() ==> is_run(
                    original@,
                    modified@,
                    (#[trigger] edits@[k]).0 as int,
                    edits@[k].1@,
                ),
            edits_ordered(edits_view(edits@)),
            forall|k: int|
                0 <= k < edits@.len() ==> (#[trigger] edits@[k]).0 + edits@[k].1@.len() <= i,
            i > 0 && original@[i - 1] != modified@[i - 1] ==> (i == n || original@[i as int]
                == modified@[i as int]),
            forall|j: int|
                0 <= j < i && original@[j] != modified@[j] ==> exists|k: int|
                    0 <= k < edits@.len() && #[trigger] covers(edits_view(edits@)[k], j),
        decreases n - i,
    {
        if original[i] != modified[i] {
            // Start of a changed region
            let start = i;
            assert(start == 0 || original@[start - 1] == modified@[start - 1]);
            let mut bytes: Vec<u8> = Vec::new();
            while i < n
                invariant
                    n == original@.len(),
                    n == modified@.len(),
                    start <= i <= n,
                    start < n,
                    original@[start as int] != modified@[start as int],
                    bytes@.len() == i - start,
                    forall|t: int| 0 <= t < bytes@.len() ==> (#[trigger] bytes@[t]) == modified@[start + t],
                    forall|t: int| start <= t < i ==> (#[trigger] original@[t]) != modified@[t],
                ensures
                    start <= i <= n,
                    bytes@.len() == i - start,
                    i > start,
                    i == n || original@[i as int] == modified@[i as int],
                    forall|t: int| 0 <= t < bytes@.len() ==> (#[trigger] bytes@[t]) == modified@[start + t],
                    forall|t: int| start <= t < i ==> (#[trigger] original@[t]) != modified@[t],
                decreases n - i,
            {
                if original[i] == modified[i] {
                    break;
                }
                let ghost old_bytes = bytes@;
                bytes.push(modified[i]);
                assert forall|t: int|
                    0 <= t < bytes@.len() implies (#[trigger] bytes@[t]) == modified@[start + t] by {
                    if t < old_bytes.len() {
                        assert(bytes@[t] == old_bytes[t]);
                    }
                }
                i = i + 1;
            }
            let ghost old_edits = edits@;
            proof {
                assert forall|t: int| 0 <= t < bytes@.len() implies original@[start + t] != modified@[start + t]
                    && (#[trigger] bytes@[t]) == modified@[start + t] by {
                    assert(original@[start + t] != modified@[start + t]);
                }
                assert(is_run(original@, modified@, start as int, bytes@));
            }
            edits.push((start, bytes));
            proof {
                let ev = edits_view(edits@);
                let ov = edits_view(old_edits);
                assert forall|k: int| 0 <= k < ov.len() implies ev[k] == ov[k] by {
                    assert(edits@[k] == old_edits[k]);
                }
                assert forall|k1: int, k2: int|
                    0 <= k1 < k2 < ev.len() implies #[trigger] ev[k1].0 + ev[k1].1.len()
                    < #[trigger] ev[k2].0 by {
                    if k2 == ev.len() - 1 {
                        assert(old_edits[k1].0 + old_edits[k1].1@.len() <= start);
                        if old_edits[k1].0 + old_edits[k1].1@.len() == start {
                            let s = old_edits[k1].0 as int;
                            let l = old_edits[k1].1@.len() as int;
                            assert(is_run(original@, modified@, s, old_edits[k1].1@));
                            assert(original@[s + l - 1] != modified@[s + l - 1]) by {
                                assert(old_edits[k1].1@[l - 1] == modified@[s + l - 1]);
                            }
                        }
                    } else {
                        assert(ov[k1] == ev[k1] && ov[k2] == ev[k2]);
                    }
                }
                assert forall|j: int|
                    0 <= j < i && original@[j] != modified@[j] implies exists|k: int|
                    0 <= k < edits@.len() && #[trigger] covers(ev[k], j) by {
                    if j < start {
                        let k = choose|k: int| 0 <= k < old_edits.len() && #[trigger] covers(ov[k], j);
                        assert(covers(ev[k], j));
                    } else {
                        assert(covers(ev[ev.len() - 1], j));
                    }
                }
                assert forall|k: int|
                    0 <= k < edits@.len() implies is_run(
                    original@,
                    modified@,
                    (#[trigger] edits@[k]).0 as int,
                    edits@[k].1@,
                ) by {
                    if k < old_edits.len() {
                        assert(edits@[k] == old_edits[k]);
                    }
                }
            }
        } else {
            i = i + 1;
        }
    }
    edits
}

} // verus!

verus! {

/// The `PATCH` magic that opens an IPS file.
pub open spec fn ips_header() -> Seq<u8> {
    seq![0x50u8, 0x41u8, 0x54u8, 0x43u8, 0x48u8]
}

/// The `EOF` marker that closes an IPS file.
pub open spec fn ips_footer() -> Seq<u8> {
    seq![0x45u8, 0x4Fu8, 0x46u8]
}

/// One IPS record: a 24-bit big-endian offset, a 16-bit big-endian size, then the bytes.
/// Both numbers keep only their low 24 and 16 bits.
pub open spec fn ips_record(off: int, bytes: Seq<u8>) -> Seq<u8> {
    seq![
        ((off / 0x10000) % 256) as u8,
        ((off / 256) % 256) as u8,
        (off % 256) as u8,
        ((bytes.len() / 256) % 256) as u8,
        (bytes.len() % 256) as u8,
    ] + bytes
}

/// The records of all edits, in order.
pub open spec fn ips_records(e: Seq<(int, Seq<u8>)>) -> Seq<u8>
    decreases e.len(),
{
    if e.len() == 0 {
        Seq::empty()
    } else {
        ips_records(e.drop_last()) + ips_record(e.last().0, e.last().1)
    }
}

/// A complete IPS file for the edits `e`.
pub open spec fn ips_file(e: Seq<(int, Seq<u8>)>) -> Seq<u8> {
    ips_header() + ips_records(e) + ips_footer()
}

/// Read the records of an IPS body, up to and including the final `EOF` marker.
/// Run-length records (size 0) are not accepted.
pub open spec fn ips_parse_records(b: Seq<u8>) -> Option<Seq<(int, Seq<u8>)>>
    decreases b.len(),
{
    if b.len() < 3 {
        None
    } else if b.take(3) == ips_footer() {
        if b.len() == 3 {
            Some(Seq::empty())
        } else {
            None
        }
    } else if b.len() < 5 {
        None
    } else {
        let off = b[0] * 0x10000 + b[1] * 256 + b[2];
        let size = b[3] * 256 + b[4];
        if size == 0 || b.len() < 5 + size {
            None
        } else {
            match ips_parse_records(b.skip(5 + size)) {
                Some(rest) => Some(seq![(off, b.subrange(5, 5 + size))] + rest),
                None => None,
            }
        }
    }
}

/// Read an IPS file into its edits.
pub open spec fn ips_parse(b: Seq<u8>) -> Option<Seq<(int, Seq<u8>)>> {
    if b.len() >= 5 && b.take(5) == ips_header() {
        ips_parse_records(b.skip(5))
    } else {
        None
    }
}

/// Whether every edit of `e` can be written as an IPS record and read back: its offset
/// fits in 24 bits and is not the `EOF` marker, and its size fits in 16 bits and is not 0.
pub open spec fn ips_encodable(e: Seq<(int, Seq<u8>)>) -> bool {
    forall|k: int|
        0 <= k < e.len() ==> {
            &&& 0 <= (#[trigger] e[k]).0 < 0x1000000
            &&& e[k].0 != 0x454F46
            &&& 0 < e[k].1.len() < 0x10000
        }
}

proof fn lemma_split24(off: int)
    requires
        0 <= off < 0x1000000,
    ensures
        ((off / 0x10000) % 256) * 0x10000 + ((off / 256) % 256) * 256 + off % 256 == off,
        ((off / 0x10000) % 256) == 0x45 && ((off / 256) % 256) == 0x4F && off % 256 == 0x46 ==> off
            == 0x454F46,
{
    assert(((off / 0x10000) % 256) * 0x10000 + ((off / 256) % 256) * 256 + off % 256 == off)
        by (nonlinear_arith)
        requires
            0 <= off < 0x1000000,
    ;
}

proof fn lemma_split16(n: int)
    requires
        0 <= n < 0x10000,
    ensures
        ((n / 256) % 256) * 256 + n % 256 == n,
{
    assert(((n / 256) % 256) * 256 + n % 256 == n) by (nonlinear_arith)
        requires
            0 <= n < 0x10000,
    ;
}

proof fn lemma_ips_records_cons(x: (int, Seq<u8>), rest: Seq<(int, Seq<u8>)>)
    ensures
        ips_records(seq![x] + rest) == ips_record(x.0, x.1) + ips_records(rest),
    decreases rest.len(),
{
    if rest.len() == 0 {
        assert(seq![x] + rest =~= seq![x]);
        let one = seq![x];
        assert(one.drop_last() =~= Seq::<(int, Seq<u8>)>::empty());
        assert(one.last() == x);
        assert(ips_records(one.drop_last()) == Seq::<u8>::empty());
        assert(ips_records(one) == ips_records(one.drop_last()) + ips_record(x.0, x.1));
        assert(ips_records(one) =~= ips_record(x.0, x.1));
    } else {
        let s = seq![x] + rest;
        assert(s.drop_last() =~= seq![x] + rest.drop_last());
        assert(s.last() == rest.last());
        lemma_ips_records_cons(x, rest.drop_last());
        assert(ips_records(s) =~= ips_record(x.0, x.1) + ips_records(rest));
    }
}

proof fn lemma_parse_records(e: Seq<(int, Seq<u8>)>)
    requires
        ips_encodable(e),
    ensures
        ips_parse_records(ips_records(e) + ips_footer()) == Some(e),
    decreases e.len(),
{
    if e.len() == 0 {
        assert(ips_records(e) + ips_footer() =~= ips_footer());
        assert(ips_footer().take(3) =~= ips_footer());
        assert(e =~= Seq::<(int, Seq<u8>)>::empty());
    } else {
        let x = e[0];
        let rest = e.drop_first();
        assert(e =~= seq![x] + rest);
        lemma_ips_records_cons(x, rest);
        assert forall|k: int| 0 <= k < rest.len() implies {
            &&& 0 <= (#[trigger] rest[k]).0 < 0x1000000
            &&& rest[k].0 != 0x454F46
            &&& 0 < rest[k].1.len() < 0x10000
        } by {
            assert(rest[k] == e[k + 1]);
        }
        lemma_parse_records(rest);
        assert(0 <= x.0 < 0x1000000 && x.0 != 0x454F46 && 0 < x.1.len() < 0x10000);
        lemma_split24(x.0);
        lemma_split16(x.1.len() as int);
        let rec = ips_record(x.0, x.1);
        let tail = ips_records(rest) + ips_footer();
        let b = rec + tail;
        assert(ips_records(e) + ips_footer() =~= b);
        let size = x.1.len() as int;
        assert(b[0] == ((x.0 / 0x10000) % 256) as u8);
        assert(b[1] == ((x.0 / 256) % 256) as u8);
        assert(b[2] == (x.0 % 256) as u8);
        assert(b[3] == ((size / 256) % 256) as u8);
        assert(b[4] == (size % 256) as u8);
        assert(b.take(3) != ips_footer()) by {
            if b.take(3) == ips_footer() {
                assert(b.take(3)[0] == 0x45 && b.take(3)[1] == 0x4F && b.take(3)[2] == 0x46);
            }
        }
        assert(b.skip(5 + size) =~= tail);
        assert(b.subrange(5, 5 + size) =~= x.1);
        assert(seq![(x.0, x.1)] + rest =~= e);
    }
}

/// Reading back an IPS file written for encodable edits gives those edits.
pub proof fn lemma_ips_roundtrip(e: Seq<(int, Seq<u8>)>)
    requires
        ips_encodable(e),
    ensures
        ips_parse(ips_file(e)) == Some(e),
{
    let f = ips_file(e);
    assert(f.take(5) =~= ips_header());
    assert(f.skip(5) =~= ips_records(e) + ips_footer());
    lemma_parse_records(e);
}

/// The IPS file written for the differences of two images of equal length is read back
/// into exactly those differences, and applying them to the first image gives the second,
/// as long as each differing run is shorter than 64 KiB and the images are shorter than
/// the offset that the `EOF` marker spells.
pub proof fn lemma_ips_of_diff_restores(o: Seq<u8>, m: Seq<u8>, e: Seq<(int, Seq<u8>)>)
    requires
        o.len() == m.len(),
        o.len() <= 0x454F46,
        diff_result(o, m, e),
        forall|k: int| 0 <= k < e.len() ==> (#[trigger] e[k]).1.len() < 0x10000,
    ensures
        ips_parse(ips_file(e)) matches Some(p) && apply_edits(o, p) == m,
{
    assert forall|k: int| 0 <= k < e.len() implies {
        &&& 0 <= (#[trigger] e[k]).0 < 0x1000000
        &&& e[k].0 != 0x454F46
        &&& 0 < e[k].1.len() < 0x10000
    } by {
        assert(is_run(o, m, e[k].0, e[k].1));
    }
    lemma_ips_roundtrip(e);
    lemma_diff_then_apply(o, m, e);
}

fn append_bytes(out: &mut Vec<u8>, b: &[u8])
    ensures
        final(out)@ == old(out)@ + b@,
{
    let mut i: usize = 0;
    while i < b.len()
        invariant
            i <= b@.len(),
            out@ == old(out)@ + b@.take(i as int),
        decreases b@.len() - i,
    {
        out.push(b[i]);
        assert(b@.take(i + 1) =~= b@.take(i as int).push(b@[i as int]));
        i = i + 1;
    }
    assert(b@.take(b@.len() as int) =~= b@);
}

/// The bytes of an IPS file holding `edits`.
pub fn encode_ips(edits: &[(usize, Vec<u8>)]) -> (r: Vec<u8>)
    ensures
        r@ == ips_file(edits_view(edits@)),
{
    let ghost e = edits_view(edits@);
    let mut out: Vec<u8> = Vec::new();
    let magic: [u8; 5] = [0x50, 0x41, 0x54, 0x43, 0x48];  // "PATCH"
    append_bytes(&mut out, &magic);
    assert(out@ =~= ips_header());
    let mut k: usize = 0;
    while k < edits.len()
        invariant
            k <= edits@.len(),
            e == edits_view(edits@),
            out@ == ips_header() + ips_records(e.take(k as int)),
        decreases edits@.len() - k,
    {
        let (offset, bytes) = &edits[k];
        let offset = *offset;
        let size = bytes.len();
        let offset_bytes = [
            ((offset / 0x10000) % 256) as u8,
            ((offset / 256) % 256) as u8,
            (offset % 256) as u8,
        ];
        let size_bytes = [((size / 256) % 256) as u8, (size % 256) as u8];
        let ghost before = out@;
        append_bytes(&mut out, &offset_bytes);
        append_bytes(&mut out, &size_bytes);
        append_bytes(&mut out, bytes.as_slice());
        proof {
            assert(e[k as int] == (offset as int, bytes@));
            assert(e.take(k + 1).drop_last() =~= e.take(k as int));
            assert(e.take(k + 1).last() == e[k as int]);
            assert(offset_bytes@ + size_bytes@ + bytes@ =~= ips_record(offset as int, bytes@));
            assert(out@ =~= before + ips_record(offset as int, bytes@));
        }
        k = k + 1;
    }
    assert(e.take(edits@.len() as int) =~= e);
    let eof: [u8; 3] = [0x45, 0x4F, 0x46];  // "EOF"
    append_bytes(&mut out, &eof);
    assert(out@ =~= ips_file(e));
    out
}

} // verus!
