//! Rewriting the table directory of an OpenType font file, byte by byte: removing a table,
//! or adding a placeholder table.
use vstd::prelude::*;
use crate::testable::Testable;
use crate::text::pow2;

verus! {

/// One entry of a font's table directory, as numbers.
pub struct TableRecord {
    pub tag: Seq<u8>,
    pub checksum: nat,
    pub offset: nat,
    pub length: nat,
}

/// The unsigned 16-bit big-endian number at position `i`.
pub open spec fn be16(d: Seq<u8>, i: int) -> nat {
    d[i] as nat * 256 + d[i + 1] as nat
}

/// The unsigned 32-bit big-endian number at position `i`.
pub open spec fn be32(d: Seq<u8>, i: int) -> nat {
    d[i] as nat * 0x1000000 + d[i + 1] as nat * 0x10000 + d[i + 2] as nat * 0x100 + d[i + 3] as nat
}

/// The number of tables the font's header announces.
pub open spec fn table_count(d: Seq<u8>) -> nat {
    be16(d, 4)
}

/// The `i`-th record of the table directory.
pub open spec fn record_at(d: Seq<u8>, i: int) -> TableRecord {
    let p = 12 + 16 * i;
    TableRecord {
        tag: d.subrange(p, p + 4),
        checksum: be32(d, p + 4),
        offset: be32(d, p + 8),
        length: be32(d, p + 12),
    }
}

/// All the records of the table directory, in order.
pub open spec fn records(d: Seq<u8>) -> Seq<TableRecord> {
    Seq::new(table_count(d), |i: int| record_at(d, i))
}

/// The header and every record the header announces lie within the file.
pub open spec fn directory_fits(d: Seq<u8>) -> bool {
    &&& d.len() >= 6
    &&& table_count(d) > 0 ==> d.len() >= 12 + 16 * table_count(d)
}

/// The records whose tag differs from `tag`, in their order.
pub open spec fn without_tag(rs: Seq<TableRecord>, tag: Seq<u8>) -> Seq<TableRecord>
    decreases rs.len(),
{
    if rs.len() == 0 {
        rs
    } else if rs.last().tag == tag {
        without_tag(rs.drop_last(), tag)
    } else {
        without_tag(rs.drop_last(), tag).push(rs.last())
    }
}

/// The smallest multiple of four that is at least `x`.
pub open spec fn align4(x: nat) -> nat {
    if x % 4 == 0 {
        x
    } else {
        (x + (4 - x % 4)) as nat
    }
}

/// Where the `j`-th table's data starts in the rebuilt file: right after the directory for the
/// first, and after the previous table's data for the others, each at a multiple of four.
pub open spec fn new_offset(rs: Seq<TableRecord>, base: nat, j: nat) -> nat
    decreases j,
{
    if j == 0 {
        align4(base)
    } else {
        align4(new_offset(rs, base, (j - 1) as nat) + rs[j - 1].length)
    }
}

/// The number of times `n` can be halved before it drops below two.
pub open spec fn floor_log2(n: nat) -> nat
    decreases n,
{
    if n < 2 {
        0
    } else {
        1 + floor_log2(n / 2)
    }
}

/// The two big-endian bytes of the low 16 bits of `x`.
pub open spec fn u16_bytes(x: nat) -> Seq<u8> {
    seq![((x / 256) % 256) as u8, (x % 256) as u8]
}

/// The four big-endian bytes of the low 32 bits of `x`.
pub open spec fn u32_bytes(x: nat) -> Seq<u8> {
    seq![
        ((x / 0x1000000) % 256) as u8,
        ((x / 0x10000) % 256) as u8,
        ((x / 0x100) % 256) as u8,
        (x % 256) as u8,
    ]
}

/// The 12-byte header of a font with `k` tables: its version, the table count, and the binary
/// search parameters searchRange, entrySelector and rangeShift.
pub open spec fn header_bytes(version: Seq<u8>, k: nat) -> Seq<u8> {
    let e = floor_log2(k);
    let sr = 16 * pow2(e);
    version + u16_bytes(k) + u16_bytes(sr) + u16_bytes(e) + u16_bytes((16 * k - sr) as nat)
}

/// The 16 bytes of one directory record, with the table's data at `off`.
pub open spec fn record_bytes(r: TableRecord, off: nat) -> Seq<u8> {
    r.tag + u32_bytes(r.checksum) + u32_bytes(off) + u32_bytes(r.length)
}

/// `n` zero bytes.
pub open spec fn zeros(n: nat) -> Seq<u8> {
    Seq::new(n, |i: int| 0u8)
}

/// `s`, followed by zeros up to length `n` when it is shorter.
pub open spec fn pad_to(s: Seq<u8>, n: nat) -> Seq<u8> {
    if s.len() >= n {
        s
    } else {
        s + zeros((n - s.len()) as nat)
    }
}

/// The file after the directory `prefix` and the data of the first `j` tables were written:
/// before each table's bytes, zeros up to the table's offset.
pub open spec fn laid(
    prefix: Seq<u8>,
    rs: Seq<TableRecord>,
    blobs: Seq<Seq<u8>>,
    base: nat,
    j: nat,
) -> Seq<u8>
    decreases j,
{
    if j == 0 {
        pad_to(prefix, new_offset(rs, base, 0))
    } else {
        pad_to(laid(prefix, rs, blobs, base, (j - 1) as nat), new_offset(rs, base, (j - 1) as nat))
            + blobs[j - 1]
    }
}

/// The data a record points at in the original file.
pub open spec fn source_blob(d: Seq<u8>, r: TableRecord) -> Seq<u8> {
    d.subrange(r.offset as int, (r.offset + r.length) as int)
}

/// `out` is the font made of `version`, the records `rs` and the table data `blobs`: a header,
/// one record per table with its new offset, then each table's data at that offset.
pub open spec fn rebuilt(
    out: Seq<u8>,
    version: Seq<u8>,
    rs: Seq<TableRecord>,
    blobs: Seq<Seq<u8>>,
) -> bool {
    let k = rs.len();
    let base = 12 + 16 * k;
    &&& out.len() >= base
    &&& out.subrange(0, 12) == header_bytes(version, k)
    &&& forall|j: int|
        0 <= j < k ==> #[trigger] out.subrange(12 + 16 * j, 28 + 16 * j) == record_bytes(
            rs[j],
            new_offset(rs, base, j as nat),
        )
    &&& out == laid(out.subrange(0, base as int), rs, blobs, base, k)
}

/// Each table's data lies in `out` at its new offset, zeros fill the gaps between tables, and
/// `out` ends right after the last table's data.
pub open spec fn tables_in_place(out: Seq<u8>, rs: Seq<TableRecord>, blobs: Seq<Seq<u8>>) -> bool {
    let k = rs.len();
    let base = 12 + 16 * k;
    &&& k >= 1
    &&& out.len() == new_offset(rs, base, (k - 1) as nat) + blobs[k - 1].len()
    &&& forall|j: int|
        0 <= j < k ==> #[trigger] out.subrange(
            new_offset(rs, base, j as nat) as int,
            (new_offset(rs, base, j as nat) + blobs[j].len()) as int,
        ) == blobs[j]
    &&& forall|j: int, x: int|
        #![trigger out[x], blobs[j]]
        0 <= j && j + 1 < k && new_offset(rs, base, j as nat) + blobs[j].len() <= x < new_offset(
            rs,
            base,
            (j + 1) as nat,
        ) ==> out[x] == 0
}

/// What remains of the table directory once the records tagged `tag` are dropped.
pub open spec fn kept_records(d: Seq<u8>, tag: Seq<u8>) -> Seq<TableRecord> {
    without_tag(records(d), tag)
}

/// A table of the rebuilt font: where its data lies and whether it is the placeholder.
struct Placement {
    tag_at: usize,
    checksum: u32,
    offset: usize,
    length: usize,
    dummy: bool,
}

spec fn placement_is(d: Seq<u8>, table_tag: Seq<u8>, p: Placement, r: TableRecord) -> bool {
    &&& r.checksum == p.checksum
    &&& r.length == p.length
    &&& (p.dummy ==> r.tag == table_tag)
    &&& (!p.dummy ==> p.tag_at + 4 <= d.len() && d.subrange(p.tag_at as int, p.tag_at + 4) == r.tag
        && r.offset == p.offset)
}

proof fn lemma_align4(x: nat)
    ensures
        x <= align4(x) <= x + 3,
        align4(x) % 4 == 0,
{
}

proof fn lemma_offsets_grow(rs: Seq<TableRecord>, base: nat, i: nat, j: nat)
    requires
        i < j,
        j <= rs.len(),
    ensures
        new_offset(rs, base, i) + rs[i as int].length <= new_offset(rs, base, j),
    decreases j,
{
    lemma_align4(new_offset(rs, base, (j - 1) as nat) + rs[j - 1].length);
    if i + 1 < j {
        lemma_offsets_grow(rs, base, i, (j - 1) as nat);
        lemma_offsets_grow(rs, base, (j - 2) as nat, (j - 1) as nat);
    }
}

proof fn lemma_offset_first(rs: Seq<TableRecord>, base: nat, j: nat)
    requires
        j <= rs.len(),
    ensures
        align4(base) <= new_offset(rs, base, j),
    decreases j,
{
    if j > 0 {
        lemma_offset_first(rs, base, (j - 1) as nat);
        lemma_align4(new_offset(rs, base, (j - 1) as nat) + rs[j - 1].length);
    }
}

proof fn lemma_floor_log2(n: nat, e: nat)
    requires
        n >= 1,
        pow2(e) <= n < 2 * pow2(e),
    ensures
        floor_log2(n) == e,
    decreases e,
{
    if e == 0 {
        assert(n < 2);
    } else {
        assert(pow2(e) == 2 * pow2((e - 1) as nat));
        assert(pow2((e - 1) as nat) <= n / 2 < 2 * pow2((e - 1) as nat));
        lemma_floor_log2(n / 2, (e - 1) as nat);
    }
}

proof fn lemma_pow2_positive(e: nat)
    ensures
        pow2(e) >= 1,
    decreases e,
{
    if e > 0 {
        lemma_pow2_positive((e - 1) as nat);
    }
}

fn push_u16(v: &mut Vec<u8>, x: u16)
    ensures
        final(v)@ == old(v)@ + u16_bytes(x as nat),
{
    v.push((x / 256) as u8);
    v.push((x % 256) as u8);
    assert(final(v)@ =~= old(v)@ + u16_bytes(x as nat));
}

fn push_u32(v: &mut Vec<u8>, x: usize)
    ensures
        final(v)@ == old(v)@ + u32_bytes(x as nat),
{
    v.push(((x / 0x1000000) % 256) as u8);
    v.push(((x / 0x10000) % 256) as u8);
    v.push(((x / 0x100) % 256) as u8);
    v.push((x % 256) as u8);
    assert(final(v)@ =~= old(v)@ + u32_bytes(x as nat));
}

fn read_u32(d: &Vec<u8>, i: usize) -> (r: u32)
    requires
        i + 4 <= d.len(),
    ensures
        r as nat == be32(d@, i as int),
{
    (d[i] as u32) * 0x1000000 + (d[i + 1] as u32) * 0x10000 + (d[i + 2] as u32) * 0x100 + (d[i
        + 3] as u32)
}

/// The searchRange/16 and entrySelector of a table count: the largest power of two not above
/// it, and that power's exponent.
fn search_parameters(n: u16) -> (r: (u16, u16))
    requires
        n >= 1,
    ensures
        r.0 as nat == pow2(floor_log2(n as nat)),
        r.1 as nat == floor_log2(n as nat),
        1 <= r.0 <= n,
{
    let mut search_range: u16 = 1;
    let mut entry_selector: u16 = 0;
    while search_range as u32 * 2 <= n as u32
        invariant
            search_range as nat == pow2(entry_selector as nat),
            search_range <= n,
            entry_selector <= 16,
        decreases n - search_range,
    {
        proof {
            assert(pow2((entry_selector + 1) as nat) == 2 * pow2(entry_selector as nat));
            if entry_selector >= 16 {
                reveal_with_fuel(pow2, 17);
                lemma_pow2_grows(16, entry_selector as nat);
            }
        }
        search_range = search_range * 2;
        entry_selector = entry_selector + 1;
    }
    proof {
        lemma_floor_log2(n as nat, entry_selector as nat);
    }
    (search_range, entry_selector)
}

proof fn lemma_pow2_grows(a: nat, b: nat)
    requires
        a <= b,
    ensures
        pow2(a) <= pow2(b),
    decreases b,
{
    if a < b {
        lemma_pow2_grows(a, (b - 1) as nat);
        lemma_pow2_positive((b - 1) as nat);
    }
}

/// The data written for a record: four zero bytes for a table tagged `tag`, and the original
/// bytes for any other.
pub open spec fn blob_for(d: Seq<u8>, tag: Seq<u8>, r: TableRecord) -> Seq<u8> {
    if r.tag == tag {
        zeros(4)
    } else {
        source_blob(d, r)
    }
}

/// The data written for each of the records `rs`.
pub open spec fn blobs_for(d: Seq<u8>, tag: Seq<u8>, rs: Seq<TableRecord>) -> Seq<Seq<u8>> {
    rs.map_values(|r: TableRecord| blob_for(d, tag, r))
}

fn pad_with_zeros(out: &mut Vec<u8>, target: usize)
    ensures
        final(out)@ == pad_to(old(out)@, target as nat),
{
    let ghost s = out@;
    while out.len() < target
        invariant
            s.len() <= out.len(),
            s.len() < target ==> out.len() <= target,
            s.len() >= target ==> out.len() == s.len(),
            out@ == s + zeros((out.len() - s.len()) as nat),
        decreases target - out.len(),
    {
        let ghost before = out@;
        out.push(0);
        assert(out@ =~= s + zeros((out.len() - s.len()) as nat));
    }
    assert(zeros(0) =~= Seq::<u8>::empty());
    assert(s.len() >= target ==> out@ =~= s);
}

proof fn lemma_append_keeps(a: Seq<u8>, b: Seq<u8>)
    ensures
        forall|i: int, j: int|
            0 <= i <= j <= a.len() ==> #[trigger] (a + b).subrange(i, j) == a.subrange(i, j),
        (a + b).subrange(a.len() as int, (a.len() + b.len()) as int) == b,
{
    assert forall|i: int, j: int| 0 <= i <= j <= a.len() implies #[trigger] (a + b).subrange(i, j)
        == a.subrange(i, j) by {
        assert((a + b).subrange(i, j) =~= a.subrange(i, j));
    }
    assert((a + b).subrange(a.len() as int, (a.len() + b.len()) as int) =~= b);
}

fn push_record(
    out: &mut Vec<u8>,
    d: &Vec<u8>,
    table_tag: &[u8; 4],
    p: &Placement,
    offset: usize,
    Ghost(r): Ghost<TableRecord>,
)
    requires
        placement_is(d@, table_tag@, *p, r),
    ensures
        final(out)@ == old(out)@ + record_bytes(r, offset as nat),
{
    let ghost start = out@;
    if p.dummy {
        out.push(table_tag[0]);
        out.push(table_tag[1]);
        out.push(table_tag[2]);
        out.push(table_tag[3]);
        assert(out@ =~= start + r.tag);
    } else {
        assert(p.tag_at + 4 <= d.len());
        out.push(d[p.tag_at]);
        out.push(d[p.tag_at + 1]);
        out.push(d[p.tag_at + 2]);
        out.push(d[p.tag_at + 3]);
        assert(out@ =~= start + r.tag);
    }
    push_u32(out, p.checksum as usize);
    push_u32(out, offset);
    push_u32(out, p.length);
    assert(out@ =~= start + record_bytes(r, offset as nat));
}

/// Moves an offset forward, one byte at a time, to the next multiple of four.
fn align_up(x: usize) -> (r: usize)
    requires
        align4(x as nat) <= usize::MAX,
    ensures
        r == align4(x as nat),
{
    let mut current = x;
    while current % 4 != 0
        invariant
            x <= current <= align4(x as nat),
            current % 4 != 0 ==> current < align4(x as nat),
            align4(x as nat) <= usize::MAX,
        decreases align4(x as nat) - current,
    {
        current = current + 1;
    }
    current
}

#[verifier::spinoff_prover]
#[verifier::rlimit(40)]
fn write_font(
    d: &Vec<u8>,
    table_tag: &[u8; 4],
    keep: &Vec<Placement>,
    Ghost(rs): Ghost<Seq<TableRecord>>,
) -> (out: Vec<u8>)
    requires
        d.len() >= 4,
        1 <= keep.len() <= 4095,
        keep.len() == rs.len(),
        forall|j: int| 0 <= j < rs.len() ==> placement_is(d@, table_tag@, #[trigger] keep@[j], rs[j]),
        forall|j: int|
            0 <= j < rs.len() ==> (#[trigger] keep@[j]).dummy == (rs[j].tag == table_tag@),
        forall|j: int|
            0 <= j < rs.len() && !(#[trigger] keep@[j]).dummy ==> keep@[j].offset
                + keep@[j].length <= d.len(),
        new_offset(rs, 12 + 16 * rs.len(), rs.len()) <= usize::MAX,
    ensures
        rebuilt(out@, d@.subrange(0, 4), rs, blobs_for(d@, table_tag@, rs)),
{
    let k = keep.len();
    let ghost base: nat = 12 + 16 * k as nat;
    let ghost blobs = blobs_for(d@, table_tag@, rs);
    let n16 = k as u16;
    let (sr, entry_selector) = search_parameters(n16);
    proof {
        lemma_pow2_grows(0, floor_log2(k as nat));
    }
    let search_range = sr * 16;
    let range_shift = n16 * 16 - search_range;
    let mut out: Vec<u8> = Vec::new();
    out.push(d[0]);
    out.push(d[1]);
    out.push(d[2]);
    out.push(d[3]);
    push_u16(&mut out, n16);
    push_u16(&mut out, search_range);
    push_u16(&mut out, entry_selector);
    push_u16(&mut out, range_shift);
    assert(out@ =~= header_bytes(d@.subrange(0, 4), k as nat));
    let header_size = 12 + k * 16;
    let mut current_offset = header_size;
    while current_offset % 4 != 0
        invariant
            current_offset == header_size,
            header_size % 4 == 0,
        decreases 4 - current_offset % 4,
    {
        current_offset = current_offset + 1;
    }
    proof {
        lemma_offset_first(rs, base, k as nat);
    }
    let mut placed: Vec<usize> = Vec::new();
    for j in 0..k
        invariant
            k == keep.len(),
            k == rs.len(),
            base == header_size,
            header_size == 12 + 16 * k,
            1 <= k <= 4095,
            d.len() >= 4,
            forall|i: int| 0 <= i < rs.len() ==> placement_is(d@, table_tag@, #[trigger] keep@[i], rs[i]),
            new_offset(rs, base, k as nat) <= usize::MAX,
            out@.len() == 12 + 16 * j,
            out@.subrange(0, 12) == header_bytes(d@.subrange(0, 4), k as nat),
            forall|i: int|
                0 <= i < j ==> #[trigger] out@.subrange(12 + 16 * i, 28 + 16 * i) == record_bytes(
                    rs[i],
                    new_offset(rs, base, i as nat),
                ),
            current_offset == new_offset(rs, base, j as nat),
            placed@.len() == j,
            forall|i: int| 0 <= i < j ==> placed@[i] == new_offset(rs, base, i as nat),
    {
        let ghost before = out@;
        let p = &keep[j];
        push_record(&mut out, d, table_tag, p, current_offset, Ghost(rs[j as int]));
        proof {
            lemma_append_keeps(before, record_bytes(rs[j as int], current_offset as nat));
            assert(out@.subrange(12 + 16 * j, 28 + 16 * j) =~= record_bytes(
                rs[j as int],
                new_offset(rs, base, j as nat),
            ));
            assert forall|i: int| 0 <= i < j implies #[trigger] out@.subrange(
                12 + 16 * i,
                28 + 16 * i,
            ) == record_bytes(rs[i], new_offset(rs, base, i as nat)) by {
                assert(out@.subrange(12 + 16 * i, 28 + 16 * i) == before.subrange(
                    12 + 16 * i,
                    28 + 16 * i,
                ));
            }
            assert(out@.subrange(0, 12) == before.subrange(0, 12));
            lemma_offsets_grow(rs, base, j as nat, (j + 1) as nat);
            if j + 1 < k {
                lemma_offsets_grow(rs, base, (j + 1) as nat, k as nat);
            }
            lemma_align4(new_offset(rs, base, j as nat) + rs[j as int].length);
        }
        placed.push(current_offset);
        current_offset = align_up(current_offset + p.length);
    }
    let ghost prefix = out@;
    assert(prefix.subrange(0, base as int) == prefix);
    pad_with_zeros(&mut out, placed[0]);
    for j in 0..k
        invariant
            k == keep.len(),
            k == rs.len(),
            base == header_size,
            header_size == 12 + 16 * k,
            prefix.len() == base,
            forall|i: int| 0 <= i < rs.len() ==> placement_is(d@, table_tag@, #[trigger] keep@[i], rs[i]),
            forall|i: int|
                0 <= i < rs.len() ==> (#[trigger] keep@[i]).dummy == (rs[i].tag == table_tag@),
            forall|i: int|
                0 <= i < rs.len() && !(#[trigger] keep@[i]).dummy ==> keep@[i].offset
                    + keep@[i].length <= d.len(),
            placed@.len() == k,
            forall|i: int| 0 <= i < k ==> placed@[i] == new_offset(rs, base, i as nat),
            blobs == blobs_for(d@, table_tag@, rs),
            out@ == laid(prefix, rs, blobs, base, j as nat),
    {
        let ghost before = out@;
        pad_with_zeros(&mut out, placed[j]);
        let ghost padded = out@;
        let p = &keep[j];
        if p.dummy {
            out.push(0);
            out.push(0);
            out.push(0);
            out.push(0);
            assert(out@ =~= padded + zeros(4));
        } else {
            let mut t: usize = 0;
            while t < p.length
                invariant
                    p.offset + p.length <= d.len(),
                    t <= p.length,
                    out@ == padded + d@.subrange(p.offset as int, p.offset + t),
                decreases p.length - t,
            {
                out.push(d[p.offset + t]);
                assert(d@.subrange(p.offset as int, p.offset + t + 1) =~= d@.subrange(
                    p.offset as int,
                    p.offset + t,
                ).push(d@[p.offset + t]));
                t = t + 1;
            }
        }
        assert(blobs[j as int] == blob_for(d@, table_tag@, rs[j as int]));
        assert(out@ == laid(prefix, rs, blobs, base, (j + 1) as nat));
    }
    proof {
        lemma_laid_keeps_prefix(prefix, rs, blobs, base, k as nat);
        assert(out@.subrange(0, base as int) =~= prefix);
        assert forall|x: int| 0 <= x < base implies out@[x] == prefix[x] by {
            assert(out@.subrange(0, base as int)[x] == out@[x]);
        }
        assert forall|j: int|
            0 <= j < k implies #[trigger] out@.subrange(12 + 16 * j, 28 + 16 * j)
            == record_bytes(rs[j], new_offset(rs, base, j as nat)) by {
            assert(out@.subrange(12 + 16 * j, 28 + 16 * j) =~= prefix.subrange(
                12 + 16 * j,
                28 + 16 * j,
            ));
        }
        assert(out@.subrange(0, 12) =~= prefix.subrange(0, 12));
    }
    out
}

proof fn lemma_laid_keeps_prefix(
    prefix: Seq<u8>,
    rs: Seq<TableRecord>,
    blobs: Seq<Seq<u8>>,
    base: nat,
    j: nat,
)
    ensures
        laid(prefix, rs, blobs, base, j).len() >= prefix.len(),
        laid(prefix, rs, blobs, base, j).subrange(0, prefix.len() as int) == prefix,
    decreases j,
{
    if j > 0 {
        lemma_laid_keeps_prefix(prefix, rs, blobs, base, (j - 1) as nat);
        let prev = laid(prefix, rs, blobs, base, (j - 1) as nat);
        let padded = pad_to(prev, new_offset(rs, base, (j - 1) as nat));
        assert(padded.subrange(0, prefix.len() as int) =~= prev.subrange(0, prefix.len() as int));
        assert((padded + blobs[j - 1]).subrange(0, prefix.len() as int) =~= padded.subrange(
            0,
            prefix.len() as int,
        ));
    } else {
        assert(pad_to(prefix, new_offset(rs, base, 0)).subrange(0, prefix.len() as int) =~= prefix);
    }
}

fn same_tag(d: &Vec<u8>, at: usize, table_tag: &[u8; 4]) -> (r: bool)
    requires
        at + 4 <= d.len(),
    ensures
        r == (d@.subrange(at as int, at + 4) == table_tag@),
{
    let r = d[at] == table_tag[0] && d[at + 1] == table_tag[1] && d[at + 2] == table_tag[2] && d[at
        + 3] == table_tag[3];
    if r {
        assert(d@.subrange(at as int, at + 4) =~= table_tag@);
    } else {
        assert(d@.subrange(at as int, at + 4) != table_tag@) by {
            if d@.subrange(at as int, at + 4) == table_tag@ {
                assert(d@.subrange(at as int, at + 4)[0] == table_tag@[0]);
                assert(d@.subrange(at as int, at + 4)[1] == table_tag@[1]);
                assert(d@.subrange(at as int, at + 4)[2] == table_tag@[2]);
                assert(d@.subrange(at as int, at + 4)[3] == table_tag@[3]);
            }
        }
    }
    r
}

fn read_record(d: &Vec<u8>, i: usize, table_tag: &[u8; 4], dummy: bool) -> (p: Placement)
    requires
        12 + 16 * i + 16 <= d.len(),
        dummy == (record_at(d@, i as int).tag == table_tag@),
    ensures
        placement_is(d@, table_tag@, p, record_at(d@, i as int)),
        p.dummy == dummy,
        !dummy ==> p.offset == record_at(d@, i as int).offset,
{
    let record_offset = 12 + i * 16;
    let checksum = read_u32(d, record_offset + 4);
    let offset = read_u32(d, record_offset + 8) as usize;
    let length = read_u32(d, record_offset + 12) as usize;
    Placement { tag_at: record_offset, checksum, offset, length, dummy }
}

/// The font described by the records `rs`: every table fits in the file, and the rebuilt font
/// fits in memory.
pub open spec fn layout_fits(d: Seq<u8>, tag: Seq<u8>, rs: Seq<TableRecord>) -> bool {
    &&& 1 <= rs.len() <= 4095
    &&& forall|j: int|
        0 <= j < rs.len() && rs[j].tag != tag ==> #[trigger] rs[j].offset + rs[j].length <= d.len()
    &&& new_offset(rs, 12 + 16 * rs.len(), rs.len()) <= usize::MAX
}

/// A table can be removed from `d` without reading outside it: its directory lies within the
/// file, at least one table remains, and every remaining table lies within the file.
pub open spec fn removable(d: Seq<u8>, tag: Seq<u8>) -> bool {
    &&& directory_fits(d)
    &&& layout_fits(d, tag, kept_records(d, tag))
}

/// The directory of `d` with a placeholder record for `tag` appended.
pub open spec fn records_with(d: Seq<u8>, tag: Seq<u8>) -> Seq<TableRecord> {
    records(d).push(TableRecord { tag, checksum: 0, offset: 0, length: 4 })
}

/// A placeholder table can be added to `d` without reading outside it.
pub open spec fn addable(d: Seq<u8>, tag: Seq<u8>) -> bool {
    &&& directory_fits(d)
    &&& layout_fits(d, tag, records_with(d, tag))
}

/// Removes a table from a font by rewriting its bytes: the header is rebuilt for the remaining
/// tables, each remaining record keeps its tag, checksum and length and gets a new offset, and
/// each remaining table's data is copied to that offset, at a multiple of four, with zeros in
/// between.
#[verifier::spinoff_prover]
pub fn remove_table(font: &mut Testable, table_tag: &[u8; 4])
    requires
        removable(old(font).contents@, table_tag@),
    ensures
        final(font).filename == old(font).filename,
        rebuilt(
            final(font).contents@,
            old(font).contents@.subrange(0, 4),
            kept_records(old(font).contents@, table_tag@),
            blobs_for(
                old(font).contents@,
                table_tag@,
                kept_records(old(font).contents@, table_tag@),
            ),
        ),
        tables_in_place(
            final(font).contents@,
            kept_records(old(font).contents@, table_tag@),
            kept_records(old(font).contents@, table_tag@).map_values(
                |r: TableRecord| source_blob(old(font).contents@, r),
            ),
        ),
{
    let ghost d = font.contents@;
    let ghost rs = records(d);
    let data = &font.contents;
    let num_tables = (data[4] as usize) * 256 + (data[5] as usize);
    proof {
        lemma_without_tag_len(rs, table_tag@);
    }
    let mut tables_to_keep: Vec<Placement> = Vec::new();
    for i in 0..num_tables
        invariant
            num_tables == table_count(d),
            d == data@,
            rs == records(d),
            directory_fits(d),
            num_tables >= 1,
            tables_to_keep@.len() == without_tag(rs.take(i as int), table_tag@).len(),
            forall|j: int|
                0 <= j < tables_to_keep@.len() ==> placement_is(
                    d,
                    table_tag@,
                    #[trigger] tables_to_keep@[j],
                    without_tag(rs.take(i as int), table_tag@)[j],
                ) && !tables_to_keep@[j].dummy,
    {
        let record_offset = 12 + i * 16;
        let ghost before = without_tag(rs.take(i as int), table_tag@);
        assert(rs.take(i + 1).drop_last() == rs.take(i as int));
        assert(rs.take(i + 1).last() == record_at(d, i as int));
        if !same_tag(data, record_offset, table_tag) {
            let p = read_record(data, i, table_tag, false);
            tables_to_keep.push(p);
        }
    }
    assert(rs.take(num_tables as int) == rs);
    let ghost kept = kept_records(d, table_tag@);
    proof {
        lemma_without_tag_excludes(rs, table_tag@);
    }
    let new_data = write_font(data, table_tag, &tables_to_keep, Ghost(kept));
    proof {
        let blobs = blobs_for(d, table_tag@, kept);
        let k = kept.len();
        let base: nat = 12 + 16 * k;
        assert(blobs =~= kept.map_values(|r: TableRecord| source_blob(d, r)));
        assert forall|i: int| 0 <= i < k implies new_offset(kept, base, i as nat) + (
        #[trigger] blobs[i]).len() <= new_offset(kept, base, (i + 1) as nat) by {
            lemma_align4(new_offset(kept, base, i as nat) + kept[i].length);
        }
        lemma_laid_places(new_data@.subrange(0, base as int), kept, blobs, base, k);
    }
    font.contents = new_data;
}

/// Adds a placeholder table of four zero bytes to a font by rewriting its bytes: the header is
/// rebuilt for one more table, every record keeps its tag, checksum and length and gets a new
/// offset, a record for the new tag with checksum 0 and length 4 is appended, and each table's
/// data is written at its offset; any table already tagged like the new one gets four zero
/// bytes in place of its data.
#[verifier::spinoff_prover]
pub fn add_table(font: &mut Testable, table_tag: &[u8; 4])
    requires
        addable(old(font).contents@, table_tag@),
    ensures
        final(font).filename == old(font).filename,
        rebuilt(
            final(font).contents@,
            old(font).contents@.subrange(0, 4),
            records_with(old(font).contents@, table_tag@),
            blobs_for(old(font).contents@, table_tag@, records_with(old(font).contents@, table_tag@)),
        ),
        no_empty_clash(old(font).contents@, table_tag@) ==> tables_in_place(
            final(font).contents@,
            records_with(old(font).contents@, table_tag@),
            blobs_for(old(font).contents@, table_tag@, records_with(old(font).contents@, table_tag@)),
        ),
{
    let ghost d = font.contents@;
    let ghost rs = records(d);
    let data = &font.contents;
    let num_tables = (data[4] as usize) * 256 + (data[5] as usize);
    let mut existing_tables: Vec<Placement> = Vec::new();
    for i in 0..num_tables
        invariant
            num_tables == table_count(d),
            d == data@,
            rs == records(d),
            directory_fits(d),
            existing_tables@.len() == i,
            forall|j: int|
                0 <= j < i ==> placement_is(d, table_tag@, #[trigger] existing_tables@[j], rs[j])
                    && existing_tables@[j].dummy == (rs[j].tag == table_tag@),
    {
        let record_offset = 12 + i * 16;
        let dummy = same_tag(data, record_offset, table_tag);
        let p = read_record(data, i, table_tag, dummy);
        existing_tables.push(p);
    }
    existing_tables.push(Placement { tag_at: 0, checksum: 0, offset: 0, length: 4, dummy: true });
    let ghost all = records_with(d, table_tag@);
    assert forall|j: int| 0 <= j < all.len() implies placement_is(
        d,
        table_tag@,
        #[trigger] existing_tables@[j],
        all[j],
    ) && existing_tables@[j].dummy == (all[j].tag == table_tag@) by {
        if j < num_tables {
            assert(all[j] == rs[j]);
        }
    }
    let new_data = write_font(data, table_tag, &existing_tables, Ghost(all));
    proof {
        let blobs = blobs_for(d, table_tag@, all);
        let k = all.len();
        let base: nat = 12 + 16 * k;
        if no_empty_clash(d, table_tag@) {
            lemma_add_fits(d, table_tag@);
            lemma_laid_places(new_data@.subrange(0, base as int), all, blobs, base, k);
        }
    }
    font.contents = new_data;
}

/// No table of `d` that already carries `tag` is empty.
pub open spec fn no_empty_clash(d: Seq<u8>, tag: Seq<u8>) -> bool {
    forall|j: int|
        0 <= j < table_count(d) && (#[trigger] records(d)[j]).tag == tag ==> records(d)[j].length
            > 0
}

proof fn lemma_add_fits(d: Seq<u8>, tag: Seq<u8>)
    requires
        no_empty_clash(d, tag),
        addable(d, tag),
    ensures
        blobs_fit(
            records_with(d, tag),
            blobs_for(d, tag, records_with(d, tag)),
            12 + 16 * records_with(d, tag).len(),
        ),
{
    let all = records_with(d, tag);
    let blobs = blobs_for(d, tag, all);
    let k = all.len();
    let base: nat = 12 + 16 * k;
    assert forall|i: int| 0 <= i < k implies new_offset(all, base, i as nat) + (
    #[trigger] blobs[i]).len() <= new_offset(all, base, (i + 1) as nat) by {
        let o = new_offset(all, base, i as nat);
        lemma_align4(o + all[i].length);
        lemma_offset_aligned(all, base, i as nat);
        if all[i].tag == tag {
            if i < table_count(d) {
                assert(records(d)[i] == all[i]);
                assert(all[i].length > 0);
            }
            assert(blobs[i] == zeros(4));
            assert(o + 4 <= align4(o + all[i].length));
        } else {
            assert(blobs[i] == source_blob(d, all[i]));
            assert(all[i].offset + all[i].length <= d.len());
        }
    }
}

proof fn lemma_offset_aligned(rs: Seq<TableRecord>, base: nat, j: nat)
    ensures
        new_offset(rs, base, j) % 4 == 0,
    decreases j,
{
    if j == 0 {
        lemma_align4(base);
    } else {
        lemma_align4(new_offset(rs, base, (j - 1) as nat) + rs[j - 1].length);
    }
}

/// Each table's data fits before the next table's offset.
pub open spec fn blobs_fit(rs: Seq<TableRecord>, blobs: Seq<Seq<u8>>, base: nat) -> bool {
    &&& blobs.len() == rs.len()
    &&& forall|i: int|
        0 <= i < rs.len() ==> new_offset(rs, base, i as nat) + (#[trigger] blobs[i]).len()
            <= new_offset(rs, base, (i + 1) as nat)
}

/// Where the `j` first tables end: the first offset when there are none, else the end of the
/// `j`-th table's data.
pub open spec fn laid_end(rs: Seq<TableRecord>, blobs: Seq<Seq<u8>>, base: nat, j: nat) -> nat {
    if j == 0 {
        new_offset(rs, base, 0)
    } else {
        new_offset(rs, base, (j - 1) as nat) + blobs[j - 1].len()
    }
}

/// When each table's data fits before the next offset, laying out the tables puts each table's
/// data at its offset and zeros between the tables.
pub proof fn lemma_laid_places(
    prefix: Seq<u8>,
    rs: Seq<TableRecord>,
    blobs: Seq<Seq<u8>>,
    base: nat,
    j: nat,
)
    requires
        prefix.len() == base,
        j <= rs.len(),
        blobs_fit(rs, blobs, base),
    ensures
        laid(prefix, rs, blobs, base, j).len() == laid_end(rs, blobs, base, j),
        laid(prefix, rs, blobs, base, j).subrange(0, base as int) == prefix,
        forall|i: int|
            0 <= i < j ==> #[trigger] laid(prefix, rs, blobs, base, j).subrange(
                new_offset(rs, base, i as nat) as int,
                (new_offset(rs, base, i as nat) + blobs[i].len()) as int,
            ) == blobs[i],
        forall|x: int|
            base <= x < new_offset(rs, base, 0) ==> #[trigger] laid(prefix, rs, blobs, base, j)[x]
                == 0,
        forall|i: int, x: int|
            #![trigger laid(prefix, rs, blobs, base, j)[x], blobs[i]]
            0 <= i && i + 1 < j && new_offset(rs, base, i as nat) + blobs[i].len() <= x
                < new_offset(rs, base, (i + 1) as nat) ==> laid(prefix, rs, blobs, base, j)[x] == 0,
    decreases j,
{
    lemma_align4(base);
    let cur = laid(prefix, rs, blobs, base, j);
    if j == 0 {
        assert(cur.subrange(0, base as int) =~= prefix);
    } else {
        lemma_laid_places(prefix, rs, blobs, base, (j - 1) as nat);
        let prev = laid(prefix, rs, blobs, base, (j - 1) as nat);
        let off = new_offset(rs, base, (j - 1) as nat);
        assert(prev.len() <= off) by {
            if j >= 2 {
                assert(new_offset(rs, base, (j - 2) as nat) + blobs[j - 2].len() <= new_offset(
                    rs,
                    base,
                    (j - 1) as nat,
                ));
            }
        }
        assert(prev.len() >= new_offset(rs, base, 0)) by {
            if j >= 2 {
                lemma_offset_first(rs, base, (j - 2) as nat);
            }
        }
        let padded = pad_to(prev, off);
        assert(padded.len() == off);
        assert(cur == padded + blobs[j - 1]);
        assert(cur.subrange(off as int, (off + blobs[j - 1].len()) as int) =~= blobs[j - 1]);
        assert(cur.subrange(0, base as int) =~= prefix) by {
            assert(cur.subrange(0, base as int) =~= prev.subrange(0, base as int));
        }
        assert forall|i: int| 0 <= i < j implies #[trigger] cur.subrange(
            new_offset(rs, base, i as nat) as int,
            (new_offset(rs, base, i as nat) + blobs[i].len()) as int,
        ) == blobs[i] by {
            if i < j - 1 {
                let o = new_offset(rs, base, i as nat);
                assert(o + blobs[i].len() <= prev.len()) by {
                    if i + 1 < j - 1 {
                        lemma_offsets_grow(rs, base, (i + 1) as nat, (j - 1) as nat);
                        lemma_offset_mono(rs, base, (i + 1) as nat, (j - 2) as nat);
                    }
                }
                assert(cur.subrange(o as int, (o + blobs[i].len()) as int) =~= prev.subrange(
                    o as int,
                    (o + blobs[i].len()) as int,
                ));
            }
        }
        assert forall|x: int| base <= x < new_offset(rs, base, 0) implies #[trigger] cur[x] == 0 by {
            assert(x < prev.len());
            assert(cur[x] == prev[x]);
        }
        assert forall|i: int, x: int|
            #![trigger cur[x], blobs[i]]
            0 <= i && i + 1 < j && new_offset(rs, base, i as nat) + blobs[i].len() <= x
                < new_offset(rs, base, (i + 1) as nat) implies cur[x] == 0 by {
            if i + 1 < j - 1 {
                assert(new_offset(rs, base, (i + 1) as nat) <= prev.len()) by {
                    lemma_offset_mono(rs, base, (i + 1) as nat, (j - 2) as nat);
                }
                assert(cur[x] == prev[x]);
            } else {
                assert(i + 1 == j - 1);
                assert(prev.len() == new_offset(rs, base, i as nat) + blobs[i].len());
                assert(cur[x] == padded[x]);
            }
        }
    }
}

proof fn lemma_offset_mono(rs: Seq<TableRecord>, base: nat, i: nat, j: nat)
    requires
        i <= j,
        j < rs.len(),
    ensures
        new_offset(rs, base, i) <= new_offset(rs, base, j),
        new_offset(rs, base, i) <= new_offset(rs, base, j) + rs[j as int].length,
{
    if i < j {
        lemma_offsets_grow(rs, base, i, j);
    }
}

proof fn lemma_without_tag_len(rs: Seq<TableRecord>, tag: Seq<u8>)
    ensures
        without_tag(rs, tag).len() <= rs.len(),
    decreases rs.len(),
{
    if rs.len() > 0 {
        lemma_without_tag_len(rs.drop_last(), tag);
    }
}

proof fn lemma_without_tag_excludes(rs: Seq<TableRecord>, tag: Seq<u8>)
    ensures
        forall|j: int|
            0 <= j < without_tag(rs, tag).len() ==> #[trigger] without_tag(rs, tag)[j].tag != tag,
    decreases rs.len(),
{
    if rs.len() > 0 {
        lemma_without_tag_excludes(rs.drop_last(), tag);
        let prev = without_tag(rs.drop_last(), tag);
        if rs.last().tag != tag {
            assert forall|j: int| 0 <= j < without_tag(rs, tag).len() implies #[trigger] without_tag(
                rs,
                tag,
            )[j].tag != tag by {
                if j < prev.len() {
                    assert(without_tag(rs, tag)[j] == prev[j]);
                }
            }
        }
    }
}

} // verus!
verus! {

proof fn lemma_u16_bytes_round(n: nat)
    requires
        n < 0x10000,
    ensures
        be16(u16_bytes(n), 0) == n,
{
    let b = u16_bytes(n);
    assert(b[0] as nat == (n / 256) % 256);
    assert(b[1] as nat == n % 256);
    assert((n / 256) % 256 * 256 + n % 256 == n) by (nonlinear_arith)
        requires n < 0x10000;
}

proof fn lemma_u32_bytes_round(n: nat)
    requires
        n < 0x1_0000_0000,
    ensures
        be32(u32_bytes(n), 0) == n,
{
    let b = u32_bytes(n);
    assert(b[0] as nat == (n / 0x1000000) % 256);
    assert(b[1] as nat == (n / 0x10000) % 256);
    assert(b[2] as nat == (n / 0x100) % 256);
    assert(b[3] as nat == n % 256);
    assert((n / 0x1000000) % 256 * 0x1000000 + (n / 0x10000) % 256 * 0x10000 + (n / 0x100) % 256 * 0x100
        + n % 256 == n) by (nonlinear_arith)
        requires n < 0x1_0000_0000;
}


/// Two directories list the same tables: the same tags, checksums and lengths, in the same
/// order, wherever their data lies.
pub open spec fn same_shape(a: Seq<TableRecord>, b: Seq<TableRecord>) -> bool {
    &&& a.len() == b.len()
    &&& forall|j: int|
        0 <= j < a.len() ==> (#[trigger] a[j]).tag == b[j].tag && a[j].checksum == b[j].checksum
            && a[j].length == b[j].length
}

proof fn lemma_same_shape_offsets(a: Seq<TableRecord>, b: Seq<TableRecord>, base: nat, j: nat)
    requires
        same_shape(a, b),
        j <= a.len(),
    ensures
        new_offset(a, base, j) == new_offset(b, base, j),
    decreases j,
{
    if j > 0 {
        lemma_same_shape_offsets(a, b, base, (j - 1) as nat);
        assert(a[j - 1].length == b[j - 1].length);
    }
}

proof fn lemma_same_shape_laid(p: Seq<u8>, a: Seq<TableRecord>, b: Seq<TableRecord>, bl: Seq<Seq<u8>>, base: nat, j: nat)
    requires
        same_shape(a, b),
        j <= a.len(),
    ensures
        laid(p, a, bl, base, j) == laid(p, b, bl, base, j),
    decreases j,
{
    lemma_same_shape_offsets(a, b, base, 0);
    if j > 0 {
        lemma_same_shape_laid(p, a, b, bl, base, (j - 1) as nat);
        lemma_same_shape_offsets(a, b, base, (j - 1) as nat);
    }
}

proof fn lemma_directory_position(x: int, k: int) -> (j: int)
    requires
        12 <= x < 12 + 16 * k,
    ensures
        0 <= j < k,
        12 + 16 * j <= x < 28 + 16 * j,
{
    let j = (x - 12) / 16;
    assert(0 <= j < k && 12 + 16 * j <= x < 28 + 16 * j) by (nonlinear_arith)
        requires
            12 <= x < 12 + 16 * k,
            j == (x - 12) / 16;
    j
}

/// A font is determined by its version, the tags, checksums and lengths of its tables, and
/// their data.
proof fn lemma_rebuilt_unique(
    o1: Seq<u8>,
    o2: Seq<u8>,
    version: Seq<u8>,
    a: Seq<TableRecord>,
    b: Seq<TableRecord>,
    blobs: Seq<Seq<u8>>,
)
    requires
        same_shape(a, b),
        rebuilt(o1, version, a, blobs),
        rebuilt(o2, version, b, blobs),
    ensures
        o1 == o2,
{
    let k = a.len();
    let base: nat = 12 + 16 * k;
    let p1 = o1.subrange(0, base as int);
    let p2 = o2.subrange(0, base as int);
    assert forall|x: int| 0 <= x < base implies p1[x] == p2[x] by {
        if x < 12 {
            assert(o1.subrange(0, 12)[x] == o2.subrange(0, 12)[x]);
        } else {
            let j = lemma_directory_position(x, k as int);
            lemma_same_shape_offsets(a, b, base, j as nat);
            let off = new_offset(a, base, j as nat);
            assert(record_bytes(a[j], off) == record_bytes(b[j], off));
            assert(o1.subrange(12 + 16 * j, 28 + 16 * j)[x - 12 - 16 * j] == o2.subrange(
                12 + 16 * j,
                28 + 16 * j,
            )[x - 12 - 16 * j]);
        }
    }
    assert(p1 =~= p2);
    lemma_same_shape_laid(p1, a, b, blobs, base, k);
}

proof fn lemma_without_absent_tag(rs: Seq<TableRecord>, tag: Seq<u8>)
    requires
        forall|j: int| 0 <= j < rs.len() ==> (#[trigger] rs[j]).tag != tag,
    ensures
        without_tag(rs, tag) == rs,
    decreases rs.len(),
{
    if rs.len() > 0 {
        assert forall|j: int| 0 <= j < rs.drop_last().len() implies (#[trigger] rs.drop_last()[j]).tag != tag by {
            assert(rs.drop_last()[j] == rs[j]);
        }
        lemma_without_absent_tag(rs.drop_last(), tag);
        assert(rs[rs.len() - 1].tag != tag);
        assert(rs.drop_last().push(rs.last()) =~= rs);
    }
}

proof fn lemma_be32_bound(d: Seq<u8>, i: int)
    ensures
        be32(d, i) < 0x1_0000_0000,
{
    let (a, b, c, e) = (d[i] as nat, d[i + 1] as nat, d[i + 2] as nat, d[i + 3] as nat);
    assert(a * 0x1000000 + b * 0x10000 + c * 0x100 + e < 0x1_0000_0000) by (nonlinear_arith)
        requires
            a < 256,
            b < 256,
            c < 256,
            e < 256;
}

/// The header of a rebuilt font: its version and the number of its tables.
proof fn lemma_rebuilt_header(out: Seq<u8>, version: Seq<u8>, rs: Seq<TableRecord>, blobs: Seq<Seq<u8>>)
    requires
        rebuilt(out, version, rs, blobs),
        version.len() == 4,
        rs.len() < 0x10000,
    ensures
        out.subrange(0, 4) == version,
        table_count(out) == rs.len(),
{
    let hdr = header_bytes(version, rs.len());
    assert(out.subrange(0, 12) == hdr);
    assert(out.subrange(0, 4) =~= version) by {
        assert forall|x: int| 0 <= x < 4 implies out.subrange(0, 4)[x] == version[x] by {
            assert(out.subrange(0, 12)[x] == hdr[x]);
        }
    }
    assert(out[4] == hdr[4] && out[5] == hdr[5]) by {
        assert(out.subrange(0, 12)[4] == hdr[4]);
        assert(out.subrange(0, 12)[5] == hdr[5]);
    }
    lemma_u16_bytes_round(rs.len());
}

/// A record of a rebuilt font reads back as the table's tag, checksum and length, with its new
/// offset, when they fit in 32 bits.
proof fn lemma_rebuilt_record(out: Seq<u8>, version: Seq<u8>, rs: Seq<TableRecord>, blobs: Seq<Seq<u8>>, j: int)
    requires
        rebuilt(out, version, rs, blobs),
        0 <= j < rs.len(),
        rs[j].tag.len() == 4,
        rs[j].checksum < 0x1_0000_0000,
        rs[j].length < 0x1_0000_0000,
        new_offset(rs, 12 + 16 * rs.len(), j as nat) < 0x1_0000_0000,
    ensures
        record_at(out, j) == (TableRecord {
            tag: rs[j].tag,
            checksum: rs[j].checksum,
            offset: new_offset(rs, 12 + 16 * rs.len(), j as nat),
            length: rs[j].length,
        }),
{
    let p = 12 + 16 * j;
    let off = new_offset(rs, 12 + 16 * rs.len(), j as nat);
    let rb = record_bytes(rs[j], off);
    let seg = out.subrange(12 + 16 * j, 28 + 16 * j);
    assert(seg == rb);
    lemma_u32_bytes_round(rs[j].checksum);
    lemma_u32_bytes_round(off);
    lemma_u32_bytes_round(rs[j].length);
    assert(out.subrange(p, p + 4) =~= rs[j].tag) by {
        assert forall|x: int| 0 <= x < 4 implies out.subrange(p, p + 4)[x] == rs[j].tag[x] by {
            assert(seg[x] == rb[x]);
        }
    }
    assert(be32(out, p + 4) == be32(u32_bytes(rs[j].checksum), 0)) by {
        assert(seg[4] == rb[4] && seg[5] == rb[5] && seg[6] == rb[6] && seg[7] == rb[7]);
    }
    assert(be32(out, p + 8) == be32(u32_bytes(off), 0)) by {
        assert(seg[8] == rb[8] && seg[9] == rb[9] && seg[10] == rb[10] && seg[11] == rb[11]);
    }
    assert(be32(out, p + 12) == be32(u32_bytes(rs[j].length), 0)) by {
        assert(seg[12] == rb[12] && seg[13] == rb[13] && seg[14] == rb[14] && seg[15] == rb[15]);
    }
}

/// Removing a table that was just added gives back what removing it from the font it was
/// added to gives: for a font `f` with no table tagged `tag`, where `g` is what `add_table`
/// makes of `f` (below 4 GiB, as its 32-bit offsets require), `h1` what `remove_table` makes of
/// `g` and `h2` what it makes of `f`, the two are the same bytes.
#[verifier::spinoff_prover]
pub proof fn law_remove_undoes_add(f: Seq<u8>, tag: Seq<u8>, g: Seq<u8>, h1: Seq<u8>, h2: Seq<u8>)
    requires
        tag.len() == 4,
        addable(f, tag),
        forall|j: int| 0 <= j < table_count(f) ==> (#[trigger] records(f)[j]).tag != tag,
        rebuilt(g, f.subrange(0, 4), records_with(f, tag), blobs_for(f, tag, records_with(f, tag))),
        no_empty_clash(f, tag) ==> tables_in_place(
            g,
            records_with(f, tag),
            blobs_for(f, tag, records_with(f, tag)),
        ),
        g.len() < 0x1_0000_0000,
        rebuilt(h1, g.subrange(0, 4), kept_records(g, tag), blobs_for(g, tag, kept_records(g, tag))),
        rebuilt(h2, f.subrange(0, 4), kept_records(f, tag), blobs_for(f, tag, kept_records(f, tag))),
    ensures
        h1 == h2,
{
    let k = table_count(f);
    let rw = records_with(f, tag);
    let bw = blobs_for(f, tag, rw);
    let kg: nat = k + 1;
    let base: nat = 12 + 16 * kg;
    let rf = records(f);
    assert(no_empty_clash(f, tag));
    lemma_rebuilt_header(g, f.subrange(0, 4), rw, bw);
    let rg = records(g);
    assert forall|j: int| 0 <= j < kg implies (#[trigger] rg[j]) == (TableRecord {
        tag: rw[j].tag,
        checksum: rw[j].checksum,
        offset: new_offset(rw, base, j as nat),
        length: rw[j].length,
    }) by {
        if j < k {
            assert(rw[j] == rf[j]);
            lemma_be32_bound(f, 12 + 16 * j + 4);
            lemma_be32_bound(f, 12 + 16 * j + 12);
        }
        lemma_offset_mono(rw, base, j as nat, (kg - 1) as nat);
        lemma_rebuilt_record(g, f.subrange(0, 4), rw, bw, j);
    }
    let kept_g = rg.drop_last();
    assert forall|j: int| 0 <= j < kept_g.len() implies (#[trigger] kept_g[j]).tag != tag by {
        assert(kept_g[j] == rg[j]);
        assert(rw[j] == rf[j]);
    }
    lemma_without_absent_tag(kept_g, tag);
    assert(rg[kg - 1].tag == tag);
    assert(kept_records(g, tag) == kept_g);
    lemma_without_absent_tag(rf, tag);
    assert(same_shape(kept_g, rf)) by {
        assert forall|j: int| 0 <= j < kept_g.len() implies (#[trigger] kept_g[j]).tag == rf[j].tag
            && kept_g[j].checksum == rf[j].checksum && kept_g[j].length == rf[j].length by {
            assert(kept_g[j] == rg[j]);
            assert(rw[j] == rf[j]);
        }
    }
    assert(blobs_for(g, tag, kept_g) =~= blobs_for(f, tag, rf)) by {
        assert forall|j: int| 0 <= j < k implies blobs_for(g, tag, kept_g)[j] == blobs_for(f, tag, rf)[j] by {
            let off = new_offset(rw, base, j as nat);
            assert(kept_g[j] == rg[j]);
            assert(rw[j] == rf[j]);
            assert(rf[j].offset + rf[j].length <= f.len());
            assert(bw[j] == source_blob(f, rf[j]));
            assert(g.subrange(off as int, (off + bw[j].len()) as int) == bw[j]);
        }
    }
    lemma_rebuilt_unique(h1, h2, f.subrange(0, 4), kept_g, rf, blobs_for(f, tag, rf));
}

} // verus!
