//! The cpio "new ASCII" (newc) archive encoding.
//!
//! Every entry is a 110-byte header of fixed-width lowercase hexadecimal
//! fields, followed by the entry's path (NUL-terminated, padded to a 4-byte
//! boundary counted from the start of the header) and the entry's payload
//! (padded to a 4-byte boundary). The archive ends with one trailer record.
use vstd::prelude::*;
use vstd::utf8::{decode_utf8, encode_utf8, encode_utf8_decode_utf8};

verus! {

/// File mode bits of a regular-file entry (type bits plus rwxr-xr-x).
pub const MODE_FILE: u32 = 0o100755;

/// File mode bits of a directory entry (type bits plus rwxr-xr-x).
pub const MODE_DIR: u32 = 0o040755;

/// File mode bits of a symbolic-link entry (type bits plus rwxrwxrwx).
pub const MODE_SYMLINK: u32 = 0o120777;

/// The kind of an archive entry.
pub ghost enum CpioKind {
    File,
    Directory,
    Symlink,
}

/// The abstract content of one archive entry: its kind, its path, and its
/// payload (file content, or the UTF-8 bytes of a symlink target; empty for
/// a directory).
pub ghost struct CpioEntry {
    pub kind: CpioKind,
    pub path: Seq<char>,
    pub data: Seq<u8>,
}

pub open spec fn file_entry(path: Seq<char>, data: Seq<u8>) -> CpioEntry {
    CpioEntry { kind: CpioKind::File, path: path, data: data }
}

pub open spec fn dir_entry(path: Seq<char>) -> CpioEntry {
    CpioEntry { kind: CpioKind::Directory, path: path, data: Seq::empty() }
}

pub open spec fn symlink_entry(path: Seq<char>, target: Seq<char>) -> CpioEntry {
    CpioEntry { kind: CpioKind::Symlink, path: path, data: encode_utf8(target) }
}

pub open spec fn mode_bits(k: CpioKind) -> u32 {
    match k {
        CpioKind::File => MODE_FILE,
        CpioKind::Directory => MODE_DIR,
        CpioKind::Symlink => MODE_SYMLINK,
    }
}

pub open spec fn nlink_bits(k: CpioKind) -> u32 {
    match k {
        CpioKind::File => 1,
        CpioKind::Directory => 2,
        CpioKind::Symlink => 1,
    }
}

/// The lowercase ASCII hexadecimal digit for a value below 16.
pub open spec fn hex_digit(n: u32) -> u8 {
    if n < 10 {
        (48 + n) as u8
    } else {
        (87 + n) as u8
    }
}

/// A 32-bit value as 8 lowercase hexadecimal ASCII bytes, most significant
/// nibble first.
pub open spec fn hex8(v: u32) -> Seq<u8> {
    Seq::new(8, |i: int| hex_digit((v >> (((7 - i) as u32) * 4)) & 0xf))
}

/// The bytes of the newc magic number, the ASCII text `070701`.
pub open spec fn magic_bytes() -> Seq<u8> {
    seq![48u8, 55u8, 48u8, 55u8, 48u8, 49u8]
}

/// The 110-byte newc header. The uid, gid, mtime, device and checksum
/// fields are always zero here.
pub open spec fn header_bytes(ino: u32, mode: u32, nlink: u32, filesize: u32, namesize: u32) -> Seq<
    u8,
> {
    magic_bytes() + hex8(ino) + hex8(mode) + hex8(0) + hex8(0) + hex8(nlink) + hex8(0) + hex8(
        filesize,
    ) + hex8(0) + hex8(0) + hex8(0) + hex8(0) + hex8(namesize) + hex8(0)
}

/// `n` NUL bytes.
pub open spec fn zeros(n: int) -> Seq<u8> {
    Seq::new(n as nat, |i: int| 0u8)
}

/// How many NUL bytes pad a region of `n` bytes to a 4-byte boundary.
pub open spec fn pad4(n: int) -> int {
    if n % 4 == 0 {
        0
    } else {
        4 - n % 4
    }
}

/// One complete encoded entry: header, NUL-terminated name with padding,
/// then the payload with padding.
pub open spec fn raw_entry_bytes(
    ino: u32,
    mode: u32,
    nlink: u32,
    name: Seq<u8>,
    data: Seq<u8>,
) -> Seq<u8> {
    header_bytes(ino, mode, nlink, data.len() as u32, (name.len() + 1) as u32) + name + seq![0u8]
        + zeros(pad4(111 + name.len() as int)) + data + zeros(pad4(data.len() as int))
}

/// The encoding of one abstract entry under inode number `ino`.
pub open spec fn entry_bytes(ino: u32, e: CpioEntry) -> Seq<u8> {
    raw_entry_bytes(ino, mode_bits(e.kind), nlink_bits(e.kind), encode_utf8(e.path), e.data)
}

/// The concatenated encodings of a sequence of entries; the k-th entry
/// (1-based) carries inode number k.
pub open spec fn entries_bytes(es: Seq<CpioEntry>) -> Seq<u8>
    decreases es.len(),
{
    if es.len() == 0 {
        Seq::empty()
    } else {
        entries_bytes(es.drop_last()) + entry_bytes(es.len() as u32, es.last())
    }
}

/// The name bytes of the trailer record, the ASCII text `TRAILER!!!`.
pub open spec fn trailer_name() -> Seq<u8> {
    seq![84u8, 82u8, 65u8, 73u8, 76u8, 69u8, 82u8, 33u8, 33u8, 33u8]
}

/// The trailer record: inode 0, mode 0, nlink 1, no payload.
pub open spec fn trailer_bytes() -> Seq<u8> {
    raw_entry_bytes(0, 0, 1, trailer_name(), Seq::empty())
}

/// A finished archive: all entries in insertion order, then the trailer.
pub open spec fn archive_bytes(es: Seq<CpioEntry>) -> Seq<u8> {
    entries_bytes(es) + trailer_bytes()
}

/// An entry whose name and payload sizes fit the 32-bit newc header fields.
pub open spec fn wf_entry(e: CpioEntry) -> bool {
    &&& encode_utf8(e.path).len() + 1 <= u32::MAX
    &&& e.data.len() <= u32::MAX
}

/// Whether `e` can be appended after the entries `es`: `e` itself fits the
/// header fields and the next two inode numbers still fit 32 bits.
pub open spec fn can_append(es: Seq<CpioEntry>, e: CpioEntry) -> bool {
    &&& wf_entry(e)
    &&& es.len() + 2 <= u32::MAX
}

/// The value of a lowercase hexadecimal ASCII digit.
pub open spec fn hex_val(d: u8) -> u32 {
    if d >= 87 {
        (d - 87) as u32
    } else {
        (d - 48) as u32
    }
}

/// The 32-bit value written as 8 hexadecimal digits, most significant
/// nibble first.
pub open spec fn parse_hex8(b: Seq<u8>) -> u32
    recommends
        b.len() == 8,
{
    (hex_val(b[0]) << 28) | (hex_val(b[1]) << 24) | (hex_val(b[2]) << 20) | (hex_val(b[3]) << 16)
        | (hex_val(b[4]) << 12) | (hex_val(b[5]) << 8) | (hex_val(b[6]) << 4) | hex_val(b[7])
}

/// Reading back the 8 hexadecimal digits of a value gives the value.
pub proof fn lemma_parse_hex8_inverts(v: u32)
    ensures
        parse_hex8(hex8(v)) == v,
{
    let n0 = (v >> 28) & 0xf;
    let n1 = (v >> 24) & 0xf;
    let n2 = (v >> 20) & 0xf;
    let n3 = (v >> 16) & 0xf;
    let n4 = (v >> 12) & 0xf;
    let n5 = (v >> 8) & 0xf;
    let n6 = (v >> 4) & 0xf;
    let n7 = (v >> 0) & 0xf;
    assert((v >> 28) & 0xf < 16 && (v >> 24) & 0xf < 16 && (v >> 20) & 0xf < 16 && (v >> 16) & 0xf
        < 16 && (v >> 12) & 0xf < 16 && (v >> 8) & 0xf < 16 && (v >> 4) & 0xf < 16 && (v >> 0)
        & 0xf < 16) by (bit_vector);
    assert(hex_val(hex_digit(n0)) == n0);
    assert(hex_val(hex_digit(n1)) == n1);
    assert(hex_val(hex_digit(n2)) == n2);
    assert(hex_val(hex_digit(n3)) == n3);
    assert(hex_val(hex_digit(n4)) == n4);
    assert(hex_val(hex_digit(n5)) == n5);
    assert(hex_val(hex_digit(n6)) == n6);
    assert(hex_val(hex_digit(n7)) == n7);
    assert(v == ((v >> 28) & 0xf) << 28 | ((v >> 24) & 0xf) << 24 | ((v >> 20) & 0xf) << 20 | ((v
        >> 16) & 0xf) << 16 | ((v >> 12) & 0xf) << 12 | ((v >> 8) & 0xf) << 8 | ((v >> 4) & 0xf)
        << 4 | ((v >> 0) & 0xf)) by (bit_vector);
}

/// The entry kind a mode field stands for, if it is one this library
/// writes.
pub open spec fn kind_of_mode(mode: u32) -> Option<CpioKind> {
    if mode == MODE_FILE {
        Some(CpioKind::File)
    } else if mode == MODE_DIR {
        Some(CpioKind::Directory)
    } else if mode == MODE_SYMLINK {
        Some(CpioKind::Symlink)
    } else {
        None
    }
}

/// Parses an archive body: one encoded entry after another, each carrying
/// inode number `next_ino`, zero uid/gid/mtime/device/checksum fields and
/// the nlink count of its kind, up to the trailer record. Yields the
/// parsed entries in order, or nothing if the bytes are not exactly such
/// an archive.
pub open spec fn parse_rec(b: Seq<u8>, next_ino: u32) -> Option<Seq<CpioEntry>>
    decreases b.len(),
{
    if b.len() < 110 || b.subrange(0, 6) != magic_bytes() {
        None
    } else {
        let ino = parse_hex8(b.subrange(6, 14));
        let mode = parse_hex8(b.subrange(14, 22));
        let nlink = parse_hex8(b.subrange(38, 46));
        let filesize = parse_hex8(b.subrange(54, 62)) as int;
        let namesize = parse_hex8(b.subrange(94, 102)) as int;
        if mode == 0 {
            if b == trailer_bytes() {
                Some(Seq::empty())
            } else {
                None
            }
        } else if kind_of_mode(mode) is None {
            None
        } else {
            let kind = kind_of_mode(mode)->Some_0;
            let name_len = namesize - 1;
            let name_pad = pad4(111 + name_len);
            let data_pad = pad4(filesize);
            let data_at = 110 + name_len + 1 + name_pad;
            let entry_len = data_at + filesize + data_pad;
            if namesize < 1 || b.len() < entry_len || ino != next_ino || nlink != nlink_bits(kind)
                || b.subrange(22, 38) != hex8(0) + hex8(0) || b.subrange(46, 54) != hex8(0)
                || b.subrange(62, 94) != hex8(0) + hex8(0) + hex8(0) + hex8(0) || b.subrange(
                102,
                110,
            ) != hex8(0) || b.subrange(110 + name_len, data_at) != zeros(1 + name_pad)
                || b.subrange(data_at + filesize, entry_len) != zeros(data_pad) || next_ino
                == u32::MAX {
                None
            } else {
                let name = b.subrange(110, 110 + name_len);
                let data = b.subrange(data_at, data_at + filesize);
                let e = CpioEntry { kind: kind, path: decode_utf8(name), data: data };
                match parse_rec(b.skip(entry_len), (next_ino + 1) as u32) {
                    Some(rest) => Some(seq![e] + rest),
                    None => None,
                }
            }
        }
    }
}

/// Parses a finished archive, inode numbers counting up from 1.
pub open spec fn parse_archive(b: Seq<u8>) -> Option<Seq<CpioEntry>> {
    parse_rec(b, 1)
}

/// The archive body encoded entry by entry from the front, the first
/// carrying inode number `k`.
pub open spec fn enc_from(es: Seq<CpioEntry>, k: u32) -> Seq<u8>
    decreases es.len(),
{
    if es.len() == 0 {
        Seq::empty()
    } else {
        entry_bytes(k, es[0]) + enc_from(es.drop_first(), (k + 1) as u32)
    }
}

/// Front-first encoding absorbs an entry appended at the back.
proof fn lemma_enc_from_push(es: Seq<CpioEntry>, e: CpioEntry, k: u32)
    requires
        k as int + es.len() <= u32::MAX,
    ensures
        enc_from(es.push(e), k) == enc_from(es, k) + entry_bytes((k as int + es.len()) as u32, e),
    decreases es.len(),
{
    if es.len() == 0 {
        assert(es.push(e)[0] == e);
        assert(es.push(e).drop_first() =~= Seq::<CpioEntry>::empty());
        assert(enc_from(es.push(e).drop_first(), (k + 1) as u32) =~= Seq::<u8>::empty());
        assert(enc_from(es.push(e), k) =~= entry_bytes(k, e));
        assert(enc_from(es, k) + entry_bytes(k, e) =~= entry_bytes(k, e));
    } else {
        lemma_enc_from_push(es.drop_first(), e, (k + 1) as u32);
        assert(es.push(e)[0] == es[0]);
        assert(es.push(e).drop_first() =~= es.drop_first().push(e));
        assert(enc_from(es.push(e), k) =~= enc_from(es, k) + entry_bytes(
            (k as int + es.len()) as u32,
            e,
        ));
    }
}

/// The back-recursive encoding equals the front-first encoding that
/// starts at inode number 1.
proof fn lemma_entries_bytes_enc_from(es: Seq<CpioEntry>)
    requires
        es.len() <= u32::MAX - 1,
    ensures
        entries_bytes(es) == enc_from(es, 1),
    decreases es.len(),
{
    if es.len() > 0 {
        lemma_entries_bytes_enc_from(es.drop_last());
        lemma_enc_from_push(es.drop_last(), es.last(), 1);
        assert(es.drop_last().push(es.last()) =~= es);
    }
}

/// Where each field sits in the 110-byte header.
#[verifier::rlimit(60)]
proof fn lemma_header_shape(ino: u32, mode: u32, nlink: u32, filesize: u32, namesize: u32)
    ensures
        header_bytes(ino, mode, nlink, filesize, namesize).len() == 110,
        header_bytes(ino, mode, nlink, filesize, namesize).subrange(0, 6) == magic_bytes(),
        header_bytes(ino, mode, nlink, filesize, namesize).subrange(6, 14) == hex8(ino),
        header_bytes(ino, mode, nlink, filesize, namesize).subrange(14, 22) == hex8(mode),
        header_bytes(ino, mode, nlink, filesize, namesize).subrange(22, 38) == hex8(0) + hex8(0),
        header_bytes(ino, mode, nlink, filesize, namesize).subrange(38, 46) == hex8(nlink),
        header_bytes(ino, mode, nlink, filesize, namesize).subrange(46, 54) == hex8(0),
        header_bytes(ino, mode, nlink, filesize, namesize).subrange(54, 62) == hex8(filesize),
        header_bytes(ino, mode, nlink, filesize, namesize).subrange(62, 94) == hex8(0) + hex8(0)
            + hex8(0) + hex8(0),
        header_bytes(ino, mode, nlink, filesize, namesize).subrange(94, 102) == hex8(namesize),
        header_bytes(ino, mode, nlink, filesize, namesize).subrange(102, 110) == hex8(0),
{
    let h = header_bytes(ino, mode, nlink, filesize, namesize);
    assert(h.subrange(0, 6) =~= magic_bytes());
    assert(h.subrange(6, 14) =~= hex8(ino));
    assert(h.subrange(14, 22) =~= hex8(mode));
    assert(h.subrange(22, 38) =~= hex8(0) + hex8(0));
    assert(h.subrange(38, 46) =~= hex8(nlink));
    assert(h.subrange(46, 54) =~= hex8(0));
    assert(h.subrange(54, 62) =~= hex8(filesize));
    assert(h.subrange(62, 94) =~= hex8(0) + hex8(0) + hex8(0) + hex8(0));
    assert(h.subrange(94, 102) =~= hex8(namesize));
    assert(h.subrange(102, 110) =~= hex8(0));
}

/// Where the header, name, padding and payload sit in one encoded entry.
#[verifier::rlimit(60)]
proof fn lemma_raw_entry_shape(ino: u32, mode: u32, nlink: u32, name: Seq<u8>, data: Seq<u8>)
    requires
        name.len() + 1 <= u32::MAX,
        data.len() <= u32::MAX,
    ensures
        ({
            let a = raw_entry_bytes(ino, mode, nlink, name, data);
            let nl = name.len() as int;
            let fs = data.len() as int;
            let p1 = pad4(111 + nl);
            let p2 = pad4(fs);
            &&& a.len() == 110 + nl + 1 + p1 + fs + p2
            &&& a.subrange(0, 110) == header_bytes(ino, mode, nlink, fs as u32, (nl + 1) as u32)
            &&& a.subrange(110, 110 + nl) == name
            &&& a.subrange(110 + nl, 110 + nl + 1 + p1) == zeros(1 + p1)
            &&& a.subrange(110 + nl + 1 + p1, 110 + nl + 1 + p1 + fs) == data
            &&& a.subrange(110 + nl + 1 + p1 + fs, 110 + nl + 1 + p1 + fs + p2) == zeros(p2)
        }),
{
    let a = raw_entry_bytes(ino, mode, nlink, name, data);
    let nl = name.len() as int;
    let fs = data.len() as int;
    let p1 = pad4(111 + nl);
    let p2 = pad4(fs);
    lemma_header_shape(ino, mode, nlink, fs as u32, (nl + 1) as u32);
    assert(a.subrange(0, 110) =~= header_bytes(ino, mode, nlink, fs as u32, (nl + 1) as u32));
    assert(a.subrange(110, 110 + nl) =~= name);
    assert(a.subrange(110 + nl, 110 + nl + 1 + p1) =~= zeros(1 + p1));
    assert(a.subrange(110 + nl + 1 + p1, 110 + nl + 1 + p1 + fs) =~= data);
    assert(a.subrange(110 + nl + 1 + p1 + fs, 110 + nl + 1 + p1 + fs + p2) =~= zeros(p2));
}

/// Parsing the trailer record alone yields the empty entry sequence.
proof fn lemma_parse_trailer(k: u32)
    ensures
        parse_rec(trailer_bytes(), k) == Some(Seq::<CpioEntry>::empty()),
{
    let b = trailer_bytes();
    lemma_raw_entry_shape(0, 0, 1, trailer_name(), Seq::empty());
    assert(b.len() == 124);
    assert(b.subrange(0, 6) =~= b.subrange(0, 110).subrange(0, 6));
    assert(b.subrange(14, 22) =~= b.subrange(0, 110).subrange(14, 22));
    lemma_header_shape(0, 0, 1, 0, 11);
    lemma_parse_hex8_inverts(0);
}

/// Parsing the front-first encoding of well-formed entries followed by
/// the trailer yields exactly those entries.
#[verifier::rlimit(100)]
#[verifier::spinoff_prover]
proof fn lemma_parse_enc_from(es: Seq<CpioEntry>, k: u32)
    requires
        forall|i: int| 0 <= i < es.len() ==> wf_entry(#[trigger] es[i]),
        1 <= k,
        k as int + es.len() <= u32::MAX,
    ensures
        parse_rec(enc_from(es, k) + trailer_bytes(), k) == Some(es),
    decreases es.len(),
{
    let b = enc_from(es, k) + trailer_bytes();
    if es.len() == 0 {
        assert(b =~= trailer_bytes());
        lemma_parse_trailer(k);
    } else {
        let e = es[0];
        let rest = es.drop_first();
        let name = encode_utf8(e.path);
        let nl = name.len() as int;
        let fs = e.data.len() as int;
        let p1 = pad4(111 + nl);
        let p2 = pad4(fs);
        let entry = entry_bytes(k, e);
        let tail = enc_from(rest, (k + 1) as u32) + trailer_bytes();
        assert(b =~= entry + tail);
        lemma_raw_entry_shape(k, mode_bits(e.kind), nlink_bits(e.kind), name, e.data);
        lemma_header_shape(k, mode_bits(e.kind), nlink_bits(e.kind), fs as u32, (nl + 1) as u32);
        assert(entry.len() == 110 + nl + 1 + p1 + fs + p2);
        let head = entry.subrange(0, 110);
        assert(b.subrange(0, 110) =~= head);
        assert(b.subrange(0, 6) =~= head.subrange(0, 6));
        assert(b.subrange(6, 14) =~= head.subrange(6, 14));
        assert(b.subrange(14, 22) =~= head.subrange(14, 22));
        assert(b.subrange(22, 38) =~= head.subrange(22, 38));
        assert(b.subrange(38, 46) =~= head.subrange(38, 46));
        assert(b.subrange(46, 54) =~= head.subrange(46, 54));
        assert(b.subrange(54, 62) =~= head.subrange(54, 62));
        assert(b.subrange(62, 94) =~= head.subrange(62, 94));
        assert(b.subrange(94, 102) =~= head.subrange(94, 102));
        assert(b.subrange(102, 110) =~= head.subrange(102, 110));
        lemma_parse_hex8_inverts(k);
        lemma_parse_hex8_inverts(mode_bits(e.kind));
        lemma_parse_hex8_inverts(nlink_bits(e.kind));
        lemma_parse_hex8_inverts(fs as u32);
        lemma_parse_hex8_inverts((nl + 1) as u32);
        lemma_parse_hex8_inverts(0);
        assert(mode_bits(e.kind) != 0);
        assert(kind_of_mode(mode_bits(e.kind)) == Some(e.kind));
        let data_at = 110 + nl + 1 + p1;
        assert(b.subrange(110, 110 + nl) =~= entry.subrange(110, 110 + nl));
        assert(b.subrange(110 + nl, data_at) =~= entry.subrange(110 + nl, data_at));
        assert(b.subrange(data_at, data_at + fs) =~= entry.subrange(data_at, data_at + fs));
        assert(b.subrange(data_at + fs, entry.len() as int) =~= entry.subrange(
            data_at + fs,
            entry.len() as int,
        ));
        assert(b.skip(entry.len() as int) =~= tail);
        encode_utf8_decode_utf8(e.path);
        assert(forall|i: int| 0 <= i < rest.len() ==> wf_entry(#[trigger] rest[i]));
        lemma_parse_enc_from(rest, (k + 1) as u32);
        assert(seq![CpioEntry { kind: e.kind, path: decode_utf8(name), data: e.data }] + rest
            =~= es);
    }
}

/// The round-trip law of the archive encoding: parsing a finished archive
/// of well-formed entries yields exactly those entries, in insertion
/// order, with the mode, link count and payload of each, the inode
/// numbers counting up from 1, and the zero owner, time, device and
/// checksum fields, followed by exactly the one trailer record.
pub proof fn lemma_archive_round_trip(es: Seq<CpioEntry>)
    requires
        forall|i: int| 0 <= i < es.len() ==> wf_entry(#[trigger] es[i]),
        es.len() + 1 <= u32::MAX,
    ensures
        parse_archive(archive_bytes(es)) == Some(es),
{
    lemma_entries_bytes_enc_from(es);
    lemma_parse_enc_from(es, 1);
}

/// Appending an entry extends the encoded archive body by exactly that
/// entry's encoding, under the next inode number.
pub proof fn lemma_entries_bytes_push(es: Seq<CpioEntry>, e: CpioEntry)
    ensures
        entries_bytes(es.push(e)) == entries_bytes(es) + entry_bytes((es.len() + 1) as u32, e),
{
    assert(es.push(e).drop_last() =~= es);
    assert(es.push(e).last() == e);
}

/// Appends `s` to `buf`.
fn push_bytes(buf: &mut Vec<u8>, s: &[u8])
    ensures
        final(buf)@ == old(buf)@ + s@,
{
    let mut i: usize = 0;
    while i < s.len()
        invariant
            i <= s@.len(),
            buf@ == old(buf)@ + s@.take(i as int),
        decreases s@.len() - i,
    {
        buf.push(s[i]);
        proof {
            assert(s@.take(i + 1) =~= s@.take(i as int) + seq![s@[i as int]]);
        }
        i = i + 1;
    }
    proof {
        assert(s@.take(s@.len() as int) =~= s@);
    }
}

/// Appends `n` NUL bytes to `buf`.
fn push_zeros(buf: &mut Vec<u8>, n: usize)
    ensures
        final(buf)@ == old(buf)@ + zeros(n as int),
{
    let mut i: usize = 0;
    while i < n
        invariant
            i <= n,
            buf@ == old(buf)@ + zeros(i as int),
        decreases n - i,
    {
        buf.push(0);
        proof {
            assert(zeros(i + 1) =~= zeros(i as int) + seq![0u8]);
        }
        i = i + 1;
    }
}

/// Appends the 8 hexadecimal digits of `v` to `buf`.
fn push_hex8(buf: &mut Vec<u8>, v: u32)
    ensures
        final(buf)@ == old(buf)@ + hex8(v),
{
    let mut i: usize = 0;
    while i < 8
        invariant
            i <= 8,
            buf@ == old(buf)@ + hex8(v).take(i as int),
        decreases 8 - i,
    {
        let sh: u32 = ((7 - i) as u32) * 4;
        let nib: u32 = (v >> sh) & 0xf;
        proof {
            assert((v >> sh) & 0xf < 16) by (bit_vector);
        }
        let d: u8 = if nib < 10 {
            (48 + nib) as u8
        } else {
            (87 + nib) as u8
        };
        buf.push(d);
        proof {
            assert(d == hex8(v)[i as int]);
            assert(hex8(v).take(i + 1) =~= hex8(v).take(i as int) + seq![hex8(v)[i as int]]);
        }
        i = i + 1;
    }
    proof {
        assert(hex8(v).take(8) =~= hex8(v));
    }
}

/// Appends one complete encoded entry to `buf`.
#[verifier::rlimit(100)]
#[verifier::spinoff_prover]
pub(crate) fn append_raw_entry(
    buf: &mut Vec<u8>,
    ino: u32,
    mode: u32,
    nlink: u32,
    name: &[u8],
    data: &[u8],
)
    requires
        name@.len() + 1 <= u32::MAX,
        data@.len() <= u32::MAX,
    ensures
        final(buf)@ == old(buf)@ + raw_entry_bytes(ino, mode, nlink, name@, data@),
{
    let ghost b0 = buf@;
    let filesize: u32 = data.len() as u32;
    let namesize: u32 = (name.len() + 1) as u32;
    buf.push(48);
    buf.push(55);
    buf.push(48);
    buf.push(55);
    buf.push(48);
    buf.push(49);
    proof {
        assert(buf@ =~= b0 + magic_bytes());
    }
    push_hex8(buf, ino);
    push_hex8(buf, mode);
    push_hex8(buf, 0);
    push_hex8(buf, 0);
    push_hex8(buf, nlink);
    push_hex8(buf, 0);
    push_hex8(buf, filesize);
    push_hex8(buf, 0);
    push_hex8(buf, 0);
    push_hex8(buf, 0);
    push_hex8(buf, 0);
    push_hex8(buf, namesize);
    push_hex8(buf, 0);
    proof {
        assert(buf@ =~= b0 + header_bytes(ino, mode, nlink, filesize, namesize));
    }
    push_bytes(buf, name);
    buf.push(0);
    let rem: usize = (name.len() % 4 + 3) % 4;
    let padn: usize = (4 - rem) % 4;
    proof {
        assert(rem == (111 + name@.len() as int) % 4) by (nonlinear_arith)
            requires
                rem == (name@.len() as int % 4 + 3) % 4,
                name@.len() as int >= 0,
        ;
        assert(padn == pad4(111 + name@.len() as int));
    }
    push_zeros(buf, padn);
    push_bytes(buf, data);
    let rem2: usize = data.len() % 4;
    let padn2: usize = (4 - rem2) % 4;
    proof {
        assert(padn2 == pad4(data@.len() as int));
    }
    push_zeros(buf, padn2);
    proof {
        assert(buf@ =~= b0 + raw_entry_bytes(ino, mode, nlink, name@, data@));
    }
}

} // verus!
