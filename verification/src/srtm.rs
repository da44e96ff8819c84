//! Reading SRTM elevation tiles stored as GeoTIFF: the header, the chain of
//! image file directories (IFDs), the tags the tiles need, and the samples.
//! The floating-point parts (pixel scale, tie point, the pixel a point falls
//! in) are handed out as raw bits and indices computed by the caller.
use vstd::prelude::*;

use byteorder::{BigEndian, ByteOrder, LittleEndian};

use crate::coordinate::Coordinate;
use crate::values::{Latitude, Longitude};

verus! {

/// Byte order of a TIFF file, as announced by its first two bytes.
#[derive(Clone, Copy, Debug, PartialEq, Eq, Structural)]
pub enum SrtmByteOrder {
    LittleEndian,
    BigEndian,
}

/// The byte order that the marker `v` announces: `II` (0x4949) or `MM` (0x4D4D).
pub open spec fn byte_order_of(v: int) -> Option<SrtmByteOrder> {
    if v == 0x4949 {
        Some(SrtmByteOrder::LittleEndian)
    } else if v == 0x4D4D {
        Some(SrtmByteOrder::BigEndian)
    } else {
        None
    }
}

impl SrtmByteOrder {
    /// The byte order announced by the marker `v`, if it is one.
    pub fn from_u16(v: u16) -> (r: Option<SrtmByteOrder>)
        ensures
            r == byte_order_of(v as int),
    {
        if v == 0x4949 {
            Some(SrtmByteOrder::LittleEndian)
        } else if v == 0x4D4D {
            Some(SrtmByteOrder::BigEndian)
        } else {
            None
        }
    }
}

/// The IFD tags an SRTM tile is read with.
#[derive(Clone, Copy, Debug, PartialEq, Eq, Structural)]
pub enum IfdTag {
    ImageWidth,
    ImageHeight,
    StripOffsets,
    ModelPixelScale,
    ModelTiepoint,
    NoDataValue,
}

/// The number that stands for `tag` in a file.
pub open spec fn tag_code(tag: IfdTag) -> u16 {
    match tag {
        IfdTag::ImageWidth => 0x0100,
        IfdTag::ImageHeight => 0x0101,
        IfdTag::StripOffsets => 0x0111,
        IfdTag::ModelPixelScale => 0x830E,
        IfdTag::ModelTiepoint => 0x8482,
        IfdTag::NoDataValue => 0xA481,
    }
}

impl IfdTag {
    /// The number that stands for this tag in a file.
    pub fn code(&self) -> (c: u16)
        ensures
            c == tag_code(*self),
    {
        match self {
            IfdTag::ImageWidth => 0x0100,
            IfdTag::ImageHeight => 0x0101,
            IfdTag::StripOffsets => 0x0111,
            IfdTag::ModelPixelScale => 0x830E,
            IfdTag::ModelTiepoint => 0x8482,
            IfdTag::NoDataValue => 0xA481,
        }
    }

    /// The tag that the number `v` stands for, if it is one of these.
    pub fn from_u16(v: u16) -> (r: Option<IfdTag>)
        ensures
            r matches Some(t) ==> tag_code(t) == v,
            r is None ==> forall|t: IfdTag| tag_code(t) != v,
    {
        if v == 0x0100 {
            Some(IfdTag::ImageWidth)
        } else if v == 0x0101 {
            Some(IfdTag::ImageHeight)
        } else if v == 0x0111 {
            Some(IfdTag::StripOffsets)
        } else if v == 0x830E {
            Some(IfdTag::ModelPixelScale)
        } else if v == 0x8482 {
            Some(IfdTag::ModelTiepoint)
        } else if v == 0xA481 {
            Some(IfdTag::NoDataValue)
        } else {
            None
        }
    }
}

/// Why a tile could not be read.
#[derive(Clone, Copy, Debug, PartialEq, Eq, Structural)]
pub enum TiffError {
    /// The bytes ended before a field that had to be read.
    UnexpectedEnd,
    /// The first two bytes announce no byte order.
    InvalidByteOrder,
    /// The version field is not 42.
    InvalidVersion,
    /// A tag the tile needs is in no directory.
    MissingTag(IfdTag),
    /// The chain of directories is longer than the file has bytes, so it loops.
    TooManyDirectories,
    /// The no-data value is not the decimal text of an `i32`.
    InvalidNoDataValue,
}

/// Two bytes at `at`, least significant first.
pub open spec fn le16(b: Seq<u8>, at: int) -> int {
    b[at] as int + 256 * (b[at + 1] as int)
}

/// Two bytes at `at`, most significant first.
pub open spec fn be16(b: Seq<u8>, at: int) -> int {
    256 * (b[at] as int) + b[at + 1] as int
}

/// Four bytes at `at`, least significant first.
pub open spec fn le32(b: Seq<u8>, at: int) -> int {
    le16(b, at) + 65536 * le16(b, at + 2)
}

/// Four bytes at `at`, most significant first.
pub open spec fn be32(b: Seq<u8>, at: int) -> int {
    65536 * be16(b, at) + be16(b, at + 2)
}

/// Eight bytes at `at`, least significant first.
pub open spec fn le64(b: Seq<u8>, at: int) -> int {
    le32(b, at) + 4294967296 * le32(b, at + 4)
}

/// Eight bytes at `at`, most significant first.
pub open spec fn be64(b: Seq<u8>, at: int) -> int {
    4294967296 * be32(b, at) + be32(b, at + 4)
}

/// The 16-bit two's complement reading of `u`.
pub open spec fn signed16(u: int) -> int {
    if u < 32768 {
        u
    } else {
        u - 65536
    }
}

/// An unsigned 16-bit field at `at` in byte order `o`.
pub open spec fn u16_at(o: SrtmByteOrder, b: Seq<u8>, at: int) -> int {
    match o {
        SrtmByteOrder::LittleEndian => le16(b, at),
        SrtmByteOrder::BigEndian => be16(b, at),
    }
}

/// An unsigned 32-bit field at `at` in byte order `o`.
pub open spec fn u32_at(o: SrtmByteOrder, b: Seq<u8>, at: int) -> int {
    match o {
        SrtmByteOrder::LittleEndian => le32(b, at),
        SrtmByteOrder::BigEndian => be32(b, at),
    }
}

/// An unsigned 64-bit field at `at` in byte order `o`.
pub open spec fn u64_at(o: SrtmByteOrder, b: Seq<u8>, at: int) -> int {
    match o {
        SrtmByteOrder::LittleEndian => le64(b, at),
        SrtmByteOrder::BigEndian => be64(b, at),
    }
}

/// Calls `byteorder::LittleEndian::read_u16` on the bytes from `at`.
/// Claimed: the value of the two bytes at `at`, least significant first.
#[verifier::external_body]
fn le_u16_at(buf: &[u8], at: usize) -> (v: u16)
    requires
        at + 2 <= buf@.len(),
    ensures
        v == le16(buf@, at as int),
{
    LittleEndian::read_u16(&buf[at..])
}

/// Calls `byteorder::BigEndian::read_u16` on the bytes from `at`.
/// Claimed: the value of the two bytes at `at`, most significant first.
#[verifier::external_body]
fn be_u16_at(buf: &[u8], at: usize) -> (v: u16)
    requires
        at + 2 <= buf@.len(),
    ensures
        v == be16(buf@, at as int),
{
    BigEndian::read_u16(&buf[at..])
}

/// Calls `byteorder::LittleEndian::read_u32` on the bytes from `at`.
/// Claimed: the value of the four bytes at `at`, least significant first.
#[verifier::external_body]
fn le_u32_at(buf: &[u8], at: usize) -> (v: u32)
    requires
        at + 4 <= buf@.len(),
    ensures
        v == le32(buf@, at as int),
{
    LittleEndian::read_u32(&buf[at..])
}

/// Calls `byteorder::BigEndian::read_u32` on the bytes from `at`.
/// Claimed: the value of the four bytes at `at`, most significant first.
#[verifier::external_body]
fn be_u32_at(buf: &[u8], at: usize) -> (v: u32)
    requires
        at + 4 <= buf@.len(),
    ensures
        v == be32(buf@, at as int),
{
    BigEndian::read_u32(&buf[at..])
}

/// Calls `byteorder::LittleEndian::read_u64` on the bytes from `at`.
/// Claimed: the value of the eight bytes at `at`, least significant first.
#[verifier::external_body]
fn le_u64_at(buf: &[u8], at: usize) -> (v: u64)
    requires
        at + 8 <= buf@.len(),
    ensures
        v == le64(buf@, at as int),
{
    LittleEndian::read_u64(&buf[at..])
}

/// Calls `byteorder::BigEndian::read_u64` on the bytes from `at`.
/// Claimed: the value of the eight bytes at `at`, most significant first.
#[verifier::external_body]
fn be_u64_at(buf: &[u8], at: usize) -> (v: u64)
    requires
        at + 8 <= buf@.len(),
    ensures
        v == be64(buf@, at as int),
{
    BigEndian::read_u64(&buf[at..])
}

/// Calls `byteorder::LittleEndian::read_i16` on the bytes from `at`.
/// Claimed: the two bytes at `at`, least significant first, read as two's complement.
#[verifier::external_body]
fn le_i16_at(buf: &[u8], at: usize) -> (v: i16)
    requires
        at + 2 <= buf@.len(),
    ensures
        v == signed16(le16(buf@, at as int)),
{
    LittleEndian::read_i16(&buf[at..])
}

/// Calls `byteorder::BigEndian::read_i16` on the bytes from `at`.
/// Claimed: the two bytes at `at`, most significant first, read as two's complement.
#[verifier::external_body]
fn be_i16_at(buf: &[u8], at: usize) -> (v: i16)
    requires
        at + 2 <= buf@.len(),
    ensures
        v == signed16(be16(buf@, at as int)),
{
    BigEndian::read_i16(&buf[at..])
}

/// The unsigned 16-bit field at `at` in byte order `o`.
pub fn read_u16_at(o: SrtmByteOrder, b: &[u8], at: usize) -> (v: u16)
    requires
        at + 2 <= b@.len(),
    ensures
        v == u16_at(o, b@, at as int),
{
    match o {
        SrtmByteOrder::LittleEndian => le_u16_at(b, at),
        SrtmByteOrder::BigEndian => be_u16_at(b, at),
    }
}

/// The unsigned 32-bit field at `at` in byte order `o`.
pub fn read_u32_at(o: SrtmByteOrder, b: &[u8], at: usize) -> (v: u32)
    requires
        at + 4 <= b@.len(),
    ensures
        v == u32_at(o, b@, at as int),
{
    match o {
        SrtmByteOrder::LittleEndian => le_u32_at(b, at),
        SrtmByteOrder::BigEndian => be_u32_at(b, at),
    }
}

/// The unsigned 64-bit field at `at` in byte order `o`.
pub fn read_u64_at(o: SrtmByteOrder, b: &[u8], at: usize) -> (v: u64)
    requires
        at + 8 <= b@.len(),
    ensures
        v == u64_at(o, b@, at as int),
{
    match o {
        SrtmByteOrder::LittleEndian => le_u64_at(b, at),
        SrtmByteOrder::BigEndian => be_u64_at(b, at),
    }
}

/// The signed 16-bit field at `at` in byte order `o`.
pub fn read_i16_at(o: SrtmByteOrder, b: &[u8], at: usize) -> (v: i16)
    requires
        at + 2 <= b@.len(),
    ensures
        v == signed16(u16_at(o, b@, at as int)),
{
    match o {
        SrtmByteOrder::LittleEndian => le_i16_at(b, at),
        SrtmByteOrder::BigEndian => be_i16_at(b, at),
    }
}

/// What the eight-byte header of a tile says: its byte order and where its
/// first directory starts; read in the order the fields stand. The version
/// field is read least significant byte first whatever the byte order, so a
/// big-endian file passes only with its version bytes `2A 00`.
pub open spec fn header_spec(b: Seq<u8>) -> Result<(SrtmByteOrder, u32), TiffError> {
    if b.len() < 2 {
        Err(TiffError::UnexpectedEnd)
    } else {
        match byte_order_of(le16(b, 0)) {
            None => Err(TiffError::InvalidByteOrder),
            Some(o) => if b.len() < 4 {
                Err(TiffError::UnexpectedEnd)
            } else if le16(b, 2) != 0x2A {
                Err(TiffError::InvalidVersion)
            } else if b.len() < 8 {
                Err(TiffError::UnexpectedEnd)
            } else {
                Ok((o, u32_at(o, b, 4) as u32))
            },
        }
    }
}

/// Reads the header of a tile.
pub fn read_header(b: &[u8]) -> (r: Result<(SrtmByteOrder, u32), TiffError>)
    ensures
        r == header_spec(b@),
{
    if b.len() < 2 {
        return Err(TiffError::UnexpectedEnd);
    }
    let marker = le_u16_at(b, 0);
    let o = match SrtmByteOrder::from_u16(marker) {
        Some(o) => o,
        None => {
            return Err(TiffError::InvalidByteOrder);
        },
    };
    if b.len() < 4 {
        return Err(TiffError::UnexpectedEnd);
    }
    let version = le_u16_at(b, 2);
    if version != 0x2A {
        return Err(TiffError::InvalidVersion);
    }
    if b.len() < 8 {
        return Err(TiffError::UnexpectedEnd);
    }
    let ifd_offset = read_u32_at(o, b, 4);
    Ok((o, ifd_offset))
}

/// One entry of a directory: a tag number, the type of its values, how many
/// there are, and the value itself or the offset where the values stand.
#[derive(Clone, Copy, Debug, PartialEq, Eq, Structural)]
pub struct IfdEntry {
    pub tag: u16,
    pub datatype: u16,
    pub count: u32,
    pub data: u32,
}

/// The twelve-byte entry at `at`.
pub open spec fn entry_at(o: SrtmByteOrder, b: Seq<u8>, at: int) -> IfdEntry {
    IfdEntry {
        tag: u16_at(o, b, at) as u16,
        datatype: u16_at(o, b, at + 2) as u16,
        count: u32_at(o, b, at + 4) as u32,
        data: u32_at(o, b, at + 8) as u32,
    }
}

/// The `n` entries of the directory whose count field stands at `offset`.
pub open spec fn entries_at(o: SrtmByteOrder, b: Seq<u8>, offset: int, n: nat) -> Seq<IfdEntry> {
    Seq::new(n, |k: int| entry_at(o, b, offset + 2 + 12 * k))
}

/// The entries of the chain of directories that starts at `offset`, in the
/// order they stand, following at most `fuel` directories: each directory is
/// a count, that many entries, and the offset of the next one (0 for none).
pub open spec fn ifd_chain(o: SrtmByteOrder, b: Seq<u8>, offset: int, fuel: nat) -> Result<Seq<IfdEntry>, TiffError>
    decreases fuel,
{
    if fuel == 0 {
        Err(TiffError::TooManyDirectories)
    } else if offset + 2 > b.len() {
        Err(TiffError::UnexpectedEnd)
    } else {
        let n = u16_at(o, b, offset);
        let end = offset + 2 + 12 * n;
        if end + 4 > b.len() {
            Err(TiffError::UnexpectedEnd)
        } else {
            let here = entries_at(o, b, offset, n as nat);
            let next = u32_at(o, b, end);
            if next == 0 {
                Ok(here)
            } else {
                match ifd_chain(o, b, next, (fuel - 1) as nat) {
                    Ok(rest) => Ok(here + rest),
                    Err(e) => Err(e),
                }
            }
        }
    }
}

/// A result holding a vector, seen through the vector's contents.
pub open spec fn entries_view(r: Result<Vec<IfdEntry>, TiffError>) -> Result<Seq<IfdEntry>, TiffError> {
    match r {
        Ok(v) => Ok(v@),
        Err(e) => Err(e),
    }
}

/// Reads the entry at `at`.
fn read_entry(o: SrtmByteOrder, b: &[u8], at: usize) -> (e: IfdEntry)
    requires
        at + 12 <= b@.len(),
    ensures
        e == entry_at(o, b@, at as int),
{
    let _len = b.len();
    let tag = read_u16_at(o, b, at);
    let datatype = read_u16_at(o, b, at + 2);
    let count = read_u32_at(o, b, at + 4);
    let data = read_u32_at(o, b, at + 8);
    IfdEntry { tag, datatype, count, data }
}

/// Reads the chain of directories that starts at `offset`, following at most
/// `fuel` directories.
pub fn read_ifd(o: SrtmByteOrder, b: &[u8], offset: u32, fuel: usize) -> (r: Result<Vec<IfdEntry>, TiffError>)
    ensures
        entries_view(r) == ifd_chain(o, b@, offset as int, fuel as nat),
    decreases fuel,
{
    if fuel == 0 {
        return Err(TiffError::TooManyDirectories);
    }
    let len = b.len();
    if len < 2 || offset as usize > len - 2 {
        return Err(TiffError::UnexpectedEnd);
    }
    let off = offset as usize;
    let n = read_u16_at(o, b, off);
    let end_wide: u64 = off as u64 + 2 + 12 * (n as u64);
    if end_wide + 4 > len as u64 {
        return Err(TiffError::UnexpectedEnd);
    }
    let end = end_wide as usize;
    let mut here: Vec<IfdEntry> = Vec::new();
    let mut k: usize = 0;
    while k < n as usize
        invariant
            k <= n,
            end == off + 2 + 12 * n,
            end + 4 <= b@.len(),
            here@ =~= entries_at(o, b@, off as int, k as nat),
        decreases n - k,
    {
        let e = read_entry(o, b, off + 2 + 12 * k);
        here.push(e);
        k = k + 1;
    }
    let next = read_u32_at(o, b, end);
    if next == 0 {
        return Ok(here);
    }
    match read_ifd(o, b, next, fuel - 1) {
        Ok(rest) => {
            let ghost front = here@;
            let mut j: usize = 0;
            while j < rest.len()
                invariant
                    j <= rest@.len(),
                    here@ =~= front + rest@.subrange(0, j as int),
                decreases rest@.len() - j,
            {
                here.push(rest[j]);
                j = j + 1;
            }
            assert(rest@.subrange(0, rest@.len() as int) =~= rest@);
            Ok(here)
        },
        Err(e) => Err(e),
    }
}

/// The last entry of `es` with the number of `tag`: a later directory, or a
/// later entry of the same directory, overrides an earlier one.
pub open spec fn find_tag(es: Seq<IfdEntry>, tag: IfdTag) -> Option<IfdEntry>
    decreases es.len(),
{
    if es.len() == 0 {
        None
    } else if es.last().tag == tag_code(tag) {
        Some(es.last())
    } else {
        find_tag(es.drop_last(), tag)
    }
}

/// Looks up `tag` among `es`.
pub fn find_entry(es: &Vec<IfdEntry>, tag: IfdTag) -> (r: Option<IfdEntry>)
    ensures
        r == find_tag(es@, tag),
{
    let code = tag.code();
    let mut i: usize = es.len();
    assert(es@.subrange(0, i as int) =~= es@);
    while i > 0
        invariant
            i <= es@.len(),
            code == tag_code(tag),
            find_tag(es@, tag) == find_tag(es@.subrange(0, i as int), tag),
        decreases i,
    {
        let e = es[i - 1];
        assert(es@.subrange(0, i as int).last() == e);
        if e.tag == code {
            return Some(e);
        }
        assert(es@.subrange(0, i as int).drop_last() =~= es@.subrange(0, i - 1));
        i = i - 1;
    }
    assert(es@.subrange(0, 0).len() == 0);
    None
}

/// Whether `c` is an ASCII digit.
pub open spec fn is_digit(c: u8) -> bool {
    48 <= c <= 57
}

/// Whether every byte of `s` is an ASCII digit.
pub open spec fn all_digits(s: Seq<u8>) -> bool {
    forall|k: int| 0 <= k < s.len() ==> #[trigger] is_digit(s[k])
}

/// The number that the digits `s` write in base ten.
pub open spec fn digits_value(s: Seq<u8>) -> int
    decreases s.len(),
{
    if s.len() == 0 {
        0
    } else {
        10 * digits_value(s.drop_last()) + (s.last() as int - 48)
    }
}

/// The `i32` that the text `s` writes: an optional `+` or `-`, then one or more
/// decimal digits, with a value within the range of `i32`.
pub open spec fn parse_i32_spec(s: Seq<u8>) -> Option<i32> {
    if s.len() == 0 {
        None
    } else {
        let signed = s[0] == 45u8 || s[0] == 43u8;
        let body = if signed { s.drop_first() } else { s };
        if body.len() == 0 || !all_digits(body) {
            None
        } else {
            let v = if s[0] == 45u8 { -digits_value(body) } else { digits_value(body) };
            if i32::MIN <= v <= i32::MAX {
                Some(v as i32)
            } else {
                None
            }
        }
    }
}

proof fn lemma_digits_value_grows(s: Seq<u8>, k: int)
    requires
        all_digits(s),
        0 <= k <= s.len(),
    ensures
        0 <= digits_value(s.subrange(0, k)) <= digits_value(s),
    decreases s.len(),
{
    if s.len() > 0 {
        assert(all_digits(s.drop_last())) by {
            assert forall|j: int| 0 <= j < s.drop_last().len() implies #[trigger] is_digit(s.drop_last()[j]) by {
                assert(is_digit(s[j]));
            }
        }
        assert(is_digit(s[s.len() - 1]));
        if k == s.len() {
            assert(s.subrange(0, k) =~= s);
            lemma_digits_value_grows(s.drop_last(), 0);
        } else {
            assert(s.drop_last().subrange(0, k) =~= s.subrange(0, k));
            lemma_digits_value_grows(s.drop_last(), k);
        }
    } else {
        assert(s.subrange(0, k) =~= s);
    }
}

/// Reads the bytes `b[start..end]` as the decimal text of an `i32`.
pub fn parse_decimal_i32(b: &[u8], start: usize, end: usize) -> (r: Option<i32>)
    requires
        start <= end <= b@.len(),
    ensures
        r == parse_i32_spec(b@.subrange(start as int, end as int)),
{
    let ghost s = b@.subrange(start as int, end as int);
    if start == end {
        return None;
    }
    let first = b[start];
    assert(s[0] == first);
    let neg = first == 45u8;
    let from = if first == 45u8 || first == 43u8 { start + 1 } else { start };
    let ghost body = b@.subrange(from as int, end as int);
    proof {
        if first == 45u8 || first == 43u8 {
            assert(body =~= s.drop_first());
        } else {
            assert(body =~= s);
        }
    }
    if from == end {
        return None;
    }
    let mut acc: i64 = 0;
    let mut k: usize = from;
    assert(b@.subrange(from as int, from as int) =~= Seq::<u8>::empty());
    while k < end
        invariant
            from <= k <= end <= b@.len(),
            start < from || start == from,
            s == b@.subrange(start as int, end as int),
            s.len() > 0,
            s[0] == first,
            neg == (first == 45u8),
            body == b@.subrange(from as int, end as int),
            body.len() > 0,
            body == (if first == 45u8 || first == 43u8 { s.drop_first() } else { s }),
            all_digits(b@.subrange(from as int, k as int)),
            acc == digits_value(b@.subrange(from as int, k as int)),
            0 <= acc <= 2147483648,
        decreases end - k,
    {
        let c = b[k];
        if c < 48u8 || c > 57u8 {
            proof {
                assert(!is_digit(body[k - from]));
            }
            return None;
        }
        let next = acc * 10 + (c - 48u8) as i64;
        proof {
            let pre = b@.subrange(from as int, k + 1);
            assert(pre.drop_last() =~= b@.subrange(from as int, k as int));
            assert(pre.last() == c);
            assert forall|j: int| 0 <= j < pre.len() implies #[trigger] is_digit(pre[j]) by {
                if j < pre.len() - 1 {
                    assert(pre[j] == b@.subrange(from as int, k as int)[j]);
                }
            }
        }
        if next > 2147483648 {
            proof {
                let pre = b@.subrange(from as int, k + 1);
                if all_digits(body) {
                    assert(body.subrange(0, k + 1 - from) =~= pre);
                    lemma_digits_value_grows(body, k + 1 - from);
                }
            }
            return None;
        }
        acc = next;
        k = k + 1;
    }
    let v: i64 = if neg { -acc } else { acc };
    if v < -2147483648 || v > 2147483647 {
        return None;
    }
    Some(v as i32)
}

/// The `n` unsigned 32-bit fields from `at`.
pub open spec fn u32s_at(o: SrtmByteOrder, b: Seq<u8>, at: int, n: nat) -> Seq<u32> {
    Seq::new(n, |k: int| u32_at(o, b, at + 4 * k) as u32)
}

/// What a tile's directories give: the byte order, the size in pixels, where
/// each row starts, the raw bits of the two pixel scales (longitude, latitude)
/// and of the tie point's longitude and latitude, and the value that marks a
/// pixel without data.
pub struct SrtmLayout {
    pub byte_order: SrtmByteOrder,
    pub width: u32,
    pub height: u32,
    pub strip_offsets: Vec<u32>,
    pub pixel_scale_bits: (u64, u64),
    pub tiepoint_bits: (u64, u64),
    pub no_data_value: i32,
}

/// A layout with its row offsets as a sequence.
pub struct SrtmLayoutView {
    pub byte_order: SrtmByteOrder,
    pub width: u32,
    pub height: u32,
    pub strip_offsets: Seq<u32>,
    pub pixel_scale_bits: (u64, u64),
    pub tiepoint_bits: (u64, u64),
    pub no_data_value: i32,
}

impl View for SrtmLayout {
    type V = SrtmLayoutView;

    open spec fn view(&self) -> SrtmLayoutView {
        SrtmLayoutView {
            byte_order: self.byte_order,
            width: self.width,
            height: self.height,
            strip_offsets: self.strip_offsets@,
            pixel_scale_bits: self.pixel_scale_bits,
            tiepoint_bits: self.tiepoint_bits,
            no_data_value: self.no_data_value,
        }
    }
}

/// The no-data value that the entry `nd` points to: `count - 1` bytes of
/// decimal text at `data`.
pub open spec fn no_data_spec(b: Seq<u8>, nd: IfdEntry) -> Option<i32> {
    if nd.count == 0 || nd.data + nd.count - 1 > b.len() {
        None
    } else {
        parse_i32_spec(b.subrange(nd.data as int, nd.data + nd.count - 1))
    }
}

/// The layout that the directory entries `es` give, looked up in the order
/// the tags are needed.
pub open spec fn layout_from_entries(o: SrtmByteOrder, b: Seq<u8>, es: Seq<IfdEntry>) -> Result<SrtmLayoutView, TiffError> {
    match find_tag(es, IfdTag::ImageWidth) {
        None => Err(TiffError::MissingTag(IfdTag::ImageWidth)),
        Some(w) => match find_tag(es, IfdTag::ImageHeight) {
            None => Err(TiffError::MissingTag(IfdTag::ImageHeight)),
            Some(h) => match find_tag(es, IfdTag::StripOffsets) {
                None => Err(TiffError::MissingTag(IfdTag::StripOffsets)),
                Some(so) => if so.data + 4 * so.count > b.len() {
                    Err(TiffError::UnexpectedEnd)
                } else {
                    match find_tag(es, IfdTag::ModelPixelScale) {
                        None => Err(TiffError::MissingTag(IfdTag::ModelPixelScale)),
                        Some(ps) => if ps.data + 16 > b.len() {
                            Err(TiffError::UnexpectedEnd)
                        } else {
                            match find_tag(es, IfdTag::ModelTiepoint) {
                                None => Err(TiffError::MissingTag(IfdTag::ModelTiepoint)),
                                Some(tp) => if tp.data + 48 > b.len() {
                                    Err(TiffError::UnexpectedEnd)
                                } else {
                                    match find_tag(es, IfdTag::NoDataValue) {
                                        None => Err(TiffError::MissingTag(IfdTag::NoDataValue)),
                                        Some(nd) => match no_data_spec(b, nd) {
                                            None => Err(TiffError::InvalidNoDataValue),
                                            Some(v) => Ok(SrtmLayoutView {
                                                byte_order: o,
                                                width: w.data,
                                                height: h.data,
                                                strip_offsets: u32s_at(o, b, so.data as int, so.count as nat),
                                                pixel_scale_bits: (
                                                    u64_at(o, b, ps.data as int) as u64,
                                                    u64_at(o, b, ps.data + 8) as u64,
                                                ),
                                                tiepoint_bits: (
                                                    u64_at(o, b, tp.data + 24) as u64,
                                                    u64_at(o, b, tp.data + 32) as u64,
                                                ),
                                                no_data_value: v,
                                            }),
                                        },
                                    }
                                },
                            }
                        },
                    }
                },
            },
        },
    }
}

/// The layout of the tile `b`: its header, then its chain of directories
/// (followed at most as many times as the file has bytes), then the tags.
pub open spec fn layout_spec(b: Seq<u8>) -> Result<SrtmLayoutView, TiffError> {
    match header_spec(b) {
        Err(e) => Err(e),
        Ok((o, off)) => match ifd_chain(o, b, off as int, b.len()) {
            Err(e) => Err(e),
            Ok(es) => layout_from_entries(o, b, es),
        },
    }
}

/// A result holding a layout, seen through the layout's view.
pub open spec fn layout_view(r: Result<SrtmLayout, TiffError>) -> Result<SrtmLayoutView, TiffError> {
    match r {
        Ok(l) => Ok(l@),
        Err(e) => Err(e),
    }
}

/// Reads the `n` unsigned 32-bit fields from `at`.
fn read_u32s(o: SrtmByteOrder, b: &[u8], at: usize, n: usize) -> (v: Vec<u32>)
    requires
        at + 4 * n <= b@.len(),
    ensures
        v@ =~= u32s_at(o, b@, at as int, n as nat),
{
    let mut v: Vec<u32> = Vec::new();
    let mut k: usize = 0;
    let len = b.len();
    while k < n
        invariant
            k <= n,
            len == b@.len(),
            at + 4 * n <= len,
            v@ =~= u32s_at(o, b@, at as int, k as nat),
        decreases n - k,
    {
        let x = read_u32_at(o, b, at + 4 * k);
        v.push(x);
        k = k + 1;
    }
    v
}

/// Reads the layout of a tile from all of its bytes.
pub fn read_layout(b: &[u8]) -> (r: Result<SrtmLayout, TiffError>)
    ensures
        layout_view(r) == layout_spec(b@),
{
    let (o, off) = read_header(b)?;
    let es = match read_ifd(o, b, off, b.len()) {
        Ok(es) => es,
        Err(e) => {
            return Err(e);
        },
    };
    let len = b.len() as u64;
    let w = match find_entry(&es, IfdTag::ImageWidth) {
        Some(e) => e,
        None => {
            return Err(TiffError::MissingTag(IfdTag::ImageWidth));
        },
    };
    let h = match find_entry(&es, IfdTag::ImageHeight) {
        Some(e) => e,
        None => {
            return Err(TiffError::MissingTag(IfdTag::ImageHeight));
        },
    };
    let so = match find_entry(&es, IfdTag::StripOffsets) {
        Some(e) => e,
        None => {
            return Err(TiffError::MissingTag(IfdTag::StripOffsets));
        },
    };
    if so.data as u64 + 4 * (so.count as u64) > len {
        return Err(TiffError::UnexpectedEnd);
    }
    let strip_offsets = read_u32s(o, b, so.data as usize, so.count as usize);
    let ps = match find_entry(&es, IfdTag::ModelPixelScale) {
        Some(e) => e,
        None => {
            return Err(TiffError::MissingTag(IfdTag::ModelPixelScale));
        },
    };
    if ps.data as u64 + 16 > len {
        return Err(TiffError::UnexpectedEnd);
    }
    let pixel_scale_bits = (read_u64_at(o, b, ps.data as usize), read_u64_at(o, b, ps.data as usize + 8));
    let tp = match find_entry(&es, IfdTag::ModelTiepoint) {
        Some(e) => e,
        None => {
            return Err(TiffError::MissingTag(IfdTag::ModelTiepoint));
        },
    };
    if tp.data as u64 + 48 > len {
        return Err(TiffError::UnexpectedEnd);
    }
    let tiepoint_bits = (read_u64_at(o, b, tp.data as usize + 24), read_u64_at(o, b, tp.data as usize + 32));
    let nd = match find_entry(&es, IfdTag::NoDataValue) {
        Some(e) => e,
        None => {
            return Err(TiffError::MissingTag(IfdTag::NoDataValue));
        },
    };
    if nd.count == 0 || nd.data as u64 + (nd.count - 1) as u64 > len {
        return Err(TiffError::InvalidNoDataValue);
    }
    let no_data_value = match parse_decimal_i32(b, nd.data as usize, nd.data as usize + (nd.count - 1) as usize) {
        Some(v) => v,
        None => {
            return Err(TiffError::InvalidNoDataValue);
        },
    };
    Ok(SrtmLayout {
        byte_order: o,
        width: w.data,
        height: h.data,
        strip_offsets,
        pixel_scale_bits,
        tiepoint_bits,
        no_data_value,
    })
}

/// The elevation that a sample holds, or nothing where it is the no-data value.
pub open spec fn sample_value(raw: int, no_data: i32) -> Option<i32> {
    if raw == no_data {
        None
    } else {
        Some(raw as i32)
    }
}

impl SrtmLayout {
    /// Where the sample of row `lat_idx`, column `lon_idx` starts: two bytes
    /// per sample from the start of the row.
    pub fn sample_offset(&self, lat_idx: usize, lon_idx: u32) -> (off: u32)
        requires
            lat_idx < self.strip_offsets@.len(),
            self.strip_offsets@[lat_idx as int] + 2 * lon_idx <= u32::MAX,
        ensures
            off == self.strip_offsets@[lat_idx as int] + 2 * lon_idx,
    {
        self.strip_offsets[lat_idx] + lon_idx * 2
    }

    /// The elevation in the two bytes `sample`, read in the tile's byte order;
    /// nothing where they hold the no-data value.
    pub fn decode_sample(&self, sample: &[u8]) -> (r: Option<i32>)
        requires
            sample@.len() >= 2,
        ensures
            r == sample_value(signed16(u16_at(self.byte_order, sample@, 0)), self.no_data_value),
    {
        let raw = read_i16_at(self.byte_order, sample, 0) as i32;
        if raw == self.no_data_value {
            None
        } else {
            Some(raw)
        }
    }
}

/// The area a tile covers: latitudes from `lat_start` up to, not including,
/// `lat_end`, and longitudes likewise.
#[derive(Clone, Copy, Debug, PartialEq, Eq, Structural)]
pub struct SrtmArea {
    pub lat_start: Latitude,
    pub lat_end: Latitude,
    pub lon_start: Longitude,
    pub lon_end: Longitude,
}

/// Whether the area `a` covers `c`.
pub open spec fn area_covers(a: SrtmArea, c: Coordinate) -> bool {
    &&& a.lat_start@ <= c.latitude@ < a.lat_end@
    &&& a.lon_start@ <= c.longitude@ < a.lon_end@
}

impl SrtmArea {
    /// Whether this area covers `c`.
    pub fn contains(&self, c: &Coordinate) -> (b: bool)
        ensures
            b == area_covers(*self, *c),
    {
        let lat = c.latitude.value();
        let lon = c.longitude.value();
        self.lat_start.value() <= lat && lat < self.lat_end.value() && self.lon_start.value() <= lon
            && lon < self.lon_end.value()
    }
}

/// The tiles elevations are looked up in, by the areas they cover.
pub struct SrtmReader {
    pub areas: Vec<SrtmArea>,
}

impl SrtmReader {
    /// The first tile, in the order given, that covers `c`; none if no tile does.
    pub fn find_area(&self, c: &Coordinate) -> (r: Option<usize>)
        ensures
            r matches Some(i) ==> i < self.areas@.len() && area_covers(self.areas@[i as int], *c)
                && forall|j: int| 0 <= j < i ==> !area_covers(#[trigger] self.areas@[j], *c),
            r is None ==> forall|j: int| 0 <= j < self.areas@.len() ==> !area_covers(#[trigger] self.areas@[j], *c),
    {
        let mut i: usize = 0;
        while i < self.areas.len()
            invariant
                i <= self.areas@.len(),
                forall|j: int| 0 <= j < i ==> !area_covers(#[trigger] self.areas@[j], *c),
            decreases self.areas@.len() - i,
        {
            if self.areas[i].contains(c) {
                return Some(i);
            }
            i = i + 1;
        }
        None
    }
}

} // verus!
