use route_bucket::coordinate::Coordinate;
use route_bucket::srtm::{
    parse_decimal_i32, read_header, read_layout, IfdTag, SrtmArea, SrtmByteOrder, SrtmReader, TiffError,
};
use route_bucket::values::{Latitude, Longitude};

struct Tiff {
    big: bool,
    bytes: Vec<u8>,
}

impl Tiff {
    fn new(big: bool) -> Tiff {
        Tiff { big, bytes: Vec::new() }
    }
    fn u16(&mut self, v: u16) {
        let b = if self.big { v.to_be_bytes() } else { v.to_le_bytes() };
        self.bytes.extend_from_slice(&b);
    }
    fn u32(&mut self, v: u32) {
        let b = if self.big { v.to_be_bytes() } else { v.to_le_bytes() };
        self.bytes.extend_from_slice(&b);
    }
    fn f64(&mut self, v: f64) {
        let b = if self.big { v.to_be_bytes() } else { v.to_le_bytes() };
        self.bytes.extend_from_slice(&b);
    }
    fn i16(&mut self, v: i16) {
        let b = if self.big { v.to_be_bytes() } else { v.to_le_bytes() };
        self.bytes.extend_from_slice(&b);
    }
    fn entry(&mut self, tag: u16, datatype: u16, count: u32, data: u32) {
        self.u16(tag);
        self.u16(datatype);
        self.u32(count);
        self.u32(data);
    }
}

/// A 4 x 2 tile whose no-data value is -32768; `skip_no_data` leaves that
/// tag out, and `next_ifd` is the offset written after the directory.
fn tile(big: bool, skip_no_data: bool, next_ifd: u32) -> Vec<u8> {
    let mut t = Tiff::new(big);
    t.bytes.extend_from_slice(if big { b"MM" } else { b"II" });
    // the version field is read least significant byte first whatever the byte order
    t.bytes.extend_from_slice(&0x2Au16.to_le_bytes());
    t.u32(8);
    let n: u16 = 6;
    t.u16(n);
    t.entry(0x0100, 4, 1, 4);
    t.entry(0x0101, 4, 1, 2);
    t.entry(0x0111, 4, 2, 86);
    t.entry(0x830E, 12, 3, 94);
    t.entry(0x8482, 12, 6, 118);
    if !skip_no_data {
        t.entry(0xA481, 2, 7, 166);
    } else {
        t.entry(0x0102, 3, 1, 16);
    }
    t.u32(next_ifd);
    assert_eq!(t.bytes.len(), 86);
    t.u32(200);
    t.u32(208);
    for v in [0.5, 0.25, 0.0] {
        t.f64(v);
    }
    for v in [0.0, 0.0, 0.0, 139.0, 36.0, 0.0] {
        t.f64(v);
    }
    t.bytes.extend_from_slice(b"-32768\0");
    while t.bytes.len() < 200 {
        t.bytes.push(0);
    }
    for v in [10, 20, -32768, 40, 50, 60, 70, 80] {
        t.i16(v);
    }
    t.bytes
}

#[test]
fn reads_a_little_endian_tile() {
    let bytes = tile(false, false, 0);
    assert_eq!(read_header(&bytes), Ok((SrtmByteOrder::LittleEndian, 8)));
    let layout = read_layout(&bytes).unwrap();
    assert_eq!(layout.byte_order, SrtmByteOrder::LittleEndian);
    assert_eq!(layout.width, 4);
    assert_eq!(layout.height, 2);
    assert_eq!(layout.strip_offsets, vec![200, 208]);
    assert_eq!(f64::from_bits(layout.pixel_scale_bits.0), 0.5);
    assert_eq!(f64::from_bits(layout.pixel_scale_bits.1), 0.25);
    assert_eq!(f64::from_bits(layout.tiepoint_bits.0), 139.0);
    assert_eq!(f64::from_bits(layout.tiepoint_bits.1), 36.0);
    assert_eq!(layout.no_data_value, -32768);
    let at = layout.sample_offset(1, 2) as usize;
    assert_eq!(at, 212);
    assert_eq!(layout.decode_sample(&bytes[at..at + 2]), Some(70));
    let hole = layout.sample_offset(0, 2) as usize;
    assert_eq!(layout.decode_sample(&bytes[hole..hole + 2]), None);
}

#[test]
fn reads_a_big_endian_tile() {
    let bytes = tile(true, false, 0);
    let layout = read_layout(&bytes).unwrap();
    assert_eq!(layout.byte_order, SrtmByteOrder::BigEndian);
    assert_eq!(layout.strip_offsets, vec![200, 208]);
    assert_eq!(f64::from_bits(layout.tiepoint_bits.0), 139.0);
    let at = layout.sample_offset(0, 3) as usize;
    assert_eq!(layout.decode_sample(&bytes[at..at + 2]), Some(40));
}

#[test]
fn header_errors() {
    assert_eq!(read_header(b""), Err(TiffError::UnexpectedEnd));
    assert_eq!(read_header(b"XX*\0\x08\0\0\0"), Err(TiffError::InvalidByteOrder));
    assert_eq!(read_header(b"II"), Err(TiffError::UnexpectedEnd));
    assert_eq!(read_header(b"II+\0\x08\0\0\0"), Err(TiffError::InvalidVersion));
    assert_eq!(read_header(b"II*\0\x08\0"), Err(TiffError::UnexpectedEnd));
    assert_eq!(read_header(b"MM*\0\0\0\0\x08"), Ok((SrtmByteOrder::BigEndian, 8)));
    assert_eq!(read_header(b"MM\0*\0\0\0\x08"), Err(TiffError::InvalidVersion));
}

#[test]
fn layout_errors() {
    let missing = tile(false, true, 0);
    assert_eq!(read_layout(&missing).err(), Some(TiffError::MissingTag(IfdTag::NoDataValue)));
    let looping = tile(false, false, 8);
    assert_eq!(read_layout(&looping).err(), Some(TiffError::TooManyDirectories));
    let truncated = tile(false, false, 0)[..60].to_vec();
    assert_eq!(read_layout(&truncated).err(), Some(TiffError::UnexpectedEnd));
    let mut bad_text = tile(false, false, 0);
    bad_text[166] = b'x';
    assert_eq!(read_layout(&bad_text).err(), Some(TiffError::InvalidNoDataValue));
}

#[test]
fn later_directory_overrides_earlier() {
    let mut bytes = tile(false, false, 216);
    // a second directory at 216 with one entry: width 9
    bytes.extend_from_slice(&1u16.to_le_bytes());
    bytes.extend_from_slice(&0x0100u16.to_le_bytes());
    bytes.extend_from_slice(&4u16.to_le_bytes());
    bytes.extend_from_slice(&1u32.to_le_bytes());
    bytes.extend_from_slice(&9u32.to_le_bytes());
    bytes.extend_from_slice(&0u32.to_le_bytes());
    let layout = read_layout(&bytes).unwrap();
    assert_eq!(layout.width, 9);
    assert_eq!(layout.height, 2);
}

#[test]
fn decimal_text() {
    let p = |s: &[u8]| parse_decimal_i32(s, 0, s.len());
    assert_eq!(p(b"123"), Some(123));
    assert_eq!(p(b"-2147483648"), Some(i32::MIN));
    assert_eq!(p(b"2147483647"), Some(i32::MAX));
    assert_eq!(p(b"2147483648"), None);
    assert_eq!(p(b"-2147483649"), None);
    assert_eq!(p(b"+5"), Some(5));
    assert_eq!(p(b"-0"), Some(0));
    assert_eq!(p(b"+"), None);
    assert_eq!(p(b"-"), None);
    assert_eq!(p(b""), None);
    assert_eq!(p(b"1a"), None);
    assert_eq!(p(b" 1"), None);
    assert_eq!(p(b"99999999999999999999"), None);
    assert_eq!(parse_decimal_i32(b"xx42yy", 2, 4), Some(42));
}

#[test]
fn finds_the_tile_covering_a_point() {
    let area = |lat0: i32, lat1: i32, lon0: i32, lon1: i32| SrtmArea {
        lat_start: Latitude::try_from(lat0).unwrap(),
        lat_end: Latitude::try_from(lat1).unwrap(),
        lon_start: Longitude::try_from(lon0).unwrap(),
        lon_end: Longitude::try_from(lon1).unwrap(),
    };
    let reader = SrtmReader { areas: vec![area(3000000, 3500000, 13500000, 14000000), area(3500000, 4000000, 13500000, 14500000)] };
    let tokyo = Coordinate::new(3568048, 13976906).unwrap();
    assert_eq!(reader.find_area(&tokyo), Some(1));
    let edge = Coordinate::new(3500000, 13500000).unwrap();
    assert_eq!(reader.find_area(&edge), Some(1));
    assert!(reader.areas[0].contains(&Coordinate::new(3499999, 13500000).unwrap()));
    assert_eq!(reader.find_area(&Coordinate::new(0, 0).unwrap()), None);
}
