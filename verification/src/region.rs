//! The pure rules of the region file header: where a chunk's data lies
//! inside a region file and when a header entry is malformed. Reading
//! and decompressing the bytes themselves is I/O and lives outside this
//! library.

use vstd::prelude::*;

verus! {

/// The size of one region-file sector in bytes.
pub const SECTOR_SIZE: u64 = 4096;

/// A packed chunk-location entry of the region header: the low byte is
/// the sector count, the high twenty-four bits the first sector.
#[derive(Copy, Clone, Debug, PartialEq, Eq, Structural)]
pub struct Location(pub u32);

impl Location {
    /// Whether no chunk exists at this position.
    pub fn is_none(self) -> (r: bool)
        ensures
            r == (self.0 == 0),
    {
        self.0 == 0
    }

    /// The first sector of the chunk and how many sectors it spans.
    pub fn offset_and_count(self) -> (r: (u64, usize))
        ensures
            r.0 == self.0 >> 8,
            r.1 == (self.0 & 0xff) as usize,
    {
        ((self.0 >> 8) as u64, (self.0 & 0xff) as usize)
    }
}

/// The index of a chunk's location entry inside its region header.
pub fn chunk_idx(pos_x: i32, pos_z: i32) -> (r: usize)
    ensures
        r == (pos_x as int) % 32 + ((pos_z as int) % 32) * 32,
        r < 1024,
{
    let x = floor_mod_32(pos_x);
    let z = floor_mod_32(pos_z);
    (x + z * 32) as usize
}

/// The non-negative remainder of a coordinate modulo the region width.
fn floor_mod_32(v: i32) -> (r: u32)
    ensures
        r == (v as int) % 32,
{
    let m = v % 32;
    if m < 0 {
        (m + 32) as u32
    } else {
        m as u32
    }
}

/// The region a chunk column belongs to: regions are 32 by 32 chunks,
/// with negative coordinates rounding towards negative infinity.
pub fn region_of_chunk(pos_x: i16, pos_z: i16) -> (r: (i32, i32))
    ensures
        r.0 == (pos_x as int) / 32,
        r.1 == (pos_z as int) / 32,
{
    (floor_div_32(pos_x as i32), floor_div_32(pos_z as i32))
}

/// The quotient of a coordinate by the region width, rounded towards
/// negative infinity.
fn floor_div_32(v: i32) -> (r: i32)
    ensures
        r == (v as int) / 32,
{
    let q = v / 32;
    if v % 32 < 0 {
        q - 1
    } else {
        q
    }
}

/// A big-endian header word, as the region header stores locations and
/// timestamps.
pub fn be_u32(bytes: (u8, u8, u8, u8)) -> (r: u32)
    ensures
        r == bytes.0 as u32 * 0x1000000 + bytes.1 as u32 * 0x10000 + bytes.2 as u32 * 0x100
            + bytes.3 as u32,
{
    (bytes.0 as u32) * 0x1000000 + (bytes.1 as u32) * 0x10000 + (bytes.2 as u32) * 0x100 + (
    bytes.3 as u32)
}

/// The in-section coordinates a packed block-delta index names: four
/// bits each of y, z and x, highest first.
pub fn delta_entry_coords(delta_idx: u16) -> (r: (u8, u8, u8))
    ensures
        r.0 == (delta_idx >> 8) & 0xf,
        r.1 == (delta_idx >> 4) & 0xf,
        r.2 == delta_idx & 0xf,
{
    proof {
        assert((delta_idx >> 8) & 0xf < 0x10 && (delta_idx >> 4) & 0xf < 0x10 && delta_idx & 0xf
            < 0x10) by (bit_vector);
    }
    let y = ((delta_idx >> 8) & 0xf) as u8;
    let z = ((delta_idx >> 4) & 0xf) as u8;
    let x = (delta_idx & 0xf) as u8;
    (y, z, x)
}

/// The compression scheme a stored chunk declares.
#[derive(Copy, Clone, Debug, PartialEq, Eq, Structural)]
pub enum Compression {
    /// Gzip-compressed chunk data.
    Gzip,
    /// Zlib-compressed chunk data.
    Zlib,
    /// Uncompressed chunk data.
    Uncompressed,
}

/// The compression scheme a stored code names, if any.
pub open spec fn compression_of_code(code: u8) -> Option<Compression> {
    if code == 1 {
        Some(Compression::Gzip)
    } else if code == 2 {
        Some(Compression::Zlib)
    } else if code == 3 {
        Some(Compression::Uncompressed)
    } else {
        None
    }
}

/// Decodes a chunk's compression code; unknown codes decode to nothing.
pub fn compression_from_u8(compression: u8) -> (r: Option<Compression>)
    ensures
        r == compression_of_code(compression),
{
    if compression == 1 {
        Some(Compression::Gzip)
    } else if compression == 2 {
        Some(Compression::Zlib)
    } else if compression == 3 {
        Some(Compression::Uncompressed)
    } else {
        None
    }
}

/// Whether a stream-version byte marks a chunk stored in an external
/// file.
pub fn is_external_stream_chunk(stream_version: u8) -> (r: bool)
    ensures
        r == (stream_version & 0x80 != 0),
{
    (stream_version & 0x80) != 0
}

/// The version number of an externally-stored chunk stream.
pub fn external_chunk_version(stream_version: u8) -> (r: u8)
    ensures
        r == stream_version & 0x7f,
{
    stream_version & 0x7f
}

/// Why a header entry or chunk head is malformed.
#[derive(Copy, Clone, Debug, PartialEq, Eq, Structural)]
pub enum RegionError {
    /// The entry points inside the region header itself.
    InvalidChunkSectorOffset,
    /// The chunk's span leaves the file, or its declared size exceeds
    /// its sectors.
    InvalidChunkSize,
    /// The chunk declares an empty stream.
    MissingChunkStream,
}

/// Where a chunk's bytes lie in the file: `None` when no chunk exists at
/// the position, otherwise the byte range of its sectors. An entry
/// pointing into the header or past the end of the file is rejected.
pub fn chunk_span(location: Location, file_len: u64) -> (r: Result<
    Option<(u64, u64)>,
    RegionError,
>)
    ensures
        location.0 == 0 ==> r == Ok::<Option<(u64, u64)>, RegionError>(None),
        location.0 != 0 && (location.0 >> 8) < 2 ==> r == Err::<Option<(u64, u64)>, RegionError>(
            RegionError::InvalidChunkSectorOffset,
        ),
        location.0 != 0 && (location.0 >> 8) >= 2 && (location.0 >> 8) * SECTOR_SIZE + (location.0
            & 0xff) * SECTOR_SIZE > file_len ==> r == Err::<Option<(u64, u64)>, RegionError>(
            RegionError::InvalidChunkSize,
        ),
        location.0 != 0 && (location.0 >> 8) >= 2 && (location.0 >> 8) * SECTOR_SIZE + (location.0
            & 0xff) * SECTOR_SIZE <= file_len ==> r == Ok::<Option<(u64, u64)>, RegionError>(
            Some(
                (
                    ((location.0 >> 8) * SECTOR_SIZE) as u64,
                    ((location.0 >> 8) * SECTOR_SIZE + (location.0 & 0xff) * SECTOR_SIZE) as u64,
                ),
            ),
        ),
{
    if location.is_none() {
        return Ok(None);
    }
    let (sector_offset, sector_count) = location.offset_and_count();
    if sector_offset < 2 {
        return Err(RegionError::InvalidChunkSectorOffset);
    }
    proof {
        let lv: u32 = location.0;
        assert(lv >> 8 <= 0xff_ffff && (lv & 0xff) <= 0xff) by (bit_vector);
    }
    let chunk_start = sector_offset * SECTOR_SIZE;
    let chunk_end = chunk_start + (sector_count as u64) * SECTOR_SIZE;
    if chunk_end > file_len {
        return Err(RegionError::InvalidChunkSize);
    }
    Ok(Some((chunk_start, chunk_end)))
}

/// Whether the size a chunk declares for itself fits the sectors its
/// header entry reserves: an empty stream and an oversized stream are
/// both malformed.
pub fn chunk_stream_check(sector_count: usize, exact_chunk_size: u32) -> (r: Result<
    (),
    RegionError,
>)
    requires
        sector_count <= 0xff,
    ensures
        exact_chunk_size == 0 ==> r == Err::<(), RegionError>(RegionError::MissingChunkStream),
        exact_chunk_size != 0 && (sector_count * SECTOR_SIZE < exact_chunk_size) ==> r == Err::<
            (),
            RegionError,
        >(RegionError::InvalidChunkSize),
        exact_chunk_size != 0 && (sector_count * SECTOR_SIZE >= exact_chunk_size) ==> r == Ok::<
            (),
            RegionError,
        >(()),
{
    if exact_chunk_size == 0 {
        return Err(RegionError::MissingChunkStream);
    }
    if (sector_count as u64) * SECTOR_SIZE < exact_chunk_size as u64 {
        return Err(RegionError::InvalidChunkSize);
    }
    Ok(())
}

} // verus!
