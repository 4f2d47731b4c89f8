use hyperion::region::{
    Compression, Location, RegionError, be_u32, chunk_idx, chunk_span, chunk_stream_check,
    compression_from_u8, delta_entry_coords, external_chunk_version, is_external_stream_chunk,
    region_of_chunk,
};
use hyperion::scratch::{SCRATCH_CAPACITY, Scratch, ScratchBuffer};
use hyperion::skin::{PlayerSkin, SkinError, SkinProperty, skin_from_properties};

fn property(name: &str, value: &str, signature: &str) -> SkinProperty {
    SkinProperty {
        name: name.to_owned(),
        value: value.to_owned(),
        signature: signature.to_owned(),
    }
}

#[test]
fn location_unpacks_offset_and_count() {
    let location = Location(0x0000_0302);
    assert!(!location.is_none());
    assert_eq!(location.offset_and_count(), (3, 2));
    assert!(Location(0).is_none());
}

#[test]
fn chunk_idx_wraps_negative_coordinates() {
    assert_eq!(chunk_idx(0, 0), 0);
    assert_eq!(chunk_idx(33, 2), 1 + 2 * 32);
    assert_eq!(chunk_idx(-1, -1), 31 + 31 * 32);
}

#[test]
fn compression_codes_decode() {
    assert_eq!(compression_from_u8(1), Some(Compression::Gzip));
    assert_eq!(compression_from_u8(2), Some(Compression::Zlib));
    assert_eq!(compression_from_u8(3), Some(Compression::Uncompressed));
    assert_eq!(compression_from_u8(0), None);
    assert_eq!(compression_from_u8(9), None);
}

#[test]
fn external_stream_bits() {
    assert!(is_external_stream_chunk(0x82));
    assert!(!is_external_stream_chunk(0x02));
    assert_eq!(external_chunk_version(0x82), 2);
}

#[test]
fn chunk_span_checks_the_header_entry() {
    assert_eq!(chunk_span(Location(0), 1 << 20), Ok(None));
    assert_eq!(
        chunk_span(Location(0x0000_0102), 1 << 20),
        Err(RegionError::InvalidChunkSectorOffset)
    );
    // Sectors 3..=4: bytes 12288..20480, which need a large enough file.
    assert_eq!(
        chunk_span(Location(0x0000_0302), 20480),
        Ok(Some((12288, 20480)))
    );
    assert_eq!(
        chunk_span(Location(0x0000_0302), 20479),
        Err(RegionError::InvalidChunkSize)
    );
}

#[test]
fn chunk_stream_sizes_are_checked() {
    assert_eq!(chunk_stream_check(2, 0), Err(RegionError::MissingChunkStream));
    assert_eq!(chunk_stream_check(2, 8192), Ok(()));
    assert_eq!(
        chunk_stream_check(2, 8193),
        Err(RegionError::InvalidChunkSize)
    );
}

#[test]
fn scratch_starts_zeroed_at_full_capacity() {
    let mut scratch = Scratch::new();
    let buf = scratch.obtain();
    assert_eq!(buf.len(), SCRATCH_CAPACITY);
    assert!(buf.iter().all(|b| *b == 0));
    buf[0] = 7;
    assert_eq!(scratch.obtain()[0], 7);
}

#[test]
fn skin_comes_from_the_first_textures_property() {
    let props = vec![
        property("cape", "????", "!!"),
        property("textures", "aGVsbG8=", "d29ybGQ="),
        property("textures", "b3RoZXI=", "b3RoZXI="),
    ];
    let skin = skin_from_properties(&props).unwrap().unwrap();
    assert_eq!(skin.textures, "aGVsbG8=");
    assert_eq!(skin.signature, "d29ybGQ=");
}

#[test]
fn missing_textures_property_yields_no_skin() {
    let props = vec![property("cape", "aGVsbG8=", "d29ybGQ=")];
    assert!(skin_from_properties(&props).unwrap().is_none());
    assert!(skin_from_properties(&vec![]).unwrap().is_none());
}

#[test]
fn invalid_base64_is_rejected() {
    let bad_value = vec![property("textures", "not base64 !!!", "d29ybGQ=")];
    assert_eq!(
        skin_from_properties(&bad_value),
        Err(SkinError::InvalidTextureValue)
    );
    let bad_signature = vec![property("textures", "aGVsbG8=", "not base64 !!!")];
    assert_eq!(
        skin_from_properties(&bad_signature),
        Err(SkinError::InvalidSignature)
    );
}

#[test]
fn player_skin_new_keeps_its_strings() {
    let skin = PlayerSkin::new("abc".to_owned(), "def".to_owned());
    assert_eq!(skin.textures, "abc");
    assert_eq!(skin.signature, "def");
}

#[test]
fn region_of_chunk_floors_towards_negative_infinity() {
    assert_eq!(region_of_chunk(0, 31), (0, 0));
    assert_eq!(region_of_chunk(32, 63), (1, 1));
    assert_eq!(region_of_chunk(-1, -32), (-1, -1));
    assert_eq!(region_of_chunk(-33, 5), (-2, 0));
}

#[test]
fn header_words_read_big_endian() {
    assert_eq!(be_u32((0, 0, 3, 2)), 0x0302);
    assert_eq!(be_u32((0x12, 0x34, 0x56, 0x78)), 0x1234_5678);
}

#[test]
fn delta_indices_unpack_to_coordinates() {
    assert_eq!(delta_entry_coords(0x0000), (0, 0, 0));
    assert_eq!(delta_entry_coords(0x0fff), (15, 15, 15));
    assert_eq!(delta_entry_coords(0x0a53), (10, 5, 3));
}
