use imgdemux::png::{
    check_chunk_crc, concat_data_chunks, parse_header, u32_from_be, BitDepth, Chunk, ChunkKind,
    Color, Decoder, Element, Error, State,
};
use imgdemux::source::Source;

const MAGIC: [u8; 8] = [137, 80, 78, 71, 13, 10, 26, 10];

/// Appends a record: length, type code, payload, and the given checksum.
fn push_chunk(out: &mut Vec<u8>, kind: &[u8; 4], payload: &[u8], crc: [u8; 4]) {
    out.extend_from_slice(&(payload.len() as u32).to_be_bytes());
    out.extend_from_slice(kind);
    out.extend_from_slice(payload);
    out.extend_from_slice(&crc);
}

fn minimal_ihdr_payload() -> Vec<u8> {
    // width 1, height 1, bit depth 8, greyscale, default methods
    vec![0, 0, 0, 1, 0, 0, 0, 1, 8, 0, 0, 0, 0]
}

fn minimal_container() -> Vec<u8> {
    let mut bytes = MAGIC.to_vec();
    push_chunk(&mut bytes, b"IHDR", &minimal_ihdr_payload(), [1, 2, 3, 4]);
    push_chunk(&mut bytes, b"IEND", &[], [0xAE, 0x42, 0x60, 0x82]);
    bytes
}

fn decoder_over(bytes: &[u8]) -> Decoder {
    Decoder::new(Source::new(bytes.to_vec()))
}

#[test]
fn minimal_container_yields_three_elements() {
    let mut d = decoder_over(&minimal_container());
    let elems = d.decode_all();
    assert_eq!(elems.len(), 3);
    assert!(elems[0].is_signature());
    assert_eq!(elems[0].signature(), MAGIC);
    assert!(elems[1].is_chunk());
    let ihdr = elems[1].chunk();
    assert_eq!(ihdr.kind, ChunkKind::IHDR);
    assert_eq!(ihdr.index, 0);
    assert_eq!(ihdr.length, 13);
    assert_eq!(ihdr.offset, 16);
    let iend = elems[2].chunk();
    assert_eq!(iend.kind, ChunkKind::IEND);
    assert_eq!(iend.index, 1);
    assert_eq!(iend.length, 0);
}

#[test]
fn sequence_ends_after_trailer_without_reads() {
    let bytes = minimal_container();
    let mut d = decoder_over(&bytes);
    d.read_signature().unwrap();
    d.read_chunk().unwrap();
    let iend = d.read_chunk().unwrap();
    assert_eq!(iend.kind, ChunkKind::IEND);
    let pos_after = d.handle.pos;
    assert_eq!(d.next(), None);
    assert_eq!(d.next(), None);
    assert_eq!(d.handle.pos, pos_after);
}

#[test]
fn signature_mismatch_is_rejected() {
    let mut bytes = minimal_container();
    bytes[0] = 138;
    let mut d = decoder_over(&bytes);
    assert!(matches!(d.read_signature(), Err(Error::InvalidSignature)));
    assert_eq!(d.state, State::Pending);
}

#[test]
fn short_signature_is_rejected() {
    let mut d = decoder_over(&MAGIC[..5]);
    assert!(matches!(d.read_signature(), Err(Error::InvalidSignature)));
    assert_eq!(d.state, State::Pending);
}

#[test]
fn unknown_type_code_is_rejected() {
    let mut bytes = MAGIC.to_vec();
    push_chunk(&mut bytes, b"ABCD", &[1, 2], [0, 0, 0, 0]);
    let mut d = decoder_over(&bytes);
    d.read_signature().unwrap();
    assert!(matches!(d.read_chunk(), Err(Error::InvalidChunk)));
    assert_eq!(d.chunk_index, 0);
}

#[test]
fn zero_length_chunk_is_a_valid_record() {
    let mut bytes = MAGIC.to_vec();
    push_chunk(&mut bytes, b"IEND", &[], [9, 9, 9, 9]);
    let mut d = decoder_over(&bytes);
    d.read_signature().unwrap();
    let pos_after_type = (d.handle.pos + 8) as u64;
    let c = d.read_chunk().unwrap();
    assert_eq!(c.length, 0);
    // the payload range is empty and starts right after the type code
    assert_eq!(c.offset, pos_after_type);
    assert_eq!(c.crc, [9, 9, 9, 9]);
}

#[test]
fn overlong_chunk_must_not_truncate_silently() {
    let mut bytes = MAGIC.to_vec();
    // declares 100 payload bytes, but only 2 follow
    bytes.extend_from_slice(&[0, 0, 0, 100]);
    bytes.extend_from_slice(b"IDAT");
    bytes.extend_from_slice(&[1, 2]);
    let mut d = decoder_over(&bytes);
    d.read_signature().unwrap();
    assert!(matches!(d.read_chunk(), Err(Error::InvalidChunk)));
}

#[test]
fn truncated_framing_is_rejected() {
    let mut bytes = MAGIC.to_vec();
    bytes.extend_from_slice(&[0, 0]);
    let mut d = decoder_over(&bytes);
    d.read_signature().unwrap();
    assert!(matches!(d.read_chunk(), Err(Error::InvalidChunk)));
}

#[test]
fn data_ranges_concatenate_in_order() {
    let mut bytes = MAGIC.to_vec();
    push_chunk(&mut bytes, b"IHDR", &minimal_ihdr_payload(), [0, 0, 0, 0]);
    push_chunk(&mut bytes, b"IDAT", &[1, 2, 3], [0, 0, 0, 0]);
    push_chunk(&mut bytes, b"IDAT", &[4, 5], [0, 0, 0, 0]);
    push_chunk(&mut bytes, b"IEND", &[], [0, 0, 0, 0]);
    let mut d = decoder_over(&bytes);
    let elems = d.decode_all();
    assert_eq!(elems.len(), 5);
    let chunks: Vec<Chunk> = elems
        .iter()
        .filter(|e| e.is_chunk())
        .map(|e| e.chunk())
        .collect();
    let joined = concat_data_chunks(&d.handle, &chunks).unwrap();
    assert_eq!(joined, vec![1, 2, 3, 4, 5]);
}

#[test]
fn concat_rejects_a_range_outside_the_source() {
    let src = Source::new(vec![0; 16]);
    let bad = Chunk {
        index: 0,
        length: 20,
        kind: ChunkKind::IDAT,
        crc: [0; 4],
        offset: 8,
    };
    assert_eq!(concat_data_chunks(&src, &vec![bad]), None);
}

#[test]
fn png_decoding_twice_reproduces_the_sequence() {
    let bytes = minimal_container();
    let mut d1 = decoder_over(&bytes);
    let first = d1.decode_all();
    let mut d2 = Decoder::new(Source { bytes: bytes.clone(), pos: 13 });
    let second = d2.decode_all();
    assert_eq!(first, second);
    assert_eq!(first.len(), 3);
}

#[test]
fn stored_checksum_is_not_verified_by_default() {
    let mut bytes = MAGIC.to_vec();
    push_chunk(&mut bytes, b"IEND", &[], [1, 1, 1, 1]);
    let mut d = decoder_over(&bytes);
    d.read_signature().unwrap();
    assert!(d.read_chunk().is_ok());
}

#[test]
fn eager_checksum_accepts_a_correct_record() {
    // the checksum of the bare trailer type code is well known
    let mut bytes = MAGIC.to_vec();
    push_chunk(&mut bytes, b"IEND", &[], [0xAE, 0x42, 0x60, 0x82]);
    let mut d = decoder_over(&bytes);
    d.set_crc_checking(true);
    d.read_signature().unwrap();
    let c = d.read_chunk().unwrap();
    assert_eq!(c.kind, ChunkKind::IEND);
}

#[test]
fn eager_checksum_reports_a_mismatch() {
    let mut bytes = MAGIC.to_vec();
    push_chunk(&mut bytes, b"IEND", &[], [1, 1, 1, 1]);
    let mut d = decoder_over(&bytes);
    d.set_crc_checking(true);
    d.read_signature().unwrap();
    match d.read_chunk() {
        Err(Error::CrcMismatch { recover, crc_val, crc_sum, chunk_kind }) => {
            assert_eq!(recover, 4);
            assert_eq!(crc_val, 0x01010101);
            assert_eq!(crc_sum, 0xAE426082);
            assert_eq!(chunk_kind, ChunkKind::IEND);
        }
        other => panic!("expected a checksum mismatch, got {:?}", other),
    }
    // the record was not produced
    assert_eq!(d.chunk_index, 0);
    assert_eq!(d.state, State::Signature);
}

#[test]
fn consumer_driven_checksum_check() {
    let good = Chunk {
        index: 0,
        length: 0,
        kind: ChunkKind::IEND,
        crc: [0xAE, 0x42, 0x60, 0x82],
        offset: 16,
    };
    assert!(check_chunk_crc(&good, &b"IEND".to_vec()).is_ok());
    let bad = Chunk { crc: [0, 0, 0, 0], ..good };
    match check_chunk_crc(&bad, &b"IEND".to_vec()) {
        Err(Error::CrcMismatch { recover, crc_val, crc_sum, chunk_kind }) => {
            assert_eq!(recover, 4);
            assert_eq!(crc_val, 0);
            assert_eq!(crc_sum, 0xAE426082);
            assert_eq!(chunk_kind, ChunkKind::IEND);
        }
        other => panic!("expected a checksum mismatch, got {:?}", other),
    }
}

#[test]
fn header_payload_parses() {
    let payload = vec![0, 0, 1, 0, 0, 0, 0, 64, 8, 2, 0, 0, 1];
    let h = parse_header(&payload).unwrap();
    assert_eq!(h.width, 256);
    assert_eq!(h.height, 64);
    assert_eq!(h.bitdepth, BitDepth::Eight);
    assert_eq!(h.color, Color::Truecolour);
    assert_eq!(h.compression_method, 0);
    assert_eq!(h.filter_method, 0);
    assert_eq!(h.interlace_method, 1);
}

#[test]
fn header_payload_of_wrong_length_is_rejected() {
    assert!(matches!(
        parse_header(&vec![0; 12]),
        Err(Error::InvalidChunk)
    ));
}

#[test]
fn header_payload_with_bad_fields_is_rejected() {
    let mut payload = minimal_ihdr_payload();
    payload[8] = 3; // no such bit depth
    assert!(matches!(parse_header(&payload), Err(Error::InvalidChunk)));
    let mut payload2 = minimal_ihdr_payload();
    payload2[9] = 5; // no such color kind
    assert!(matches!(parse_header(&payload2), Err(Error::InvalidChunk)));
}

#[test]
fn big_endian_words_are_read_correctly() {
    assert_eq!(u32_from_be(&vec![0, 0, 0, 13]), 13);
    assert_eq!(u32_from_be(&vec![0x12, 0x34, 0x56, 0x78]), 0x12345678);
    assert_eq!(u32_from_be(&vec![0xFF, 0xFF, 0xFF, 0xFF]), u32::MAX);
}

#[test]
fn chunk_kind_codes_round_trip() {
    let kinds = [
        ChunkKind::IHDR,
        ChunkKind::PLTE,
        ChunkKind::IDAT,
        ChunkKind::IEND,
        ChunkKind::tRNS,
        ChunkKind::cHRM,
        ChunkKind::gAMA,
        ChunkKind::iCCP,
        ChunkKind::sBIT,
        ChunkKind::sRGB,
        ChunkKind::iTXt,
        ChunkKind::tEXt,
        ChunkKind::zTXt,
        ChunkKind::bKGD,
        ChunkKind::hIST,
        ChunkKind::pHYs,
        ChunkKind::sPLT,
        ChunkKind::tIME,
    ];
    for k in kinds {
        let code = k.code_bytes();
        assert_eq!(ChunkKind::try_from_bytes(&code.to_vec()), Ok(k));
    }
    assert_eq!(ChunkKind::try_from_bytes(&b"XYZW".to_vec()), Err(()));
    assert_eq!(ChunkKind::try_from_bytes(&b"IHD".to_vec()), Err(()));
}

#[test]
fn critical_and_ancillary_sets_partition_the_kinds() {
    assert!(ChunkKind::IHDR.is_critical_chunk());
    assert!(ChunkKind::PLTE.is_critical_chunk());
    assert!(ChunkKind::IDAT.is_critical_chunk());
    assert!(ChunkKind::IEND.is_critical_chunk());
    assert!(ChunkKind::gAMA.is_ancillary_chunk());
    assert!(ChunkKind::tIME.is_ancillary_chunk());
    assert!(!ChunkKind::IDAT.is_ancillary_chunk());
    assert!(!ChunkKind::tEXt.is_critical_chunk());
}

#[test]
fn sample_counts_per_color_kind() {
    assert_eq!(Color::Greyscale.samples(), 1);
    assert_eq!(Color::Indexed.samples(), 1);
    assert_eq!(Color::Truecolour.samples(), 3);
    assert_eq!(Color::GreyscaleWithAlpha.samples(), 2);
    assert_eq!(Color::TruecolourWithAlpha.samples(), 4);
}

#[test]
fn color_and_bitdepth_codes_round_trip() {
    for n in [0u8, 2, 3, 4, 6] {
        let c = Color::try_from_u8(n).unwrap();
        assert_eq!(c.code(), n);
    }
    assert_eq!(Color::try_from_u8(1), Err(()));
    assert_eq!(Color::try_from_u8(5), Err(()));
    for n in [1u8, 2, 4, 8, 16] {
        let b = BitDepth::try_from_u8(n).unwrap();
        assert_eq!(b.code(), n);
    }
    assert_eq!(BitDepth::try_from_u8(3), Err(()));
    assert_eq!(BitDepth::try_from_u8(32), Err(()));
}

#[test]
fn ancillary_chunks_are_framed_like_critical_ones() {
    let mut bytes = MAGIC.to_vec();
    push_chunk(&mut bytes, b"IHDR", &minimal_ihdr_payload(), [0; 4]);
    push_chunk(&mut bytes, b"gAMA", &[0, 1, 134, 160], [0; 4]);
    push_chunk(&mut bytes, b"IEND", &[], [0; 4]);
    let mut d = decoder_over(&bytes);
    let elems = d.decode_all();
    assert_eq!(elems.len(), 4);
    assert_eq!(elems[2].chunk().kind, ChunkKind::gAMA);
    assert_eq!(elems[2].chunk().length, 4);
}

#[test]
fn element_accessors_match_the_variant() {
    let e = Element::Signature(MAGIC);
    assert!(e.is_signature());
    assert!(!e.is_chunk());
    let c = Chunk { index: 0, length: 0, kind: ChunkKind::IEND, crc: [0; 4], offset: 16 };
    let ec = Element::Chunk(c);
    assert!(ec.is_chunk());
    assert_eq!(ec.chunk(), c);
}
