use imgdemux::pam::{Color, Data, Decoder, Element, Error, Header, State};
use imgdemux::source::Source;

fn decoder_over(bytes: &[u8]) -> Decoder {
    Decoder::new(Source::new(bytes.to_vec()))
}

const HEADER_TEXT: &[u8] =
    b"P7\nWIDTH 2\nHEIGHT 2\nDEPTH 3\nMAXVAL 255\nTUPLTYPE RGB\nENDHDR\n";

#[test]
fn full_keyed_header_parses() {
    let mut bytes = HEADER_TEXT.to_vec();
    bytes.extend_from_slice(&[0; 12]);
    let mut d = decoder_over(&bytes);
    let sig = d.read_signature().unwrap();
    assert_eq!(sig, [b'P', b'7']);
    let header = d.read_header().unwrap();
    assert_eq!(
        header,
        Header { width: 2, height: 2, depth: 3, maxval: 255, color: Color::RGB }
    );
    assert_eq!(d.pixels_size, 12);
    let data = d.read_data().unwrap();
    assert_eq!(data, Data { offset: HEADER_TEXT.len() as u64, length: 12 });
}

#[test]
fn keys_may_come_in_any_order() {
    let text = b"P7\nMAXVAL 255\nDEPTH 1\nHEIGHT 3\nWIDTH 4\nTUPLTYPE GRAYSCALE\nENDHDR\n";
    let mut bytes = text.to_vec();
    bytes.extend_from_slice(&[0; 12]);
    let mut d = decoder_over(&bytes);
    d.read_signature().unwrap();
    let header = d.read_header().unwrap();
    assert_eq!(
        header,
        Header { width: 4, height: 3, depth: 1, maxval: 255, color: Color::Grayscale }
    );
    assert_eq!(d.pixels_size, 12);
}

#[test]
fn two_byte_samples_double_the_payload() {
    let text = b"P7\nWIDTH 2\nHEIGHT 2\nDEPTH 3\nMAXVAL 65535\nTUPLTYPE RGB\nENDHDR\n";
    let mut d = decoder_over(text);
    d.read_signature().unwrap();
    let header = d.read_header().unwrap();
    assert_eq!(header.maxval, 65535);
    assert_eq!(d.pixels_size, 24);
}

#[test]
fn duplicate_key_is_rejected() {
    let text = b"P7\nWIDTH 2\nWIDTH 3\nHEIGHT 2\nDEPTH 3\nMAXVAL 255\nTUPLTYPE RGB\nENDHDR\n";
    let mut d = decoder_over(text);
    d.read_signature().unwrap();
    assert!(matches!(d.read_header(), Err(Error::InvalidHeader)));
    // no header record came out: the state did not advance
    assert_eq!(d.state, State::Signature);
}

#[test]
fn duplicate_tupltype_is_rejected() {
    let text =
        b"P7\nTUPLTYPE RGB\nTUPLTYPE GRAYSCALE\nWIDTH 2\nHEIGHT 2\nDEPTH 3\nMAXVAL 255\nENDHDR\n";
    let mut d = decoder_over(text);
    d.read_signature().unwrap();
    assert!(matches!(d.read_header(), Err(Error::InvalidHeader)));
    assert_eq!(d.state, State::Signature);
}

#[test]
fn missing_required_key_at_terminator_is_rejected() {
    let text = b"P7\nWIDTH 2\nHEIGHT 2\nMAXVAL 255\nTUPLTYPE RGB\nENDHDR\n";
    let mut d = decoder_over(text);
    d.read_signature().unwrap();
    assert!(matches!(d.read_header(), Err(Error::InvalidHeader)));
}

#[test]
fn unknown_key_is_rejected() {
    let text = b"P7\nGIRTH 2\nENDHDR\n";
    let mut d = decoder_over(text);
    d.read_signature().unwrap();
    assert!(matches!(d.read_header(), Err(Error::InvalidHeader)));
}

#[test]
fn unknown_tuple_kind_is_rejected() {
    let text = b"P7\nWIDTH 2\nHEIGHT 2\nDEPTH 3\nMAXVAL 255\nTUPLTYPE CMYK\nENDHDR\n";
    let mut d = decoder_over(text);
    d.read_signature().unwrap();
    assert!(matches!(d.read_header(), Err(Error::InvalidHeader)));
}

#[test]
fn out_of_range_depth_is_rejected() {
    let text = b"P7\nWIDTH 2\nHEIGHT 2\nDEPTH 256\nMAXVAL 255\nTUPLTYPE RGB\nENDHDR\n";
    let mut d = decoder_over(text);
    d.read_signature().unwrap();
    assert!(matches!(d.read_header(), Err(Error::InvalidHeader)));
}

#[test]
fn comments_between_pairs_are_skipped() {
    let text = b"P7\n#c\nWIDTH #c\n2\nHEIGHT 1\nDEPTH 1\nMAXVAL 255\nTUPLTYPE GRAYSCALE\nENDHDR\n";
    let mut d = decoder_over(text);
    d.read_signature().unwrap();
    let header = d.read_header().unwrap();
    assert_eq!(header.width, 2);
    assert_eq!(header.height, 1);
}

#[test]
fn signature_wrong_length_is_rejected() {
    let mut d = decoder_over(b"P77\nENDHDR\n");
    assert!(matches!(d.read_signature(), Err(Error::InvalidSignature)));
    assert_eq!(d.state, State::Pending);
}

#[test]
fn channels_per_tuple_kind() {
    assert_eq!(Color::BlackAndWhite.channels(), 1);
    assert_eq!(Color::Grayscale.channels(), 1);
    assert_eq!(Color::RGB.channels(), 3);
    assert_eq!(Color::BlackAndWhiteAlpha.channels(), 2);
    assert_eq!(Color::GrayscaleAlpha.channels(), 2);
    assert_eq!(Color::RGBA.channels(), 4);
}

#[test]
fn tuple_kind_names_round_trip() {
    let kinds = [
        Color::BlackAndWhite,
        Color::Grayscale,
        Color::RGB,
        Color::BlackAndWhiteAlpha,
        Color::GrayscaleAlpha,
        Color::RGBA,
    ];
    for k in kinds {
        assert_eq!(Color::from_name(&k.name_bytes()), Ok(k));
    }
    assert_eq!(k_name(Color::RGBA), b"RGB_ALPHA".to_vec());
    assert_eq!(k_name(Color::BlackAndWhite), b"BLACKANDWHITE".to_vec());
    assert_eq!(Color::from_name(&b"RGBX".to_vec()), Err(()));
}

fn k_name(c: Color) -> Vec<u8> {
    c.name_bytes()
}

#[test]
fn element_sequence_and_accessors() {
    let mut bytes = HEADER_TEXT.to_vec();
    bytes.extend_from_slice(&[0; 12]);
    let mut d = decoder_over(&bytes);
    let elems = d.decode_all();
    assert_eq!(elems.len(), 3);
    assert!(elems[0].is_signature());
    assert!(!elems[0].is_header());
    assert!(!elems[0].is_data());
    assert_eq!(elems[0].signature(), [b'P', b'7']);
    assert!(elems[1].is_header());
    assert_eq!(elems[1].header().depth, 3);
    assert!(elems[2].is_data());
    assert_eq!(elems[2].data().length, 12);
}

#[test]
fn pam_decoding_twice_reproduces_the_sequence() {
    let mut bytes = HEADER_TEXT.to_vec();
    bytes.extend_from_slice(&[0; 12]);
    let mut d1 = decoder_over(&bytes);
    let first = d1.decode_all();
    let mut d2 = Decoder::new(Source { bytes: bytes.clone(), pos: 17 });
    let second = d2.decode_all();
    assert_eq!(first, second);
    assert_eq!(first.len(), 3);
}

#[test]
fn failed_header_ends_the_sequence() {
    let text = b"P7\nWIDTH 2\nENDHDR\n";
    let mut d = decoder_over(text);
    let elems = d.decode_all();
    assert_eq!(elems.len(), 1);
    assert!(matches!(elems[0], Element::Signature(_)));
}
