use imgdemux::ppm::{Data, Decoder, Element, Error, Header, State};
use imgdemux::source::Source;

fn decoder_over(bytes: &[u8]) -> Decoder {
    Decoder::new(Source::new(bytes.to_vec()))
}

#[test]
fn minimal_greyscale_example() {
    // "P5\n2 1\n255\n" followed by 2 raw payload bytes
    let mut bytes = b"P5\n2 1\n255\n".to_vec();
    bytes.extend_from_slice(&[7, 9]);
    let mut d = decoder_over(&bytes);
    let sig = d.read_signature().unwrap();
    assert_eq!(sig, [b'P', b'5']);
    let header = d.read_header().unwrap();
    assert_eq!(header, Header { width: 2, height: 1, maxval: 255 });
    let data = d.read_data().unwrap();
    assert_eq!(data, Data { offset: 11, length: 2 });
}

#[test]
fn color_variant_uses_three_channels() {
    let mut bytes = b"P6\n2 2\n255\n".to_vec();
    bytes.extend_from_slice(&[0; 12]);
    let mut d = decoder_over(&bytes);
    d.read_signature().unwrap();
    let header = d.read_header().unwrap();
    assert_eq!(header.width, 2);
    assert_eq!(header.height, 2);
    assert_eq!(d.pixels_size, 12);
    let data = d.read_data().unwrap();
    assert_eq!(data.offset, 11);
    assert_eq!(data.length, 12);
}

#[test]
fn data_offset_is_position_after_header_terminator() {
    let text = b"P6\n#comment\n3 2\n128\n";
    let mut bytes = text.to_vec();
    bytes.extend_from_slice(&[1; 18]);
    let mut d = decoder_over(&bytes);
    d.read_signature().unwrap();
    d.read_header().unwrap();
    let data = d.read_data().unwrap();
    assert_eq!(data.offset, text.len() as u64);
    assert_eq!(data.length, 18);
}

#[test]
fn comment_tokens_are_skipped_in_header() {
    let mut d = decoder_over(b"P6\n#foo\n2 #bar\n2\n255\nxxxxxxxxxxxx");
    d.read_signature().unwrap();
    let header = d.read_header().unwrap();
    assert_eq!(header, Header { width: 2, height: 2, maxval: 255 });
}

#[test]
fn signature_of_wrong_length_is_rejected() {
    let mut d = decoder_over(b"P55\n2 1\n255\n");
    let r = d.read_signature();
    assert!(matches!(r, Err(Error::InvalidSignature)));
    assert_eq!(d.state, State::Pending);
}

#[test]
fn absent_signature_is_rejected() {
    let mut d = decoder_over(b"");
    assert!(matches!(d.read_signature(), Err(Error::InvalidSignature)));
    assert_eq!(d.state, State::Pending);
}

#[test]
fn maxval_zero_is_rejected() {
    let mut d = decoder_over(b"P6\n2 2\n0\n");
    d.read_signature().unwrap();
    assert!(matches!(d.read_header(), Err(Error::InvalidHeader)));
    assert_eq!(d.state, State::Signature);
}

#[test]
fn maxval_above_one_byte_is_rejected() {
    let mut d = decoder_over(b"P6\n2 2\n256\n");
    d.read_signature().unwrap();
    assert!(matches!(d.read_header(), Err(Error::InvalidHeader)));
}

#[test]
fn malformed_width_is_rejected() {
    let mut d = decoder_over(b"P6\nabc 2\n255\n");
    d.read_signature().unwrap();
    assert!(matches!(d.read_header(), Err(Error::InvalidHeader)));
}

#[test]
fn missing_maxval_is_rejected() {
    let mut d = decoder_over(b"P6\n2 2\n");
    d.read_signature().unwrap();
    assert!(matches!(d.read_header(), Err(Error::InvalidHeader)));
}

#[test]
fn payload_size_overflow_is_rejected() {
    let mut d = decoder_over(b"P6\n18446744073709551615 2\n255\n");
    d.read_signature().unwrap();
    assert!(matches!(d.read_header(), Err(Error::InvalidHeader)));
}

#[test]
fn element_sequence_has_three_elements() {
    let mut bytes = b"P5\n2 1\n255\n".to_vec();
    bytes.extend_from_slice(&[7, 9]);
    let mut d = decoder_over(&bytes);
    let elems = d.decode_all();
    assert_eq!(elems.len(), 3);
    assert!(elems[0].is_signature());
    assert_eq!(elems[0].signature(), [b'P', b'5']);
    assert!(elems[1].is_header());
    assert_eq!(elems[1].header(), Header { width: 2, height: 1, maxval: 255 });
    assert!(elems[2].is_data());
    assert_eq!(elems[2].data(), Data { offset: 11, length: 2 });
}

#[test]
fn zero_sized_image_yields_no_data_element() {
    let mut d = decoder_over(b"P6\n0 2\n255\n");
    let elems = d.decode_all();
    assert_eq!(elems.len(), 2);
    assert!(elems[1].is_header());
}

#[test]
fn ppm_decoding_twice_reproduces_the_sequence() {
    let mut bytes = b"P6\n2 2\n255\n".to_vec();
    bytes.extend_from_slice(&[3; 12]);
    let mut d1 = decoder_over(&bytes);
    let first = d1.decode_all();
    // a fresh decoder over the same bytes, cursor left mid-stream
    let mut d2 = Decoder::new(Source { bytes: bytes.clone(), pos: 5 });
    let second = d2.decode_all();
    assert_eq!(first, second);
    assert_eq!(first.len(), 3);
}

#[test]
fn next_walks_the_states_in_order() {
    let mut bytes = b"P6\n1 1\n255\n".to_vec();
    bytes.extend_from_slice(&[0, 0, 0]);
    let mut d = decoder_over(&bytes);
    assert!(matches!(d.next(), Some(Element::Signature(_))));
    assert_eq!(d.state, State::Signature);
    assert!(matches!(d.next(), Some(Element::Header(_))));
    assert_eq!(d.state, State::Header);
    assert!(matches!(d.next(), Some(Element::Data(_))));
    assert_eq!(d.state, State::Data);
    assert_eq!(d.next(), None);
}

#[test]
fn failed_signature_ends_the_sequence() {
    let mut d = decoder_over(b"salut");
    assert_eq!(d.next(), None);
    assert_eq!(d.state, State::Pending);
}
