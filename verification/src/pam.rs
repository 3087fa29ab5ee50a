//! Decoder for the extended text-header image format (keyed grammar).
//!
//! After the two-byte signature token, the header is a sequence of
//! key/value token pairs drawn from a fixed vocabulary — `WIDTH`,
//! `HEIGHT`, `DEPTH`, `MAXVAL`, `TUPLTYPE` — closed by the bare
//! terminator key `ENDHDR`. Each key besides the terminator may be set at
//! most once; an unrecognized key, a duplicate key, a missing required key
//! at the terminator, or a value that fails to parse under its field's
//! type all fail the decode with `InvalidHeader`. Comment tokens
//! beginning with `#` may stand anywhere between the fields.
//!
//! Payload size is `width * height * depth * bytesPerSample` bytes, where
//! a sample takes two bytes when the maximum sample value exceeds one
//! byte, and one byte otherwise.

use crate::netpbm::{
    next_pos, read_signature_token, read_value, token_end, uint_token_value, value_scan, Lines,
};
use crate::source::Source;
use vstd::prelude::*;

verus! {

/// Decode failures, each terminal for the running decode attempt.
#[derive(Debug)]
pub enum Error {
    /// A failed read or seek of the underlying source.
    IoError,
    /// The signature token is absent or not exactly two bytes long.
    InvalidSignature,
    /// A malformed, duplicate, unknown or out-of-range header field.
    InvalidHeader,
    /// Payload bytes that contradict the header.
    InvalidImageData,
    /// An unclassified condition.
    Other(&'static str),
}

/// The tuple kind named by the `TUPLTYPE` field.
#[derive(Debug, Clone, Copy, PartialEq, Eq, Structural)]
pub enum Color {
    BlackAndWhite,
    Grayscale,
    RGB,
    BlackAndWhiteAlpha,
    GrayscaleAlpha,
    RGBA,
}

/// The channel count that each tuple kind implies.
pub open spec fn spec_channels(c: Color) -> u8 {
    match c {
        Color::BlackAndWhite => 1,
        Color::Grayscale => 1,
        Color::RGB => 3,
        Color::BlackAndWhiteAlpha => 2,
        Color::GrayscaleAlpha => 2,
        Color::RGBA => 4,
    }
}

/// The name of each tuple kind, as the header spells it.
pub open spec fn color_name(c: Color) -> Seq<u8> {
    match c {
        Color::BlackAndWhite => seq![66u8, 76, 65, 67, 75, 65, 78, 68, 87, 72, 73, 84, 69],
        Color::Grayscale => seq![71u8, 82, 65, 89, 83, 67, 65, 76, 69],
        Color::RGB => seq![82u8, 71, 66],
        Color::BlackAndWhiteAlpha => seq![
            66u8, 76, 65, 67, 75, 65, 78, 68, 87, 72, 73, 84, 69, 95, 65, 76, 80, 72, 65,
        ],
        Color::GrayscaleAlpha => seq![
            71u8, 82, 65, 89, 83, 67, 65, 76, 69, 95, 65, 76, 80, 72, 65,
        ],
        Color::RGBA => seq![82u8, 71, 66, 95, 65, 76, 80, 72, 65],
    }
}

/// The tuple kind that a name token denotes, if any.
pub open spec fn color_of_name(t: Seq<u8>) -> Option<Color> {
    if t == color_name(Color::BlackAndWhite) {
        Some(Color::BlackAndWhite)
    } else if t == color_name(Color::Grayscale) {
        Some(Color::Grayscale)
    } else if t == color_name(Color::RGB) {
        Some(Color::RGB)
    } else if t == color_name(Color::BlackAndWhiteAlpha) {
        Some(Color::BlackAndWhiteAlpha)
    } else if t == color_name(Color::GrayscaleAlpha) {
        Some(Color::GrayscaleAlpha)
    } else if t == color_name(Color::RGBA) {
        Some(Color::RGBA)
    } else {
        None
    }
}

impl Color {
    /// The number of planes (channels) this tuple kind carries per pixel.
    pub fn channels(&self) -> (r: u8)
        ensures
            r == spec_channels(*self),
    {
        match *self {
            Color::BlackAndWhite => 1,
            Color::Grayscale => 1,
            Color::RGB => 3,
            Color::BlackAndWhiteAlpha => 2,
            Color::GrayscaleAlpha => 2,
            Color::RGBA => 4,
        }
    }

    /// Parses a `TUPLTYPE` name token.
    pub fn from_name(t: &Vec<u8>) -> (r: Result<Color, ()>)
        ensures
            match color_of_name(t@) {
                Some(c) => r == Ok::<Color, ()>(c),
                None => r == Err::<Color, ()>(()),
            },
    {
        let candidates: [Color; 6] = [
            Color::BlackAndWhite,
            Color::Grayscale,
            Color::RGB,
            Color::BlackAndWhiteAlpha,
            Color::GrayscaleAlpha,
            Color::RGBA,
        ];
        let mut i: usize = 0;
        while i < 6
            invariant
                i <= 6,
                candidates@ =~= seq![
                    Color::BlackAndWhite,
                    Color::Grayscale,
                    Color::RGB,
                    Color::BlackAndWhiteAlpha,
                    Color::GrayscaleAlpha,
                    Color::RGBA,
                ],
                forall|j: int| 0 <= j < i ==> t@ != color_name(candidates@[j]),
            decreases 6 - i,
        {
            let c = candidates[i];
            let name = c.name_bytes();
            if crate::netpbm::bytes_eq(t, &name) {
                return Ok(c);
            }
            i = i + 1;
        }
        proof {
            assert(t@ != color_name(Color::BlackAndWhite));
            assert(t@ != color_name(Color::Grayscale));
            assert(t@ != color_name(Color::RGB));
            assert(t@ != color_name(Color::BlackAndWhiteAlpha));
            assert(t@ != color_name(Color::GrayscaleAlpha));
            assert(t@ != color_name(Color::RGBA));
        }
        Err(())
    }

    /// The name of this tuple kind, spelled as the header does; parsing
    /// the name gives the kind back.
    pub fn name_bytes(&self) -> (r: Vec<u8>)
        ensures
            r@ == color_name(*self),
            color_of_name(r@) == Some(*self),
    {
        let v: Vec<u8> = match *self {
            Color::BlackAndWhite => vec![66u8, 76, 65, 67, 75, 65, 78, 68, 87, 72, 73, 84, 69],
            Color::Grayscale => vec![71u8, 82, 65, 89, 83, 67, 65, 76, 69],
            Color::RGB => vec![82u8, 71, 66],
            Color::BlackAndWhiteAlpha => vec![
                66u8, 76, 65, 67, 75, 65, 78, 68, 87, 72, 73, 84, 69, 95, 65, 76, 80, 72, 65,
            ],
            Color::GrayscaleAlpha => vec![
                71u8, 82, 65, 89, 83, 67, 65, 76, 69, 95, 65, 76, 80, 72, 65,
            ],
            Color::RGBA => vec![82u8, 71, 66, 95, 65, 76, 80, 72, 65],
        };
        proof {
            assert(v@ =~= color_name(*self));
        }
        v
    }
}

/// The keyed header: dimensions, plane count, sample range and tuple kind.
#[derive(Debug, Clone, Copy, PartialEq, Eq, Structural)]
pub struct Header {
    pub width: u64,
    pub height: u64,
    pub depth: u8,
    pub maxval: u16,
    pub color: Color,
}

/// A lazy payload descriptor: `length` bytes starting at stream offset
/// `offset`. The payload itself is never read by the decoder.
#[derive(Debug, Clone, Copy, PartialEq, Eq, Structural)]
pub struct Data {
    pub offset: u64,
    pub length: u64,
}

/// The decoder's position in its strictly forward life cycle.
#[derive(Debug, Clone, Copy, PartialEq, Eq, Structural)]
pub enum State {
    Pending,
    Signature,
    Header,
    Data,
}

/// The bytes each sample takes: two when the maximum sample value needs
/// more than one byte, one otherwise.
pub open spec fn bytes_per_sample(m: u16) -> int {
    if m > 255 {
        2
    } else {
        1
    }
}

/// The payload size the header declares, in bytes.
pub open spec fn payload_size_of(h: Header) -> int {
    h.width * h.height * (h.depth * bytes_per_sample(h.maxval))
}

/// Whether the payload size, computed as width times height first, fits
/// the 64-bit size field.
pub open spec fn payload_fits(h: Header) -> bool {
    &&& h.width * h.height <= u64::MAX
    &&& payload_size_of(h) <= u64::MAX
}

pub open spec fn key_width() -> Seq<u8> {
    seq![87u8, 73, 68, 84, 72]
}

pub open spec fn key_height() -> Seq<u8> {
    seq![72u8, 69, 73, 71, 72, 84]
}

pub open spec fn key_depth() -> Seq<u8> {
    seq![68u8, 69, 80, 84, 72]
}

pub open spec fn key_maxval() -> Seq<u8> {
    seq![77u8, 65, 88, 86, 65, 76]
}

pub open spec fn key_tupltype() -> Seq<u8> {
    seq![84u8, 85, 80, 76, 84, 89, 80, 69]
}

pub open spec fn key_endhdr() -> Seq<u8> {
    seq![69u8, 78, 68, 72, 68, 82]
}

/// The keyed-grammar scan from position `p`, with the fields gathered so
/// far. It consumes key/value pairs until the terminator key and yields
/// the header with the position after the terminator, or `None` on a
/// duplicate key, an unknown key, a malformed or out-of-range value, a
/// missing value, or a required field still unset at the terminator.
pub open spec fn keyed_scan(
    s: Seq<u8>,
    p: int,
    w: Option<u64>,
    h: Option<u64>,
    d: Option<u8>,
    m: Option<u16>,
    c: Option<Color>,
) -> Option<(Header, int)>
    decreases s.len() - p when 0 <= p <= s.len()
    via keyed_scan_dec
{
    let kv = value_scan(s, p);
    match kv.0 {
        None => None,
        Some(key) => if key == key_endhdr() {
            match (w, h, d, m, c) {
                (Some(wv), Some(hv), Some(dv), Some(mv), Some(cv)) => Some(
                    (Header { width: wv, height: hv, depth: dv, maxval: mv, color: cv }, kv.1),
                ),
                _ => None,
            }
        } else if key == key_width() {
            if w is Some {
                None
            } else {
                let vv = value_scan(s, kv.1);
                match vv.0 {
                    None => None,
                    Some(vt) => match uint_token_value(vt) {
                        None => None,
                        Some(v) => if v <= u64::MAX {
                            keyed_scan(s, vv.1, Some(v as u64), h, d, m, c)
                        } else {
                            None
                        },
                    },
                }
            }
        } else if key == key_height() {
            if h is Some {
                None
            } else {
                let vv = value_scan(s, kv.1);
                match vv.0 {
                    None => None,
                    Some(vt) => match uint_token_value(vt) {
                        None => None,
                        Some(v) => if v <= u64::MAX {
                            keyed_scan(s, vv.1, w, Some(v as u64), d, m, c)
                        } else {
                            None
                        },
                    },
                }
            }
        } else if key == key_depth() {
            if d is Some {
                None
            } else {
                let vv = value_scan(s, kv.1);
                match vv.0 {
                    None => None,
                    Some(vt) => match uint_token_value(vt) {
                        None => None,
                        Some(v) => if v <= u8::MAX {
                            keyed_scan(s, vv.1, w, h, Some(v as u8), m, c)
                        } else {
                            None
                        },
                    },
                }
            }
        } else if key == key_maxval() {
            if m is Some {
                None
            } else {
                let vv = value_scan(s, kv.1);
                match vv.0 {
                    None => None,
                    Some(vt) => match uint_token_value(vt) {
                        None => None,
                        Some(v) => if v <= u16::MAX {
                            keyed_scan(s, vv.1, w, h, d, Some(v as u16), c)
                        } else {
                            None
                        },
                    },
                }
            }
        } else if key == key_tupltype() {
            if c is Some {
                None
            } else {
                let vv = value_scan(s, kv.1);
                match vv.0 {
                    None => None,
                    Some(vt) => match color_of_name(vt) {
                        None => None,
                        Some(col) => keyed_scan(s, vv.1, w, h, d, m, Some(col)),
                    },
                }
            }
        } else {
            None
        },
    }
}

#[via_fn]
proof fn keyed_scan_dec(
    s: Seq<u8>,
    p: int,
    w: Option<u64>,
    h: Option<u64>,
    d: Option<u8>,
    m: Option<u16>,
    c: Option<Color>,
) {
    if 0 <= p <= s.len() {
        crate::netpbm::lemma_value_scan_bounds(s, p);
        let kv = value_scan(s, p);
        if 0 <= kv.1 <= s.len() {
            crate::netpbm::lemma_value_scan_bounds(s, kv.1);
        }
    }
}

/// Once a field's key has been seen, seeing it again fails the scan: no
/// header comes out of a stream whose next key is one already set.
pub proof fn lemma_duplicate_key_rejected(
    s: Seq<u8>,
    p: int,
    w: Option<u64>,
    h: Option<u64>,
    d: Option<u8>,
    m: Option<u16>,
    c: Option<Color>,
)
    requires
        0 <= p <= s.len(),
        ({
            let kv = value_scan(s, p);
            kv.0 matches Some(key) && {
                ||| key == key_width() && w is Some
                ||| key == key_height() && h is Some
                ||| key == key_depth() && d is Some
                ||| key == key_maxval() && m is Some
                ||| key == key_tupltype() && c is Some
            }
        }),
    ensures
        keyed_scan(s, p, w, h, d, m, c) is None,
{
}

/// A pull decoder over a byte source. Operations are valid only from the
/// state they are documented for; the state moves strictly forward.
pub struct Decoder {
    pub state: State,
    pub line_reader: Lines,
    pub pixels_size: u64,
}

impl Decoder {
    /// Once the signature has been read, the cursor always stays within
    /// the stream.
    pub open spec fn inv(&self) -> bool {
        !(self.state is Pending) ==> self.line_reader.handle.pos
            <= self.line_reader.handle.bytes@.len()
    }

    /// A fresh decoder over `handle`, in the `Pending` state.
    pub fn new(handle: Source) -> (r: Decoder)
        ensures
            r.state is Pending,
            r.line_reader.handle == handle,
            r.pixels_size == 0,
            r.inv(),
    {
        Decoder { state: State::Pending, line_reader: Lines { handle }, pixels_size: 0 }
    }

    /// Reads the two-byte signature token. Valid from `Pending` only.
    ///
    /// Seeks the source to offset 0, reads one token, and requires it to be
    /// exactly two bytes; otherwise the decode fails with
    /// `InvalidSignature` and the state remains `Pending`.
    pub fn read_signature(&mut self) -> (r: Result<[u8; 2], Error>)
        requires
            old(self).state is Pending,
        ensures
            final(self).line_reader.handle.bytes@ == old(self).line_reader.handle.bytes@,
            final(self).pixels_size == old(self).pixels_size,
            final(self).line_reader.handle.pos <= final(self).line_reader.handle.bytes@.len(),
            final(self).inv(),
            ({
                let s = old(self).line_reader.handle.bytes@;
                if token_end(s, 0) == 2 {
                    &&& match r {
                        Ok(sig) => sig@ == s.subrange(0, 2),
                        Err(_) => false,
                    }
                    &&& final(self).state is Signature
                    &&& final(self).line_reader.handle.pos == next_pos(s, 0)
                } else {
                    &&& r matches Err(e) && e is InvalidSignature
                    &&& final(self).state is Pending
                }
            }),
    {
        match read_signature_token(&mut self.line_reader) {
            Some(sig) => {
                self.state = State::Signature;
                Ok(sig)
            },
            None => Err(Error::InvalidSignature),
        }
    }

    /// Reads the next header value, skipping comment tokens.
    pub fn next_value(&mut self) -> (r: Option<Vec<u8>>)
        requires
            old(self).line_reader.handle.pos <= old(self).line_reader.handle.bytes@.len(),
        ensures
            final(self).line_reader.handle.bytes@ == old(self).line_reader.handle.bytes@,
            final(self).state == old(self).state,
            final(self).pixels_size == old(self).pixels_size,
            final(self).line_reader.handle.pos == value_scan(
                old(self).line_reader.handle.bytes@,
                old(self).line_reader.handle.pos as int,
            ).1,
            match r {
                Some(v) => value_scan(
                    old(self).line_reader.handle.bytes@,
                    old(self).line_reader.handle.pos as int,
                ).0 == Some(v@),
                None => value_scan(
                    old(self).line_reader.handle.bytes@,
                    old(self).line_reader.handle.pos as int,
                ).0 is None,
            },
    {
        read_value(&mut self.line_reader)
    }

    /// Parses the keyed header fields up to and including the `ENDHDR`
    /// terminator. Valid from `Signature` only.
    ///
    /// On success every required field has been set exactly once, the
    /// payload size `width * height * depth * bytesPerSample` is fixed,
    /// and the state moves to `Header`. A duplicate, unknown, malformed or
    /// missing field — and a payload size that does not fit in 64 bits —
    /// fails with `InvalidHeader` and leaves the state unchanged.
    pub fn read_header(&mut self) -> (r: Result<Header, Error>)
        requires
            old(self).state is Signature,
            old(self).inv(),
        ensures
            final(self).line_reader.handle.bytes@ == old(self).line_reader.handle.bytes@,
            final(self).line_reader.handle.pos <= final(self).line_reader.handle.bytes@.len(),
            final(self).inv(),
            ({
                let s = old(self).line_reader.handle.bytes@;
                let p0 = old(self).line_reader.handle.pos as int;
                match keyed_scan(s, p0, None, None, None, None, None) {
                    Some((hdr, end)) => if payload_fits(hdr) {
                        &&& r == Ok::<Header, Error>(hdr)
                        &&& final(self).state is Header
                        &&& final(self).pixels_size == payload_size_of(hdr)
                        &&& final(self).line_reader.handle.pos == end
                    } else {
                        &&& r matches Err(e) && e is InvalidHeader
                        &&& final(self).state == old(self).state
                        &&& final(self).pixels_size == old(self).pixels_size
                        &&& final(self).line_reader.handle.pos == end
                    },
                    None => {
                        &&& r matches Err(e) && e is InvalidHeader
                        &&& final(self).state == old(self).state
                        &&& final(self).pixels_size == old(self).pixels_size
                    },
                }
            }),
    {
        let ghost s = self.line_reader.handle.bytes@;
        let ghost p0 = self.line_reader.handle.pos as int;
        let mut width: Option<u64> = None;
        let mut height: Option<u64> = None;
        let mut depth: Option<u8> = None;
        let mut maxval: Option<u16> = None;
        let mut tupltype: Option<Color> = None;
        loop
            invariant
                s == old(self).line_reader.handle.bytes@,
                p0 == old(self).line_reader.handle.pos as int,
                0 <= p0 <= s.len(),
                self.line_reader.handle.bytes@ == s,
                self.line_reader.handle.pos <= s.len(),
                self.state == old(self).state,
                self.pixels_size == old(self).pixels_size,
                keyed_scan(
                    s,
                    self.line_reader.handle.pos as int,
                    width,
                    height,
                    depth,
                    maxval,
                    tupltype,
                ) == keyed_scan(s, p0, None, None, None, None, None),
            decreases s.len() - self.line_reader.handle.pos,
        {
            let ghost pc = self.line_reader.handle.pos as int;
            proof {
                crate::netpbm::lemma_value_scan_bounds(s, pc);
            }
            let key = match self.next_value() {
                None => return Err(Error::InvalidHeader),
                Some(t) => t,
            };
            let ghost pk = self.line_reader.handle.pos as int;
            proof {
                crate::netpbm::lemma_value_scan_bounds(s, pk);
            }
            if crate::netpbm::bytes_eq(&key, &lit_endhdr()) {
                match (width, height, depth, maxval, tupltype) {
                    (Some(w), Some(h), Some(d), Some(m), Some(c)) => {
                        let header = Header {
                            width: w,
                            height: h,
                            depth: d,
                            maxval: m,
                            color: c,
                        };
                        let bps: u64 = if m > 255 {
                            2
                        } else {
                            1
                        };
                        let bpp: u64 = (d as u64) * bps;
                        match w.checked_mul(h) {
                            None => return Err(Error::InvalidHeader),
                            Some(wh) => match wh.checked_mul(bpp) {
                                None => return Err(Error::InvalidHeader),
                                Some(psize) => {
                                    self.pixels_size = psize;
                                    self.state = State::Header;
                                    return Ok(header);
                                },
                            },
                        }
                    },
                    _ => return Err(Error::InvalidHeader),
                }
            } else if crate::netpbm::bytes_eq(&key, &lit_width()) {
                if width.is_some() {
                    return Err(Error::InvalidHeader);
                }
                let vt = match self.next_value() {
                    None => return Err(Error::InvalidHeader),
                    Some(t) => t,
                };
                let v = match crate::netpbm::parse_uint(&vt, u64::MAX) {
                    None => return Err(Error::InvalidHeader),
                    Some(v) => v,
                };
                width = Some(v);
            } else if crate::netpbm::bytes_eq(&key, &lit_height()) {
                if height.is_some() {
                    return Err(Error::InvalidHeader);
                }
                let vt = match self.next_value() {
                    None => return Err(Error::InvalidHeader),
                    Some(t) => t,
                };
                let v = match crate::netpbm::parse_uint(&vt, u64::MAX) {
                    None => return Err(Error::InvalidHeader),
                    Some(v) => v,
                };
                height = Some(v);
            } else if crate::netpbm::bytes_eq(&key, &lit_depth()) {
                if depth.is_some() {
                    return Err(Error::InvalidHeader);
                }
                let vt = match self.next_value() {
                    None => return Err(Error::InvalidHeader),
                    Some(t) => t,
                };
                let v = match crate::netpbm::parse_uint(&vt, 255) {
                    None => return Err(Error::InvalidHeader),
                    Some(v) => v,
                };
                depth = Some(v as u8);
            } else if crate::netpbm::bytes_eq(&key, &lit_maxval()) {
                if maxval.is_some() {
                    return Err(Error::InvalidHeader);
                }
                let vt = match self.next_value() {
                    None => return Err(Error::InvalidHeader),
                    Some(t) => t,
                };
                let v = match crate::netpbm::parse_uint(&vt, 65535) {
                    None => return Err(Error::InvalidHeader),
                    Some(v) => v,
                };
                maxval = Some(v as u16);
            } else if crate::netpbm::bytes_eq(&key, &lit_tupltype()) {
                if tupltype.is_some() {
                    return Err(Error::InvalidHeader);
                }
                let vt = match self.next_value() {
                    None => return Err(Error::InvalidHeader),
                    Some(t) => t,
                };
                let col = match Color::from_name(&vt) {
                    Err(_) => return Err(Error::InvalidHeader),
                    Ok(c) => c,
                };
                tupltype = Some(col);
            } else {
                return Err(Error::InvalidHeader);
            }
        }
    }

    /// Produces the lazy payload descriptor. Valid from `Header` only, and
    /// only when the fixed payload size is positive: a zero size is a
    /// logic error of the caller, not a normal empty image.
    ///
    /// The descriptor's offset is the cursor position immediately after
    /// the header terminator; nothing is read from the source.
    pub fn read_data(&mut self) -> (r: Result<Data, Error>)
        requires
            old(self).state is Header,
            old(self).pixels_size > 0,
        ensures
            final(self).line_reader == old(self).line_reader,
            final(self).pixels_size == old(self).pixels_size,
            final(self).state is Data,
            final(self).inv() == old(self).inv(),
            r == Ok::<Data, Error>(
                Data {
                    offset: old(self).line_reader.handle.pos as u64,
                    length: old(self).pixels_size,
                },
            ),
    {
        let pos = self.line_reader.handle.position();
        self.state = State::Data;
        Ok(Data { offset: pos, length: self.pixels_size })
    }
}

/// The `WIDTH` key token.
fn lit_width() -> (r: Vec<u8>)
    ensures
        r@ == key_width(),
{
    let v: Vec<u8> = vec![87u8, 73, 68, 84, 72];
    proof {
        assert(v@ =~= key_width());
    }
    v
}

/// The `HEIGHT` key token.
fn lit_height() -> (r: Vec<u8>)
    ensures
        r@ == key_height(),
{
    let v: Vec<u8> = vec![72u8, 69, 73, 71, 72, 84];
    proof {
        assert(v@ =~= key_height());
    }
    v
}

/// The `DEPTH` key token.
fn lit_depth() -> (r: Vec<u8>)
    ensures
        r@ == key_depth(),
{
    let v: Vec<u8> = vec![68u8, 69, 80, 84, 72];
    proof {
        assert(v@ =~= key_depth());
    }
    v
}

/// The `MAXVAL` key token.
fn lit_maxval() -> (r: Vec<u8>)
    ensures
        r@ == key_maxval(),
{
    let v: Vec<u8> = vec![77u8, 65, 88, 86, 65, 76];
    proof {
        assert(v@ =~= key_maxval());
    }
    v
}

/// The `TUPLTYPE` key token.
fn lit_tupltype() -> (r: Vec<u8>)
    ensures
        r@ == key_tupltype(),
{
    let v: Vec<u8> = vec![84u8, 85, 80, 76, 84, 89, 80, 69];
    proof {
        assert(v@ =~= key_tupltype());
    }
    v
}

/// The `ENDHDR` terminator token.
fn lit_endhdr() -> (r: Vec<u8>)
    ensures
        r@ == key_endhdr(),
{
    let v: Vec<u8> = vec![69u8, 78, 68, 72, 68, 82];
    proof {
        assert(v@ =~= key_endhdr());
    }
    v
}

/// One element of the decoded sequence: signature, header record or
/// payload descriptor, in that order.
#[derive(Debug, Clone, Copy, PartialEq, Eq)]
pub enum Element {
    Signature([u8; 2]),
    Header(Header),
    Data(Data),
}

/// The mathematical shape of an [`Element`], with the signature bytes as a
/// sequence.
pub enum ElementModel {
    Signature(Seq<u8>),
    Header(Header),
    Data(Data),
}

impl View for Element {
    type V = ElementModel;

    open spec fn view(&self) -> ElementModel {
        match *self {
            Element::Signature(sig) => ElementModel::Signature(sig@),
            Element::Header(h) => ElementModel::Header(h),
            Element::Data(d) => ElementModel::Data(d),
        }
    }
}

impl Element {
    pub fn is_signature(&self) -> (r: bool)
        ensures
            r == (self is Signature),
    {
        match *self {
            Element::Signature(_) => true,
            _ => false,
        }
    }

    pub fn is_header(&self) -> (r: bool)
        ensures
            r == (self is Header),
    {
        match *self {
            Element::Header(_) => true,
            _ => false,
        }
    }

    pub fn is_data(&self) -> (r: bool)
        ensures
            r == (self is Data),
    {
        match *self {
            Element::Data(_) => true,
            _ => false,
        }
    }

    pub fn signature(&self) -> (r: [u8; 2])
        requires
            self is Signature,
        ensures
            *self == Element::Signature(r),
    {
        match *self {
            Element::Signature(sig) => sig,
            _ => vstd::pervasive::unreached(),
        }
    }

    pub fn header(&self) -> (r: Header)
        requires
            self is Header,
        ensures
            *self == Element::Header(r),
    {
        match *self {
            Element::Header(h) => h,
            _ => vstd::pervasive::unreached(),
        }
    }

    pub fn data(&self) -> (r: Data)
        requires
            self is Data,
        ensures
            *self == Element::Data(r),
    {
        match *self {
            Element::Data(d) => d,
            _ => vstd::pervasive::unreached(),
        }
    }
}

/// The element sequence that a fresh decoder produces over the stream
/// `s` — a function of the stream's bytes alone, so any two decode runs
/// over equal bytes yield equal sequences.
pub open spec fn elements_of(s: Seq<u8>) -> Seq<ElementModel> {
    if token_end(s, 0) != 2 {
        seq![]
    } else {
        let sig = ElementModel::Signature(s.subrange(0, 2));
        match keyed_scan(s, next_pos(s, 0), None, None, None, None, None) {
            None => seq![sig],
            Some((hdr, end)) => if payload_fits(hdr) {
                if payload_size_of(hdr) > 0 {
                    seq![
                        sig,
                        ElementModel::Header(hdr),
                        ElementModel::Data(
                            Data { offset: end as u64, length: payload_size_of(hdr) as u64 },
                        ),
                    ]
                } else {
                    seq![sig, ElementModel::Header(hdr)]
                }
            } else {
                seq![sig]
            },
        }
    }
}

impl Decoder {
    /// Performs one pull: inspects the current state, runs the matching
    /// operation, and wraps its success as a tagged element; any failure —
    /// and any call after the terminal state — ends the sequence with
    /// `None`.
    pub fn next(&mut self) -> (r: Option<Element>)
        requires
            old(self).inv(),
        ensures
            final(self).inv(),
            final(self).line_reader.handle.bytes@ == old(self).line_reader.handle.bytes@,
            ({
                let s = old(self).line_reader.handle.bytes@;
                match old(self).state {
                    State::Pending => if token_end(s, 0) == 2 {
                        &&& r matches Some(e) && e matches Element::Signature(sig)
                            && sig@ == s.subrange(0, 2)
                        &&& final(self).state is Signature
                        &&& final(self).line_reader.handle.pos == next_pos(s, 0)
                        &&& final(self).pixels_size == old(self).pixels_size
                    } else {
                        &&& r is None
                        &&& final(self).state is Pending
                    },
                    State::Signature => {
                        let p0 = old(self).line_reader.handle.pos as int;
                        match keyed_scan(s, p0, None, None, None, None, None) {
                            Some((hdr, end)) => if payload_fits(hdr) {
                                &&& r == Some(Element::Header(hdr))
                                &&& final(self).state is Header
                                &&& final(self).pixels_size == payload_size_of(hdr)
                                &&& final(self).line_reader.handle.pos == end
                            } else {
                                &&& r is None
                                &&& final(self).state is Signature
                            },
                            None => {
                                &&& r is None
                                &&& final(self).state is Signature
                            },
                        }
                    },
                    State::Header => if old(self).pixels_size > 0 {
                        &&& r == Some(
                            Element::Data(
                                Data {
                                    offset: old(self).line_reader.handle.pos as u64,
                                    length: old(self).pixels_size,
                                },
                            ),
                        )
                        &&& final(self).state is Data
                        &&& final(self).line_reader == old(self).line_reader
                    } else {
                        &&& r is None
                        &&& *final(self) == *old(self)
                    },
                    State::Data => {
                        &&& r is None
                        &&& *final(self) == *old(self)
                    },
                }
            }),
    {
        match self.state {
            State::Pending => match self.read_signature() {
                Ok(sig) => Some(Element::Signature(sig)),
                Err(_) => None,
            },
            State::Signature => match self.read_header() {
                Ok(h) => Some(Element::Header(h)),
                Err(_) => None,
            },
            State::Header => {
                if self.pixels_size > 0 {
                    match self.read_data() {
                        Ok(d) => Some(Element::Data(d)),
                        Err(_) => None,
                    }
                } else {
                    None
                }
            },
            State::Data => None,
        }
    }

    /// Pulls elements until the sequence ends. A fresh decoder yields
    /// exactly the element sequence determined by the stream's bytes,
    /// whatever the cursor position was beforehand: re-seeking the source
    /// and decoding again reproduces the same sequence.
    pub fn decode_all(&mut self) -> (r: Vec<Element>)
        requires
            old(self).state is Pending,
        ensures
            final(self).line_reader.handle.bytes@ == old(self).line_reader.handle.bytes@,
            r@.map_values(|e: Element| e@) == elements_of(old(self).line_reader.handle.bytes@),
    {
        let ghost s = self.line_reader.handle.bytes@;
        let mut out: Vec<Element> = Vec::new();
        match self.next() {
            None => {
                proof {
                    assert(out@.map_values(|e: Element| e@) =~= elements_of(s));
                }
                return out;
            },
            Some(e1) => {
                out.push(e1);
                match self.next() {
                    None => {
                        proof {
                            assert(out@.map_values(|e: Element| e@) =~= elements_of(s));
                        }
                        return out;
                    },
                    Some(e2) => {
                        out.push(e2);
                        match self.next() {
                            None => {
                                proof {
                                    assert(out@.map_values(|e: Element| e@) =~= elements_of(s));
                                }
                                return out;
                            },
                            Some(e3) => {
                                out.push(e3);
                                proof {
                                    assert(out@.map_values(|e: Element| e@) =~= elements_of(s));
                                }
                                return out;
                            },
                        }
                    },
                }
            },
        }
    }
}

} // verus!
