//! Decoder for the simple text-header image formats (positional grammar).
//!
//! The header of these formats is a two-byte signature token followed by
//! exactly three numeric tokens: width, height and the maximum sample
//! value, which must lie in `[1, 255]`. Comment tokens beginning with `#`
//! may stand between the fields. After the header terminator the payload
//! follows as raw bytes; the decoder reports it as an offset/length
//! descriptor and never reads it.
//!
//! The channel count is fixed by the format variant named in the
//! signature: one channel for the greyscale variants (`P2`, `P5`), three
//! for the color variants. Payload size is
//! `width * height * channels` bytes, one byte per sample since the
//! maximum sample value is confined to one byte.

use crate::netpbm::{next_pos, read_value, token_end, uint_token_value, value_scan, Lines};
use crate::source::Source;
use vstd::prelude::*;

verus! {

/// The sample count per pixel fixed by the signature's format variant:
/// one for the greyscale variants (`P2`, `P5`), three otherwise.
pub open spec fn channel_count(a: u8, b: u8) -> u64 {
    if a == 80 && (b == 50 || b == 53) {
        1u64
    } else {
        3u64
    }
}

/// Decode failures, each terminal for the running decode attempt.
#[derive(Debug)]
pub enum Error {
    /// A failed read or seek of the underlying source.
    IoError,
    /// The signature token is absent or not exactly two bytes long.
    InvalidSignature,
    /// A malformed, missing or out-of-range header field.
    InvalidHeader,
    /// Payload bytes that contradict the header.
    InvalidImageData,
    /// An unclassified condition.
    Other(&'static str),
}

/// The fixed positional header: width, height and maximum sample value.
#[derive(Debug, Clone, Copy, PartialEq, Eq, Structural)]
pub struct Header {
    pub width: u64,
    pub height: u64,
    pub maxval: u16,
}

/// A lazy payload descriptor: `length` bytes starting at stream offset
/// `offset`. The payload itself is never read by the decoder.
#[derive(Debug, Clone, Copy, PartialEq, Eq, Structural)]
pub struct Data {
    pub offset: u64,
    pub length: u64,
}

/// The decoder's position in its strictly forward life cycle.
#[derive(Debug, Clone, Copy, PartialEq, Eq, Structural)]
pub enum State {
    Pending,
    Signature,
    Header,
    Data,
}

/// The result of parsing the three positional header fields from position
/// `p`: `(width, height, maxval, end position)`, or `None` when a field is
/// missing, malformed or out of range.
pub open spec fn positional_scan(s: Seq<u8>, p: int) -> Option<(u64, u64, u16, int)> {
    let r1 = value_scan(s, p);
    match r1.0 {
        None => None,
        Some(wt) => match uint_token_value(wt) {
            None => None,
            Some(w) => if w <= u64::MAX {
                let r2 = value_scan(s, r1.1);
                match r2.0 {
                    None => None,
                    Some(ht) => match uint_token_value(ht) {
                        None => None,
                        Some(h) => if h <= u64::MAX {
                            let r3 = value_scan(s, r2.1);
                            match r3.0 {
                                None => None,
                                Some(mt) => match uint_token_value(mt) {
                                    None => None,
                                    Some(m) => if 1 <= m && m <= 255 {
                                        Some((w as u64, h as u64, m as u16, r3.1))
                                    } else {
                                        None
                                    },
                                },
                            }
                        } else {
                            None
                        },
                    },
                }
            } else {
                None
            },
        },
    }
}

/// A pull decoder over a byte source. Operations are valid only from the
/// state they are documented for; the state moves strictly forward.
pub struct Decoder {
    pub state: State,
    pub line_reader: Lines,
    pub pixels_size: u64,
    pub channels: u64,
}

impl Decoder {
    /// Once the signature has been read, the cursor always stays within
    /// the stream.
    pub open spec fn inv(&self) -> bool {
        !(self.state is Pending) ==> self.line_reader.handle.pos
            <= self.line_reader.handle.bytes@.len()
    }

    /// A fresh decoder over `handle`, in the `Pending` state.
    pub fn new(handle: Source) -> (r: Decoder)
        ensures
            r.state is Pending,
            r.line_reader.handle == handle,
            r.pixels_size == 0,
            r.inv(),
    {
        Decoder { state: State::Pending, line_reader: Lines { handle }, pixels_size: 0, channels: 0 }
    }

    /// Reads the two-byte signature token. Valid from `Pending` only.
    ///
    /// Seeks the source to offset 0, reads one token, and requires it to be
    /// exactly two bytes; otherwise the decode fails with
    /// `InvalidSignature` and the state remains `Pending`.
    pub fn read_signature(&mut self) -> (r: Result<[u8; 2], Error>)
        requires
            old(self).state is Pending,
        ensures
            final(self).line_reader.handle.bytes@ == old(self).line_reader.handle.bytes@,
            final(self).pixels_size == old(self).pixels_size,
            final(self).line_reader.handle.pos <= final(self).line_reader.handle.bytes@.len(),
            final(self).inv(),
            ({
                let s = old(self).line_reader.handle.bytes@;
                if token_end(s, 0) == 2 {
                    &&& match r {
                        Ok(sig) => sig@ == s.subrange(0, 2),
                        Err(_) => false,
                    }
                    &&& final(self).state is Signature
                    &&& final(self).line_reader.handle.pos == next_pos(s, 0)
                    &&& final(self).channels == channel_count(s[0], s[1])
                } else {
                    &&& r matches Err(e) && e is InvalidSignature
                    &&& final(self).state is Pending
                    &&& final(self).channels == old(self).channels
                }
            }),
    {
        let ghost s = self.line_reader.handle.bytes@;
        match crate::netpbm::read_signature_token(&mut self.line_reader) {
            Some(sig) => {
                self.channels = if sig[0] == 80 && (sig[1] == 50 || sig[1] == 53) {
                    1
                } else {
                    3
                };
                self.state = State::Signature;
                proof {
                    crate::netpbm::lemma_token_end_bounds(s, 0);
                    assert(s[0] == s.subrange(0, 2)[0]);
                    assert(s[1] == s.subrange(0, 2)[1]);
                }
                Ok(sig)
            },
            None => Err(Error::InvalidSignature),
        }
    }

    /// Reads the next header value, skipping comment tokens.
    pub fn next_value(&mut self) -> (r: Option<Vec<u8>>)
        requires
            old(self).line_reader.handle.pos <= old(self).line_reader.handle.bytes@.len(),
        ensures
            final(self).line_reader.handle.bytes@ == old(self).line_reader.handle.bytes@,
            final(self).state == old(self).state,
            final(self).pixels_size == old(self).pixels_size,
            final(self).channels == old(self).channels,
            final(self).line_reader.handle.pos == value_scan(
                old(self).line_reader.handle.bytes@,
                old(self).line_reader.handle.pos as int,
            ).1,
            match r {
                Some(v) => value_scan(
                    old(self).line_reader.handle.bytes@,
                    old(self).line_reader.handle.pos as int,
                ).0 == Some(v@),
                None => value_scan(
                    old(self).line_reader.handle.bytes@,
                    old(self).line_reader.handle.pos as int,
                ).0 is None,
            },
    {
        read_value(&mut self.line_reader)
    }

    /// Parses the three positional header fields. Valid from `Signature`
    /// only.
    ///
    /// On success the payload size `width * height * channels` is fixed
    /// and the state moves to `Header`. A missing, malformed or
    /// out-of-range field — and a payload size that does not fit in 64
    /// bits — fails with `InvalidHeader` and leaves the state unchanged.
    pub fn read_header(&mut self) -> (r: Result<Header, Error>)
        requires
            old(self).state is Signature,
            old(self).inv(),
        ensures
            final(self).line_reader.handle.bytes@ == old(self).line_reader.handle.bytes@,
            final(self).channels == old(self).channels,
            final(self).line_reader.handle.pos <= final(self).line_reader.handle.bytes@.len(),
            final(self).inv(),
            ({
                let s = old(self).line_reader.handle.bytes@;
                let p0 = old(self).line_reader.handle.pos as int;
                let ch = old(self).channels;
                match positional_scan(s, p0) {
                    Some((w, h, m, end)) => if w * h <= u64::MAX && w * h * ch <= u64::MAX {
                        &&& r == Ok::<Header, Error>(Header { width: w, height: h, maxval: m })
                        &&& final(self).state is Header
                        &&& final(self).pixels_size == w * h * ch
                        &&& final(self).line_reader.handle.pos == end
                    } else {
                        &&& r matches Err(e) && e is InvalidHeader
                        &&& final(self).state == old(self).state
                        &&& final(self).pixels_size == old(self).pixels_size
                        &&& final(self).line_reader.handle.pos == end
                    },
                    None => {
                        &&& r matches Err(e) && e is InvalidHeader
                        &&& final(self).state == old(self).state
                        &&& final(self).pixels_size == old(self).pixels_size
                    },
                }
            }),
    {
        let ghost s = self.line_reader.handle.bytes@;
        let ghost p0 = self.line_reader.handle.pos as int;
        proof {
            crate::netpbm::lemma_value_scan_bounds(s, p0);
        }
        let wt = match self.next_value() {
            None => return Err(Error::InvalidHeader),
            Some(t) => t,
        };
        let w = match crate::netpbm::parse_uint(&wt, u64::MAX) {
            None => return Err(Error::InvalidHeader),
            Some(v) => v,
        };
        let ghost p1 = self.line_reader.handle.pos as int;
        proof {
            crate::netpbm::lemma_value_scan_bounds(s, p1);
        }
        let ht = match self.next_value() {
            None => return Err(Error::InvalidHeader),
            Some(t) => t,
        };
        let h = match crate::netpbm::parse_uint(&ht, u64::MAX) {
            None => return Err(Error::InvalidHeader),
            Some(v) => v,
        };
        let ghost p2 = self.line_reader.handle.pos as int;
        proof {
            crate::netpbm::lemma_value_scan_bounds(s, p2);
        }
        let mt = match self.next_value() {
            None => return Err(Error::InvalidHeader),
            Some(t) => t,
        };
        let m = match crate::netpbm::parse_uint(&mt, 255) {
            None => return Err(Error::InvalidHeader),
            Some(v) => v,
        };
        if m < 1 {
            return Err(Error::InvalidHeader);
        }
        let header = Header { width: w, height: h, maxval: m as u16 };
        match w.checked_mul(h) {
            None => Err(Error::InvalidHeader),
            Some(wh) => match wh.checked_mul(self.channels) {
                None => Err(Error::InvalidHeader),
                Some(psize) => {
                    self.pixels_size = psize;
                    self.state = State::Header;
                    Ok(header)
                },
            },
        }
    }

    /// Produces the lazy payload descriptor. Valid from `Header` only, and
    /// only when the fixed payload size is positive: a zero size is a
    /// logic error of the caller, not a normal empty image.
    ///
    /// The descriptor's offset is the cursor position immediately after
    /// the header terminator; nothing is read from the source.
    pub fn read_data(&mut self) -> (r: Result<Data, Error>)
        requires
            old(self).state is Header,
            old(self).pixels_size > 0,
        ensures
            final(self).line_reader == old(self).line_reader,
            final(self).pixels_size == old(self).pixels_size,
            final(self).channels == old(self).channels,
            final(self).state is Data,
            final(self).inv() == old(self).inv(),
            r == Ok::<Data, Error>(
                Data {
                    offset: old(self).line_reader.handle.pos as u64,
                    length: old(self).pixels_size,
                },
            ),
    {
        let pos = self.line_reader.handle.position();
        self.state = State::Data;
        Ok(Data { offset: pos, length: self.pixels_size })
    }
}

/// One element of the decoded sequence: signature, header record or
/// payload descriptor, in that order.
#[derive(Debug, Clone, Copy, PartialEq, Eq)]
pub enum Element {
    Signature([u8; 2]),
    Header(Header),
    Data(Data),
}

/// The mathematical shape of an [`Element`], with the signature bytes as a
/// sequence.
pub enum ElementModel {
    Signature(Seq<u8>),
    Header(Header),
    Data(Data),
}

impl View for Element {
    type V = ElementModel;

    open spec fn view(&self) -> ElementModel {
        match *self {
            Element::Signature(sig) => ElementModel::Signature(sig@),
            Element::Header(h) => ElementModel::Header(h),
            Element::Data(d) => ElementModel::Data(d),
        }
    }
}

impl Element {
    pub fn is_signature(&self) -> (r: bool)
        ensures
            r == (self is Signature),
    {
        match *self {
            Element::Signature(_) => true,
            _ => false,
        }
    }

    pub fn is_header(&self) -> (r: bool)
        ensures
            r == (self is Header),
    {
        match *self {
            Element::Header(_) => true,
            _ => false,
        }
    }

    pub fn is_data(&self) -> (r: bool)
        ensures
            r == (self is Data),
    {
        match *self {
            Element::Data(_) => true,
            _ => false,
        }
    }

    pub fn signature(&self) -> (r: [u8; 2])
        requires
            self is Signature,
        ensures
            *self == Element::Signature(r),
    {
        match *self {
            Element::Signature(sig) => sig,
            _ => vstd::pervasive::unreached(),
        }
    }

    pub fn header(&self) -> (r: Header)
        requires
            self is Header,
        ensures
            *self == Element::Header(r),
    {
        match *self {
            Element::Header(h) => h,
            _ => vstd::pervasive::unreached(),
        }
    }

    pub fn data(&self) -> (r: Data)
        requires
            self is Data,
        ensures
            *self == Element::Data(r),
    {
        match *self {
            Element::Data(d) => d,
            _ => vstd::pervasive::unreached(),
        }
    }
}

/// The element sequence that a fresh decoder produces over the stream
/// `s` — a function of the stream's bytes alone, so any two decode runs
/// over equal bytes yield equal sequences.
pub open spec fn elements_of(s: Seq<u8>) -> Seq<ElementModel> {
    if token_end(s, 0) != 2 {
        seq![]
    } else {
        let sig = ElementModel::Signature(s.subrange(0, 2));
        match positional_scan(s, next_pos(s, 0)) {
            None => seq![sig],
            Some((w, h, m, end)) => {
                let ch = channel_count(s[0], s[1]);
                if w * h <= u64::MAX && w * h * ch <= u64::MAX {
                    let hdr = Header { width: w, height: h, maxval: m };
                    if w * h * ch > 0 {
                        seq![
                            sig,
                            ElementModel::Header(hdr),
                            ElementModel::Data(
                                Data { offset: end as u64, length: (w * h * ch) as u64 },
                            ),
                        ]
                    } else {
                        seq![sig, ElementModel::Header(hdr)]
                    }
                } else {
                    seq![sig]
                }
            },
        }
    }
}

impl Decoder {
    /// Performs one pull: inspects the current state, runs the matching
    /// operation, and wraps its success as a tagged element; any failure —
    /// and any call after the terminal state — ends the sequence with
    /// `None`.
    pub fn next(&mut self) -> (r: Option<Element>)
        requires
            old(self).inv(),
        ensures
            final(self).inv(),
            final(self).line_reader.handle.bytes@ == old(self).line_reader.handle.bytes@,
            ({
                let s = old(self).line_reader.handle.bytes@;
                match old(self).state {
                    State::Pending => if token_end(s, 0) == 2 {
                        &&& r matches Some(e) && e matches Element::Signature(sig)
                            && sig@ == s.subrange(0, 2)
                        &&& final(self).state is Signature
                        &&& final(self).line_reader.handle.pos == next_pos(s, 0)
                        &&& final(self).channels == channel_count(s[0], s[1])
                        &&& final(self).pixels_size == old(self).pixels_size
                    } else {
                        &&& r is None
                        &&& final(self).state is Pending
                    },
                    State::Signature => {
                        let p0 = old(self).line_reader.handle.pos as int;
                        let ch = old(self).channels;
                        match positional_scan(s, p0) {
                            Some((w, h, m, end)) => if w * h <= u64::MAX && w * h * ch
                                <= u64::MAX {
                                &&& r == Some(
                                    Element::Header(Header { width: w, height: h, maxval: m }),
                                )
                                &&& final(self).state is Header
                                &&& final(self).pixels_size == w * h * ch
                                &&& final(self).line_reader.handle.pos == end
                            } else {
                                &&& r is None
                                &&& final(self).state is Signature
                            },
                            None => {
                                &&& r is None
                                &&& final(self).state is Signature
                            },
                        }
                    },
                    State::Header => if old(self).pixels_size > 0 {
                        &&& r == Some(
                            Element::Data(
                                Data {
                                    offset: old(self).line_reader.handle.pos as u64,
                                    length: old(self).pixels_size,
                                },
                            ),
                        )
                        &&& final(self).state is Data
                        &&& final(self).line_reader == old(self).line_reader
                    } else {
                        &&& r is None
                        &&& *final(self) == *old(self)
                    },
                    State::Data => {
                        &&& r is None
                        &&& *final(self) == *old(self)
                    },
                }
            }),
    {
        match self.state {
            State::Pending => match self.read_signature() {
                Ok(sig) => Some(Element::Signature(sig)),
                Err(_) => None,
            },
            State::Signature => match self.read_header() {
                Ok(h) => Some(Element::Header(h)),
                Err(_) => None,
            },
            State::Header => {
                if self.pixels_size > 0 {
                    match self.read_data() {
                        Ok(d) => Some(Element::Data(d)),
                        Err(_) => None,
                    }
                } else {
                    None
                }
            },
            State::Data => None,
        }
    }

    /// Pulls elements until the sequence ends. A fresh decoder yields
    /// exactly the element sequence determined by the stream's bytes,
    /// whatever the cursor position was beforehand: re-seeking the source
    /// and decoding again reproduces the same sequence.
    pub fn decode_all(&mut self) -> (r: Vec<Element>)
        requires
            old(self).state is Pending,
        ensures
            final(self).line_reader.handle.bytes@ == old(self).line_reader.handle.bytes@,
            r@.map_values(|e: Element| e@) == elements_of(old(self).line_reader.handle.bytes@),
    {
        let ghost s = self.line_reader.handle.bytes@;
        let mut out: Vec<Element> = Vec::new();
        match self.next() {
            None => {
                proof {
                    assert(out@.map_values(|e: Element| e@) =~= elements_of(s));
                }
                return out;
            },
            Some(e1) => {
                out.push(e1);
                match self.next() {
                    None => {
                        proof {
                            assert(out@.map_values(|e: Element| e@) =~= elements_of(s));
                        }
                        return out;
                    },
                    Some(e2) => {
                        out.push(e2);
                        match self.next() {
                            None => {
                                proof {
                                    assert(out@.map_values(|e: Element| e@) =~= elements_of(s));
                                }
                                return out;
                            },
                            Some(e3) => {
                                out.push(e3);
                                proof {
                                    assert(out@.map_values(|e: Element| e@) =~= elements_of(s));
                                }
                                return out;
                            },
                        }
                    },
                }
            },
        }
    }
}

} // verus!
