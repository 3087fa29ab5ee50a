//! Decoder for the tagged-chunk binary image container.
//!
//! After a fixed eight-byte signature, the stream is a run of
//! self-describing records: a four-byte big-endian payload length, a
//! four-byte type code drawn from a closed vocabulary, the payload, and a
//! four-byte checksum over the type code and payload. The decoder frames
//! records without reading their payloads: each record carries the
//! payload's stream offset and declared length, and the trailer record
//! ends the sequence.
//!
//! An unrecognized type code is fatal here (`InvalidChunk`) rather than
//! skippable; the container format's own convention would skip unknown
//! ancillary records, and a consumer that wants that behaviour must
//! whitelist codes before this decoder sees them.
//!
//! Checksum verification is an explicit configuration choice: off by
//! default (the record carries the stored checksum for the consumer to
//! check, e.g. with [`check_chunk_crc`]), or switched on with
//! [`Decoder::set_crc_checking`], in which case a failed record yields
//! [`Error::CrcMismatch`] with the skip hint needed to resynchronize.

use crate::source::Source;
use vstd::prelude::*;

verus! {

/// Decode failures; all but `CrcMismatch` are terminal for the running
/// decode attempt.
#[derive(Debug)]
pub enum Error {
    /// A failed read or seek of the underlying source.
    IoError,
    /// A structurally valid container with field values this decoder
    /// cannot accept.
    Format(&'static str),
    /// The magic bytes are absent, short, or different.
    InvalidSignature,
    /// An unrecognized type code, or truncated chunk framing.
    InvalidChunk,
    /// The stored checksum differs from the one computed over the type
    /// code and payload. The decoder's cursor already sits at the next
    /// record boundary, so a consumer may simply pull again to resync.
    CrcMismatch {
        /// The extent of the failed record past its payload start: the
        /// declared payload length plus the four checksum bytes.
        recover: usize,
        /// The checksum stored in the record.
        crc_val: u32,
        /// The checksum computed over the type code and payload.
        crc_sum: u32,
        /// The failed record's type.
        chunk_kind: ChunkKind,
    },
    /// An unclassified condition.
    Other(&'static str),
    /// The compressed payload stream cannot be inflated.
    CorruptFlateStream,
}

/// The color kind the header chunk declares; each kind fixes the number
/// of samples per pixel.
#[derive(Debug, Clone, Copy, PartialEq, Eq, Structural)]
pub enum Color {
    Greyscale,
    Truecolour,
    Indexed,
    GreyscaleWithAlpha,
    TruecolourWithAlpha,
}

/// The color kind a header byte denotes, if any.
pub open spec fn color_of_code(n: u8) -> Option<Color> {
    if n == 0 {
        Some(Color::Greyscale)
    } else if n == 2 {
        Some(Color::Truecolour)
    } else if n == 3 {
        Some(Color::Indexed)
    } else if n == 4 {
        Some(Color::GreyscaleWithAlpha)
    } else if n == 6 {
        Some(Color::TruecolourWithAlpha)
    } else {
        None
    }
}

/// The samples per pixel each color kind uses.
pub open spec fn spec_samples(c: Color) -> usize {
    match c {
        Color::Greyscale => 1,
        Color::Truecolour => 3,
        Color::Indexed => 1,
        Color::GreyscaleWithAlpha => 2,
        Color::TruecolourWithAlpha => 4,
    }
}

impl Color {
    /// Parses the header's color-kind byte.
    pub fn try_from_u8(n: u8) -> (r: Result<Color, ()>)
        ensures
            match color_of_code(n) {
                Some(c) => r == Ok::<Color, ()>(c),
                None => r == Err::<Color, ()>(()),
            },
    {
        if n == 0 {
            Ok(Color::Greyscale)
        } else if n == 2 {
            Ok(Color::Truecolour)
        } else if n == 3 {
            Ok(Color::Indexed)
        } else if n == 4 {
            Ok(Color::GreyscaleWithAlpha)
        } else if n == 6 {
            Ok(Color::TruecolourWithAlpha)
        } else {
            Err(())
        }
    }

    /// The byte that denotes this color kind; parsing it gives the kind
    /// back.
    pub fn code(&self) -> (r: u8)
        ensures
            color_of_code(r) == Some(*self),
    {
        match *self {
            Color::Greyscale => 0,
            Color::Truecolour => 2,
            Color::Indexed => 3,
            Color::GreyscaleWithAlpha => 4,
            Color::TruecolourWithAlpha => 6,
        }
    }

    /// Returns the number of samples used per pixel of this color kind.
    pub fn samples(&self) -> (r: usize)
        ensures
            r == spec_samples(*self),
    {
        match *self {
            Color::Greyscale => 1,
            Color::Indexed => 1,
            Color::Truecolour => 3,
            Color::GreyscaleWithAlpha => 2,
            Color::TruecolourWithAlpha => 4,
        }
    }
}

/// The bit depth the header chunk declares.
#[derive(Debug, Clone, Copy, PartialEq, Eq, Structural)]
pub enum BitDepth {
    One,
    Two,
    Four,
    Eight,
    Sixteen,
}

/// The bit depth a header byte denotes, if any.
pub open spec fn bitdepth_of_code(n: u8) -> Option<BitDepth> {
    if n == 1 {
        Some(BitDepth::One)
    } else if n == 2 {
        Some(BitDepth::Two)
    } else if n == 4 {
        Some(BitDepth::Four)
    } else if n == 8 {
        Some(BitDepth::Eight)
    } else if n == 16 {
        Some(BitDepth::Sixteen)
    } else {
        None
    }
}

impl BitDepth {
    /// Parses the header's bit-depth byte.
    pub fn try_from_u8(n: u8) -> (r: Result<BitDepth, ()>)
        ensures
            match bitdepth_of_code(n) {
                Some(b) => r == Ok::<BitDepth, ()>(b),
                None => r == Err::<BitDepth, ()>(()),
            },
    {
        if n == 1 {
            Ok(BitDepth::One)
        } else if n == 2 {
            Ok(BitDepth::Two)
        } else if n == 4 {
            Ok(BitDepth::Four)
        } else if n == 8 {
            Ok(BitDepth::Eight)
        } else if n == 16 {
            Ok(BitDepth::Sixteen)
        } else {
            Err(())
        }
    }

    /// The byte that denotes this bit depth; parsing it gives the depth
    /// back.
    pub fn code(&self) -> (r: u8)
        ensures
            bitdepth_of_code(r) == Some(*self),
    {
        match *self {
            BitDepth::One => 1,
            BitDepth::Two => 2,
            BitDepth::Four => 4,
            BitDepth::Eight => 8,
            BitDepth::Sixteen => 16,
        }
    }
}

/// The closed vocabulary of record types this decoder recognizes.
#[allow(non_camel_case_types)]
#[derive(Debug, Clone, Copy, PartialEq, Eq, Structural)]
pub enum ChunkKind {
    /// Image header: the first chunk of the stream.
    IHDR,
    /// Palette table for indexed images.
    PLTE,
    /// Image data.
    IDAT,
    /// Image trailer: the last chunk of the stream.
    IEND,
    /// Transparency information.
    tRNS,
    /// Primary chromaticities and white point.
    cHRM,
    /// Image gamma.
    gAMA,
    /// Embedded color profile.
    iCCP,
    /// Significant bits.
    sBIT,
    /// Standard RGB color space.
    sRGB,
    /// International textual data.
    iTXt,
    /// Textual data.
    tEXt,
    /// Compressed textual data.
    zTXt,
    /// Background color.
    bKGD,
    /// Image histogram.
    hIST,
    /// Physical pixel dimensions.
    pHYs,
    /// Suggested palette.
    sPLT,
    /// Image last-modification time.
    tIME,
}

/// The record type that a four-byte code denotes, if any.
pub open spec fn kind_of4(a: u8, b: u8, c: u8, d: u8) -> Option<ChunkKind> {
    if a == 73 && b == 72 && c == 68 && d == 82 {
        Some(ChunkKind::IHDR)
    } else if a == 80 && b == 76 && c == 84 && d == 69 {
        Some(ChunkKind::PLTE)
    } else if a == 73 && b == 68 && c == 65 && d == 84 {
        Some(ChunkKind::IDAT)
    } else if a == 73 && b == 69 && c == 78 && d == 68 {
        Some(ChunkKind::IEND)
    } else if a == 116 && b == 82 && c == 78 && d == 83 {
        Some(ChunkKind::tRNS)
    } else if a == 99 && b == 72 && c == 82 && d == 77 {
        Some(ChunkKind::cHRM)
    } else if a == 103 && b == 65 && c == 77 && d == 65 {
        Some(ChunkKind::gAMA)
    } else if a == 105 && b == 67 && c == 67 && d == 80 {
        Some(ChunkKind::iCCP)
    } else if a == 115 && b == 66 && c == 73 && d == 84 {
        Some(ChunkKind::sBIT)
    } else if a == 115 && b == 82 && c == 71 && d == 66 {
        Some(ChunkKind::sRGB)
    } else if a == 105 && b == 84 && c == 88 && d == 116 {
        Some(ChunkKind::iTXt)
    } else if a == 116 && b == 69 && c == 88 && d == 116 {
        Some(ChunkKind::tEXt)
    } else if a == 122 && b == 84 && c == 88 && d == 116 {
        Some(ChunkKind::zTXt)
    } else if a == 98 && b == 75 && c == 71 && d == 68 {
        Some(ChunkKind::bKGD)
    } else if a == 104 && b == 73 && c == 83 && d == 84 {
        Some(ChunkKind::hIST)
    } else if a == 112 && b == 72 && c == 89 && d == 115 {
        Some(ChunkKind::pHYs)
    } else if a == 115 && b == 80 && c == 76 && d == 84 {
        Some(ChunkKind::sPLT)
    } else if a == 116 && b == 73 && c == 77 && d == 69 {
        Some(ChunkKind::tIME)
    } else {
        None
    }
}

/// Whether this record type belongs to the critical set required for
/// structural validity.
pub open spec fn spec_is_critical(k: ChunkKind) -> bool {
    k is IHDR || k is PLTE || k is IDAT || k is IEND
}

impl ChunkKind {
    /// Parses a type code; the first four bytes decide, and fewer than
    /// four bytes cannot name a type.
    pub fn try_from_bytes(bytes: &Vec<u8>) -> (r: Result<ChunkKind, ()>)
        ensures
            bytes@.len() >= 4 ==> match kind_of4(bytes@[0], bytes@[1], bytes@[2], bytes@[3]) {
                Some(k) => r == Ok::<ChunkKind, ()>(k),
                None => r == Err::<ChunkKind, ()>(()),
            },
            bytes@.len() < 4 ==> r == Err::<ChunkKind, ()>(()),
    {
        if bytes.len() < 4 {
            return Err(());
        }
        let a = bytes[0];
        let b = bytes[1];
        let c = bytes[2];
        let d = bytes[3];
        if a == 73 && b == 72 && c == 68 && d == 82 {
            Ok(ChunkKind::IHDR)
        } else if a == 80 && b == 76 && c == 84 && d == 69 {
            Ok(ChunkKind::PLTE)
        } else if a == 73 && b == 68 && c == 65 && d == 84 {
            Ok(ChunkKind::IDAT)
        } else if a == 73 && b == 69 && c == 78 && d == 68 {
            Ok(ChunkKind::IEND)
        } else if a == 116 && b == 82 && c == 78 && d == 83 {
            Ok(ChunkKind::tRNS)
        } else if a == 99 && b == 72 && c == 82 && d == 77 {
            Ok(ChunkKind::cHRM)
        } else if a == 103 && b == 65 && c == 77 && d == 65 {
            Ok(ChunkKind::gAMA)
        } else if a == 105 && b == 67 && c == 67 && d == 80 {
            Ok(ChunkKind::iCCP)
        } else if a == 115 && b == 66 && c == 73 && d == 84 {
            Ok(ChunkKind::sBIT)
        } else if a == 115 && b == 82 && c == 71 && d == 66 {
            Ok(ChunkKind::sRGB)
        } else if a == 105 && b == 84 && c == 88 && d == 116 {
            Ok(ChunkKind::iTXt)
        } else if a == 116 && b == 69 && c == 88 && d == 116 {
            Ok(ChunkKind::tEXt)
        } else if a == 122 && b == 84 && c == 88 && d == 116 {
            Ok(ChunkKind::zTXt)
        } else if a == 98 && b == 75 && c == 71 && d == 68 {
            Ok(ChunkKind::bKGD)
        } else if a == 104 && b == 73 && c == 83 && d == 84 {
            Ok(ChunkKind::hIST)
        } else if a == 112 && b == 72 && c == 89 && d == 115 {
            Ok(ChunkKind::pHYs)
        } else if a == 115 && b == 80 && c == 76 && d == 84 {
            Ok(ChunkKind::sPLT)
        } else if a == 116 && b == 73 && c == 77 && d == 69 {
            Ok(ChunkKind::tIME)
        } else {
            Err(())
        }
    }

    /// The four-byte code that names this record type; parsing the code
    /// gives the type back.
    pub fn code_bytes(&self) -> (r: [u8; 4])
        ensures
            kind_of4(r@[0], r@[1], r@[2], r@[3]) == Some(*self),
    {
        match *self {
            ChunkKind::IHDR => [73, 72, 68, 82],
            ChunkKind::PLTE => [80, 76, 84, 69],
            ChunkKind::IDAT => [73, 68, 65, 84],
            ChunkKind::IEND => [73, 69, 78, 68],
            ChunkKind::tRNS => [116, 82, 78, 83],
            ChunkKind::cHRM => [99, 72, 82, 77],
            ChunkKind::gAMA => [103, 65, 77, 65],
            ChunkKind::iCCP => [105, 67, 67, 80],
            ChunkKind::sBIT => [115, 66, 73, 84],
            ChunkKind::sRGB => [115, 82, 71, 66],
            ChunkKind::iTXt => [105, 84, 88, 116],
            ChunkKind::tEXt => [116, 69, 88, 116],
            ChunkKind::zTXt => [122, 84, 88, 116],
            ChunkKind::bKGD => [98, 75, 71, 68],
            ChunkKind::hIST => [104, 73, 83, 84],
            ChunkKind::pHYs => [112, 72, 89, 115],
            ChunkKind::sPLT => [115, 80, 76, 84],
            ChunkKind::tIME => [116, 73, 77, 69],
        }
    }

    /// Whether this record type is in the critical set: header, palette,
    /// data or trailer.
    pub fn is_critical_chunk(&self) -> (r: bool)
        ensures
            r == spec_is_critical(*self),
    {
        match *self {
            ChunkKind::IHDR | ChunkKind::PLTE | ChunkKind::IDAT | ChunkKind::IEND => true,
            _ => false,
        }
    }

    /// Whether this record type is ancillary: recognized, but not needed
    /// for structural validity.
    pub fn is_ancillary_chunk(&self) -> (r: bool)
        ensures
            r == !spec_is_critical(*self),
    {
        !self.is_critical_chunk()
    }
}

/// The value of the four bytes at `p` read as a big-endian 32-bit
/// unsigned integer.
pub open spec fn be32_val(s: Seq<u8>, p: int) -> int {
    s[p] * 0x100_0000 + s[p + 1] * 0x1_0000 + s[p + 2] * 0x100 + s[p + 3]
}

/// Reads a big-endian 32-bit unsigned integer from a four-byte buffer.
pub fn u32_from_be(b: &Vec<u8>) -> (r: u32)
    requires
        b@.len() == 4,
    ensures
        r == be32_val(b@, 0),
{
    (b[0] as u32) * 0x100_0000 + (b[1] as u32) * 0x1_0000 + (b[2] as u32) * 0x100 + (b[3] as u32)
}

/// Reads a big-endian 32-bit unsigned integer from a four-byte array.
pub fn u32_from_be4(b: &[u8; 4]) -> (r: u32)
    ensures
        r == be32_val(b@, 0),
{
    (b[0] as u32) * 0x100_0000 + (b[1] as u32) * 0x1_0000 + (b[2] as u32) * 0x100 + (b[3] as u32)
}

/// A framed record: it describes, but does not contain, a chunk's
/// payload. `offset` points at the first payload byte in the source, and
/// `index` is the record's position in the sequence, counted from 0
/// directly after the signature.
#[derive(Debug, Clone, Copy, PartialEq, Eq)]
pub struct Chunk {
    pub index: usize,
    pub length: u32,
    pub kind: ChunkKind,
    pub crc: [u8; 4],
    pub offset: u64,
}

/// The mathematical shape of a [`Chunk`], over unbounded integers and a
/// byte sequence for the stored checksum.
pub struct ChunkModel {
    pub index: int,
    pub length: int,
    pub kind: ChunkKind,
    pub crc: Seq<u8>,
    pub offset: int,
}

impl View for Chunk {
    type V = ChunkModel;

    open spec fn view(&self) -> ChunkModel {
        ChunkModel {
            index: self.index as int,
            length: self.length as int,
            kind: self.kind,
            crc: self.crc@,
            offset: self.offset as int,
        }
    }
}

/// The validated header-chunk fields. This decoder checks structure and
/// field ranges only; pixel reconstruction is outside its scope.
#[derive(Debug, Clone, Copy, PartialEq, Eq, Structural)]
pub struct Header {
    pub width: u32,
    pub height: u32,
    pub bitdepth: BitDepth,
    pub color: Color,
    /// 0: deflate/inflate compression.
    pub compression_method: u8,
    /// 0: adaptive filtering with five basic filter types.
    pub filter_method: u8,
    /// 0: no interlace; 1: progressive sample reordering.
    pub interlace_method: u8,
}

/// The header that a header-chunk payload declares: the fixed 13-byte
/// layout of width, height, bit depth, color kind and three method
/// bytes — or `None` when the length or an enumerated field is wrong.
pub open spec fn header_of(p: Seq<u8>) -> Option<Header> {
    if p.len() != 13 {
        None
    } else {
        match bitdepth_of_code(p[8]) {
            None => None,
            Some(bd) => match color_of_code(p[9]) {
                None => None,
                Some(col) => Some(
                    Header {
                        width: be32_val(p, 0) as u32,
                        height: be32_val(p, 4) as u32,
                        bitdepth: bd,
                        color: col,
                        compression_method: p[10],
                        filter_method: p[11],
                        interlace_method: p[12],
                    },
                ),
            },
        }
    }
}

/// Validates a header-chunk payload: exactly 13 bytes, with recognized
/// bit-depth and color-kind fields. Everything else is `InvalidChunk`.
pub fn parse_header(payload: &Vec<u8>) -> (r: Result<Header, Error>)
    ensures
        match header_of(payload@) {
            Some(h) => r == Ok::<Header, Error>(h),
            None => r matches Err(e) && e is InvalidChunk,
        },
{
    if payload.len() != 13 {
        return Err(Error::InvalidChunk);
    }
    let bd = match BitDepth::try_from_u8(payload[8]) {
        Err(_) => return Err(Error::InvalidChunk),
        Ok(b) => b,
    };
    let col = match Color::try_from_u8(payload[9]) {
        Err(_) => return Err(Error::InvalidChunk),
        Ok(c) => c,
    };
    let mut head: Vec<u8> = Vec::new();
    head.push(payload[0]);
    head.push(payload[1]);
    head.push(payload[2]);
    head.push(payload[3]);
    let width = u32_from_be(&head);
    let mut head2: Vec<u8> = Vec::new();
    head2.push(payload[4]);
    head2.push(payload[5]);
    head2.push(payload[6]);
    head2.push(payload[7]);
    let height = u32_from_be(&head2);
    proof {
        assert(head@ =~= seq![payload@[0], payload@[1], payload@[2], payload@[3]]);
        assert(head2@ =~= seq![payload@[4], payload@[5], payload@[6], payload@[7]]);
    }
    Ok(
        Header {
            width,
            height,
            bitdepth: bd,
            color: col,
            compression_method: payload[10],
            filter_method: payload[11],
            interlace_method: payload[12],
        },
    )
}

/// The checksum of a byte sequence under the container's 32-bit cyclic
/// redundancy code.
pub uninterp spec fn crc32_of(data: Seq<u8>) -> u32;

/// Relies on `crc::Crc::<u32>::checksum` with the `CRC_32_ISO_HDLC`
/// algorithm (the container format's checksum): the result is a function
/// of the input bytes alone.
#[verifier::external_body]
fn crc32_ieee(data: &Vec<u8>) -> (r: u32)
    ensures
        r == crc32_of(data@),
{
    crc::Crc::<u32>::new(&crc::CRC_32_ISO_HDLC).checksum(data.as_slice())
}

/// Verifies a record's stored checksum against one computed over the
/// bytes handed in (the four type-code bytes followed by the payload).
/// A mismatch carries the stored and computed values, the record's type,
/// and a recovery hint derived from the record's declared length.
pub fn check_chunk_crc(chunk: &Chunk, type_and_payload: &Vec<u8>) -> (r: Result<(), Error>)
    requires
        chunk.length + 4 <= usize::MAX,
    ensures
        if crc32_of(type_and_payload@) == be32_val(chunk.crc@, 0) {
            r is Ok
        } else {
            r matches Err(e) && e matches Error::CrcMismatch {
                recover,
                crc_val,
                crc_sum,
                chunk_kind,
            } && {
                &&& recover == chunk.length + 4
                &&& crc_val == be32_val(chunk.crc@, 0)
                &&& crc_sum == crc32_of(type_and_payload@)
                &&& chunk_kind == chunk.kind
            }
        },
{
    let sum = crc32_ieee(type_and_payload);
    let stored = u32_from_be4(&chunk.crc);
    if sum == stored {
        Ok(())
    } else {
        Err(
            Error::CrcMismatch {
                recover: (chunk.length as usize) + 4,
                crc_val: stored,
                crc_sum: sum,
                chunk_kind: chunk.kind,
            },
        )
    }
}

/// The decoder's position in its strictly forward life cycle. After a
/// record is framed the state holds its type; the trailer type is
/// terminal.
#[derive(Debug, Clone, Copy, PartialEq, Eq, Structural)]
pub enum State {
    Pending,
    Signature,
    HeaderChunk,
    Chunk(ChunkKind),
    TrailerChunk,
}

/// One element of the decoded sequence: the signature, then records.
#[derive(Debug, Clone, Copy, PartialEq, Eq)]
pub enum Element {
    Signature([u8; 8]),
    Chunk(Chunk),
}

/// The mathematical shape of an [`Element`].
pub enum ElementModel {
    Signature(Seq<u8>),
    Chunk(ChunkModel),
}

impl View for Element {
    type V = ElementModel;

    open spec fn view(&self) -> ElementModel {
        match *self {
            Element::Signature(sig) => ElementModel::Signature(sig@),
            Element::Chunk(c) => ElementModel::Chunk(c@),
        }
    }
}

impl Element {
    pub fn is_signature(&self) -> (r: bool)
        ensures
            r == (self is Signature),
    {
        match *self {
            Element::Signature(_) => true,
            _ => false,
        }
    }

    pub fn is_chunk(&self) -> (r: bool)
        ensures
            r == (self is Chunk),
    {
        !self.is_signature()
    }

    pub fn signature(&self) -> (r: [u8; 8])
        requires
            self is Signature,
        ensures
            *self == Element::Signature(r),
    {
        match *self {
            Element::Signature(sig) => sig,
            _ => vstd::pervasive::unreached(),
        }
    }

    pub fn chunk(&self) -> (r: Chunk)
        requires
            self is Chunk,
        ensures
            *self == Element::Chunk(r),
    {
        match *self {
            Element::Chunk(c) => c,
            _ => vstd::pervasive::unreached(),
        }
    }
}

/// The container's fixed eight-byte magic value.
pub open spec fn png_signature() -> Seq<u8> {
    seq![137u8, 80, 78, 71, 13, 10, 26, 10]
}

/// The record framed at position `p` with sequence number `idx`:
/// a four-byte big-endian length, a recognized four-byte type code, the
/// payload starting at `p + 8`, and a four-byte stored checksum after the
/// payload. `None` when the framing is truncated — the declared range
/// must end inside the stream, never silently shortened — or the type
/// code is unknown.
pub open spec fn chunk_at(s: Seq<u8>, p: int, idx: int) -> Option<ChunkModel> {
    if p + 8 > s.len() {
        None
    } else {
        let length = be32_val(s, p);
        match kind_of4(s[p + 4], s[p + 5], s[p + 6], s[p + 7]) {
            None => None,
            Some(kind) => if p + 12 + length <= s.len() {
                Some(
                    ChunkModel {
                        index: idx,
                        length,
                        kind,
                        crc: s.subrange(p + 8 + length, p + 12 + length),
                        offset: p + 8,
                    },
                )
            } else {
                None
            },
        }
    }
}

/// The run of records framed from position `p` onward, numbered from
/// `idx`: framing stops after the trailer record, or at the first record
/// that cannot be framed.
pub open spec fn chunk_seq(s: Seq<u8>, p: int, idx: int) -> Seq<ChunkModel>
    decreases s.len() - p when 0 <= p <= s.len()
{
    match chunk_at(s, p, idx) {
        None => seq![],
        Some(c) => if c.kind is IEND {
            seq![c]
        } else {
            seq![c] + chunk_seq(s, c.offset + c.length + 4, idx + 1)
        },
    }
}

/// The element sequence that a fresh decoder (with checksum verification
/// off) produces over the stream `s` — a function of the stream's bytes
/// alone, so any two decode runs over equal bytes yield equal sequences.
pub open spec fn elements_of(s: Seq<u8>) -> Seq<ElementModel> {
    if s.len() >= 8 && s.subrange(0, 8) == png_signature() {
        seq![ElementModel::Signature(s.subrange(0, 8))] + chunk_seq(s, 8, 0).map_values(
            |c: ChunkModel| ElementModel::Chunk(c),
        )
    } else {
        seq![]
    }
}

/// Every record the framing yields describes a payload range that lies
/// inside the stream, the records carry consecutive sequence numbers,
/// and each record's framing begins exactly where the previous record's
/// checksum ends: the ranges, taken in order, tile the stream with no
/// reordering and no gaps between consecutive records.
pub proof fn lemma_chunks_contiguous(s: Seq<u8>, p: int, idx: int, i: int)
    requires
        0 <= p <= s.len(),
        0 <= i < chunk_seq(s, p, idx).len(),
    ensures
        chunk_seq(s, p, idx)[i].offset + chunk_seq(s, p, idx)[i].length + 4 <= s.len(),
        chunk_seq(s, p, idx)[i].offset >= p + 8,
        chunk_seq(s, p, idx)[i].length >= 0,
        chunk_seq(s, p, idx)[i].index == idx + i,
        i == 0 ==> chunk_seq(s, p, idx)[0].offset == p + 8,
        i + 1 < chunk_seq(s, p, idx).len() ==> chunk_seq(s, p, idx)[i + 1].offset == chunk_seq(
            s,
            p,
            idx,
        )[i].offset + chunk_seq(s, p, idx)[i].length + 12,
    decreases s.len() - p,
{
    let cs = chunk_seq(s, p, idx);
    match chunk_at(s, p, idx) {
        None => {},
        Some(c) => {
            if !(c.kind is IEND) {
                let end = c.offset + c.length + 4;
                let rest = chunk_seq(s, end, idx + 1);
                assert(cs == seq![c] + rest);
                if i == 0 {
                    assert(cs[0] == c);
                    if 1 < cs.len() {
                        assert(cs[1] == rest[0]);
                        lemma_chunks_contiguous(s, end, idx + 1, 0);
                    }
                } else {
                    lemma_chunks_contiguous(s, end, idx + 1, i - 1);
                    assert(cs[i] == rest[i - 1]);
                    if i + 1 < cs.len() {
                        assert(cs[i + 1] == rest[i]);
                    }
                }
            }
        },
    }
}

/// A pull decoder over a byte source. Operations are valid only from the
/// states they are documented for; the state moves strictly forward.
pub struct Decoder {
    pub state: State,
    pub handle: Source,
    pub chunk_index: usize,
    pub verify_crc: bool,
}

impl Decoder {
    /// Once the signature has been read, the cursor stays within the
    /// stream, and the record counter never outruns the twelve bytes of
    /// framing that each record costs.
    pub open spec fn inv(&self) -> bool {
        !(self.state is Pending) ==> {
            &&& self.handle.pos <= self.handle.bytes@.len()
            &&& 12 * self.chunk_index <= self.handle.pos
        }
    }

    /// A fresh decoder over `handle`, in the `Pending` state, with
    /// checksum verification off.
    pub fn new(handle: Source) -> (r: Decoder)
        ensures
            r.state is Pending,
            r.handle == handle,
            r.chunk_index == 0,
            r.verify_crc == false,
            r.inv(),
    {
        Decoder { state: State::Pending, handle, chunk_index: 0, verify_crc: false }
    }

    /// Chooses whether the decoder verifies each record's checksum as it
    /// frames the record (on), or leaves the stored checksum to the
    /// consumer (off, the default).
    pub fn set_crc_checking(&mut self, on: bool)
        ensures
            final(self).state == old(self).state,
            final(self).handle == old(self).handle,
            final(self).chunk_index == old(self).chunk_index,
            final(self).verify_crc == on,
            final(self).inv() == old(self).inv(),
    {
        self.verify_crc = on;
    }

    /// Reads the eight-byte magic value. Valid from `Pending` only.
    ///
    /// Seeks the source to offset 0, resets the record counter, and
    /// compares byte-exact against the known constant; a short read or a
    /// mismatch fails with `InvalidSignature` and the state remains
    /// `Pending`.
    pub fn read_signature(&mut self) -> (r: Result<[u8; 8], Error>)
        requires
            old(self).state is Pending,
        ensures
            final(self).handle.bytes@ == old(self).handle.bytes@,
            final(self).verify_crc == old(self).verify_crc,
            final(self).chunk_index == 0,
            final(self).inv(),
            ({
                let s = old(self).handle.bytes@;
                if s.len() >= 8 && s.subrange(0, 8) == png_signature() {
                    &&& r matches Ok(sig) && sig@ == s.subrange(0, 8)
                    &&& final(self).state is Signature
                    &&& final(self).handle.pos == 8
                } else {
                    &&& r matches Err(e) && e is InvalidSignature
                    &&& final(self).state is Pending
                    &&& final(self).handle.pos <= s.len()
                }
            }),
    {
        let ghost s = self.handle.bytes@;
        self.chunk_index = 0;
        self.handle.seek_start();
        match self.handle.read_exact(8) {
            None => Err(Error::InvalidSignature),
            Some(v) => {
                if v[0] == 137 && v[1] == 80 && v[2] == 78 && v[3] == 71 && v[4] == 13 && v[5]
                    == 10 && v[6] == 26 && v[7] == 10 {
                    let sig: [u8; 8] = [v[0], v[1], v[2], v[3], v[4], v[5], v[6], v[7]];
                    self.state = State::Signature;
                    proof {
                        assert(sig@ =~= v@);
                        assert(s.subrange(0, 8) =~= png_signature());
                    }
                    Ok(sig)
                } else {
                    proof {
                        assert(s.subrange(0, 8) != png_signature());
                    }
                    Err(Error::InvalidSignature)
                }
            },
        }
    }

    /// Frames the next record. Valid from `Signature` or from a prior
    /// record's state, but not after the trailer.
    ///
    /// Reads the length and type code, records the payload offset without
    /// reading the payload, advances past it, and reads the stored
    /// checksum. Truncated framing — including a declared range that
    /// would pass the end of the stream — and unknown type codes fail
    /// with `InvalidChunk`. When checksum verification is on, a framed
    /// record whose stored checksum disagrees with the computed one
    /// yields `CrcMismatch` instead of the record; the cursor still sits
    /// at the next record boundary.
    pub fn read_chunk(&mut self) -> (r: Result<Chunk, Error>)
        requires
            old(self).state is Signature || old(self).state is Chunk,
            old(self).state matches State::Chunk(k) ==> !(k is IEND),
            old(self).inv(),
        ensures
            final(self).handle.bytes@ == old(self).handle.bytes@,
            final(self).verify_crc == old(self).verify_crc,
            final(self).inv(),
            ({
                let s = old(self).handle.bytes@;
                let p0 = old(self).handle.pos as int;
                let idx = old(self).chunk_index as int;
                match chunk_at(s, p0, idx) {
                    None => {
                        &&& r matches Err(e) && e is InvalidChunk
                        &&& final(self).state == old(self).state
                        &&& final(self).chunk_index == old(self).chunk_index
                    },
                    Some(cm) => if !old(self).verify_crc || crc32_of(
                        s.subrange(cm.offset - 4, cm.offset + cm.length),
                    ) == be32_val(cm.crc, 0) {
                        &&& r matches Ok(c) && c@ == cm
                        &&& final(self).state == State::Chunk(cm.kind)
                        &&& final(self).chunk_index == old(self).chunk_index + 1
                        &&& final(self).handle.pos == cm.offset + cm.length + 4
                    } else {
                        &&& r matches Err(e) && e matches Error::CrcMismatch {
                            recover,
                            crc_val,
                            crc_sum,
                            chunk_kind,
                        } && {
                            &&& recover == cm.length + 4
                            &&& crc_val == be32_val(cm.crc, 0)
                            &&& crc_sum == crc32_of(s.subrange(cm.offset - 4, cm.offset + cm.length))
                            &&& chunk_kind == cm.kind
                        }
                        &&& final(self).state == old(self).state
                        &&& final(self).chunk_index == old(self).chunk_index
                        &&& final(self).handle.pos == cm.offset + cm.length + 4
                    },
                }
            }),
    {
        let ghost s = self.handle.bytes@;
        let ghost p0 = self.handle.pos as int;
        let len_bytes = match self.handle.read_exact(4) {
            None => return Err(Error::InvalidChunk),
            Some(v) => v,
        };
        let length: u32 = u32_from_be(&len_bytes);
        let kind_bytes = match self.handle.read_exact(4) {
            None => return Err(Error::InvalidChunk),
            Some(v) => v,
        };
        let kind = match ChunkKind::try_from_bytes(&kind_bytes) {
            Err(_) => return Err(Error::InvalidChunk),
            Ok(k) => k,
        };
        let offset_pos = self.handle.pos;
        let total = self.handle.len();
        if (length as u64) + 4 > ((total - offset_pos) as u64) {
            return Err(Error::InvalidChunk);
        }
        self.handle.skip(length as usize);
        let crc_bytes = match self.handle.read_exact(4) {
            None => return Err(Error::InvalidChunk),
            Some(v) => v,
        };
        let crc: [u8; 4] = [crc_bytes[0], crc_bytes[1], crc_bytes[2], crc_bytes[3]];
        proof {
            assert(crc@ =~= crc_bytes@);
        }
        let chunk = Chunk {
            index: self.chunk_index,
            length,
            kind,
            crc,
            offset: offset_pos as u64,
        };
        if self.verify_crc {
            let start = offset_pos - 4;
            let datalen = (length as usize) + 4;
            let data = match self.handle.read_range(start, datalen) {
                None => return Err(Error::InvalidChunk),
                Some(v) => v,
            };
            match check_chunk_crc(&chunk, &data) {
                Err(e) => return Err(e),
                Ok(_) => {},
            }
        }
        self.chunk_index = self.chunk_index + 1;
        self.state = State::Chunk(kind);
        Ok(chunk)
    }

    /// What one pull from `Signature` or a non-terminal record state
    /// leaves behind: the next record framed and returned, or `None` with
    /// the state and counter untouched.
    pub open spec fn pulls_record(pre: Decoder, post: Decoder, r: Option<Element>) -> bool {
        let s = pre.handle.bytes@;
        let p0 = pre.handle.pos as int;
        let idx = pre.chunk_index as int;
        match chunk_at(s, p0, idx) {
            Some(cm) => if !pre.verify_crc || crc32_of(
                s.subrange(cm.offset - 4, cm.offset + cm.length),
            ) == be32_val(cm.crc, 0) {
                &&& r matches Some(e) && e matches Element::Chunk(c) && c@ == cm
                &&& post.state == State::Chunk(cm.kind)
                &&& post.chunk_index == pre.chunk_index + 1
                &&& post.handle.pos == cm.offset + cm.length + 4
            } else {
                &&& r is None
                &&& post.state == pre.state
                &&& post.chunk_index == pre.chunk_index
            },
            None => {
                &&& r is None
                &&& post.state == pre.state
                &&& post.chunk_index == pre.chunk_index
            },
        }
    }

    /// Performs one pull: the signature from `Pending`, a record from
    /// `Signature` or a non-terminal record state; after the trailer
    /// record the sequence has ended and nothing is read. Any failure
    /// ends the sequence with `None`.
    pub fn next(&mut self) -> (r: Option<Element>)
        requires
            old(self).inv(),
            !(old(self).state is HeaderChunk),
            !(old(self).state is TrailerChunk),
        ensures
            final(self).inv(),
            final(self).handle.bytes@ == old(self).handle.bytes@,
            final(self).verify_crc == old(self).verify_crc,
            !(final(self).state is HeaderChunk),
            !(final(self).state is TrailerChunk),
            ({
                let s = old(self).handle.bytes@;
                match old(self).state {
                    State::Pending => if s.len() >= 8 && s.subrange(0, 8) == png_signature() {
                        &&& r matches Some(e) && e matches Element::Signature(sig) && sig@
                            == s.subrange(0, 8)
                        &&& final(self).state is Signature
                        &&& final(self).handle.pos == 8
                        &&& final(self).chunk_index == 0
                    } else {
                        &&& r is None
                        &&& final(self).state is Pending
                    },
                    State::Chunk(k) => if k is IEND {
                        &&& r is None
                        &&& *final(self) == *old(self)
                    } else {
                        Decoder::pulls_record(*old(self), *final(self), r)
                    },
                    State::Signature => Decoder::pulls_record(*old(self), *final(self), r),
                    _ => r is None,
                }
            }),
    {
        match self.state {
            State::Pending => match self.read_signature() {
                Ok(sig) => Some(Element::Signature(sig)),
                Err(_) => None,
            },
            State::Chunk(k) if k == ChunkKind::IEND => None,
            _ => match self.read_chunk() {
                Ok(c) => Some(Element::Chunk(c)),
                Err(_) => None,
            },
        }
    }

    /// Pulls elements until the sequence ends. A fresh decoder (with
    /// checksum verification off) yields exactly the element sequence
    /// determined by the stream's bytes, whatever the cursor position was
    /// beforehand: re-seeking the source and decoding again reproduces
    /// the same sequence.
    pub fn decode_all(&mut self) -> (r: Vec<Element>)
        requires
            old(self).state is Pending,
            !old(self).verify_crc,
        ensures
            final(self).handle.bytes@ == old(self).handle.bytes@,
            r@.map_values(|e: Element| e@) == elements_of(old(self).handle.bytes@),
    {
        let ghost s = self.handle.bytes@;
        let mut out: Vec<Element> = Vec::new();
        match self.next() {
            None => {
                proof {
                    assert(out@.map_values(|e: Element| e@) =~= elements_of(s));
                }
                return out;
            },
            Some(e) => {
                out.push(e);
                proof {
                    assert(out@.map_values(|el: Element| el@) + chunk_seq(s, 8, 0).map_values(
                        |c: ChunkModel| ElementModel::Chunk(c),
                    ) =~= elements_of(s));
                }
            },
        }
        loop
            invariant
                s == old(self).handle.bytes@,
                self.handle.bytes@ == s,
                !self.verify_crc,
                self.inv(),
                self.state is Signature || self.state is Chunk,
                self.state matches State::Chunk(k) ==> !(k is IEND),
                self.handle.pos <= s.len(),
                out@.map_values(|e: Element| e@) + chunk_seq(
                    s,
                    self.handle.pos as int,
                    self.chunk_index as int,
                ).map_values(|c: ChunkModel| ElementModel::Chunk(c)) == elements_of(s),
            decreases s.len() - self.handle.pos,
        {
            let ghost pc = self.handle.pos as int;
            let ghost ic = self.chunk_index as int;
            match self.next() {
                None => {
                    proof {
                        assert(chunk_seq(s, pc, ic) =~= Seq::<ChunkModel>::empty());
                        assert(out@.map_values(|e: Element| e@) =~= elements_of(s));
                    }
                    return out;
                },
                Some(e) => {
                    let ghost prev = out@;
                    out.push(e);
                    proof {
                        assert(out@.map_values(|e: Element| e@) =~= prev.map_values(
                            |e: Element| e@,
                        ).push(e@));
                    }
                    match e {
                        Element::Chunk(c) => {
                            if c.kind == ChunkKind::IEND {
                                proof {
                                    assert(chunk_seq(s, pc, ic) =~= seq![c@]);
                                    assert(out@.map_values(|e: Element| e@) =~= elements_of(s));
                                }
                                return out;
                            }
                            proof {
                                let rest = chunk_seq(s, c@.offset + c@.length + 4, ic + 1);
                                assert(chunk_seq(s, pc, ic) =~= seq![c@] + rest);
                                assert(out@.map_values(|e: Element| e@) + rest.map_values(
                                    |cm: ChunkModel| ElementModel::Chunk(cm),
                                ) =~= elements_of(s));
                            }
                        },
                        Element::Signature(_) => {
                            proof {
                                assert(false);
                            }
                        },
                    }
                },
            }
        }
    }
}

/// The concatenation of the byte ranges that the data-carrying records
/// of `chunks` describe, in their given order.
pub open spec fn data_ranges_concat(s: Seq<u8>, chunks: Seq<ChunkModel>) -> Seq<u8>
    decreases chunks.len(),
{
    if chunks.len() == 0 {
        seq![]
    } else {
        data_ranges_concat(s, chunks.drop_last()) + (if chunks.last().kind is IDAT {
            s.subrange(chunks.last().offset, chunks.last().offset + chunks.last().length)
        } else {
            seq![]
        })
    }
}

/// Reassembles the compressed data stream on the consumer's side:
/// concatenates the byte ranges described by the data-carrying records,
/// in the order given, reading each range back from the source. `None`
/// when some data record's range does not lie inside the source.
pub fn concat_data_chunks(src: &Source, chunks: &Vec<Chunk>) -> (r: Option<Vec<u8>>)
    ensures
        if forall|i: int| 0 <= i < chunks@.len() ==> ((#[trigger] chunks@[i]).kind is IDAT
            ==> chunks@[i].offset + chunks@[i].length <= src.bytes@.len()) {
            r matches Some(v) && v@ == data_ranges_concat(
                src.bytes@,
                chunks@.map_values(|c: Chunk| c@),
            )
        } else {
            r is None
        },
{
    let ghost s = src.bytes@;
    let ghost models = chunks@.map_values(|c: Chunk| c@);
    let mut acc: Vec<u8> = Vec::new();
    let mut i: usize = 0;
    let total = src.len();
    while i < chunks.len()
        invariant
            s == src.bytes@,
            models == chunks@.map_values(|c: Chunk| c@),
            models.len() == chunks@.len(),
            total == s.len(),
            i <= chunks@.len(),
            forall|j: int| 0 <= j < i ==> ((#[trigger] chunks@[j]).kind is IDAT ==> chunks@[j].offset
                + chunks@[j].length <= s.len()),
            acc@ == data_ranges_concat(s, models.subrange(0, i as int)),
        decreases chunks@.len() - i,
    {
        let c = chunks[i];
        proof {
            assert(models.subrange(0, i + 1).drop_last() =~= models.subrange(0, i as int));
            assert(models.subrange(0, i + 1).last() == c@);
        }
        if matches!(c.kind, ChunkKind::IDAT) {
            if c.offset > (total as u64) || (c.length as u64) > (total as u64) - c.offset {
                return None;
            }
            let range = match src.read_range(c.offset as usize, c.length as usize) {
                None => return None,
                Some(v) => v,
            };
            let mut k: usize = 0;
            let ghost acc_before = acc@;
            while k < range.len()
                invariant
                    k <= range@.len(),
                    acc@ == acc_before + range@.subrange(0, k as int),
                decreases range@.len() - k,
            {
                acc.push(range[k]);
                proof {
                    assert(acc_before + range@.subrange(0, k + 1) =~= (acc_before
                        + range@.subrange(0, k as int)).push(range@[k as int]));
                }
                k = k + 1;
            }
            proof {
                assert(range@.subrange(0, range@.len() as int) =~= range@);
            }
        }
        i = i + 1;
    }
    proof {
        assert(models.subrange(0, chunks@.len() as int) =~= models);
    }
    Some(acc)
}

} // verus!
