//! The PNG chunk container: signature check, stream reader, and the
//! typed decoders for the known chunk kinds.

use vstd::prelude::*;

verus! {

// ---------------------------------------------------------------------------
// Errors
// ---------------------------------------------------------------------------

/// A structural fault of the container itself.
#[derive(Clone, Copy, Debug, PartialEq, Eq, Structural)]
pub enum FormatError {
    /// The first 8 bytes are absent or differ from the magic sequence.
    InvalidSignature,
    /// A declared length demands more bytes than remain in the buffer.
    TruncatedChunk,
    /// The type field is not 4 valid ASCII bytes.
    InvalidTypeCode,
}

/// A structural fault inside one chunk's payload.
#[derive(Clone, Copy, Debug, PartialEq, Eq, Structural)]
pub enum ChunkError {
    /// The image header payload has the wrong length or an illegal
    /// field combination.
    MalformedImageHeader,
    /// The pixel density payload is not exactly 9 bytes.
    MalformedPixelDensity,
    /// The chromaticity payload is not exactly 32 bytes.
    MalformedChromaticity,
    /// The color profile payload holds no null terminator before its
    /// end (a terminator in the final position leaves no room for the
    /// compression method and counts as missing too).
    MissingNameTerminator,
    /// The end marker carries a payload, which must be empty.
    UnexpectedPayload,
}

/// Any fault a load can surface: of the container or of one chunk.
#[derive(Clone, Copy, Debug, PartialEq, Eq, Structural)]
pub enum PngError {
    Format(FormatError),
    Chunk(ChunkError),
}

// ---------------------------------------------------------------------------
// The signature
// ---------------------------------------------------------------------------

/// The fixed 8-byte magic sequence that opens every container.
pub open spec fn png_magic() -> Seq<u8> {
    seq![0x89u8, 0x50u8, 0x4Eu8, 0x47u8, 0x0Du8, 0x0Au8, 0x1Au8, 0x0Au8]
}

/// Holds when `s` opens with the full magic sequence.
pub open spec fn valid_signature(s: Seq<u8>) -> bool {
    &&& s.len() >= 8
    &&& s[0] == 0x89u8
    &&& s[1] == 0x50u8
    &&& s[2] == 0x4Eu8
    &&& s[3] == 0x47u8
    &&& s[4] == 0x0Du8
    &&& s[5] == 0x0Au8
    &&& s[6] == 0x1Au8
    &&& s[7] == 0x0Au8
}

/// An input shorter than the signature never carries a valid one.
pub proof fn lemma_short_input_invalid(s: Seq<u8>)
    requires
        s.len() < 8,
    ensures
        !valid_signature(s),
{
}

/// An input whose first 8 bytes differ from the magic sequence in any
/// single position never carries a valid signature.
pub proof fn lemma_mismatched_byte_invalid(s: Seq<u8>, i: int)
    requires
        0 <= i < 8,
        i < s.len(),
        s[i] != png_magic()[i],
    ensures
        !valid_signature(s),
{
}

// ---------------------------------------------------------------------------
// Big-endian fields
// ---------------------------------------------------------------------------

/// The unsigned value of four big-endian bytes.
pub open spec fn be_u32(s: Seq<u8>) -> int
    recommends
        s.len() == 4,
{
    s[0] * 0x100_0000 + s[1] * 0x1_0000 + s[2] * 0x100 + s[3]
}

/// Reads the big-endian 32-bit field at `off`.
fn read_be_u32(buf: &Vec<u8>, off: usize) -> (r: u32)
    requires
        off + 4 <= buf@.len(),
    ensures
        r == be_u32(buf@.subrange(off as int, off as int + 4)),
{
    let len = buf.len();
    assert(off + 4 <= len);
    let r: u32 = (buf[off] as u32) * 0x100_0000 + (buf[off + 1] as u32) * 0x1_0000
        + (buf[off + 2] as u32) * 0x100 + (buf[off + 3] as u32);
    proof {
        let s = buf@.subrange(off as int, off as int + 4);
        assert(s[0] == buf@[off as int]);
        assert(s[1] == buf@[off as int + 1]);
        assert(s[2] == buf@[off as int + 2]);
        assert(s[3] == buf@[off as int + 3]);
    }
    r
}

/// Copies `n` bytes of `buf` starting at `start` into a fresh vector.
fn copy_range(buf: &Vec<u8>, start: usize, n: usize) -> (r: Vec<u8>)
    requires
        start + n <= buf@.len(),
    ensures
        r@ == buf@.subrange(start as int, start as int + n as int),
{
    let len = buf.len();
    let mut r: Vec<u8> = Vec::new();
    let mut i: usize = 0;
    while i < n
        invariant
            i <= n,
            start + n <= len == buf@.len(),
            r@.len() == i,
            forall|j: int| 0 <= j < i ==> r@[j] == buf@[start + j],
        decreases n - i,
    {
        r.push(buf[start + i]);
        i = i + 1;
    }
    proof {
        assert(r@ =~= buf@.subrange(start as int, start as int + n as int));
    }
    r
}

/// The value of four big-endian bytes, as the stream reader reads it.
pub fn vec_to_u32(v: Vec<u8>) -> (r: u32)
    requires
        v@.len() >= 4,
    ensures
        r == be_u32(v@.subrange(0, 4)),
{
    read_be_u32(&v, 0)
}

/// Checks the first 8 bytes of `contents` against the magic sequence.
pub fn verify_png_signature(contents: &Vec<u8>) -> (r: Result<(), FormatError>)
    ensures
        r is Ok <==> valid_signature(contents@),
        r is Err ==> r == Err::<(), FormatError>(FormatError::InvalidSignature),
{
    if contents.len() < 8 {
        return Err(FormatError::InvalidSignature);
    }
    if contents[0] != 0x89 || contents[1] != 0x50 || contents[2] != 0x4E || contents[3] != 0x47
        || contents[4] != 0x0D || contents[5] != 0x0A || contents[6] != 0x1A
        || contents[7] != 0x0A {
        return Err(FormatError::InvalidSignature);
    }
    Ok(())
}

// ---------------------------------------------------------------------------
// Type codes
// ---------------------------------------------------------------------------

/// The type code "IHDR" of the image header chunk.
pub open spec fn ihdr_code() -> Seq<u8> {
    seq![0x49u8, 0x48u8, 0x44u8, 0x52u8]
}

/// The type code "pHYs" of the pixel density chunk.
pub open spec fn phys_code() -> Seq<u8> {
    seq![0x70u8, 0x48u8, 0x59u8, 0x73u8]
}

/// The type code "iCCP" of the color profile chunk.
pub open spec fn iccp_code() -> Seq<u8> {
    seq![0x69u8, 0x43u8, 0x43u8, 0x50u8]
}

/// The type code "cHRM" of the chromaticity chunk.
pub open spec fn chrm_code() -> Seq<u8> {
    seq![0x63u8, 0x48u8, 0x52u8, 0x4Du8]
}

/// The type code "IDAT" of the compressed image data chunk.
pub open spec fn idat_code() -> Seq<u8> {
    seq![0x49u8, 0x44u8, 0x41u8, 0x54u8]
}

/// The type code "IEND" of the end marker chunk.
pub open spec fn iend_code() -> Seq<u8> {
    seq![0x49u8, 0x45u8, 0x4Eu8, 0x44u8]
}

/// Holds when `tc` is a well-formed type field: 4 ASCII bytes.
pub open spec fn ascii4(tc: Seq<u8>) -> bool {
    tc.len() == 4 && forall|i: int| 0 <= i < 4 ==> tc[i] < 128
}

/// Holds when `tc` is one of the six codes this reader decodes.
pub open spec fn known_code(tc: Seq<u8>) -> bool {
    ||| tc =~= ihdr_code()
    ||| tc =~= phys_code()
    ||| tc =~= iccp_code()
    ||| tc =~= chrm_code()
    ||| tc =~= idat_code()
    ||| tc =~= iend_code()
}

// ---------------------------------------------------------------------------
// The decoded chunk types
// ---------------------------------------------------------------------------

/// The image header: dimensions and pixel encoding parameters.
#[derive(Clone, Copy, Debug, PartialEq, Eq, Structural)]
pub struct IDHR {
    pub width: u32,
    pub height: u32,
    pub bit_depth: u8,
    pub colour_type: u8,
    pub compression_method: u8,
    pub filter_method: u8,
    pub interlace_method: u8,
}

/// Physical pixel density: pixels per unit on each axis, and the unit.
#[derive(Clone, Copy, Debug, PartialEq, Eq, Structural)]
#[allow(non_camel_case_types)]
pub struct pHYs {
    pub ppu_x: u32,
    pub ppu_y: u32,
    pub unit_specifier: u8,
}

/// An embedded color profile: its name, the compression method of the
/// profile bytes, and those bytes verbatim.
#[derive(Debug)]
#[allow(non_camel_case_types)]
pub struct iCCP {
    pub profile_name: Vec<u8>,
    pub compression_method: u8,
    pub compressed_profile: Vec<u8>,
}

/// A pair of fixed-point coordinates, each scaled by 100000.
#[derive(Clone, Copy, Debug, PartialEq, Eq, Structural)]
pub struct Vec2 {
    pub x: u32,
    pub y: u32,
}

impl Vec2 {
    /// A pair with the given coordinates.
    pub fn from(x: u32, y: u32) -> (r: Vec2)
        ensures
            r.x == x,
            r.y == y,
    {
        Vec2 { x, y }
    }

    /// The origin pair.
    pub fn new() -> (r: Vec2)
        ensures
            r.x == 0,
            r.y == 0,
    {
        Vec2 { x: 0, y: 0 }
    }
}

/// Color calibration: the white point and the three primaries.
#[derive(Clone, Copy, Debug, PartialEq, Eq, Structural)]
#[allow(non_camel_case_types)]
pub struct cHRM {
    pub white_point: Vec2,
    pub red: Vec2,
    pub green: Vec2,
    pub blue: Vec2,
}

/// One span of the compressed image stream, kept verbatim.
#[derive(Debug)]
pub struct IDAT {
    pub image_data: Vec<u8>,
}

/// The end marker; it carries no payload.
#[derive(Clone, Copy, Debug, PartialEq, Eq, Structural)]
pub struct IEND {}

/// A decoded chunk: one variant per known type code, and an opaque
/// passthrough that keeps the payload of any other code unchanged.
#[derive(Debug)]
#[allow(non_camel_case_types)]
pub enum StandardChunk {
    IHDR(IDHR),
    pHYs(pHYs),
    iCCP(iCCP),
    cHRM(cHRM),
    IDAT(IDAT),
    IEND(IEND),
    Unknown(Vec<u8>),
}

/// The bare discriminant of a decoded chunk, for lookups by type.
#[derive(Clone, Copy, Debug, PartialEq, Eq, Structural)]
#[allow(non_camel_case_types)]
pub enum ChunkKind {
    IHDR,
    pHYs,
    iCCP,
    cHRM,
    IDAT,
    IEND,
    Unknown,
}

/// The discriminant of a decoded chunk.
pub open spec fn kind_of(sc: StandardChunk) -> ChunkKind {
    match sc {
        StandardChunk::IHDR(_) => ChunkKind::IHDR,
        StandardChunk::pHYs(_) => ChunkKind::pHYs,
        StandardChunk::iCCP(_) => ChunkKind::iCCP,
        StandardChunk::cHRM(_) => ChunkKind::cHRM,
        StandardChunk::IDAT(_) => ChunkKind::IDAT,
        StandardChunk::IEND(_) => ChunkKind::IEND,
        StandardChunk::Unknown(_) => ChunkKind::Unknown,
    }
}

// ---------------------------------------------------------------------------
// Payload shapes
// ---------------------------------------------------------------------------

/// The bit depths the format allows for each color type.
pub open spec fn valid_bit_depth(colour_type: u8, bit_depth: u8) -> bool {
    if colour_type == 0 {
        bit_depth == 1 || bit_depth == 2 || bit_depth == 4 || bit_depth == 8 || bit_depth == 16
    } else if colour_type == 3 {
        bit_depth == 1 || bit_depth == 2 || bit_depth == 4 || bit_depth == 8
    } else if colour_type == 2 || colour_type == 4 || colour_type == 6 {
        bit_depth == 8 || bit_depth == 16
    } else {
        false
    }
}

/// A legal image header payload: exactly 13 bytes, positive
/// dimensions, a legal color-type/bit-depth pair, compression and
/// filter methods zero, and an interlace method of 0 or 1.
pub open spec fn valid_ihdr_payload(p: Seq<u8>) -> bool {
    &&& p.len() == 13
    &&& be_u32(p.subrange(0, 4)) > 0
    &&& be_u32(p.subrange(4, 8)) > 0
    &&& valid_bit_depth(p[9], p[8])
    &&& p[10] == 0
    &&& p[11] == 0
    &&& (p[12] == 0 || p[12] == 1)
}

/// The header fields read off a 13-byte payload.
pub open spec fn ihdr_fields(h: IDHR, p: Seq<u8>) -> bool
    recommends
        p.len() == 13,
{
    &&& h.width == be_u32(p.subrange(0, 4))
    &&& h.height == be_u32(p.subrange(4, 8))
    &&& h.bit_depth == p[8]
    &&& h.colour_type == p[9]
    &&& h.compression_method == p[10]
    &&& h.filter_method == p[11]
    &&& h.interlace_method == p[12]
}

/// The density fields read off a 9-byte payload.
pub open spec fn phys_fields(d: pHYs, p: Seq<u8>) -> bool
    recommends
        p.len() == 9,
{
    &&& d.ppu_x == be_u32(p.subrange(0, 4))
    &&& d.ppu_y == be_u32(p.subrange(4, 8))
    &&& d.unit_specifier == p[8]
}

/// A color profile payload splits into a name, a null terminator, a
/// compression method, and the profile bytes; the terminator must
/// leave at least one byte after itself.
pub open spec fn iccp_ok(p: Seq<u8>) -> bool {
    exists|i: int|
        0 <= i < p.len() - 1 && p[i] == 0 && (forall|j: int| 0 <= j < i ==> p[j] != 0)
}

/// The profile fields read off a payload whose name terminator sits
/// at the first null byte.
pub open spec fn iccp_fields(c: iCCP, p: Seq<u8>) -> bool {
    exists|i: int|
        {
            &&& 0 <= i < p.len() - 1
            &&& p[i] == 0
            &&& (forall|j: int| 0 <= j < i ==> p[j] != 0)
            &&& c.profile_name@ =~= p.subrange(0, i)
            &&& c.compression_method == p[i + 1]
            &&& c.compressed_profile@ =~= p.subrange(i + 2, p.len() as int)
        }
}

/// The four coordinate pairs read off a 32-byte payload, in the fixed
/// order white point, red, green, blue.
pub open spec fn chrm_fields(c: cHRM, p: Seq<u8>) -> bool
    recommends
        p.len() == 32,
{
    &&& c.white_point.x == be_u32(p.subrange(0, 4))
    &&& c.white_point.y == be_u32(p.subrange(4, 8))
    &&& c.red.x == be_u32(p.subrange(8, 12))
    &&& c.red.y == be_u32(p.subrange(12, 16))
    &&& c.green.x == be_u32(p.subrange(16, 20))
    &&& c.green.y == be_u32(p.subrange(20, 24))
    &&& c.blue.x == be_u32(p.subrange(24, 28))
    &&& c.blue.y == be_u32(p.subrange(28, 32))
}

/// The error, if any, that decoding a payload under a type code
/// yields. Codes outside the registry never fail.
pub open spec fn spec_decode_err(tc: Seq<u8>, p: Seq<u8>) -> Option<ChunkError> {
    if tc =~= ihdr_code() {
        if valid_ihdr_payload(p) {
            None
        } else {
            Some(ChunkError::MalformedImageHeader)
        }
    } else if tc =~= phys_code() {
        if p.len() == 9 {
            None
        } else {
            Some(ChunkError::MalformedPixelDensity)
        }
    } else if tc =~= iccp_code() {
        if iccp_ok(p) {
            None
        } else {
            Some(ChunkError::MissingNameTerminator)
        }
    } else if tc =~= chrm_code() {
        if p.len() == 32 {
            None
        } else {
            Some(ChunkError::MalformedChromaticity)
        }
    } else if tc =~= iend_code() {
        if p.len() == 0 {
            None
        } else {
            Some(ChunkError::UnexpectedPayload)
        }
    } else {
        None
    }
}

/// Relates a decoded chunk to the type code and payload it came from:
/// the active variant follows the code, and every field is the exact
/// read of its wire position. Any unregistered code carries the
/// payload through unchanged.
pub open spec fn decoded_matches(sc: StandardChunk, tc: Seq<u8>, p: Seq<u8>) -> bool {
    if tc =~= ihdr_code() {
        sc matches StandardChunk::IHDR(h) && ihdr_fields(h, p)
    } else if tc =~= phys_code() {
        sc matches StandardChunk::pHYs(d) && phys_fields(d, p)
    } else if tc =~= iccp_code() {
        sc matches StandardChunk::iCCP(c) && iccp_fields(c, p)
    } else if tc =~= chrm_code() {
        sc matches StandardChunk::cHRM(c) && chrm_fields(c, p)
    } else if tc =~= idat_code() {
        sc matches StandardChunk::IDAT(d) && d.image_data@ =~= p
    } else if tc =~= iend_code() {
        sc is IEND
    } else {
        sc matches StandardChunk::Unknown(b) && b@ =~= p
    }
}

// ---------------------------------------------------------------------------
// The decoders
// ---------------------------------------------------------------------------

/// A typed decoder: consumes the exact payload bytes of one chunk,
/// with the declared payload length, and yields the semantic record
/// or the structural fault it found.
pub trait Chunks: Sized {
    fn init_chunk(data: Vec<u8>, data_length: usize) -> (r: Result<Self, ChunkError>)
        requires
            data@.len() == data_length,
    ;
}

/// Whether the color type admits the bit depth.
fn bit_depth_allowed(colour_type: u8, bit_depth: u8) -> (r: bool)
    ensures
        r == valid_bit_depth(colour_type, bit_depth),
{
    if colour_type == 0 {
        bit_depth == 1 || bit_depth == 2 || bit_depth == 4 || bit_depth == 8 || bit_depth == 16
    } else if colour_type == 3 {
        bit_depth == 1 || bit_depth == 2 || bit_depth == 4 || bit_depth == 8
    } else if colour_type == 2 || colour_type == 4 || colour_type == 6 {
        bit_depth == 8 || bit_depth == 16
    } else {
        false
    }
}

impl Chunks for IDHR {
    fn init_chunk(data: Vec<u8>, data_length: usize) -> (r: Result<IDHR, ChunkError>)
        ensures
            valid_ihdr_payload(data@) ==> (r matches Ok(h) && ihdr_fields(h, data@)),
            !valid_ihdr_payload(data@) ==> r == Err::<IDHR, ChunkError>(
                ChunkError::MalformedImageHeader,
            ),
    {
        if data_length != 13 {
            return Err(ChunkError::MalformedImageHeader);
        }
        let width = read_be_u32(&data, 0);
        let height = read_be_u32(&data, 4);
        let bit_depth = data[8];
        let colour_type = data[9];
        let compression_method = data[10];
        let filter_method = data[11];
        let interlace_method = data[12];
        if width == 0 || height == 0 {
            return Err(ChunkError::MalformedImageHeader);
        }
        if !bit_depth_allowed(colour_type, bit_depth) {
            return Err(ChunkError::MalformedImageHeader);
        }
        if compression_method != 0 || filter_method != 0 {
            return Err(ChunkError::MalformedImageHeader);
        }
        if interlace_method > 1 {
            return Err(ChunkError::MalformedImageHeader);
        }
        Ok(
            IDHR {
                width,
                height,
                bit_depth,
                colour_type,
                compression_method,
                filter_method,
                interlace_method,
            },
        )
    }
}

impl Chunks for pHYs {
    fn init_chunk(data: Vec<u8>, data_length: usize) -> (r: Result<pHYs, ChunkError>)
        ensures
            data@.len() == 9 ==> (r matches Ok(d) && phys_fields(d, data@)),
            data@.len() != 9 ==> r == Err::<pHYs, ChunkError>(ChunkError::MalformedPixelDensity),
    {
        if data_length != 9 {
            return Err(ChunkError::MalformedPixelDensity);
        }
        let ppu_x = read_be_u32(&data, 0);
        let ppu_y = read_be_u32(&data, 4);
        let unit_specifier = data[8];
        Ok(pHYs { ppu_x, ppu_y, unit_specifier })
    }
}

impl Chunks for iCCP {
    fn init_chunk(data: Vec<u8>, data_length: usize) -> (r: Result<iCCP, ChunkError>)
        ensures
            iccp_ok(data@) ==> (r matches Ok(c) && iccp_fields(c, data@)),
            !iccp_ok(data@) ==> r == Err::<iCCP, ChunkError>(ChunkError::MissingNameTerminator),
    {
        let n = data.len();
        let mut i: usize = 0;
        let mut found = false;
        while !found && i < n
            invariant
                i <= n,
                n == data@.len(),
                forall|j: int| 0 <= j < i ==> data@[j] != 0,
                found ==> i < n && data@[i as int] == 0,
            decreases n - i + (if found { 0int } else { 1int }),
        {
            if data[i] == 0 {
                found = true;
            } else {
                i = i + 1;
            }
        }
        if !found || i + 1 >= n {
            proof {
                if iccp_ok(data@) {
                    let w = choose|w: int|
                        0 <= w < data@.len() - 1 && data@[w] == 0 && (forall|j: int|
                            0 <= j < w ==> data@[j] != 0);
                    assert(data@[w] == 0);
                    assert(data@[w] != 0);
                }
            }
            return Err(ChunkError::MissingNameTerminator);
        }
        let profile_name = copy_range(&data, 0, i);
        let compression_method = data[i + 1];
        let compressed_profile = copy_range(&data, i + 2, n - (i + 2));
        let c = iCCP { profile_name, compression_method, compressed_profile };
        proof {
            let gi = i as int;
            assert(0 <= gi < data@.len() - 1 && data@[gi] == 0 && (forall|j: int|
                0 <= j < gi ==> data@[j] != 0) && c.profile_name@ =~= data@.subrange(0, gi)
                && c.compression_method == data@[gi + 1] && c.compressed_profile@ =~= data@.subrange(
                gi + 2,
                data@.len() as int,
            ));
            assert(iccp_ok(data@));
            assert(iccp_fields(c, data@));
        }
        Ok(c)
    }
}

impl Chunks for cHRM {
    fn init_chunk(data: Vec<u8>, data_length: usize) -> (r: Result<cHRM, ChunkError>)
        ensures
            data@.len() == 32 ==> (r matches Ok(c) && chrm_fields(c, data@)),
            data@.len() != 32 ==> r == Err::<cHRM, ChunkError>(ChunkError::MalformedChromaticity),
    {
        if data_length != 32 {
            return Err(ChunkError::MalformedChromaticity);
        }
        let white_point = Vec2::from(read_be_u32(&data, 0), read_be_u32(&data, 4));
        let red = Vec2::from(read_be_u32(&data, 8), read_be_u32(&data, 12));
        let green = Vec2::from(read_be_u32(&data, 16), read_be_u32(&data, 20));
        let blue = Vec2::from(read_be_u32(&data, 24), read_be_u32(&data, 28));
        Ok(cHRM { white_point, red, green, blue })
    }
}

impl Chunks for IDAT {
    fn init_chunk(data: Vec<u8>, _data_length: usize) -> (r: Result<IDAT, ChunkError>)
        ensures
            r matches Ok(d) && d.image_data@ =~= data@,
    {
        Ok(IDAT { image_data: data })
    }
}

impl Chunks for IEND {
    fn init_chunk(data: Vec<u8>, data_length: usize) -> (r: Result<IEND, ChunkError>)
        ensures
            data@.len() == 0 ==> r is Ok,
            data@.len() != 0 ==> r == Err::<IEND, ChunkError>(ChunkError::UnexpectedPayload),
    {
        if data_length != 0 {
            return Err(ChunkError::UnexpectedPayload);
        }
        Ok(IEND {})
    }
}

// ---------------------------------------------------------------------------
// The registry
// ---------------------------------------------------------------------------

/// Whether the type field equals the given 4-byte code.
fn code_is(code: &[u8; 4], b0: u8, b1: u8, b2: u8, b3: u8) -> (r: bool)
    ensures
        r <==> code@ =~= seq![b0, b1, b2, b3],
{
    let r = code[0] == b0 && code[1] == b1 && code[2] == b2 && code[3] == b3;
    proof {
        let s = seq![b0, b1, b2, b3];
        if r {
            assert(code@ =~= s);
        } else {
            if code@ =~= s {
                assert(code@[0] == b0 && code@[1] == b1 && code@[2] == b2 && code@[3] == b3);
            }
        }
    }
    r
}

impl StandardChunk {
    /// The registry's dispatch: decodes the payload under the type
    /// code, handing any code outside the registry through as an
    /// `Unknown` chunk with its payload untouched.
    pub fn str_to_val(code: &[u8; 4], data: Vec<u8>, data_length: usize) -> (r: Result<
        StandardChunk,
        ChunkError,
    >)
        requires
            data@.len() == data_length,
        ensures
            match spec_decode_err(code@, data@) {
                Some(e) => r == Err::<StandardChunk, ChunkError>(e),
                None => r matches Ok(sc) && decoded_matches(sc, code@, data@),
            },
    {
        if code_is(code, 0x49, 0x48, 0x44, 0x52) {
            proof {
                assert(code@ =~= ihdr_code());
            }
            match IDHR::init_chunk(data, data_length) {
                Ok(h) => Ok(StandardChunk::IHDR(h)),
                Err(e) => Err(e),
            }
        } else if code_is(code, 0x70, 0x48, 0x59, 0x73) {
            proof {
                assert(code@ =~= phys_code());
            }
            match pHYs::init_chunk(data, data_length) {
                Ok(d) => Ok(StandardChunk::pHYs(d)),
                Err(e) => Err(e),
            }
        } else if code_is(code, 0x69, 0x43, 0x43, 0x50) {
            proof {
                assert(code@ =~= iccp_code());
            }
            match iCCP::init_chunk(data, data_length) {
                Ok(c) => Ok(StandardChunk::iCCP(c)),
                Err(e) => Err(e),
            }
        } else if code_is(code, 0x63, 0x48, 0x52, 0x4D) {
            proof {
                assert(code@ =~= chrm_code());
            }
            match cHRM::init_chunk(data, data_length) {
                Ok(c) => Ok(StandardChunk::cHRM(c)),
                Err(e) => Err(e),
            }
        } else if code_is(code, 0x49, 0x44, 0x41, 0x54) {
            proof {
                assert(code@ =~= idat_code());
            }
            match IDAT::init_chunk(data, data_length) {
                Ok(d) => Ok(StandardChunk::IDAT(d)),
                Err(e) => Err(e),
            }
        } else if code_is(code, 0x49, 0x45, 0x4E, 0x44) {
            proof {
                assert(code@ =~= iend_code());
            }
            match IEND::init_chunk(data, data_length) {
                Ok(e) => Ok(StandardChunk::IEND(e)),
                Err(e) => Err(e),
            }
        } else {
            proof {
                assert(!(code@ =~= ihdr_code()));
                assert(!(code@ =~= phys_code()));
                assert(!(code@ =~= iccp_code()));
                assert(!(code@ =~= chrm_code()));
                assert(!(code@ =~= idat_code()));
                assert(!(code@ =~= iend_code()));
            }
            Ok(StandardChunk::Unknown(data))
        }
    }
}

// ---------------------------------------------------------------------------
// The chunk stream
// ---------------------------------------------------------------------------

/// The wire-level reading of one record: its type code, its payload
/// (whose length is the declared length), and its checksum field.
pub ghost struct RawChunkModel {
    pub type_code: Seq<u8>,
    pub payload: Seq<u8>,
    pub crc: Seq<u8>,
}

/// Reads one record off the front of `s`: 4 bytes big-endian length,
/// 4 ASCII bytes of type code, the declared number of payload bytes,
/// and 4 bytes of checksum, with the payload then decoded under the
/// type code. Yields the record, or the first fault in that order.
pub open spec fn spec_step(s: Seq<u8>) -> Result<RawChunkModel, PngError>
    recommends
        s.len() > 0,
{
    if s.len() < 8 {
        Err(PngError::Format(FormatError::TruncatedChunk))
    } else {
        let n = be_u32(s.subrange(0, 4));
        let tc = s.subrange(4, 8);
        if !ascii4(tc) {
            Err(PngError::Format(FormatError::InvalidTypeCode))
        } else if s.len() < 12 + n {
            Err(PngError::Format(FormatError::TruncatedChunk))
        } else {
            let payload = s.subrange(8, 8 + n);
            let crc = s.subrange(8 + n, 12 + n);
            match spec_decode_err(tc, payload) {
                Some(ce) => Err(PngError::Chunk(ce)),
                None => Ok(RawChunkModel { type_code: tc, payload, crc }),
            }
        }
    }
}

/// What reading a whole buffer yields: the records in file order and
/// whether an end marker closed the stream, or the first fault.
pub ghost enum StreamSpec {
    Good { recs: Seq<RawChunkModel>, saw_end: bool },
    Bad { err: PngError },
}

/// Reads records off `s` until it is exhausted or an end marker was
/// yielded, whichever comes first; bytes after the end marker are
/// ignored. A buffer that runs out before an end marker is still
/// read in full, with `saw_end` false.
pub open spec fn spec_stream(s: Seq<u8>) -> StreamSpec
    decreases s.len(),
{
    if s.len() == 0 {
        StreamSpec::Good { recs: Seq::empty(), saw_end: false }
    } else {
        match spec_step(s) {
            Err(e) => StreamSpec::Bad { err: e },
            Ok(rec) => {
                if rec.type_code =~= iend_code() {
                    StreamSpec::Good { recs: seq![rec], saw_end: true }
                } else {
                    match spec_stream(s.subrange(12 + rec.payload.len() as int, s.len() as int)) {
                        StreamSpec::Good { recs, saw_end } => StreamSpec::Good {
                            recs: seq![rec] + recs,
                            saw_end,
                        },
                        StreamSpec::Bad { err } => StreamSpec::Bad { err },
                    }
                }
            },
        }
    }
}

/// One raw record with its decoded form.
#[derive(Debug)]
pub struct Chunk {
    pub length: u32,
    pub chunk_type: [u8; 4],
    pub crc: [u8; 4],
    pub chunk_struct: StandardChunk,
}

/// Relates an in-memory chunk to the wire record it was read from.
pub open spec fn chunk_matches(c: Chunk, rec: RawChunkModel) -> bool {
    &&& c.length == rec.payload.len()
    &&& c.chunk_type@ =~= rec.type_code
    &&& c.crc@ =~= rec.crc
    &&& decoded_matches(c.chunk_struct, rec.type_code, rec.payload)
}

impl Chunk {
    /// Reads and decodes the one record that starts at `off`,
    /// returning it with the offset just past its checksum: the
    /// record occupies exactly `4 + 4 + length + 4` bytes.
    pub fn read_at(buf: &Vec<u8>, off: usize) -> (r: Result<(Chunk, usize), PngError>)
        requires
            off < buf@.len(),
        ensures
            match spec_step(buf@.subrange(off as int, buf@.len() as int)) {
                Err(e) => r == Err::<(Chunk, usize), PngError>(e),
                Ok(rec) => r matches Ok(p) && chunk_matches(p.0, rec) && p.1 == off + 12
                    + rec.payload.len(),
            },
    {
        let len = buf.len();
        let ghost s = buf@.subrange(off as int, len as int);
        let remaining = len - off;
        if remaining < 8 {
            return Err(PngError::Format(FormatError::TruncatedChunk));
        }
        let length = read_be_u32(buf, off);
        proof {
            assert(buf@.subrange(off as int, off as int + 4) =~= s.subrange(0, 4));
        }
        let chunk_type: [u8; 4] = [buf[off + 4], buf[off + 5], buf[off + 6], buf[off + 7]];
        proof {
            assert(chunk_type@ =~= s.subrange(4, 8));
        }
        if chunk_type[0] >= 128 || chunk_type[1] >= 128 || chunk_type[2] >= 128
            || chunk_type[3] >= 128 {
            proof {
                assert(!ascii4(s.subrange(4, 8)));
            }
            return Err(PngError::Format(FormatError::InvalidTypeCode));
        }
        proof {
            assert(ascii4(s.subrange(4, 8)));
        }
        if (length as u64) + 12 > (remaining as u64) {
            return Err(PngError::Format(FormatError::TruncatedChunk));
        }
        let data_length = length as usize;
        let data = copy_range(buf, off + 8, data_length);
        proof {
            assert(buf@.subrange(off + 8, off + 8 + data_length as int) =~= s.subrange(
                8,
                8 + data_length as int,
            ));
        }
        let crc_off = off + 8 + data_length;
        let crc: [u8; 4] = [buf[crc_off], buf[crc_off + 1], buf[crc_off + 2], buf[crc_off + 3]];
        proof {
            assert(crc@ =~= s.subrange(8 + data_length as int, 12 + data_length as int));
        }
        let chunk_struct = match StandardChunk::str_to_val(&chunk_type, data, data_length) {
            Ok(sc) => sc,
            Err(ce) => {
                return Err(PngError::Chunk(ce));
            },
        };
        let c = Chunk { length, chunk_type, crc, chunk_struct };
        Ok((c, crc_off + 4))
    }
}

/// Holds when reading a whole buffer whose stream reads as `rest`,
/// after records `pre` were already read, yields `whole`.
pub open spec fn stream_prepends(
    pre: Seq<RawChunkModel>,
    rest: StreamSpec,
    whole: StreamSpec,
) -> bool {
    match rest {
        StreamSpec::Good { recs, saw_end } => whole matches StreamSpec::Good {
            recs: whole_recs,
            saw_end: whole_saw_end,
        } && whole_recs =~= pre + recs && whole_saw_end == saw_end,
        StreamSpec::Bad { err } => whole == (StreamSpec::Bad { err }),
    }
}

impl Chunk {
    /// Reads the whole buffer as a chunk stream, in file order,
    /// stopping after an end marker or when the buffer is exhausted;
    /// the flag says whether an end marker closed the stream. The
    /// first fault, of the container or of a chunk's payload, is
    /// returned instead and no partial stream is handed out.
    pub fn process(image_data: Vec<u8>) -> (r: Result<(Vec<Chunk>, bool), PngError>)
        ensures
            match spec_stream(image_data@) {
                StreamSpec::Good { recs, saw_end } => r matches Ok(p) && p.1 == saw_end
                    && p.0@.len() == recs.len() && (forall|i: int|
                    0 <= i < recs.len() ==> chunk_matches(#[trigger] p.0@[i], recs[i])),
                StreamSpec::Bad { err } => r == Err::<(Vec<Chunk>, bool), PngError>(err),
            },
    {
        let len = image_data.len();
        let mut chunks: Vec<Chunk> = Vec::new();
        let ghost mut recs_done: Seq<RawChunkModel> = Seq::empty();
        let mut off: usize = 0;
        let mut done = false;
        proof {
            assert(image_data@.subrange(0, len as int) =~= image_data@);
        }
        while !done && off < len
            invariant
                off <= len,
                len == image_data@.len(),
                chunks@.len() == recs_done.len(),
                forall|i: int|
                    0 <= i < recs_done.len() ==> chunk_matches(
                        #[trigger] chunks@[i],
                        recs_done[i],
                    ),
                !done ==> stream_prepends(
                    recs_done,
                    spec_stream(image_data@.subrange(off as int, len as int)),
                    spec_stream(image_data@),
                ),
                done ==> (spec_stream(image_data@) matches StreamSpec::Good { recs, saw_end }
                    && recs =~= recs_done && saw_end),
            decreases len - off + (if done { 0int } else { 1int }),
        {
            let ghost tail = image_data@.subrange(off as int, len as int);
            let ghost old_recs_done = recs_done;
            match Chunk::read_at(&image_data, off) {
                Err(e) => {
                    return Err(e);
                },
                Ok((c, next)) => {
                    let ghost rec = spec_step(tail)->Ok_0;
                    proof {
                        assert(chunk_matches(c, rec));
                        assert(tail.len() >= 12 + rec.payload.len());
                        recs_done = recs_done + seq![rec];
                    }
                    let is_end = code_is(&c.chunk_type, 0x49, 0x45, 0x4E, 0x44);
                    chunks.push(c);
                    off = next;
                    if is_end {
                        done = true;
                        proof {
                            assert(rec.type_code =~= iend_code());
                            assert(spec_stream(tail) == (StreamSpec::Good {
                                recs: seq![rec],
                                saw_end: true,
                            }));
                            assert(old_recs_done + seq![rec] =~= recs_done);
                        }
                    } else {
                        proof {
                            assert(!(rec.type_code =~= iend_code()));
                            let tail2 = tail.subrange(
                                12 + rec.payload.len() as int,
                                tail.len() as int,
                            );
                            assert(tail2 =~= image_data@.subrange(off as int, len as int));
                            match spec_stream(tail2) {
                                StreamSpec::Good { recs, saw_end } => {
                                    assert((old_recs_done + seq![rec]) + recs =~= old_recs_done + (
                                    seq![rec] + recs));
                                },
                                StreamSpec::Bad { err } => {},
                            }
                        }
                    }
                },
            }
        }
        if done {
            Ok((chunks, true))
        } else {
            proof {
                assert(image_data@.subrange(off as int, len as int) =~= Seq::<u8>::empty());
                assert(recs_done + Seq::<RawChunkModel>::empty() =~= recs_done);
            }
            Ok((chunks, false))
        }
    }
}

// ---------------------------------------------------------------------------
// The container
// ---------------------------------------------------------------------------

/// A loaded container: its source identifier, its chunks in file
/// order, and whether an end marker closed the stream (a stream that
/// ran out without one is malformed but left inspectable).
#[derive(Debug)]
pub struct PngImage {
    pub name: String,
    pub chunks: Vec<Chunk>,
    pub saw_end: bool,
}

/// Whether a chunk's decoded form carries the given discriminant.
pub open spec fn has_kind(k: ChunkKind) -> spec_fn(Chunk) -> bool {
    |c: Chunk| kind_of(c.chunk_struct) == k
}

impl StandardChunk {
    /// The discriminant of this decoded chunk.
    pub fn kind(&self) -> (k: ChunkKind)
        ensures
            k == kind_of(*self),
    {
        match self {
            StandardChunk::IHDR(_) => ChunkKind::IHDR,
            StandardChunk::pHYs(_) => ChunkKind::pHYs,
            StandardChunk::iCCP(_) => ChunkKind::iCCP,
            StandardChunk::cHRM(_) => ChunkKind::cHRM,
            StandardChunk::IDAT(_) => ChunkKind::IDAT,
            StandardChunk::IEND(_) => ChunkKind::IEND,
            StandardChunk::Unknown(_) => ChunkKind::Unknown,
        }
    }
}

impl PngImage {
    /// Loads a container from its already-read bytes: checks the
    /// signature, then consumes the whole chunk stream. The first
    /// fault is returned instead, and no partial container with it.
    pub fn load(name: String, contents: Vec<u8>) -> (r: Result<PngImage, PngError>)
        ensures
            !valid_signature(contents@) ==> r == Err::<PngImage, PngError>(
                PngError::Format(FormatError::InvalidSignature),
            ),
            valid_signature(contents@) ==> match spec_stream(
                contents@.subrange(8, contents@.len() as int),
            ) {
                StreamSpec::Good { recs, saw_end } => r matches Ok(img) && img.name@ == name@
                    && img.saw_end == saw_end && img.chunks@.len() == recs.len() && (forall|i: int|
                    0 <= i < recs.len() ==> chunk_matches(#[trigger] img.chunks@[i], recs[i])),
                StreamSpec::Bad { err } => r == Err::<PngImage, PngError>(err),
            },
    {
        match verify_png_signature(&contents) {
            Ok(_) => {},
            Err(_) => {
                return Err(PngError::Format(FormatError::InvalidSignature));
            },
        }
        let len = contents.len();
        let rest = copy_range(&contents, 8, len - 8);
        match Chunk::process(rest) {
            Ok((chunks, saw_end)) => Ok(PngImage { name, chunks, saw_end }),
            Err(e) => Err(e),
        }
    }

    /// All chunks whose decoded form carries the requested
    /// discriminant, in file order; an empty result is a normal
    /// outcome.
    #[allow(non_snake_case)]
    pub fn getChunksByType(&self, chunk_type: ChunkKind) -> (r: Vec<&Chunk>)
        ensures
            r@.map_values(|c: &Chunk| *c) == self.chunks@.filter(has_kind(chunk_type)),
    {
        let mut found: Vec<&Chunk> = Vec::new();
        let n = self.chunks.len();
        let mut i: usize = 0;
        proof {
            reveal(Seq::filter);
            assert(self.chunks@.subrange(0, 0) =~= Seq::<Chunk>::empty());
        }
        while i < n
            invariant
                i <= n,
                n == self.chunks@.len(),
                found@.map_values(|c: &Chunk| *c) =~= self.chunks@.subrange(0, i as int).filter(
                    has_kind(chunk_type),
                ),
            decreases n - i,
        {
            let ghost prefix = self.chunks@.subrange(0, i as int);
            let ghost prefix1 = self.chunks@.subrange(0, i as int + 1);
            let c = &self.chunks[i];
            let ghost old_mapped = found@.map_values(|c: &Chunk| *c);
            if c.chunk_struct.kind() == chunk_type {
                found.push(c);
            }
            proof {
                reveal(Seq::filter);
                assert(prefix1.drop_last() =~= prefix);
                assert(prefix1.last() == self.chunks@[i as int]);
                if has_kind(chunk_type)(self.chunks@[i as int]) {
                    assert(found@.map_values(|c: &Chunk| *c) =~= old_mapped.push(
                        self.chunks@[i as int],
                    ));
                } else {
                    assert(found@.map_values(|c: &Chunk| *c) =~= old_mapped);
                }
            }
            i = i + 1;
        }
        proof {
            assert(self.chunks@.subrange(0, n as int) =~= self.chunks@);
        }
        found
    }
}

// ---------------------------------------------------------------------------
// Properties of the reader
// ---------------------------------------------------------------------------

/// A record whose declared length the buffer satisfies occupies
/// exactly `4 + 4 + length + 4` bytes of it.
pub proof fn lemma_step_consumes(s: Seq<u8>)
    requires
        spec_step(s) is Ok,
    ensures
        ({
            let rec = spec_step(s)->Ok_0;
            rec.payload.len() == be_u32(s.subrange(0, 4)) && 12 + rec.payload.len() <= s.len()
        }),
{
}

/// A declared length that exceeds the remaining buffer yields
/// `TruncatedChunk`, whatever follows.
pub proof fn lemma_truncated_step(s: Seq<u8>)
    requires
        s.len() >= 8,
        ascii4(s.subrange(4, 8)),
        s.len() < 12 + be_u32(s.subrange(0, 4)),
    ensures
        spec_step(s) == Err::<RawChunkModel, PngError>(
            PngError::Format(FormatError::TruncatedChunk),
        ),
{
}

/// In a stream that an end marker closed, that marker is the last
/// record read and no earlier record carries its code.
pub proof fn lemma_end_is_last(s: Seq<u8>)
    requires
        spec_stream(s) matches StreamSpec::Good { saw_end: true, .. },
    ensures
        spec_stream(s) matches StreamSpec::Good { recs, .. } ==> recs.len() > 0 && recs[recs.len()
            - 1].type_code =~= iend_code() && (forall|i: int|
            0 <= i < recs.len() - 1 ==> !(#[trigger] recs[i].type_code =~= iend_code())),
    decreases s.len(),
{
    if s.len() == 0 {
        assert(spec_stream(s) == (StreamSpec::Good {
            recs: Seq::<RawChunkModel>::empty(),
            saw_end: false,
        }));
    } else {
        match spec_step(s) {
            Err(_) => {},
            Ok(rec) => {
                if rec.type_code =~= iend_code() {
                } else {
                    let rest = s.subrange(12 + rec.payload.len() as int, s.len() as int);
                    lemma_end_is_last(rest);
                    match spec_stream(rest) {
                        StreamSpec::Good { recs: recs2, saw_end } => {
                            let recs = seq![rec] + recs2;
                            assert(recs.len() == 1 + recs2.len());
                            assert(recs[recs.len() - 1] == recs2[recs2.len() - 1]);
                            assert(forall|i: int|
                                1 <= i < recs.len() - 1 ==> #[trigger] recs[i] == recs2[i - 1]);
                        },
                        StreamSpec::Bad { .. } => {},
                    }
                }
            },
        }
    }
}

/// Decoding under a type code outside the registry never fails, and
/// the decoded form carries the payload through unchanged.
pub proof fn lemma_unknown_roundtrip(sc: StandardChunk, tc: Seq<u8>, p: Seq<u8>)
    requires
        !known_code(tc),
        decoded_matches(sc, tc, p),
    ensures
        spec_decode_err(tc, p) is None,
        sc matches StandardChunk::Unknown(b) && b@ == p,
{
}

} // verus!
