use png_chunks::png::{
    Chunk, ChunkError, ChunkKind, Chunks, FormatError, PngError, PngImage, StandardChunk, IDAT,
    IDHR, IEND,
};
use png_chunks::png::{cHRM, iCCP, pHYs, verify_png_signature, Vec2};
use png_chunks::Config;

const MAGIC: [u8; 8] = [0x89, 0x50, 0x4E, 0x47, 0x0D, 0x0A, 0x1A, 0x0A];

fn push_chunk(v: &mut Vec<u8>, code: [u8; 4], payload: &[u8]) {
    let len = payload.len() as u32;
    v.extend_from_slice(&len.to_be_bytes());
    v.extend_from_slice(&code);
    v.extend_from_slice(payload);
    v.extend_from_slice(&[0xDE, 0xAD, 0xBE, 0xEF]);
}

fn ihdr_payload(width: u32, height: u32, bd: u8, ct: u8, cm: u8, fm: u8, im: u8) -> Vec<u8> {
    let mut p = Vec::new();
    p.extend_from_slice(&width.to_be_bytes());
    p.extend_from_slice(&height.to_be_bytes());
    p.extend_from_slice(&[bd, ct, cm, fm, im]);
    p
}

fn minimal_container() -> Vec<u8> {
    let mut v = MAGIC.to_vec();
    push_chunk(&mut v, *b"IHDR", &ihdr_payload(1, 1, 8, 2, 0, 0, 0));
    push_chunk(&mut v, *b"IDAT", &[0x78, 0x9C, 0x62, 0x00]);
    push_chunk(&mut v, *b"IEND", &[]);
    v
}

#[test]
fn load_rejects_short_input() {
    for n in 0..8 {
        let v = MAGIC[..n].to_vec();
        let r = PngImage::load(String::from("short"), v);
        assert!(matches!(
            r,
            Err(PngError::Format(FormatError::InvalidSignature))
        ));
    }
}

#[test]
fn load_rejects_any_corrupted_signature_byte() {
    for i in 0..8 {
        let mut v = minimal_container();
        v[i] ^= 0x01;
        let r = PngImage::load(String::from("bad"), v);
        assert!(matches!(
            r,
            Err(PngError::Format(FormatError::InvalidSignature))
        ));
    }
}

#[test]
fn signature_accepts_exact_magic() {
    let v = MAGIC.to_vec();
    assert!(verify_png_signature(&v).is_ok());
    let mut longer = MAGIC.to_vec();
    longer.push(0x42);
    assert!(verify_png_signature(&longer).is_ok());
}

#[test]
fn read_at_consumes_exactly_one_record() {
    let mut v = Vec::new();
    push_chunk(&mut v, *b"abcd", &[9, 9, 9, 9, 9]);
    push_chunk(&mut v, *b"efgh", &[1]);
    let (c, next) = Chunk::read_at(&v, 0).unwrap();
    assert_eq!(next, 4 + 4 + 5 + 4);
    assert_eq!(c.length, 5);
    assert_eq!(c.chunk_type, *b"abcd");
    assert_eq!(c.crc, [0xDE, 0xAD, 0xBE, 0xEF]);
    let (c2, next2) = Chunk::read_at(&v, next).unwrap();
    assert_eq!(next2, next + 4 + 4 + 1 + 4);
    assert_eq!(c2.chunk_type, *b"efgh");
}

#[test]
fn read_at_rejects_excess_declared_length() {
    // Declares 16 payload bytes but provides only 2 after the header.
    let mut v = Vec::new();
    v.extend_from_slice(&16u32.to_be_bytes());
    v.extend_from_slice(b"abcd");
    v.extend_from_slice(&[1, 2]);
    let r = Chunk::read_at(&v, 0);
    assert!(matches!(
        r,
        Err(PngError::Format(FormatError::TruncatedChunk))
    ));
}

#[test]
fn read_at_rejects_header_shorter_than_eight_bytes() {
    let v = vec![0, 0, 0, 1, 0x61];
    let r = Chunk::read_at(&v, 0);
    assert!(matches!(
        r,
        Err(PngError::Format(FormatError::TruncatedChunk))
    ));
}

#[test]
fn read_at_rejects_non_ascii_type_code() {
    let mut v = Vec::new();
    v.extend_from_slice(&0u32.to_be_bytes());
    v.extend_from_slice(&[0x49, 0x48, 0xC4, 0x52]);
    v.extend_from_slice(&[0, 0, 0, 0]);
    let r = Chunk::read_at(&v, 0);
    assert!(matches!(
        r,
        Err(PngError::Format(FormatError::InvalidTypeCode))
    ));
}

#[test]
fn unknown_code_passes_payload_through_unchanged() {
    let payload = vec![1u8, 2, 3, 4, 5];
    let r = StandardChunk::str_to_val(b"tEXt", payload.clone(), 5);
    match r {
        Ok(StandardChunk::Unknown(b)) => assert_eq!(b, payload),
        _ => panic!("expected an Unknown passthrough"),
    }
}

#[test]
fn registered_code_dispatches_to_its_decoder() {
    let mut p = Vec::new();
    p.extend_from_slice(&2835u32.to_be_bytes());
    p.extend_from_slice(&2835u32.to_be_bytes());
    p.push(1);
    let r = StandardChunk::str_to_val(b"pHYs", p, 9);
    match r {
        Ok(StandardChunk::pHYs(d)) => {
            assert_eq!(d.ppu_x, 2835);
            assert_eq!(d.ppu_y, 2835);
            assert_eq!(d.unit_specifier, 1);
        }
        _ => panic!("expected a pixel density chunk"),
    }
}

#[test]
fn ihdr_decodes_minimal_header() {
    let p = ihdr_payload(1, 1, 8, 2, 0, 0, 0);
    match IDHR::init_chunk(p, 13) {
        Ok(h) => {
            assert_eq!(h.width, 1);
            assert_eq!(h.height, 1);
            assert_eq!(h.bit_depth, 8);
            assert_eq!(h.colour_type, 2);
            assert_eq!(h.compression_method, 0);
            assert_eq!(h.filter_method, 0);
            assert_eq!(h.interlace_method, 0);
        }
        Err(_) => panic!("a legal header must decode"),
    }
}

#[test]
fn ihdr_rejects_wrong_length() {
    let p = vec![0u8; 12];
    assert!(matches!(
        IDHR::init_chunk(p, 12),
        Err(ChunkError::MalformedImageHeader)
    ));
}

#[test]
fn ihdr_rejects_illegal_field_combinations() {
    // Indexed color with bit depth 16.
    let p = ihdr_payload(1, 1, 16, 3, 0, 0, 0);
    assert!(matches!(
        IDHR::init_chunk(p, 13),
        Err(ChunkError::MalformedImageHeader)
    ));
    // Nonzero compression method.
    let p = ihdr_payload(1, 1, 8, 2, 1, 0, 0);
    assert!(matches!(
        IDHR::init_chunk(p, 13),
        Err(ChunkError::MalformedImageHeader)
    ));
    // Nonzero filter method.
    let p = ihdr_payload(1, 1, 8, 2, 0, 1, 0);
    assert!(matches!(
        IDHR::init_chunk(p, 13),
        Err(ChunkError::MalformedImageHeader)
    ));
    // Zero width.
    let p = ihdr_payload(0, 1, 8, 2, 0, 0, 0);
    assert!(matches!(
        IDHR::init_chunk(p, 13),
        Err(ChunkError::MalformedImageHeader)
    ));
    // Interlace method out of range.
    let p = ihdr_payload(1, 1, 8, 2, 0, 0, 2);
    assert!(matches!(
        IDHR::init_chunk(p, 13),
        Err(ChunkError::MalformedImageHeader)
    ));
}

#[test]
fn phys_rejects_wrong_length() {
    let p = vec![0u8; 8];
    assert!(matches!(
        pHYs::init_chunk(p, 8),
        Err(ChunkError::MalformedPixelDensity)
    ));
}

#[test]
fn iccp_decodes_name_method_and_profile() {
    let mut p = Vec::new();
    p.extend_from_slice(b"icc");
    p.push(0);
    p.push(0);
    p.extend_from_slice(&[0xAA, 0xBB]);
    match iCCP::init_chunk(p, 7) {
        Ok(c) => {
            assert_eq!(c.profile_name, b"icc".to_vec());
            assert_eq!(c.compression_method, 0);
            assert_eq!(c.compressed_profile, vec![0xAA, 0xBB]);
        }
        Err(_) => panic!("a terminated name must decode"),
    }
}

#[test]
fn iccp_rejects_missing_name_terminator() {
    let p = b"no terminator here".to_vec();
    let n = p.len();
    assert!(matches!(
        iCCP::init_chunk(p, n),
        Err(ChunkError::MissingNameTerminator)
    ));
}

#[test]
fn iccp_rejects_terminator_in_final_position() {
    let mut p = b"icc".to_vec();
    p.push(0);
    assert!(matches!(
        iCCP::init_chunk(p, 4),
        Err(ChunkError::MissingNameTerminator)
    ));
}

#[test]
fn chrm_decodes_all_four_pairs() {
    let vals: [u32; 8] = [31270, 32900, 64000, 33000, 30000, 60000, 15000, 6000];
    let mut p = Vec::new();
    for v in vals.iter() {
        p.extend_from_slice(&v.to_be_bytes());
    }
    match cHRM::init_chunk(p, 32) {
        Ok(c) => {
            assert_eq!((c.white_point.x, c.white_point.y), (31270, 32900));
            assert_eq!((c.red.x, c.red.y), (64000, 33000));
            assert_eq!((c.green.x, c.green.y), (30000, 60000));
            assert_eq!((c.blue.x, c.blue.y), (15000, 6000));
        }
        Err(_) => panic!("a 32-byte payload must decode"),
    }
}

#[test]
fn chrm_rejects_wrong_length() {
    let p = vec![0u8; 31];
    assert!(matches!(
        cHRM::init_chunk(p, 31),
        Err(ChunkError::MalformedChromaticity)
    ));
}

#[test]
fn idat_keeps_payload_verbatim() {
    let p = vec![5u8, 6, 7];
    match IDAT::init_chunk(p.clone(), 3) {
        Ok(d) => assert_eq!(d.image_data, p),
        Err(_) => panic!("image data never fails to decode"),
    }
}

#[test]
fn iend_rejects_nonempty_payload() {
    assert!(IEND::init_chunk(Vec::new(), 0).is_ok());
    assert!(matches!(
        IEND::init_chunk(vec![1u8], 1),
        Err(ChunkError::UnexpectedPayload)
    ));
}

#[test]
fn minimal_container_loads_and_answers_queries() {
    let v = minimal_container();
    let img = PngImage::load(String::from("minimal"), v).unwrap();
    assert_eq!(img.chunks.len(), 3);
    assert!(img.saw_end);
    let headers = img.getChunksByType(ChunkKind::IHDR);
    assert_eq!(headers.len(), 1);
    assert!(matches!(headers[0].chunk_struct, StandardChunk::IHDR(_)));
    let densities = img.getChunksByType(ChunkKind::pHYs);
    assert_eq!(densities.len(), 0);
}

#[test]
fn consecutive_image_data_chunks_keep_their_order() {
    let mut v = MAGIC.to_vec();
    push_chunk(&mut v, *b"IHDR", &ihdr_payload(1, 1, 8, 2, 0, 0, 0));
    push_chunk(&mut v, *b"IDAT", &[0x11, 0x22]);
    push_chunk(&mut v, *b"IDAT", &[0x33]);
    push_chunk(&mut v, *b"IEND", &[]);
    let img = PngImage::load(String::from("two_spans"), v).unwrap();
    assert_eq!(img.chunks.len(), 4);
    match &img.chunks[1].chunk_struct {
        StandardChunk::IDAT(d) => assert_eq!(d.image_data, vec![0x11, 0x22]),
        _ => panic!("the first data chunk moved"),
    }
    match &img.chunks[2].chunk_struct {
        StandardChunk::IDAT(d) => assert_eq!(d.image_data, vec![0x33]),
        _ => panic!("the second data chunk moved"),
    }
    let spans = img.getChunksByType(ChunkKind::IDAT);
    assert_eq!(spans.len(), 2);
    match (&spans[0].chunk_struct, &spans[1].chunk_struct) {
        (StandardChunk::IDAT(a), StandardChunk::IDAT(b)) => {
            assert_eq!(a.image_data, vec![0x11, 0x22]);
            assert_eq!(b.image_data, vec![0x33]);
        }
        _ => panic!("the query reordered the data chunks"),
    }
}

#[test]
fn missing_end_marker_is_flagged_not_fatal() {
    let mut v = MAGIC.to_vec();
    push_chunk(&mut v, *b"IHDR", &ihdr_payload(1, 1, 8, 2, 0, 0, 0));
    push_chunk(&mut v, *b"IDAT", &[0x00]);
    let img = PngImage::load(String::from("no_end"), v).unwrap();
    assert_eq!(img.chunks.len(), 2);
    assert!(!img.saw_end);
}

#[test]
fn bytes_after_end_marker_are_ignored() {
    let mut v = minimal_container();
    v.extend_from_slice(&[0xFF, 0xFF, 0xFF]);
    let img = PngImage::load(String::from("trailing"), v).unwrap();
    assert_eq!(img.chunks.len(), 3);
    assert!(img.saw_end);
}

#[test]
fn signature_only_input_loads_empty_container() {
    let v = MAGIC.to_vec();
    let img = PngImage::load(String::from("empty"), v).unwrap();
    assert_eq!(img.chunks.len(), 0);
    assert!(!img.saw_end);
    assert_eq!(img.name, String::from("empty"));
}

#[test]
fn load_reports_first_chunk_fault() {
    let mut v = MAGIC.to_vec();
    push_chunk(&mut v, *b"IHDR", &ihdr_payload(1, 1, 16, 3, 0, 0, 0));
    push_chunk(&mut v, *b"IEND", &[]);
    let r = PngImage::load(String::from("bad_header"), v);
    assert!(matches!(
        r,
        Err(PngError::Chunk(ChunkError::MalformedImageHeader))
    ));
}

#[test]
fn load_reports_truncation_inside_stream() {
    let mut v = MAGIC.to_vec();
    push_chunk(&mut v, *b"IHDR", &ihdr_payload(1, 1, 8, 2, 0, 0, 0));
    v.extend_from_slice(&100u32.to_be_bytes());
    v.extend_from_slice(b"IDAT");
    v.push(0x00);
    let r = PngImage::load(String::from("cut_off"), v);
    assert!(matches!(
        r,
        Err(PngError::Format(FormatError::TruncatedChunk))
    ));
}

#[test]
fn vec_to_u32_reads_big_endian() {
    assert_eq!(
        png_chunks::png::vec_to_u32(vec![0, 0, 1, 0x2C]),
        300
    );
    assert_eq!(
        png_chunks::png::vec_to_u32(vec![0xFF, 0xFF, 0xFF, 0xFF]),
        u32::MAX
    );
}

#[test]
fn vec_to_u32_at_crate_root_takes_first_four_bytes() {
    assert_eq!(png_chunks::vec_to_u32(vec![1, 2, 3, 4, 5]), [1, 2, 3, 4]);
}

#[test]
fn vec2_constructors() {
    let a = Vec2::from(3, 4);
    assert_eq!((a.x, a.y), (3, 4));
    let o = Vec2::new();
    assert_eq!((o.x, o.y), (0, 0));
}

#[test]
fn config_build_takes_binary_then_file() {
    let args = vec![String::from("bin"), String::from("img.png")];
    let c = Config::build(args).unwrap();
    assert_eq!(c.binary_path, "bin");
    assert_eq!(c.file_path, "img.png");
}

#[test]
fn config_build_rejects_missing_arguments() {
    assert!(matches!(
        Config::build(vec![String::from("bin")]),
        Err("No file provided")
    ));
    assert!(matches!(
        Config::build(Vec::new()),
        Err("Something really went wrong...")
    ));
}
