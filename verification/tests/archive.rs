use cat_nipa::crypt::decrypt_header;
use cat_nipa::util::{read_u32_le, read_u8, ByteSource};
use cat_nipa::{parse_head, read_entries, read_entry, read_entry_data, Game, NpaError, NpaHead};

fn push_u32(out: &mut Vec<u8>, v: u32) {
    out.extend_from_slice(&v.to_le_bytes());
}

fn header_bytes(head: &NpaHead) -> Vec<u8> {
    let mut out = Vec::new();
    out.extend_from_slice(&head.head);
    push_u32(&mut out, head.key_1);
    push_u32(&mut out, head.key_2);
    out.push(if head.compressed { 1 } else { 0 });
    out.push(if head.encrypted { 1 } else { 0 });
    push_u32(&mut out, head.total_count);
    push_u32(&mut out, head.folder_count);
    push_u32(&mut out, head.file_count);
    out.extend_from_slice(&[0u8; 8]);
    push_u32(&mut out, head.start);
    out
}

fn sample_head(compressed: bool, encrypted: bool, total_count: u32) -> NpaHead {
    NpaHead {
        head: [b'N', b'P', b'A', 0x01, 0x00, 0x00, 0x00],
        key_1: 0x30201000,
        key_2: 0x00504030,
        compressed,
        encrypted,
        file_count: total_count,
        folder_count: 0,
        total_count,
        start: 0,
    }
}

/// Encipher a plain entry name so that `read_entry` will decode it back.
fn cipher_name(plain: &[u8], index: u32, head: &NpaHead, add_variant: bool) -> Vec<u8> {
    plain
        .iter()
        .enumerate()
        .map(|(x, b)| b.wrapping_sub(decrypt_header(x as u32, index, head, add_variant)))
        .collect()
}

fn entry_record(
    raw_name: &[u8],
    type_: u8,
    file_id: u32,
    offset: u32,
    compressed_size: u32,
    original_size: u32,
) -> Vec<u8> {
    let mut out = Vec::new();
    push_u32(&mut out, raw_name.len() as u32);
    out.extend_from_slice(raw_name);
    out.push(type_);
    push_u32(&mut out, file_id);
    push_u32(&mut out, offset);
    push_u32(&mut out, compressed_size);
    push_u32(&mut out, original_size);
    out
}

#[test]
fn test_byte_source_reads() {
    let mut src = ByteSource::new(vec![0x01, 0x02, 0x03, 0x04, 0x05]);
    assert_eq!(src.len(), 5);
    assert_eq!(read_u8(&mut src).unwrap(), 0x01);
    assert_eq!(read_u32_le(&mut src).unwrap(), 0x05040302);
    assert_eq!(src.position(), 5);
    assert_eq!(read_u8(&mut src), Err(NpaError::Truncated));
    assert_eq!(src.position(), 5);

    src.seek_to(1);
    assert_eq!(read_u32_le(&mut src).unwrap(), 0x05040302);
    src.seek_to(99);
    assert_eq!(read_u8(&mut src), Err(NpaError::Truncated));
}

#[test]
fn test_parse_head_fields() {
    let head = NpaHead {
        head: [b'N', b'P', b'A', 0x01, 0x07, 0x00, 0x00],
        key_1: 0xDEADBEEF,
        key_2: 0x0BADF00D,
        compressed: true,
        encrypted: false,
        file_count: 11,
        folder_count: 3,
        total_count: 14,
        start: 0x1234,
    };
    let mut bytes = header_bytes(&head);
    bytes.extend_from_slice(&[0xEE; 10]);

    let mut src = ByteSource::new(bytes);
    let parsed = parse_head(&mut src).unwrap();
    assert_eq!(parsed.head, head.head);
    assert_eq!(parsed.key_1, 0xDEADBEEF);
    assert_eq!(parsed.key_2, 0x0BADF00D);
    assert!(parsed.compressed);
    assert!(!parsed.encrypted);
    assert_eq!(parsed.total_count, 14);
    assert_eq!(parsed.folder_count, 3);
    assert_eq!(parsed.file_count, 11);
    assert_eq!(parsed.start, 0x1234);
    assert_eq!(src.position(), 0x29);
}

#[test]
fn test_parse_head_flag_bytes_other_than_one() {
    // Only the stored value 1 means true; any other byte means false.
    let head = sample_head(false, false, 0);
    let mut bytes = header_bytes(&head);
    bytes[15] = 2;
    bytes[16] = 0xFF;
    let mut src = ByteSource::new(bytes);
    let parsed = parse_head(&mut src).unwrap();
    assert!(!parsed.compressed);
    assert!(!parsed.encrypted);
}

#[test]
fn test_parse_head_truncated() {
    let head = sample_head(false, false, 0);
    let mut bytes = header_bytes(&head);
    bytes.truncate(0x28);
    let mut src = ByteSource::new(bytes);
    assert!(matches!(parse_head(&mut src), Err(NpaError::Truncated)));
}

#[test]
fn test_read_entry_decodes_name() {
    let head = sample_head(false, true, 1);
    let raw = cipher_name(b"dir\\file.png", 0, &head, false);
    let mut bytes = header_bytes(&head);
    bytes.extend_from_slice(&entry_record(&raw, 0, 42, 7, 100, 200));

    let mut src = ByteSource::new(bytes);
    let parsed = parse_head(&mut src).unwrap();
    let entry = read_entry(&mut src, 0, &parsed, false).unwrap();

    assert_eq!(entry.name_length, 12);
    assert_eq!(entry.un_decoded_file_path, raw);
    assert_eq!(entry.file_path, vec!["dir".to_string(), "file.png".to_string()]);
    assert_eq!(entry.type_, 0);
    assert!(!entry.is_directory());
    assert_eq!(entry.file_id, 42);
    assert_eq!(entry.offset, 7);
    assert_eq!(entry.compressed_size, 100);
    assert_eq!(entry.original_size, 200);
    assert_eq!(src.position(), 0x29 + 4 + 12 + 17);
}

#[test]
fn test_read_entry_path_normalization() {
    let head = sample_head(false, true, 1);
    // Empty pieces and relative references are dropped from the path.
    let raw = cipher_name(b"..\\\\a\\.\\b.txt", 0, &head, false);
    let mut bytes = header_bytes(&head);
    bytes.extend_from_slice(&entry_record(&raw, 1, 0, 0, 0, 0));

    let mut src = ByteSource::new(bytes);
    let parsed = parse_head(&mut src).unwrap();
    let entry = read_entry(&mut src, 0, &parsed, false).unwrap();
    assert_eq!(entry.file_path, vec!["a".to_string(), "b.txt".to_string()]);
    assert!(entry.is_directory());
}

#[test]
fn test_read_entries_consumes_exact_records() {
    let head = sample_head(false, true, 2);
    let raw0 = cipher_name(b"dir", 0, &head, false);
    let raw1 = cipher_name(b"dir\\a.bin", 1, &head, false);
    let mut bytes = header_bytes(&head);
    bytes.extend_from_slice(&entry_record(&raw0, 1, 0, 0, 0, 0));
    bytes.extend_from_slice(&entry_record(&raw1, 0, 1, 0, 16, 16));
    // A terminator must never be read: nothing follows the two records.

    let mut src = ByteSource::new(bytes);
    let parsed = parse_head(&mut src).unwrap();
    let entries = read_entries(&mut src, &parsed, false).unwrap();
    assert_eq!(entries.len(), 2);
    assert_eq!(entries[0].file_path, vec!["dir".to_string()]);
    assert_eq!(entries[1].file_path, vec!["dir".to_string(), "a.bin".to_string()]);
    let expected_pos = 0x29 + (4 + 3 + 17) + (4 + 9 + 17);
    assert_eq!(src.position(), expected_pos);
    assert_eq!(src.len(), expected_pos);
}

#[test]
fn test_read_entries_truncated_table() {
    let head = sample_head(false, true, 3);
    let raw0 = cipher_name(b"dir", 0, &head, false);
    let raw1 = cipher_name(b"dir\\a.bin", 1, &head, false);
    let mut bytes = header_bytes(&head);
    bytes.extend_from_slice(&entry_record(&raw0, 1, 0, 0, 0, 0));
    bytes.extend_from_slice(&entry_record(&raw1, 0, 1, 0, 16, 16));

    let mut src = ByteSource::new(bytes);
    let parsed = parse_head(&mut src).unwrap();
    assert!(matches!(
        read_entries(&mut src, &parsed, false),
        Err(NpaError::Truncated)
    ));
}

#[test]
fn test_read_entry_data_plain_passthrough() {
    // Unencrypted, uncompressed, with a known media extension: the stored
    // bytes come back untouched.
    let head = sample_head(false, false, 1);
    let raw = cipher_name(b"img.png", 0, &head, false);
    let offset = (4 + raw.len() + 17) as u32;
    let mut bytes = header_bytes(&head);
    bytes.extend_from_slice(&entry_record(&raw, 0, 0, offset, 4, 4));
    bytes.extend_from_slice(&[0x89, 0x50, 0x4E, 0x47]);

    let mut src = ByteSource::new(bytes);
    let parsed = parse_head(&mut src).unwrap();
    let entries = read_entries(&mut src, &parsed, false).unwrap();
    let data = read_entry_data(&mut src, &parsed, &entries[0], Game::ChaosHead).unwrap();
    assert_eq!(data, vec![0x89, 0x50, 0x4E, 0x47]);
}

#[test]
fn test_read_entry_data_errors() {
    let head = sample_head(false, false, 1);

    // Body reaching past the end of the image: a truncated read.
    let raw = cipher_name(b"img.png", 0, &head, false);
    let offset = (4 + raw.len() + 17) as u32;
    let mut bytes = header_bytes(&head);
    bytes.extend_from_slice(&entry_record(&raw, 0, 0, offset, 100, 100));
    bytes.extend_from_slice(&[0u8; 10]);
    let mut src = ByteSource::new(bytes);
    let parsed = parse_head(&mut src).unwrap();
    let entries = read_entries(&mut src, &parsed, false).unwrap();
    assert_eq!(
        read_entry_data(&mut src, &parsed, &entries[0], Game::ChaosHead),
        Err(NpaError::Truncated)
    );

    // A compressed body that is not a zlib stream.
    let chead = sample_head(true, false, 1);
    let raw = cipher_name(b"img.png", 0, &chead, false);
    let offset = (4 + raw.len() + 17) as u32;
    let mut bytes = header_bytes(&chead);
    bytes.extend_from_slice(&entry_record(&raw, 0, 0, offset, 4, 4));
    bytes.extend_from_slice(&[0xFF, 0xFF, 0xFF, 0xFF]);
    let mut src = ByteSource::new(bytes);
    let parsed = parse_head(&mut src).unwrap();
    let entries = read_entries(&mut src, &parsed, false).unwrap();
    assert_eq!(
        read_entry_data(&mut src, &parsed, &entries[0], Game::ChaosHead),
        Err(NpaError::Inflate)
    );

    // An entry whose path carries no extension.
    let raw = cipher_name(b"noext", 0, &head, false);
    let offset = (4 + raw.len() + 17) as u32;
    let mut bytes = header_bytes(&head);
    bytes.extend_from_slice(&entry_record(&raw, 0, 0, offset, 2, 2));
    bytes.extend_from_slice(&[0x41, 0x42]);
    let mut src = ByteSource::new(bytes);
    let parsed = parse_head(&mut src).unwrap();
    let entries = read_entries(&mut src, &parsed, false).unwrap();
    assert_eq!(
        read_entry_data(&mut src, &parsed, &entries[0], Game::ChaosHead),
        Err(NpaError::NoExtension)
    );
}

#[test]
fn test_read_entry_data_size_mismatch_tolerated() {
    // A decompressed size that differs from original_size is an anomaly,
    // not an error: the inflated bytes still come back.
    let payload = b"hello hello hello hello";
    let mut encoder =
        flate2::write::ZlibEncoder::new(Vec::new(), flate2::Compression::default());
    std::io::Write::write_all(&mut encoder, payload).unwrap();
    let stream = encoder.finish().unwrap();

    let head = sample_head(true, false, 1);
    let raw = cipher_name(b"img.png", 0, &head, false);
    let offset = (4 + raw.len() + 17) as u32;
    let mut bytes = header_bytes(&head);
    bytes.extend_from_slice(&entry_record(
        &raw,
        0,
        0,
        offset,
        stream.len() as u32,
        9999,
    ));
    bytes.extend_from_slice(&stream);

    let mut src = ByteSource::new(bytes);
    let parsed = parse_head(&mut src).unwrap();
    let entries = read_entries(&mut src, &parsed, false).unwrap();
    let data = read_entry_data(&mut src, &parsed, &entries[0], Game::ChaosHead).unwrap();
    assert_eq!(data, payload.to_vec());
}

#[test]
fn test_read_entry_add_variant_name() {
    // The additive keystream variant decodes names that were enciphered
    // with it, and only with it.
    let head = sample_head(false, true, 1);
    let raw = cipher_name(b"music\\track.ogg", 0, &head, true);
    let mut bytes = header_bytes(&head);
    bytes.extend_from_slice(&entry_record(&raw, 0, 0, 0, 0, 0));

    let mut src = ByteSource::new(bytes.clone());
    let parsed = parse_head(&mut src).unwrap();
    let entry = read_entry(&mut src, 0, &parsed, true).unwrap();
    assert_eq!(
        entry.file_path,
        vec!["music".to_string(), "track.ogg".to_string()]
    );

    let mut src = ByteSource::new(bytes);
    let parsed = parse_head(&mut src).unwrap();
    let wrong = read_entry(&mut src, 0, &parsed, false).unwrap();
    assert_ne!(
        wrong.file_path,
        vec!["music".to_string(), "track.ogg".to_string()]
    );
}

#[test]
fn test_read_entry_data_uppercase_extension() {
    // An upper-case extension is lowered before the media classifier sees
    // it, so the stored bytes come back untouched.
    let head = sample_head(false, false, 1);
    let raw = cipher_name(b"IMG.PNG", 0, &head, false);
    let offset = (4 + raw.len() + 17) as u32;
    let mut bytes = header_bytes(&head);
    bytes.extend_from_slice(&entry_record(&raw, 0, 0, offset, 4, 4));
    bytes.extend_from_slice(&[0x89, 0x50, 0x4E, 0x47]);

    let mut src = ByteSource::new(bytes);
    let parsed = parse_head(&mut src).unwrap();
    let entries = read_entries(&mut src, &parsed, false).unwrap();
    let data = read_entry_data(&mut src, &parsed, &entries[0], Game::ChaosHead).unwrap();
    assert_eq!(data, vec![0x89, 0x50, 0x4E, 0x47]);
}

#[test]
fn test_read_entry_data_oversized_text() {
    // A body past the text normalizer's bound, under an extension with no
    // known signature, is refused rather than decoded.
    let head = sample_head(false, false, 1);
    let raw = cipher_name(b"big.txt", 0, &head, false);
    let body_len: usize = 0x1000_0000;
    let offset = (4 + raw.len() + 17) as u32;
    let mut bytes = header_bytes(&head);
    bytes.extend_from_slice(&entry_record(
        &raw,
        0,
        0,
        offset,
        body_len as u32,
        body_len as u32,
    ));
    bytes.resize(bytes.len() + body_len, 0x41);

    let mut src = ByteSource::new(bytes);
    let parsed = parse_head(&mut src).unwrap();
    let entries = read_entries(&mut src, &parsed, false).unwrap();
    assert_eq!(
        read_entry_data(&mut src, &parsed, &entries[0], Game::ChaosHead),
        Err(NpaError::Oversized)
    );
}
