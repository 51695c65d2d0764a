use cat_nipa::crypt::{decrypt_data, decrypt_header};
use cat_nipa::resolve::{is_valid_data, resolve_title, try_title};
use cat_nipa::util::ByteSource;
use cat_nipa::{all_games, Game, NpaEntry, NpaError, NpaHead};

fn push_u32(out: &mut Vec<u8>, v: u32) {
    out.extend_from_slice(&v.to_le_bytes());
}

fn header_bytes(head: &NpaHead) -> Vec<u8> {
    let mut out = Vec::new();
    out.extend_from_slice(&head.head);
    push_u32(&mut out, head.key_1);
    push_u32(&mut out, head.key_2);
    out.push(if head.compressed { 1 } else { 0 });
    out.push(if head.encrypted { 1 } else { 0 });
    push_u32(&mut out, head.total_count);
    push_u32(&mut out, head.folder_count);
    push_u32(&mut out, head.file_count);
    out.extend_from_slice(&[0u8; 8]);
    push_u32(&mut out, head.start);
    out
}

fn cipher_name(plain: &[u8], index: u32, head: &NpaHead, add_variant: bool) -> Vec<u8> {
    plain
        .iter()
        .enumerate()
        .map(|(x, b)| b.wrapping_sub(decrypt_header(x as u32, index, head, add_variant)))
        .collect()
}

fn entry_record(
    raw_name: &[u8],
    type_: u8,
    file_id: u32,
    offset: u32,
    compressed_size: u32,
    original_size: u32,
) -> Vec<u8> {
    let mut out = Vec::new();
    push_u32(&mut out, raw_name.len() as u32);
    out.extend_from_slice(raw_name);
    out.push(type_);
    push_u32(&mut out, file_id);
    push_u32(&mut out, offset);
    push_u32(&mut out, compressed_size);
    push_u32(&mut out, original_size);
    out
}

fn zlib(data: &[u8]) -> Vec<u8> {
    let mut encoder =
        flate2::write::ZlibEncoder::new(Vec::new(), flate2::Compression::default());
    std::io::Write::write_all(&mut encoder, data).unwrap();
    encoder.finish().unwrap()
}

/// Encipher a plain body for a standard-family title so that the content
/// cipher maps it back.
fn encipher_standard(plain: &[u8], entry: &NpaEntry, head: &NpaHead, game: Game) -> Vec<u8> {
    let key = decrypt_data(entry, head, game);
    let table = game.encryption_key();
    let mut inv = [0u8; 256];
    for (i, b) in table.iter().enumerate() {
        inv[*b as usize] = i as u8;
    }
    let boundary = std::cmp::min(plain.len(), 0x1000 + entry.un_decoded_file_path.len());
    plain
        .iter()
        .enumerate()
        .map(|(x, b)| {
            if x < boundary {
                inv[b.wrapping_add(key).wrapping_add(x as u8) as usize]
            } else {
                *b
            }
        })
        .collect()
}

#[test]
fn test_is_valid_data() {
    let png = [0x89u8, 0x50, 0x4E, 0x47, 0x0D, 0x0A, 0x1A, 0x0A, 0x00, 0x00];
    assert!(is_valid_data(&png, "png"));
    assert!(!is_valid_data(b"not a png at all", "png"));
    // An extension without a known signature family asks for valid UTF-8.
    assert!(is_valid_data("こんにちは".as_bytes(), "txt"));
    assert!(!is_valid_data(&[0xFF, 0xFE, 0x80], "txt"));
}

#[test]
fn test_resolver_end_to_end_selects_single_title() {
    // A compressed, encrypted archive of two entries: one directory and one
    // file whose deciphered, inflated bytes begin with the PNG signature.
    // Resolution must pick the enciphering title and no other.
    let game = Game::ChaosHead;
    let head = NpaHead {
        head: [b'N', b'P', b'A', 0x01, 0x00, 0x00, 0x00],
        key_1: 0x13572468,
        key_2: 0x90817263,
        compressed: true,
        encrypted: true,
        file_count: 1,
        folder_count: 1,
        total_count: 2,
        start: 0,
    };

    let raw0 = cipher_name(b"dir", 0, &head, false);
    let raw1 = cipher_name(b"dir\\img.png", 1, &head, false);

    let payload = [
        0x89u8, 0x50, 0x4E, 0x47, 0x0D, 0x0A, 0x1A, 0x0A, 0x00, 0x00, 0x00, 0x0D, 0x49, 0x48,
        0x44, 0x52, 0x11, 0x22, 0x33, 0x44,
    ];
    let stream = zlib(&payload);

    let table_len = (4 + raw0.len() + 17) + (4 + raw1.len() + 17);
    let offset1 = table_len as u32;

    let entry1 = NpaEntry {
        name_length: raw1.len() as u32,
        type_: 0,
        file_id: 1,
        offset: offset1,
        compressed_size: stream.len() as u32,
        original_size: payload.len() as u32,
        un_decoded_file_path: raw1.clone(),
        file_path: Vec::new(),
    };
    let cipher = encipher_standard(&stream, &entry1, &head, game);

    let mut bytes = header_bytes(&head);
    bytes.extend_from_slice(&entry_record(&raw0, 1, 0, 0, 0, 0));
    bytes.extend_from_slice(&entry_record(
        &raw1,
        0,
        1,
        offset1,
        stream.len() as u32,
        payload.len() as u32,
    ));
    bytes.extend_from_slice(&cipher);

    let mut src = ByteSource::new(bytes);
    assert_eq!(resolve_title(&mut src), Ok(Game::ChaosHead));

    for g in all_games() {
        let r = try_title(&mut src, g);
        if g == Game::ChaosHead {
            let data = r.expect("the enciphering title must validate");
            assert_eq!(data, payload.to_vec());
        } else {
            assert!(r.is_none(), "{:?} must not validate", g);
        }
    }
}

#[test]
fn test_resolver_rejects_wrong_signature() {
    // Plain archive whose only file claims to be a PNG but is not: no
    // candidate may validate.
    let head = NpaHead {
        head: [b'N', b'P', b'A', 0x01, 0x00, 0x00, 0x00],
        key_1: 0x00000001,
        key_2: 0x00000002,
        compressed: false,
        encrypted: false,
        file_count: 1,
        folder_count: 0,
        total_count: 1,
        start: 0,
    };
    let raw = cipher_name(b"img.png", 0, &head, false);
    let body = b"definitely not an image";
    let offset = (4 + raw.len() + 17) as u32;
    let mut bytes = header_bytes(&head);
    bytes.extend_from_slice(&entry_record(
        &raw,
        0,
        0,
        offset,
        body.len() as u32,
        body.len() as u32,
    ));
    bytes.extend_from_slice(body);

    let mut src = ByteSource::new(bytes);
    assert_eq!(resolve_title(&mut src), Err(NpaError::NoTitleMatched));
}

#[test]
fn test_resolver_takes_first_candidate_in_order() {
    // A plain text entry validates as UTF-8 under every candidate, so the
    // resolver must answer with the first title of the declared order.
    let head = NpaHead {
        head: [b'N', b'P', b'A', 0x01, 0x00, 0x00, 0x00],
        key_1: 0x10101010,
        key_2: 0x02020202,
        compressed: false,
        encrypted: false,
        file_count: 1,
        folder_count: 0,
        total_count: 1,
        start: 0,
    };
    let raw = cipher_name(b"readme.txt", 0, &head, false);
    let body = b"plain ascii text";
    let offset = (4 + raw.len() + 17) as u32;
    let mut bytes = header_bytes(&head);
    bytes.extend_from_slice(&entry_record(
        &raw,
        0,
        0,
        offset,
        body.len() as u32,
        body.len() as u32,
    ));
    bytes.extend_from_slice(body);

    let mut src = ByteSource::new(bytes);
    assert_eq!(resolve_title(&mut src), Ok(Game::ChaosHead));
}

#[test]
fn test_resolver_skips_directories() {
    // An archive holding only directories has no entry to validate, so
    // every candidate fails.
    let head = NpaHead {
        head: [b'N', b'P', b'A', 0x01, 0x00, 0x00, 0x00],
        key_1: 0x00001111,
        key_2: 0x00002222,
        compressed: false,
        encrypted: false,
        file_count: 0,
        folder_count: 2,
        total_count: 2,
        start: 0,
    };
    let raw0 = cipher_name(b"dir", 0, &head, false);
    let raw1 = cipher_name(b"dir\\sub", 1, &head, false);
    let mut bytes = header_bytes(&head);
    bytes.extend_from_slice(&entry_record(&raw0, 1, 0, 0, 0, 0));
    bytes.extend_from_slice(&entry_record(&raw1, 1, 1, 0, 0, 0));

    let mut src = ByteSource::new(bytes);
    assert_eq!(resolve_title(&mut src), Err(NpaError::NoTitleMatched));
}

#[test]
fn test_entry_text_normalization() {
    // An entry with an unrecognized extension comes back as the UTF-8
    // encoding of its normalized legacy text.
    let head = NpaHead {
        head: [b'N', b'P', b'A', 0x01, 0x00, 0x00, 0x00],
        key_1: 0x00000005,
        key_2: 0x00000006,
        compressed: false,
        encrypted: false,
        file_count: 1,
        folder_count: 0,
        total_count: 1,
        start: 0,
    };
    let raw = cipher_name(b"story.txt", 0, &head, false);
    let body = [0x82u8, 0xA0, 0x82, 0xA2];
    let offset = (4 + raw.len() + 17) as u32;
    let mut bytes = header_bytes(&head);
    bytes.extend_from_slice(&entry_record(
        &raw,
        0,
        0,
        offset,
        body.len() as u32,
        body.len() as u32,
    ));
    bytes.extend_from_slice(&body);

    let mut src = ByteSource::new(bytes);
    let parsed = cat_nipa::parse_head(&mut src).unwrap();
    let entries = cat_nipa::read_entries(&mut src, &parsed, false).unwrap();
    let data =
        cat_nipa::read_entry_data(&mut src, &parsed, &entries[0], Game::ChaosHead).unwrap();
    assert_eq!(data, "あい".as_bytes().to_vec());
}

/// Encipher a plain body for a void-family title: no per-index term and a
/// fixed decode window.
fn encipher_void(plain: &[u8], entry: &NpaEntry, head: &NpaHead, game: Game) -> Vec<u8> {
    let key = decrypt_data(entry, head, game);
    let table = game.encryption_key();
    let mut inv = [0u8; 256];
    for (i, b) in table.iter().enumerate() {
        inv[*b as usize] = i as u8;
    }
    let boundary = std::cmp::min(plain.len(), 0x1000);
    plain
        .iter()
        .enumerate()
        .map(|(x, b)| {
            if x < boundary {
                inv[b.wrapping_add(key) as usize]
            } else {
                *b
            }
        })
        .collect()
}

#[test]
fn test_resolver_void_family_title() {
    // A void-family archive: names use the additive keystream variant and
    // bodies the short cipher. Resolution must land on the enciphering
    // title, not on its trial sibling of the same family.
    let game = Game::Lamento;
    let head = NpaHead {
        head: [b'N', b'P', b'A', 0x01, 0x00, 0x00, 0x00],
        key_1: 0x24683579,
        key_2: 0x11223344,
        compressed: true,
        encrypted: true,
        file_count: 1,
        folder_count: 1,
        total_count: 2,
        start: 0,
    };

    let raw0 = cipher_name(b"snd", 0, &head, true);
    let raw1 = cipher_name(b"snd\\img.png", 1, &head, true);

    let payload = [
        0x89u8, 0x50, 0x4E, 0x47, 0x0D, 0x0A, 0x1A, 0x0A, 0x00, 0x00, 0x00, 0x0D, 0x49, 0x48,
        0x44, 0x52, 0x55, 0x66, 0x77, 0x88,
    ];
    let stream = zlib(&payload);

    let table_len = (4 + raw0.len() + 17) + (4 + raw1.len() + 17);
    let offset1 = table_len as u32;

    let entry1 = NpaEntry {
        name_length: raw1.len() as u32,
        type_: 0,
        file_id: 1,
        offset: offset1,
        compressed_size: stream.len() as u32,
        original_size: payload.len() as u32,
        un_decoded_file_path: raw1.clone(),
        file_path: Vec::new(),
    };
    let cipher = encipher_void(&stream, &entry1, &head, game);

    let mut bytes = header_bytes(&head);
    bytes.extend_from_slice(&entry_record(&raw0, 1, 0, 0, 0, 0));
    bytes.extend_from_slice(&entry_record(
        &raw1,
        0,
        1,
        offset1,
        stream.len() as u32,
        payload.len() as u32,
    ));
    bytes.extend_from_slice(&cipher);

    let mut src = ByteSource::new(bytes);
    assert_eq!(resolve_title(&mut src), Ok(Game::Lamento));
    assert!(try_title(&mut src, Game::LamentoTrail).is_none());
    let data = try_title(&mut src, Game::Lamento).expect("the void title must validate");
    assert_eq!(data, payload.to_vec());
}
