use cat_nipa::crypt::{decrypt_data, decrypt_entry_buffer, decrypt_header};
use cat_nipa::{all_games, CipherFamily, Game, NpaEntry, NpaHead};

fn sample_head(key_1: u32, key_2: u32, compressed: bool, encrypted: bool) -> NpaHead {
    NpaHead {
        head: [b'N', b'P', b'A', 0x01, 0x00, 0x00, 0x00],
        key_1,
        key_2,
        compressed,
        encrypted,
        file_count: 1,
        folder_count: 0,
        total_count: 1,
        start: 0,
    }
}

fn sample_entry(raw_name: Vec<u8>, original_size: u32) -> NpaEntry {
    NpaEntry {
        name_length: raw_name.len() as u32,
        type_: 0,
        file_id: 0,
        offset: 0,
        compressed_size: 0,
        original_size,
        un_decoded_file_path: raw_name,
        file_path: Vec::new(),
    }
}

#[test]
fn test_name_keystream_deterministic() {
    let head = sample_head(0x12345678, 0x9ABCDEF0, false, true);
    for x in [0u32, 1, 2, 255, 4096] {
        for i in [0u32, 1, 77, 100_000] {
            for add in [false, true] {
                let a = decrypt_header(x, i, &head, add);
                let b = decrypt_header(x, i, &head, add);
                assert_eq!(a, b);
            }
        }
    }
}

#[test]
fn test_name_keystream_exact() {
    let head = sample_head(0x12345678, 0x9ABCDEF0, false, true);

    // Multiplicative combination of the keys (the add variant is off).
    let temp = 0x12345678u32.wrapping_mul(0x9ABCDEF0);
    let x = 3u32;
    let i = 7u32;
    let mut key = 0xFCu32.wrapping_mul(x);
    key = key
        .wrapping_sub(temp >> 24)
        .wrapping_sub(temp >> 16)
        .wrapping_sub(temp >> 8)
        .wrapping_sub(temp & 0xFF);
    key = key
        .wrapping_sub(i >> 24)
        .wrapping_sub(i >> 16)
        .wrapping_sub(i >> 8)
        .wrapping_sub(i & 0xFF);
    let expected = (key & 0xFF) as u8;
    assert_eq!(decrypt_header(x, i, &head, false), expected);

    // Additive combination: selected and the header is encrypted.
    let temp = 0x12345678u32.wrapping_add(0x9ABCDEF0);
    let mut key = 0xFCu32.wrapping_mul(x);
    key = key
        .wrapping_sub(temp >> 24)
        .wrapping_sub(temp >> 16)
        .wrapping_sub(temp >> 8)
        .wrapping_sub(temp & 0xFF);
    key = key
        .wrapping_sub(i >> 24)
        .wrapping_sub(i >> 16)
        .wrapping_sub(i >> 8)
        .wrapping_sub(i & 0xFF);
    let expected_add = (key & 0xFF) as u8;
    assert_eq!(decrypt_header(x, i, &head, true), expected_add);

    // On an unencrypted header the add variant falls back to the product.
    let plain_head = sample_head(0x12345678, 0x9ABCDEF0, false, false);
    assert_eq!(
        decrypt_header(x, i, &plain_head, true),
        decrypt_header(x, i, &plain_head, false)
    );
}

#[test]
fn test_data_cipher_key_deterministic_and_exact() {
    let head = sample_head(0x01020304, 0x05060708, false, true);
    let entry = sample_entry(vec![0x41, 0x42, 0x43], 1000);

    let a = decrypt_data(&entry, &head, Game::ChaosHead);
    let b = decrypt_data(&entry, &head, Game::ChaosHead);
    assert_eq!(a, b);

    // Standard family: ((seed - bytes) * len + key1*key2) * original_size.
    let mut key1 = Game::ChaosHead.seed_constant();
    for byte in [0x41u32, 0x42, 0x43] {
        key1 = key1.wrapping_sub(byte);
    }
    let key2 = 0x01020304u32.wrapping_mul(0x05060708);
    let key = key1.wrapping_mul(3).wrapping_add(key2).wrapping_mul(1000);
    assert_eq!(a, (key & 0xFF) as u8);

    // Void family: no key2 and no original_size factor.
    let mut key1 = Game::Lamento.seed_constant();
    for byte in [0x41u32, 0x42, 0x43] {
        key1 = key1.wrapping_sub(byte);
    }
    let key = key1.wrapping_mul(3);
    assert_eq!(
        decrypt_data(&entry, &head, Game::Lamento),
        (key & 0xFF) as u8
    );
}

#[test]
fn test_content_cipher_standard_exact() {
    let head = sample_head(0xAABBCCDD, 0x00112233, false, true);
    let entry = sample_entry(vec![0x10, 0x20], 64);
    let game = Game::ChaosHead;
    let key = decrypt_data(&entry, &head, game);
    let table = game.encryption_key();

    let input = vec![0u8, 1, 2, 250, 251, 252];
    let out = decrypt_entry_buffer(input.clone(), &entry, &head, game);
    assert_eq!(out.len(), input.len());
    for (x, b) in input.iter().enumerate() {
        let expected = table[*b as usize].wrapping_sub(key).wrapping_sub(x as u8);
        assert_eq!(out[x], expected);
    }
}

#[test]
fn test_content_cipher_void_exact() {
    let head = sample_head(0xAABBCCDD, 0x00112233, false, true);
    let entry = sample_entry(vec![0x10, 0x20], 64);
    let game = Game::LamentoTrail;
    let key = decrypt_data(&entry, &head, game);
    let table = game.encryption_key();

    let input = vec![9u8, 99, 199];
    let out = decrypt_entry_buffer(input.clone(), &entry, &head, game);
    for (x, b) in input.iter().enumerate() {
        // The void formula carries no per-index term.
        assert_eq!(out[x], table[*b as usize].wrapping_sub(key));
    }
}

#[test]
fn test_content_cipher_totono_exact() {
    let head = sample_head(0xAABBCCDD, 0x00112233, false, true);
    let entry = sample_entry(vec![0x10, 0x20], 64);
    let game = Game::Totono;
    let key = decrypt_data(&entry, &head, game);
    let table = game.encryption_key();

    let input = vec![7u8, 70, 170];
    let out = decrypt_entry_buffer(input.clone(), &entry, &head, game);
    for (x, b) in input.iter().enumerate() {
        let r = table[table[table[*b as usize] as usize] as usize];
        let expected = (!r).wrapping_sub(key).wrapping_sub(x as u8);
        assert_eq!(out[x], expected);
    }
}

#[test]
fn test_void_zero_length_decrypt() {
    // Deciphering an empty body yields an empty body for void titles,
    // whatever header keys (and so whatever cipher key) are in play.
    for (k1, k2) in [(0u32, 0u32), (0xFFFFFFFF, 0xFFFFFFFF), (0x1234, 0x99)] {
        let head = sample_head(k1, k2, false, true);
        let entry = sample_entry(vec![0x55], 0);
        for game in [Game::Lamento, Game::LamentoTrail] {
            let out = decrypt_entry_buffer(Vec::new(), &entry, &head, game);
            assert!(out.is_empty());
        }
    }
}

#[test]
fn test_decode_length_clamp() {
    // For a body longer than the decode window of a non-void title, only
    // the first 0x1000 + name-length bytes change; the rest is copied
    // byte-for-byte.
    let head = sample_head(0xDEADBEEF, 0xFEEDF00D, false, true);
    let name = vec![0x61, 0x62, 0x63, 0x64, 0x65];
    let entry = sample_entry(name.clone(), 0x2000);
    let game = Game::Muramasa;
    let key = decrypt_data(&entry, &head, game);
    let table = game.encryption_key();

    let len = 0x1100usize;
    let input: Vec<u8> = (0..len).map(|i| (i * 7 + 3) as u8).collect();
    let out = decrypt_entry_buffer(input.clone(), &entry, &head, game);
    assert_eq!(out.len(), input.len());

    let boundary = 0x1000 + name.len();
    for x in 0..boundary {
        let expected = table[input[x] as usize]
            .wrapping_sub(key)
            .wrapping_sub(x as u8);
        assert_eq!(out[x], expected);
    }
    for x in boundary..len {
        assert_eq!(out[x], input[x]);
    }

    // For a void title the window stays at 0x1000 exactly.
    let vgame = Game::Lamento;
    let vkey = decrypt_data(&entry, &head, vgame);
    let vtable = vgame.encryption_key();
    let vout = decrypt_entry_buffer(input.clone(), &entry, &head, vgame);
    for x in 0..0x1000 {
        assert_eq!(vout[x], vtable[input[x] as usize].wrapping_sub(vkey));
    }
    for x in 0x1000..len {
        assert_eq!(vout[x], input[x]);
    }
}

#[test]
fn test_game_families_and_tables() {
    assert_eq!(Game::Lamento.family(), CipherFamily::Void);
    assert_eq!(Game::LamentoTrail.family(), CipherFamily::Void);
    assert_eq!(Game::Totono.family(), CipherFamily::Totono);
    assert_eq!(Game::ChaosHead.family(), CipherFamily::Standard);
    assert_eq!(Game::MuramasaSS.family(), CipherFamily::Standard);

    let games = all_games();
    assert_eq!(games.len(), 25);
    assert_eq!(games[0], Game::ChaosHead);
    assert_eq!(games[24], Game::MuramasaSS);

    // Every substitution table is a permutation of the byte values.
    for game in games {
        let table = game.encryption_key();
        let mut seen = [false; 256];
        for b in table.iter() {
            seen[*b as usize] = true;
        }
        assert!(seen.iter().all(|s| *s));
    }
}
