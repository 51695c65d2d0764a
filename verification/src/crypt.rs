use vstd::prelude::*;
use vstd::pervasive::VecAdditionalExecFns;
use vstd::wrapping::u32_specs;
use vstd::wrapping::u8_specs;

use crate::CipherFamily;
use crate::EntryModel;
use crate::Game;
use crate::HeadModel;
use crate::NpaEntry;
use crate::NpaHead;

verus! {

/// The keystream byte added to position `x` of the stored name of the entry
/// at table index `i`. All arithmetic wraps at 32 bits; only the low byte of
/// the result is kept. The keystream mixes a combination of the two header
/// keys — their sum when `add_if_encrypted` is set on an encrypted archive,
/// their product otherwise — and the byte-shifted copies of the entry index.
pub open spec fn name_keystream(x: u32, i: u32, h: HeadModel, add_if_encrypted: bool) -> u8 {
    let temp = if add_if_encrypted && h.encrypted {
        u32_specs::wrapping_add(h.key_1, h.key_2)
    } else {
        u32_specs::wrapping_mul(h.key_1, h.key_2)
    };
    let k0 = u32_specs::wrapping_mul(0xFC, x);
    let k1 = u32_specs::wrapping_sub(
        u32_specs::wrapping_sub(
            u32_specs::wrapping_sub(u32_specs::wrapping_sub(k0, temp >> 24), temp >> 16),
            temp >> 8,
        ),
        temp & 0xFF,
    );
    let k2 = u32_specs::wrapping_sub(
        u32_specs::wrapping_sub(
            u32_specs::wrapping_sub(u32_specs::wrapping_sub(k1, i >> 24), i >> 16),
            i >> 8,
        ),
        i & 0xFF,
    );
    (k2 % 256) as u8
}

/// Compute the name-keystream byte for name position `current_number` of the
/// entry at table index `current_file`.
pub fn decrypt_header(
    current_number: u32,
    current_file: u32,
    header: &NpaHead,
    add_if_encrypted: bool,
) -> (r: u8)
    ensures
        r == name_keystream(current_number, current_file, header@, add_if_encrypted),
{
    let temp: u32 = if add_if_encrypted && header.encrypted {
        header.key_1.wrapping_add(header.key_2)
    } else {
        header.key_1.wrapping_mul(header.key_2)
    };

    let mut key: u32 = 0xFCu32.wrapping_mul(current_number);

    key = key
        .wrapping_sub(temp >> 24)
        .wrapping_sub(temp >> 16)
        .wrapping_sub(temp >> 8)
        .wrapping_sub(temp & 0xFF);

    key = key
        .wrapping_sub(current_file >> 24)
        .wrapping_sub(current_file >> 16)
        .wrapping_sub(current_file >> 8)
        .wrapping_sub(current_file & 0xFF);

    (key % 256) as u8
}

/// The seed after subtracting (with 32-bit wrap) every byte of `name` in
/// order.
pub open spec fn key_seed_fold(acc: u32, name: Seq<u8>) -> u32
    decreases name.len(),
{
    if name.len() == 0 {
        acc
    } else {
        key_seed_fold(u32_specs::wrapping_sub(acc, name[0] as u32), name.drop_first())
    }
}

/// The content-cipher key of one entry: the title seed less every stored name
/// byte, times the stored name length; non-`Void` titles further add the
/// product of the header keys and multiply by the entry's original size. Only
/// the low byte is kept.
pub open spec fn data_cipher_key(e: EntryModel, h: HeadModel, g: Game) -> u8 {
    let key1 = key_seed_fold(g.spec_seed(), e.raw_name);
    let key2 = u32_specs::wrapping_mul(h.key_1, h.key_2);
    let k = u32_specs::wrapping_mul(key1, e.name_length);
    let k2 = if g.spec_family() != CipherFamily::Void {
        u32_specs::wrapping_mul(u32_specs::wrapping_add(k, key2), e.original_size)
    } else {
        k
    };
    (k2 % 256) as u8
}

/// Compute the content-cipher key for one entry.
pub fn decrypt_data(entry: &NpaEntry, header: &NpaHead, game: Game) -> (r: u8)
    ensures
        r == data_cipher_key(entry@, header@, game),
{
    let mut key1: u32 = game.seed_constant();
    let n = entry.un_decoded_file_path.len();
    proof {
        assert(entry@.raw_name.skip(0) =~= entry@.raw_name);
    }
    let mut idx: usize = 0;
    while idx < n
        invariant
            idx <= n,
            n == entry.un_decoded_file_path.len(),
            key_seed_fold(key1, entry@.raw_name.skip(idx as int)) == key_seed_fold(
                game.spec_seed(),
                entry@.raw_name,
            ),
        decreases n - idx,
    {
        proof {
            assert(entry@.raw_name.skip(idx as int).drop_first() =~= entry@.raw_name.skip(
                idx as int + 1,
            ));
        }
        key1 = key1.wrapping_sub(entry.un_decoded_file_path[idx] as u32);
        idx = idx + 1;
    }
    proof {
        assert(entry@.raw_name.skip(n as int) =~= Seq::<u8>::empty());
    }

    let key2 = header.key_1.wrapping_mul(header.key_2);
    let mut key = key1.wrapping_mul(entry.name_length);
    if !matches!(game.family(), CipherFamily::Void) {
        key = key.wrapping_add(key2).wrapping_mul(entry.original_size);
    }
    (key % 256) as u8
}

/// How many leading bytes of a stored entry body the content cipher covers:
/// a fixed window, widened by the stored name length for titles outside the
/// `Void` family. Bytes at or beyond this index pass through unchanged.
pub open spec fn decode_length(g: Game, raw_name_len: nat) -> nat {
    if g.spec_family() == CipherFamily::Void {
        0x1000
    } else {
        0x1000 + raw_name_len
    }
}

/// One deciphered body byte, where `b` is the stored byte at index `x`,
/// `table` is the title's substitution table and `key` the entry's content
/// key.
pub open spec fn transform_byte(fam: CipherFamily, table: Seq<u8>, key: u8, x: int, b: u8) -> u8 {
    match fam {
        CipherFamily::Void => u8_specs::wrapping_sub(table[b as int], key),
        CipherFamily::Totono => {
            let r = table[table[table[b as int] as int] as int];
            let flipped = (255 - r) as u8;
            u8_specs::wrapping_sub(u8_specs::wrapping_sub(flipped, key), (x % 256) as u8)
        },
        CipherFamily::Standard => u8_specs::wrapping_sub(
            u8_specs::wrapping_sub(table[b as int], key),
            (x % 256) as u8,
        ),
    }
}

/// A whole stored body after the content cipher: bytes below `dlen` are
/// deciphered with `transform_byte`, later bytes are copied unchanged.
pub open spec fn content_decrypted(
    input: Seq<u8>,
    fam: CipherFamily,
    table: Seq<u8>,
    key: u8,
    dlen: nat,
) -> Seq<u8> {
    Seq::new(
        input.len(),
        |x: int|
            if x < dlen {
                transform_byte(fam, table, key, x, input[x])
            } else {
                input[x]
            },
    )
}

/// Apply the content cipher of `game` to a stored entry body.
pub fn decrypt_entry_buffer(
    buffer: Vec<u8>,
    entry: &NpaEntry,
    header: &NpaHead,
    game: Game,
) -> (r: Vec<u8>)
    ensures
        r@ == content_decrypted(
            buffer@,
            game.spec_family(),
            game.spec_key(),
            data_cipher_key(entry@, header@, game),
            decode_length(game, entry@.raw_name.len()),
        ),
{
    let ghost input = buffer@;
    let ghost dlen = decode_length(game, entry@.raw_name.len());
    let ghost fam = game.spec_family();
    let ghost tbl = game.spec_key();

    let mut buffer = buffer;
    let key = decrypt_data(entry, header, game);
    let table = game.encryption_key();
    let family = game.family();

    let name_len = entry.un_decoded_file_path.len();
    let n = buffer.len();
    let bound: usize = if n <= 0x1000 {
        n
    } else if matches!(family, CipherFamily::Void) {
        0x1000
    } else if name_len >= n - 0x1000 {
        n
    } else {
        0x1000 + name_len
    };

    let mut x: usize = 0;
    while x < bound
        invariant
            x <= bound,
            bound <= n,
            n == buffer.len(),
            n == input.len(),
            bound as int == if input.len() <= dlen {
                input.len() as int
            } else {
                dlen as int
            },
            key == data_cipher_key(entry@, header@, game),
            table@ == tbl,
            family == fam,
            forall|j: int|
                0 <= j < x ==> buffer@[j] == transform_byte(fam, tbl, key, j, input[j]),
            forall|j: int| x <= j < input.len() ==> buffer@[j] == input[j],
        decreases bound - x,
    {
        let b = buffer[x];
        let v: u8 = match family {
            CipherFamily::Void => table[b as usize].wrapping_sub(key),
            CipherFamily::Totono => {
                let r = table[b as usize];
                let r = table[r as usize];
                let r = table[r as usize];
                let flipped = 255 - r;
                flipped.wrapping_sub(key).wrapping_sub((x % 256) as u8)
            },
            CipherFamily::Standard => {
                table[b as usize].wrapping_sub(key).wrapping_sub((x % 256) as u8)
            },
        };
        buffer.set(x, v);
        x = x + 1;
    }

    proof {
        assert(buffer@ =~= content_decrypted(input, fam, tbl, key, dlen));
    }
    buffer
}

/// The two keystreams are pure functions: equal inputs always give equal
/// keystream bytes.
pub proof fn lemma_name_keystream_deterministic(
    x1: u32,
    i1: u32,
    h1: HeadModel,
    a1: bool,
    x2: u32,
    i2: u32,
    h2: HeadModel,
    a2: bool,
)
    requires
        x1 == x2,
        i1 == i2,
        h1 == h2,
        a1 == a2,
    ensures
        name_keystream(x1, i1, h1, a1) == name_keystream(x2, i2, h2, a2),
{
}

/// The per-entry content key is a pure function: equal inputs always give
/// equal keys.
pub proof fn lemma_data_cipher_key_deterministic(
    e1: EntryModel,
    h1: HeadModel,
    g1: Game,
    e2: EntryModel,
    h2: HeadModel,
    g2: Game,
)
    requires
        e1 == e2,
        h1 == h2,
        g1 == g2,
    ensures
        data_cipher_key(e1, h1, g1) == data_cipher_key(e2, h2, g2),
{
}

/// For `Void`-family titles, deciphering an empty body yields an empty body,
/// whatever the key or substitution table.
#[verifier::rlimit(50)]
pub proof fn lemma_void_empty_decrypt(table: Seq<u8>, key: u8, dlen: nat)
    ensures
        content_decrypted(Seq::<u8>::empty(), CipherFamily::Void, table, key, dlen)
            =~= Seq::<u8>::empty(),
{
}

/// The decode-length clamp: deciphering never changes a byte at or beyond the
/// decode length, whatever the family, table, key, or name length.
#[verifier::rlimit(50)]
pub proof fn lemma_decode_length_clamp(
    input: Seq<u8>,
    fam: CipherFamily,
    table: Seq<u8>,
    key: u8,
    dlen: nat,
)
    ensures
        content_decrypted(input, fam, table, key, dlen).len() == input.len(),
        forall|x: int|
            dlen <= x < input.len() ==> content_decrypted(input, fam, table, key, dlen)[x]
                == input[x],
{
}

} // verus!
