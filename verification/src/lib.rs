use vstd::prelude::*;

pub mod crypt;
pub mod crypt_keys;
pub mod game;
pub mod inflate;
pub mod resolve;
pub mod text;
pub mod util;

pub use game::all_games;
pub use game::game_order;
pub use game::CipherFamily;
pub use game::Game;

verus! {

broadcast use vstd::array::group_array_axioms;

use crate::crypt::content_decrypted;
use crate::crypt::data_cipher_key;
use crate::crypt::decode_length;
use crate::crypt::name_keystream;
use crate::inflate::zlib_inflated;
use crate::resolve::extension_known;
use crate::text::ascii_lower;
use crate::text::spec_extension;
use crate::text::path_components;
use crate::text::sjis_decoding;
use crate::text::MAX_TEXT_LEN;
use crate::util::le32;
use crate::util::ByteSource;
use vstd::string::StrSliceExecFns;
use vstd::string::StringSliceAdditionalSpecFns;
use vstd::utf8::encode_utf8;
use vstd::wrapping::u8_specs;

/// Errors reported by the archive engine.
///
/// `Truncated` covers every short read or out-of-range seek; `Inflate` is a
/// failed decompression of an entry body; `NoExtension` means an entry path
/// carries no file extension, so its content cannot be classified;
/// `Oversized` means a decoded body was too large to normalize as text; and
/// `NoTitleMatched` is the resolver giving up after trying every title.
#[derive(Debug, Clone, Copy, PartialEq, Eq, Structural)]
pub enum NpaError {
    Truncated,
    Inflate,
    NoExtension,
    Oversized,
    NoTitleMatched,
}

/// The ghost shape of an archive header.
pub ghost struct HeadModel {
    pub magic: Seq<u8>,
    pub key_1: u32,
    pub key_2: u32,
    pub compressed: bool,
    pub encrypted: bool,
    pub total_count: u32,
    pub folder_count: u32,
    pub file_count: u32,
    pub start: u32,
}

/// The fixed-size header of an archive.
#[derive(Debug, Clone)]
pub struct NpaHead {
    /// Seven magic bytes, accepted verbatim.
    pub head: [u8; 7],
    /// First key of the name keystream and the per-entry key derivation.
    pub key_1: u32,
    /// Second key of the name keystream and the per-entry key derivation.
    pub key_2: u32,
    /// Whether entry bodies are deflate-compressed.
    pub compressed: bool,
    /// Whether entry bodies are enciphered.
    pub encrypted: bool,
    /// Number of file entries (advisory; the table length is `total_count`).
    pub file_count: u32,
    /// Number of directory entries (advisory).
    pub folder_count: u32,
    /// Number of records in the entry table.
    pub total_count: u32,
    /// Offset of the data region, relative to the fixed data base.
    pub start: u32,
}

impl View for NpaHead {
    type V = HeadModel;

    open spec fn view(&self) -> HeadModel {
        HeadModel {
            magic: self.head@,
            key_1: self.key_1,
            key_2: self.key_2,
            compressed: self.compressed,
            encrypted: self.encrypted,
            total_count: self.total_count,
            folder_count: self.folder_count,
            file_count: self.file_count,
            start: self.start,
        }
    }
}

/// The ghost shape of one entry-table record.
pub ghost struct EntryModel {
    pub name_length: u32,
    pub raw_name: Seq<u8>,
    pub path: Seq<Seq<char>>,
    pub type_: u8,
    pub file_id: u32,
    pub offset: u32,
    pub compressed_size: u32,
    pub original_size: u32,
}

/// One record of the entry table.
#[derive(Debug, Clone, Default)]
pub struct NpaEntry {
    /// Length in bytes of the stored (still enciphered) name.
    pub name_length: u32,
    /// Stored type byte: 1 means directory, anything else means file.
    pub type_: u8,
    /// Identifier stored with the entry.
    pub file_id: u32,
    /// Offset of this entry's body, relative to the data region.
    pub offset: u32,
    /// Stored size of the body.
    pub compressed_size: u32,
    /// Size the body should have after decompression.
    pub original_size: u32,
    /// The stored name bytes, before the name keystream is applied.
    pub un_decoded_file_path: Vec<u8>,
    /// The decoded name, split into sanitized path components.
    pub file_path: Vec<String>,
}

impl View for NpaEntry {
    type V = EntryModel;

    open spec fn view(&self) -> EntryModel {
        EntryModel {
            name_length: self.name_length,
            raw_name: self.un_decoded_file_path@,
            path: self.file_path@.map_values(|s: String| s@),
            type_: self.type_,
            file_id: self.file_id,
            offset: self.offset,
            compressed_size: self.compressed_size,
            original_size: self.original_size,
        }
    }
}

impl NpaEntry {
    /// Whether the record describes a directory.
    pub fn is_directory(&self) -> (r: bool)
        ensures
            r == (self@.type_ == 1),
    {
        self.type_ == 1
    }
}

/// Size in bytes of the fixed archive header; the data region begins this
/// far past an entry's stored offset plus the header's `start` field.
pub const HEADER_SIZE: usize = 0x29;

/// The header encoded at position `p` of the archive bytes, when the bytes
/// reach that far.
pub open spec fn spec_head_at(d: Seq<u8>, p: int) -> Option<HeadModel> {
    if p < 0 || p + HEADER_SIZE > d.len() {
        None
    } else {
        Some(
            HeadModel {
                magic: d.subrange(p, p + 7),
                key_1: le32(d.subrange(p + 7, p + 11)),
                key_2: le32(d.subrange(p + 11, p + 15)),
                compressed: d[p + 15] == 1,
                encrypted: d[p + 16] == 1,
                total_count: le32(d.subrange(p + 17, p + 21)),
                folder_count: le32(d.subrange(p + 21, p + 25)),
                file_count: le32(d.subrange(p + 25, p + 29)),
                start: le32(d.subrange(p + 37, p + 41)),
            },
        )
    }
}

/// Parse the fixed archive header at the current position. No semantic check
/// is made of the magic or the counts; a malformed header surfaces later as
/// a failed read or seek.
pub fn parse_head(reader: &mut ByteSource) -> (r: Result<NpaHead, NpaError>)
    ensures
        final(reader)@.data == old(reader)@.data,
        r is Ok <==> spec_head_at(old(reader)@.data, old(reader)@.pos as int) is Some,
        r matches Ok(h) ==> Some(h@) == spec_head_at(old(reader)@.data, old(reader)@.pos as int)
            && final(reader)@.pos == old(reader)@.pos + HEADER_SIZE,
        r is Err ==> old(reader)@.pos <= final(reader)@.pos <= old(reader)@.pos + HEADER_SIZE,
        r matches Err(e) ==> e == NpaError::Truncated,
{
    let magic_bytes = match reader.read_exact(7) {
        Ok(v) => v,
        Err(e) => {
            return Err(e);
        },
    };
    let mut magic: [u8; 7] = [0u8, 0u8, 0u8, 0u8, 0u8, 0u8, 0u8];
    let mut i: usize = 0;
    while i < 7
        invariant
            i <= 7,
            magic_bytes@.len() == 7,
            magic@.len() == 7,
            forall|j: int| 0 <= j < i ==> magic@[j] == magic_bytes@[j],
        decreases 7 - i,
    {
        magic[i] = magic_bytes[i];
        i = i + 1;
    }
    proof {
        assert(magic@ =~= magic_bytes@);
    }

    let key_1 = match util::read_u32_le(reader) {
        Ok(v) => v,
        Err(e) => {
            return Err(e);
        },
    };
    let key_2 = match util::read_u32_le(reader) {
        Ok(v) => v,
        Err(e) => {
            return Err(e);
        },
    };
    let compressed = match util::read_u8(reader) {
        Ok(v) => v == 1,
        Err(e) => {
            return Err(e);
        },
    };
    let encrypted = match util::read_u8(reader) {
        Ok(v) => v == 1,
        Err(e) => {
            return Err(e);
        },
    };
    let total_count = match util::read_u32_le(reader) {
        Ok(v) => v,
        Err(e) => {
            return Err(e);
        },
    };
    let folder_count = match util::read_u32_le(reader) {
        Ok(v) => v,
        Err(e) => {
            return Err(e);
        },
    };
    let file_count = match util::read_u32_le(reader) {
        Ok(v) => v,
        Err(e) => {
            return Err(e);
        },
    };
    match reader.read_exact(8) {
        Ok(_) => (),
        Err(e) => {
            return Err(e);
        },
    };
    let start = match util::read_u32_le(reader) {
        Ok(v) => v,
        Err(e) => {
            return Err(e);
        },
    };

    Ok(
        NpaHead {
            head: magic,
            key_1,
            key_2,
            compressed,
            encrypted,
            total_count,
            folder_count,
            file_count,
            start,
        },
    )
}

/// The entry-table record at position `p` for table index `i`: the record's
/// model and the position just past it, when the bytes reach far enough and
/// the stored name length stays within the text decoder's bound.
pub open spec fn spec_entry_at(
    d: Seq<u8>,
    p: int,
    i: u32,
    h: HeadModel,
    add_if_encrypted: bool,
) -> Option<(EntryModel, int)> {
    if p < 0 || p + 4 > d.len() {
        None
    } else {
        let l = le32(d.subrange(p, p + 4)) as int;
        if l > MAX_TEXT_LEN || p + 4 + l + 17 > d.len() {
            None
        } else {
            let raw = d.subrange(p + 4, p + 4 + l);
            let dec = Seq::new(
                l as nat,
                |x: int| u8_specs::wrapping_add(raw[x], name_keystream(x as u32, i, h, add_if_encrypted)),
            );
            let q = p + 4 + l;
            Some(
                (
                    EntryModel {
                        name_length: le32(d.subrange(p, p + 4)),
                        raw_name: raw,
                        path: path_components(sjis_decoding(dec).0),
                        type_: d[q],
                        file_id: le32(d.subrange(q + 1, q + 5)),
                        offset: le32(d.subrange(q + 5, q + 9)),
                        compressed_size: le32(d.subrange(q + 9, q + 13)),
                        original_size: le32(d.subrange(q + 13, q + 17)),
                    },
                    q + 17,
                ),
            )
        }
    }
}

/// Read the entry-table record at the current position for table index
/// `index`: its stored name length and name bytes, then its type byte and
/// the four little-endian size fields. The name is deciphered with the name
/// keystream, decoded as legacy text, and split into path components; the
/// stored name bytes are kept alongside.
pub fn read_entry(
    reader: &mut ByteSource,
    index: usize,
    header: &NpaHead,
    add_bytes_if_encrypted: bool,
) -> (r: Result<NpaEntry, NpaError>)
    requires
        index <= u32::MAX,
    ensures
        final(reader)@.data == old(reader)@.data,
        r is Ok <==> spec_entry_at(
            old(reader)@.data,
            old(reader)@.pos as int,
            index as u32,
            header@,
            add_bytes_if_encrypted,
        ) is Some,
        r matches Ok(e) ==> ({
            let se = spec_entry_at(
                old(reader)@.data,
                old(reader)@.pos as int,
                index as u32,
                header@,
                add_bytes_if_encrypted,
            ).unwrap();
            &&& e@ == se.0
            &&& final(reader)@.pos == se.1
        }),
        r is Err ==> old(reader)@.pos <= final(reader)@.pos,
        r matches Err(err) ==> err == NpaError::Truncated,
{
    let nlength = match util::read_u32_le(reader) {
        Ok(v) => v,
        Err(e) => {
            return Err(e);
        },
    };
    if nlength as usize > MAX_TEXT_LEN {
        return Err(NpaError::Truncated);
    }
    let file_name = match reader.read_exact(nlength as usize) {
        Ok(v) => v,
        Err(e) => {
            return Err(e);
        },
    };

    let ghost raw = file_name@;
    let mut decrypted: Vec<u8> = Vec::new();
    let mut x: usize = 0;
    while x < file_name.len()
        invariant
            x <= file_name@.len(),
            file_name@ == raw,
            raw.len() <= MAX_TEXT_LEN,
            index <= u32::MAX,
            decrypted@.len() == x,
            forall|j: int|
                0 <= j < x ==> decrypted@[j] == u8_specs::wrapping_add(
                    raw[j],
                    name_keystream(j as u32, index as u32, header@, add_bytes_if_encrypted),
                ),
        decreases file_name@.len() - x,
    {
        let ks = crypt::decrypt_header(x as u32, index as u32, header, add_bytes_if_encrypted);
        decrypted.push(file_name[x].wrapping_add(ks));
        x = x + 1;
    }
    proof {
        assert(decrypted@ =~= Seq::new(
            raw.len(),
            |j: int| u8_specs::wrapping_add(
                raw[j],
                name_keystream(j as u32, index as u32, header@, add_bytes_if_encrypted),
            ),
        ));
    }

    let decoded = text::decode_text(decrypted.as_slice());
    let file_path = text::split_components(decoded.text());

    let type_ = match util::read_u8(reader) {
        Ok(v) => v,
        Err(e) => {
            return Err(e);
        },
    };
    let file_id = match util::read_u32_le(reader) {
        Ok(v) => v,
        Err(e) => {
            return Err(e);
        },
    };
    let offset = match util::read_u32_le(reader) {
        Ok(v) => v,
        Err(e) => {
            return Err(e);
        },
    };
    let compressed_size = match util::read_u32_le(reader) {
        Ok(v) => v,
        Err(e) => {
            return Err(e);
        },
    };
    let original_size = match util::read_u32_le(reader) {
        Ok(v) => v,
        Err(e) => {
            return Err(e);
        },
    };

    Ok(
        NpaEntry {
            name_length: nlength,
            type_,
            file_id,
            offset,
            compressed_size,
            original_size,
            un_decoded_file_path: file_name,
            file_path,
        },
    )
}

/// `rest` with `prefix` prepended to its records, when it is anything.
pub open spec fn with_prefix(
    prefix: Seq<EntryModel>,
    rest: Option<(Seq<EntryModel>, int)>,
) -> Option<(Seq<EntryModel>, int)> {
    match rest {
        None => None,
        Some((es, p)) => Some((prefix + es, p)),
    }
}

/// The records of table indices `i` up to `n` starting at position `p`, and
/// the position just past them; nothing when any record is cut short.
pub open spec fn spec_entries_from(
    d: Seq<u8>,
    p: int,
    i: int,
    n: int,
    h: HeadModel,
    add_if_encrypted: bool,
) -> Option<(Seq<EntryModel>, int)>
    decreases n - i,
{
    if i >= n {
        Some((Seq::<EntryModel>::empty(), p))
    } else {
        match spec_entry_at(d, p, i as u32, h, add_if_encrypted) {
            None => None,
            Some((e, p2)) => with_prefix(
                seq![e],
                spec_entries_from(d, p2, i + 1, n, h, add_if_encrypted),
            ),
        }
    }
}

/// Entry-table decode yields one record per table index: when it succeeds,
/// the record list is exactly as long as the range of indices it was asked
/// for.
pub proof fn lemma_entries_count(
    d: Seq<u8>,
    p: int,
    i: int,
    n: int,
    h: HeadModel,
    add_if_encrypted: bool,
)
    requires
        spec_entries_from(d, p, i, n, h, add_if_encrypted) is Some,
        i <= n,
    ensures
        spec_entries_from(d, p, i, n, h, add_if_encrypted).unwrap().0.len() == n - i,
    decreases n - i,
{
    if i < n {
        let (e, p2) = spec_entry_at(d, p, i as u32, h, add_if_encrypted).unwrap();
        lemma_entries_count(d, p2, i + 1, n, h, add_if_encrypted);
    }
}

/// Read the whole entry table: exactly `header.total_count` records in table
/// order, no terminator. On success the reader stands just past the table.
pub fn read_entries(
    reader: &mut ByteSource,
    header: &NpaHead,
    add_bytes_if_encrypted: bool,
) -> (r: Result<Vec<NpaEntry>, NpaError>)
    ensures
        final(reader)@.data == old(reader)@.data,
        r is Ok <==> spec_entries_from(
            old(reader)@.data,
            old(reader)@.pos as int,
            0,
            header@.total_count as int,
            header@,
            add_bytes_if_encrypted,
        ) is Some,
        r matches Ok(v) ==> ({
            let se = spec_entries_from(
                old(reader)@.data,
                old(reader)@.pos as int,
                0,
                header@.total_count as int,
                header@,
                add_bytes_if_encrypted,
            ).unwrap();
            &&& v@.map_values(|e: NpaEntry| e@) == se.0
            &&& v@.len() == header@.total_count
            &&& final(reader)@.pos == se.1
        }),
        r matches Err(err) ==> err == NpaError::Truncated,
{
    let ghost d0 = reader@.data;
    let ghost p0 = reader@.pos as int;
    let ghost h = header@;
    let ghost n = header@.total_count as int;

    let total = header.total_count;
    let mut entries: Vec<NpaEntry> = Vec::with_capacity(total as usize);
    let mut i: u32 = 0;
    while i < total
        invariant
            d0 == old(reader)@.data,
            p0 == old(reader)@.pos as int,
            i <= total,
            total == h.total_count,
            n == total as int,
            header@ == h,
            reader@.data == d0,
            entries@.len() == i,
            spec_entries_from(d0, p0, 0, n, h, add_bytes_if_encrypted) == with_prefix(
                entries@.map_values(|e: NpaEntry| e@),
                spec_entries_from(d0, reader@.pos as int, i as int, n, h, add_bytes_if_encrypted),
            ),
        decreases total - i,
    {
        let ghost models = entries@.map_values(|e: NpaEntry| e@);
        let ghost pos_before = reader@.pos as int;
        match read_entry(reader, i as usize, header, add_bytes_if_encrypted) {
            Err(e) => {
                proof {
                    assert(spec_entries_from(d0, pos_before, i as int, n, h, add_bytes_if_encrypted)
                        is None);
                }
                return Err(e);
            },
            Ok(en) => {
                proof {
                    let se = spec_entry_at(d0, pos_before, i as u32, h, add_bytes_if_encrypted)
                        .unwrap();
                    let rest = spec_entries_from(d0, se.1, i as int + 1, n, h, add_bytes_if_encrypted);
                    if rest is Some {
                        assert(models.push(en@) + rest.unwrap().0 =~= models + (seq![en@]
                            + rest.unwrap().0));
                    }
                }
                entries.push(en);
                proof {
                    assert(entries@.map_values(|e: NpaEntry| e@) =~= models.push(en@));
                }
                i = i + 1;
            },
        }
    }
    proof {
        let models = entries@.map_values(|e: NpaEntry| e@);
        assert(models + Seq::<EntryModel>::empty() =~= models);
    }
    Ok(entries)
}

/// The stored body bytes of an entry: `compressed_size` bytes beginning at
/// the data region plus the entry's offset; nothing when the image is too
/// short for them.
pub open spec fn spec_entry_window(d: Seq<u8>, h: HeadModel, e: EntryModel) -> Option<Seq<u8>> {
    let start = e.offset + h.start + HEADER_SIZE;
    if e.compressed_size == 0 {
        Some(Seq::<u8>::empty())
    } else if start + e.compressed_size <= d.len() {
        Some(d.subrange(start as int, start + e.compressed_size))
    } else {
        None
    }
}

/// An entry's body after the content cipher: the stored window, deciphered
/// under the title when the archive is encrypted.
pub open spec fn spec_entry_plain(d: Seq<u8>, h: HeadModel, e: EntryModel, g: Game) -> Option<
    Seq<u8>,
> {
    match spec_entry_window(d, h, e) {
        None => None,
        Some(w) => Some(
            if h.encrypted {
                content_decrypted(
                    w,
                    g.spec_family(),
                    g.spec_key(),
                    data_cipher_key(e, h, g),
                    decode_length(g, e.raw_name.len()),
                )
            } else {
                w
            },
        ),
    }
}

/// An entry's body after the content cipher and, when the archive is
/// compressed, inflation; nothing when the zlib stream is malformed.
pub open spec fn spec_entry_body(d: Seq<u8>, h: HeadModel, e: EntryModel, g: Game) -> Option<
    Seq<u8>,
> {
    match spec_entry_plain(d, h, e, g) {
        None => None,
        Some(p) => if h.compressed {
            zlib_inflated(p)
        } else {
            Some(p)
        },
    }
}

/// The extension of an entry's path: the extension of its last component.
pub open spec fn spec_entry_extension(e: EntryModel) -> Option<Seq<char>> {
    if e.path.len() == 0 {
        None
    } else {
        spec_extension(e.path.last())
    }
}

/// An entry's final content bytes. A body whose lower-cased extension names
/// a known binary media type is returned as it stands; any other body is
/// normalized as legacy text and returned re-encoded. Nothing when the body
/// cannot be read or inflated, the path has no extension, or a text body is
/// too large to normalize.
pub open spec fn spec_entry_data(d: Seq<u8>, h: HeadModel, e: EntryModel, g: Game) -> Option<
    Seq<u8>,
> {
    match spec_entry_body(d, h, e, g) {
        None => None,
        Some(b) => match spec_entry_extension(e) {
            None => None,
            Some(ext) => if extension_known(ascii_lower(ext)) {
                Some(b)
            } else if b.len() <= MAX_TEXT_LEN {
                Some(encode_utf8(sjis_decoding(b).0))
            } else {
                None
            },
        },
    }
}

/// Read, decipher, and decompress one entry's content. The bytes returned
/// are exactly `spec_entry_data` of the archive image; a decompressed size
/// that differs from the entry's `original_size` is tolerated and the bytes
/// are still returned.
pub fn read_entry_data(
    reader: &mut ByteSource,
    header: &NpaHead,
    entry: &NpaEntry,
    game: Game,
) -> (r: Result<Vec<u8>, NpaError>)
    ensures
        final(reader)@.data == old(reader)@.data,
        r is Ok <==> spec_entry_data(old(reader)@.data, header@, entry@, game) is Some,
        r matches Ok(v) ==> Some(v@) == spec_entry_data(old(reader)@.data, header@, entry@, game),
        r matches Err(err) ==> err == ({
            let d = old(reader)@.data;
            if spec_entry_plain(d, header@, entry@, game) is None {
                NpaError::Truncated
            } else if spec_entry_body(d, header@, entry@, game) is None {
                NpaError::Inflate
            } else if spec_entry_extension(entry@) is None {
                NpaError::NoExtension
            } else {
                NpaError::Oversized
            }
        }),
{
    let ghost d = reader@.data;
    let target: u64 = entry.offset as u64 + header.start as u64 + HEADER_SIZE as u64;
    reader.seek_to(target);
    let buffer = match reader.read_exact(entry.compressed_size as usize) {
        Ok(v) => v,
        Err(e) => {
            return Err(e);
        },
    };
    proof {
        assert(Some(buffer@) == spec_entry_window(d, header@, entry@));
    }

    let buffer = if header.encrypted {
        crypt::decrypt_entry_buffer(buffer, entry, header, game)
    } else {
        buffer
    };

    let buffer = if header.compressed {
        match inflate::inflate(buffer.as_slice()) {
            Ok(v) => v,
            Err(e) => {
                return Err(e);
            },
        }
    } else {
        buffer
    };

    if entry.file_path.len() == 0 {
        return Err(NpaError::NoExtension);
    }
    let last = &entry.file_path[entry.file_path.len() - 1];
    proof {
        assert(entry@.path.last() == last@);
    }
    let ext = match text::extension_of(last.as_str()) {
        Some(e) => e,
        None => {
            return Err(NpaError::NoExtension);
        },
    };
    let ext_lower = text::to_ascii_lower(ext.as_str());

    if resolve::is_known_extension(ext_lower.as_str()) {
        Ok(buffer)
    } else {
        if buffer.len() > MAX_TEXT_LEN {
            return Err(NpaError::Oversized);
        }
        let decoded = text::decode_text(buffer.as_slice());
        Ok(decoded.text().as_bytes_vec())
    }
}

} // verus!
