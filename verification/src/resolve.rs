use vstd::prelude::*;
use vstd::utf8::valid_utf8;

use crate::all_games;
use crate::game_order;
use crate::parse_head;
use crate::read_entries;
use crate::read_entry_data;
use crate::spec_entries_from;
use crate::spec_entry_data;
use crate::spec_entry_extension;
use crate::spec_head_at;
use crate::text;
use crate::text::ascii_lower;
use crate::util::ByteSource;
use crate::CipherFamily;
use crate::EntryModel;
use crate::Game;
use crate::NpaEntry;
use crate::NpaError;
use crate::HEADER_SIZE;

verus! {

/// Whether the media classifier knows file signatures for this lower-case
/// extension. The answer depends on the extension alone.
pub uninterp spec fn extension_known(ext: Seq<char>) -> bool;

/// Relies on `infer::is_supported`: whether the built-in matcher list
/// carries an entry for this extension; the result depends on the extension
/// alone.
#[verifier::external_body]
pub(crate) fn is_known_extension(ext: &str) -> (r: bool)
    ensures
        r == extension_known(ext@),
{
    infer::is_supported(ext)
}

/// Whether bytes begin with the signature of the media type this lower-case
/// extension names. The answer depends on the bytes and the extension alone.
pub uninterp spec fn signature_matches(data: Seq<u8>, ext: Seq<char>) -> bool;

/// Relies on `infer::is`: whether a built-in matcher for exactly this
/// extension accepts the bytes; the result depends on the arguments alone.
#[verifier::external_body]
fn matches_media_signature(data: &[u8], ext: &str) -> (r: bool)
    ensures
        r == signature_matches(data@, ext@),
{
    infer::is(data, ext)
}

/// Relies on `core::str::from_utf8`: `Ok` exactly when the bytes are valid
/// UTF-8.
#[verifier::external_body]
fn check_utf8(data: &[u8]) -> (r: bool)
    ensures
        r == valid_utf8(data@),
{
    core::str::from_utf8(data).is_ok()
}

/// What it means for decoded entry bytes to pass validation against the
/// entry's lower-case extension: a known media extension demands its leading
/// signature, any other demands valid UTF-8.
pub open spec fn spec_valid_data(data: Seq<u8>, ext: Seq<char>) -> bool {
    if extension_known(ext) {
        signature_matches(data, ext)
    } else {
        valid_utf8(data)
    }
}

/// Validate decoded entry bytes against an entry's extension.
pub fn is_valid_data(data: &[u8], extension: &str) -> (r: bool)
    ensures
        r == spec_valid_data(data@, extension@),
{
    if is_known_extension(extension) {
        matches_media_signature(data, extension)
    } else {
        check_utf8(data)
    }
}

/// The first record of the table that is not a directory.
pub open spec fn spec_first_file(es: Seq<EntryModel>) -> Option<EntryModel>
    decreases es.len(),
{
    if es.len() == 0 {
        None
    } else if es[0].type_ != 1 {
        Some(es[0])
    } else {
        spec_first_file(es.drop_first())
    }
}

/// Find the index of the first non-directory entry.
fn first_file_entry(entries: &Vec<NpaEntry>) -> (r: Option<usize>)
    ensures
        r is Some <==> spec_first_file(entries@.map_values(|e: NpaEntry| e@)) is Some,
        r matches Some(i) ==> i < entries@.len() && Some(entries@[i as int]@) == spec_first_file(
            entries@.map_values(|e: NpaEntry| e@),
        ),
{
    let ghost models = entries@.map_values(|e: NpaEntry| e@);
    let n = entries.len();
    let mut i: usize = 0;
    proof {
        assert(models.skip(0) =~= models);
    }
    while i < n
        invariant
            i <= n,
            n == entries@.len(),
            models == entries@.map_values(|e: NpaEntry| e@),
            spec_first_file(models) == spec_first_file(models.skip(i as int)),
        decreases n - i,
    {
        if !entries[i].is_directory() {
            proof {
                assert(models.skip(i as int)[0] == models[i as int]);
            }
            return Some(i);
        }
        proof {
            assert(models.skip(i as int)[0] == models[i as int]);
            assert(models.skip(i as int).drop_first() =~= models.skip(i as int + 1));
        }
        i = i + 1;
    }
    proof {
        assert(models.skip(n as int) =~= Seq::<EntryModel>::empty());
    }
    None
}

/// The first non-directory record of the archive image, as decoded under one
/// candidate title: the header and the table are re-read from the start of
/// the image, with the name-cipher variant the candidate's family selects.
pub open spec fn spec_candidate_entry(d: Seq<u8>, g: Game) -> Option<EntryModel> {
    match spec_head_at(d, 0) {
        None => None,
        Some(h) => match spec_entries_from(
            d,
            HEADER_SIZE as int,
            0,
            h.total_count as int,
            h,
            g.spec_family() == CipherFamily::Void,
        ) {
            None => None,
            Some((es, _)) => spec_first_file(es),
        },
    }
}

/// The decoded content bytes of the candidate's first non-directory entry.
pub open spec fn spec_candidate_data(d: Seq<u8>, g: Game) -> Option<Seq<u8>> {
    match spec_head_at(d, 0) {
        None => None,
        Some(h) => match spec_candidate_entry(d, g) {
            None => None,
            Some(e) => spec_entry_data(d, h, e, g),
        },
    }
}

/// Whether one candidate title validates on this archive image: its first
/// non-directory entry's bytes decode, and they carry the media signature of
/// the entry's known extension, or are valid UTF-8 for any other extension.
pub open spec fn spec_candidate_ok(d: Seq<u8>, g: Game) -> bool {
    &&& spec_candidate_data(d, g) is Some
    &&& spec_valid_data(
        spec_candidate_data(d, g).unwrap(),
        ascii_lower(spec_entry_extension(spec_candidate_entry(d, g).unwrap()).unwrap()),
    )
}

/// Try one candidate title: re-drive the whole pipeline from the start of
/// the image under the candidate's name-cipher variant, decode the first
/// non-directory entry, and validate its bytes against its extension. The
/// decoded bytes come back exactly when the candidate validates.
pub fn try_title(reader: &mut ByteSource, game: Game) -> (r: Option<Vec<u8>>)
    ensures
        final(reader)@.data == old(reader)@.data,
        r is Some <==> spec_candidate_ok(old(reader)@.data, game),
        r matches Some(v) ==> Some(v@) == spec_candidate_data(old(reader)@.data, game),
{
    let ghost d = reader@.data;
    reader.seek_to(0);
    let header = match parse_head(reader) {
        Ok(h) => h,
        Err(_) => {
            return None;
        },
    };
    let add = matches!(game.family(), CipherFamily::Void);
    let entries = match read_entries(reader, &header, add) {
        Ok(es) => es,
        Err(_) => {
            return None;
        },
    };
    let ei = match first_file_entry(&entries) {
        Some(i) => i,
        None => {
            return None;
        },
    };
    let entry = &entries[ei];
    proof {
        assert(Some(entry@) == spec_candidate_entry(d, game));
    }
    let data = match read_entry_data(reader, &header, entry, game) {
        Ok(v) => v,
        Err(_) => {
            return None;
        },
    };
    proof {
        assert(entry@.path.len() > 0);
        assert(entry@.path.last() == entry.file_path@[entry.file_path@.len() - 1]@);
    }
    let last = &entry.file_path[entry.file_path.len() - 1];
    let ext = match text::extension_of(last.as_str()) {
        Some(e) => e,
        None => {
            return None;
        },
    };
    let ext_lower = text::to_ascii_lower(ext.as_str());
    if is_valid_data(data.as_slice(), ext_lower.as_str()) {
        Some(data)
    } else {
        None
    }
}

/// Identify the title of an unknown archive: try every candidate in the
/// declared order and accept the first whose first non-directory entry
/// validates. Success is never reported for a candidate whose decoded bytes
/// fail validation, and the accepted candidate is the first that passes.
pub fn resolve_title(reader: &mut ByteSource) -> (r: Result<Game, NpaError>)
    ensures
        final(reader)@.data == old(reader)@.data,
        r matches Ok(g) ==> (exists|k: int|
            0 <= k < game_order().len() && game_order()[k] == g && spec_candidate_ok(
                old(reader)@.data,
                g,
            ) && (forall|j: int|
                0 <= j < k ==> !spec_candidate_ok(old(reader)@.data, game_order()[j]))),
        r is Err <==> (forall|j: int|
            0 <= j < game_order().len() ==> !spec_candidate_ok(
                old(reader)@.data,
                game_order()[j],
            )),
        r matches Err(e) ==> e == NpaError::NoTitleMatched,
{
    let games = all_games();
    let n = games.len();
    let mut i: usize = 0;
    while i < n
        invariant
            i <= n,
            games@ == game_order(),
            n == games@.len(),
            reader@.data == old(reader)@.data,
            forall|j: int|
                0 <= j < i ==> !spec_candidate_ok(old(reader)@.data, game_order()[j]),
        decreases n - i,
    {
        let g = games[i];
        match try_title(reader, g) {
            Some(_) => {
                return Ok(g);
            },
            None => {},
        }
        i = i + 1;
    }
    Err(NpaError::NoTitleMatched)
}

} // verus!
