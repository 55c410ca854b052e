//! The single-file database convention: tiles in a table keyed by zoom,
//! column and a row counted from the bottom, and a JSON metadata document.
use vstd::arithmetic::power2::{lemma2_to64, lemma_pow2_strictly_increases, lemma_pow2_unfold, pow2};
use vstd::prelude::*;

use crate::TileError;

verus! {

#[verifier::external_type_specification]
#[verifier::external_body]
pub struct ExConnection(rusqlite::Connection);

#[verifier::external_type_specification]
#[verifier::external_body]
pub struct ExValue(serde_json::Value);

#[verifier::external_type_specification]
#[verifier::external_body]
pub struct ExJsonError(serde_json::Error);

/// A store that owns an open connection to its database file.
#[derive(Debug)]
pub struct MbtilesStore {
    connection: rusqlite::Connection,
}

/// The suffix that a database file name must carry.
pub open spec fn mbtiles_suffix() -> Seq<char> {
    seq!['.', 'm', 'b', 't', 'i', 'l', 'e', 's']
}

/// Whether the file name at the end of `p` has the extension `mbtiles`: it
/// ends with `.mbtiles` after a stem of at least one character.
pub open spec fn has_mbtiles_ext(p: Seq<char>) -> bool {
    &&& p.len() > mbtiles_suffix().len()
    &&& p.subrange(p.len() - mbtiles_suffix().len(), p.len() as int) == mbtiles_suffix()
    &&& p[p.len() - mbtiles_suffix().len() - 1] != '/'
}

/// The stored row of tile row `y` at zoom `z`: rows are counted from the
/// bottom in the database and from the top in tile addresses. `None` where
/// `y` lies outside the zoom level, or the row does not fit in 32 bits.
pub open spec fn stored_row(z: u8, y: u32) -> Option<u32> {
    if z <= 32 && (y as nat) < pow2(z as nat) {
        Some((pow2(z as nat) - y - 1) as u32)
    } else {
        None
    }
}

/// Whether parsing `s` as JSON succeeds.
pub uninterp spec fn json_accepts(s: Seq<char>) -> bool;

/// Relies on `serde_json::from_str` into a `serde_json::Value`: whether the
/// text is accepted depends on the text alone.
#[verifier::external_body]
fn parse_json(s: &str) -> (r: Result<serde_json::Value, serde_json::Error>)
    ensures
        r is Ok <==> json_accepts(s@),
{
    serde_json::from_str(s)
}

/// Whether `p` names a file with the extension `mbtiles`.
pub fn is_mbtiles_name(p: &str) -> (r: bool)
    ensures
        r == has_mbtiles_ext(p@),
{
    let suffix = ".mbtiles";
    proof {
        reveal_strlit(".mbtiles");
    }
    assert(suffix@ == mbtiles_suffix());
    let n = p.unicode_len();
    if n <= 8 {
        return false;
    }
    let base = n - 8;
    let mut i: usize = 0;
    while i < 8
        invariant
            n == p@.len(),
            base == n - 8,
            i <= 8,
            suffix@ == mbtiles_suffix(),
            forall|j: int| 0 <= j < i ==> p@[base + j] == mbtiles_suffix()[j],
        decreases 8 - i,
    {
        if p.get_char(base + i) != suffix.get_char(i) {
            assert(p@.subrange(base as int, n as int)[i as int] != mbtiles_suffix()[i as int]);
            return false;
        }
        i = i + 1;
    }
    assert(p@.subrange(base as int, n as int) =~= mbtiles_suffix());
    p.get_char(base - 1) != '/'
}

/// The stored row of tile row `y` at zoom `z`.
pub fn tile_row(z: u8, y: u32) -> (r: Option<u32>)
    ensures
        r == stored_row(z, y),
{
    if z > 32 {
        return None;
    }
    let mut p: u64 = 1;
    let mut i: u8 = 0;
    proof {
        lemma2_to64();
    }
    while i < z
        invariant
            i <= z <= 32,
            p == pow2(i as nat),
            pow2(32) == 0x1_0000_0000,
        decreases z - i,
    {
        proof {
            lemma_pow2_strictly_increases(i as nat, 32);
            lemma_pow2_unfold((i + 1) as nat);
        }
        p = p * 2;
        i = i + 1;
    }
    if (y as u64) < p {
        proof {
            if z < 32 {
                lemma_pow2_strictly_increases(z as nat, 32);
            }
        }
        Some((p - y as u64 - 1) as u32)
    } else {
        None
    }
}

impl MbtilesStore {
    /// A store over an open database connection.
    pub fn from_connection(connection: rusqlite::Connection) -> (r: MbtilesStore) {
        MbtilesStore { connection }
    }

    /// The database connection of this store.
    pub fn connection(&self) -> &rusqlite::Connection {
        &self.connection
    }

    /// Whether a new database may be created at `p`, where `exists` tells
    /// whether anything is there already.
    pub fn check_new(p: &str, exists: bool) -> (r: Result<(), TileError>)
        ensures
            exists ==> r == Err::<(), TileError>(TileError::AlreadyExists),
            !exists && !has_mbtiles_ext(p@) ==> r == Err::<(), TileError>(TileError::BadExtension),
            !exists && has_mbtiles_ext(p@) ==> r == Ok::<(), TileError>(()),
    {
        if exists {
            Err(TileError::AlreadyExists)
        } else if !is_mbtiles_name(p) {
            Err(TileError::BadExtension)
        } else {
            Ok(())
        }
    }

    /// Whether `p` is taken for a database of this convention, where
    /// `is_file` tells whether it is an existing regular file; the contents
    /// are not looked at.
    pub fn recognizes(p: &str, is_file: bool) -> (r: bool)
        ensures
            r == (is_file && has_mbtiles_ext(p@)),
    {
        is_file && is_mbtiles_name(p)
    }

    /// The metadata document from the result of parsing its text.
    pub fn metadata_from_parse(parsed: Result<serde_json::Value, serde_json::Error>) -> (r: Result<
        Option<serde_json::Value>,
        TileError,
    >)
        ensures
            parsed is Ok ==> r == Ok::<Option<serde_json::Value>, TileError>(Some(parsed->Ok_0)),
            parsed is Err ==> r == Err::<Option<serde_json::Value>, TileError>(
                TileError::InvalidMetadata,
            ),
    {
        match parsed {
            Ok(v) => Ok(Some(v)),
            Err(_) => Err(TileError::InvalidMetadata),
        }
    }

    /// The metadata document from the stored text, `None` where no text is
    /// stored.
    pub fn tilejson_from_text(raw: Option<String>) -> (r: Result<Option<serde_json::Value>, TileError>)
        ensures
            raw is None ==> r == Ok::<Option<serde_json::Value>, TileError>(None),
            raw is Some ==> (r is Ok <==> json_accepts(raw->Some_0@)),
            raw is Some && r is Ok ==> r->Ok_0 is Some,
            r is Err ==> r->Err_0 == TileError::InvalidMetadata,
    {
        match raw {
            None => Ok(None),
            Some(s) => MbtilesStore::metadata_from_parse(parse_json(s.as_str())),
        }
    }

    /// Writing tiles is not supported for this convention.
    pub fn set_tile_zxy(&self, z: u8, x: u32, y: u32, content: &[u8]) -> (r: Result<(), TileError>)
        ensures
            r == Err::<(), TileError>(TileError::Unsupported),
    {
        Err(TileError::Unsupported)
    }

    /// Asking whether a tile is present is not supported for this convention.
    pub fn has_tile_zxy(&self, z: u8, x: u32, y: u32) -> (r: Result<bool, TileError>)
        ensures
            r == Err::<bool, TileError>(TileError::Unsupported),
    {
        Err(TileError::Unsupported)
    }

    /// A database tile has no path of its own.
    pub fn pathish_for_tile_zxy(&self, z: u8, x: u32, y: u32) -> (r: Option<String>)
        ensures
            r is None,
    {
        None
    }
}

} // verus!
