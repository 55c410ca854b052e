//! Uniform access to raster map tiles stored under one of several on-disk
//! conventions, addressed by zoom, column and row.
use vstd::prelude::*;

pub mod segments;
pub mod modtile;
pub mod tilestash;
pub mod zxy;
pub mod mbtiles;

pub use mbtiles::MbtilesStore;
pub use modtile::ModTileStore;
pub use tilestash::TileStashStore;
pub use zxy::ZXYStore;

use mbtiles::stored_row;
use modtile::modtile_path;
use tilestash::tilestash_path;
use zxy::zxy_path;

verus! {

/// Why an operation on a tile store did not succeed.
#[derive(Debug, Clone, Copy, PartialEq, Eq, Structural)]
pub enum TileError {
    /// A fresh store was asked for at a location that already exists.
    AlreadyExists,
    /// The file name does not carry the extension the convention needs.
    BadExtension,
    /// A metatile declares a tile count outside {0, 1, 4, 16, 64}.
    BadCount(u32),
    /// A metatile ends before a field or payload it refers to.
    Truncated,
    /// The operation is not available for this convention.
    Unsupported,
    /// The stored metadata text is not valid JSON.
    InvalidMetadata,
}

/// The conventions a store can follow.
#[derive(Debug, Clone, Copy, PartialEq, Eq, Structural)]
pub enum StoreKind {
    ModTile,
    TileStash,
    ZXY,
    Mbtiles,
}

/// A store of any of the conventions.
#[derive(Debug)]
pub enum TileStore {
    ModTile(ModTileStore),
    TileStash(TileStashStore),
    ZXY(ZXYStore),
    Mbtiles(MbtilesStore),
}

/// Where the bytes of a tile are to be read from.
#[derive(Debug)]
pub enum TileSource {
    /// The whole file at this path, where it exists, is the tile.
    File(String),
    /// The metatile file at this path, where it exists, holds the tile:
    /// `modtile::read_tile` takes it apart.
    Metatile(String),
    /// The database row with these keys holds the tile.
    Row { zoom: u8, column: u32, row: u32 },
    /// No tile can be at this address.
    Absent,
}

/// A `TileSource` with its paths as sequences of characters.
pub ghost enum SourceView {
    File(Seq<char>),
    Metatile(Seq<char>),
    Row { zoom: u8, column: u32, row: u32 },
    Absent,
}

impl View for TileSource {
    type V = SourceView;

    open spec fn view(&self) -> SourceView {
        match self {
            TileSource::File(p) => SourceView::File(p@),
            TileSource::Metatile(p) => SourceView::Metatile(p@),
            TileSource::Row { zoom, column, row } => SourceView::Row {
                zoom: *zoom,
                column: *column,
                row: *row,
            },
            TileSource::Absent => SourceView::Absent,
        }
    }
}

/// The convention that a root is taken for, given which markers are present:
/// the first match in the order metatile, zero-padded, direct, database.
pub open spec fn detected(
    modtile_marker: bool,
    tilestash_marker: bool,
    zxy_marker: bool,
    mbtiles_file: bool,
) -> Option<StoreKind> {
    if modtile_marker {
        Some(StoreKind::ModTile)
    } else if tilestash_marker {
        Some(StoreKind::TileStash)
    } else if zxy_marker {
        Some(StoreKind::ZXY)
    } else if mbtiles_file {
        Some(StoreKind::Mbtiles)
    } else {
        None
    }
}

/// Picks the convention of a root from the outcome of each convention's
/// probe: whether `ModTileStore::marker_path`, `TileStashStore::marker_path`
/// and `ZXYStore::marker_path` exist, and whether `MbtilesStore::recognizes`
/// the root.
pub fn detect_kind(
    modtile_marker: bool,
    tilestash_marker: bool,
    zxy_marker: bool,
    mbtiles_file: bool,
) -> (r: Option<StoreKind>)
    ensures
        r == detected(modtile_marker, tilestash_marker, zxy_marker, mbtiles_file),
        modtile_marker ==> r == Some(StoreKind::ModTile),
        !modtile_marker && !tilestash_marker && !zxy_marker && !mbtiles_file ==> r is None,
{
    if modtile_marker {
        Some(StoreKind::ModTile)
    } else if tilestash_marker {
        Some(StoreKind::TileStash)
    } else if zxy_marker {
        Some(StoreKind::ZXY)
    } else if mbtiles_file {
        Some(StoreKind::Mbtiles)
    } else {
        None
    }
}

impl TileStore {
    /// The convention this store follows.
    pub open spec fn kind_of(&self) -> StoreKind {
        match self {
            TileStore::ModTile(_) => StoreKind::ModTile,
            TileStore::TileStash(_) => StoreKind::TileStash,
            TileStore::ZXY(_) => StoreKind::ZXY,
            TileStore::Mbtiles(_) => StoreKind::Mbtiles,
        }
    }

    /// The file that would hold tile `(z, x, y)`, for a store on files.
    pub open spec fn path_hint(&self, z: u8, x: u32, y: u32) -> Option<Seq<char>> {
        match self {
            TileStore::ModTile(s) => Some(modtile_path(s.path@, z, x, y)),
            TileStore::TileStash(s) => Some(tilestash_path(s.path@, z, x, y, s.file_ext@)),
            TileStore::ZXY(s) => Some(zxy_path(s.path@, z, x, y, s.file_ext@)),
            TileStore::Mbtiles(_) => None,
        }
    }

    /// Where tile `(z, x, y)` is read from.
    pub open spec fn read_source(&self, z: u8, x: u32, y: u32) -> SourceView {
        match self {
            TileStore::ModTile(s) => SourceView::Metatile(modtile_path(s.path@, z, x, y)),
            TileStore::TileStash(s) => SourceView::File(tilestash_path(s.path@, z, x, y, s.file_ext@)),
            TileStore::ZXY(s) => SourceView::File(zxy_path(s.path@, z, x, y, s.file_ext@)),
            TileStore::Mbtiles(_) => match stored_row(z, y) {
                Some(row) => SourceView::Row { zoom: z, column: x, row },
                None => SourceView::Absent,
            },
        }
    }

    /// The file that writing tile `(z, x, y)` fills, where writing is supported.
    pub open spec fn write_target(&self, z: u8, x: u32, y: u32) -> Result<Seq<char>, TileError> {
        match self {
            TileStore::TileStash(s) => Ok(tilestash_path(s.path@, z, x, y, s.file_ext@)),
            TileStore::ZXY(s) => Ok(zxy_path(s.path@, z, x, y, s.file_ext@)),
            _ => Err(TileError::Unsupported),
        }
    }

    /// A dispatching store is only had by detection: creating one fails.
    pub fn new(p: &str, file_ext: &str) -> (r: Result<TileStore, TileError>)
        ensures
            r is Err,
            r->Err_0 == TileError::Unsupported,
    {
        Err(TileError::Unsupported)
    }

    /// The convention this store follows.
    pub fn kind(&self) -> (r: StoreKind)
        ensures
            r == self.kind_of(),
    {
        match self {
            TileStore::ModTile(_) => StoreKind::ModTile,
            TileStore::TileStash(_) => StoreKind::TileStash,
            TileStore::ZXY(_) => StoreKind::ZXY,
            TileStore::Mbtiles(_) => StoreKind::Mbtiles,
        }
    }

    /// The file that would hold tile `(z, x, y)`; `None` for the database.
    pub fn pathish_for_tile_zxy(&self, z: u8, x: u32, y: u32) -> (r: Option<String>)
        ensures
            r is Some == self.path_hint(z, x, y) is Some,
            r is Some ==> r->Some_0@ == self.path_hint(z, x, y)->Some_0,
    {
        match self {
            TileStore::ModTile(s) => s.pathish_for_tile_zxy(z, x, y),
            TileStore::TileStash(s) => s.pathish_for_tile_zxy(z, x, y),
            TileStore::ZXY(s) => s.pathish_for_tile_zxy(z, x, y),
            TileStore::Mbtiles(s) => s.pathish_for_tile_zxy(z, x, y),
        }
    }

    /// Where to read tile `(z, x, y)` from.
    pub fn tile_source(&self, z: u8, x: u32, y: u32) -> (r: TileSource)
        ensures
            r@ == self.read_source(z, x, y),
    {
        match self {
            TileStore::ModTile(s) => match s.pathish_for_tile_zxy(z, x, y) {
                Some(p) => TileSource::Metatile(p),
                None => TileSource::Absent,
            },
            TileStore::TileStash(s) => match s.pathish_for_tile_zxy(z, x, y) {
                Some(p) => TileSource::File(p),
                None => TileSource::Absent,
            },
            TileStore::ZXY(s) => match s.pathish_for_tile_zxy(z, x, y) {
                Some(p) => TileSource::File(p),
                None => TileSource::Absent,
            },
            TileStore::Mbtiles(_) => match mbtiles::tile_row(z, y) {
                Some(row) => TileSource::Row { zoom: z, column: x, row },
                None => TileSource::Absent,
            },
        }
    }

    /// The file to fill when writing tile `(z, x, y)`; writing is not
    /// supported for metatiles and the database.
    pub fn put_path(&self, z: u8, x: u32, y: u32) -> (r: Result<String, TileError>)
        ensures
            r is Ok == self.write_target(z, x, y) is Ok,
            r is Ok ==> r->Ok_0@ == self.write_target(z, x, y)->Ok_0,
            r is Err ==> r->Err_0 == TileError::Unsupported,
    {
        match self {
            TileStore::TileStash(s) => match s.pathish_for_tile_zxy(z, x, y) {
                Some(p) => Ok(p),
                None => Err(TileError::Unsupported),
            },
            TileStore::ZXY(s) => match s.pathish_for_tile_zxy(z, x, y) {
                Some(p) => Ok(p),
                None => Err(TileError::Unsupported),
            },
            TileStore::ModTile(s) => match s.set_tile_zxy(z, x, y, &[]) {
                Ok(()) => Err(TileError::Unsupported),
                Err(e) => Err(e),
            },
            TileStore::Mbtiles(s) => match s.set_tile_zxy(z, x, y, &[]) {
                Ok(()) => Err(TileError::Unsupported),
                Err(e) => Err(e),
            },
        }
    }

    /// The file whose existence tells whether tile `(z, x, y)` is present;
    /// not supported for the database.
    pub fn has_path(&self, z: u8, x: u32, y: u32) -> (r: Result<String, TileError>)
        ensures
            r is Ok == self.path_hint(z, x, y) is Some,
            r is Ok ==> r->Ok_0@ == self.path_hint(z, x, y)->Some_0,
            r is Err ==> r->Err_0 == TileError::Unsupported,
    {
        match self.pathish_for_tile_zxy(z, x, y) {
            Some(p) => Ok(p),
            None => Err(TileError::Unsupported),
        }
    }
}

/// Each call for the path of a tile gives the same path: the one that the
/// store's root, file extension and the tile's address determine.
pub proof fn lemma_path_hint_stable(a: TileStore, b: TileStore, z: u8, x: u32, y: u32)
    requires
        a.kind_of() == b.kind_of(),
        a.kind_of() == StoreKind::ModTile ==> a->ModTile_0.path@ == b->ModTile_0.path@,
        a.kind_of() == StoreKind::TileStash ==> a->TileStash_0.path@ == b->TileStash_0.path@
            && a->TileStash_0.file_ext@ == b->TileStash_0.file_ext@,
        a.kind_of() == StoreKind::ZXY ==> a->ZXY_0.path@ == b->ZXY_0.path@
            && a->ZXY_0.file_ext@ == b->ZXY_0.file_ext@,
    ensures
        a.path_hint(z, x, y) == b.path_hint(z, x, y),
{
}

/// In the direct and zero-padded conventions, writing a tile and then reading
/// it go to one and the same file, and the read takes the whole file as the
/// tile's bytes.
pub proof fn lemma_put_then_get_same_file(store: TileStore, z: u8, x: u32, y: u32)
    requires
        store is TileStash || store is ZXY,
    ensures
        store.write_target(z, x, y) is Ok,
        store.read_source(z, x, y) == SourceView::File(store.write_target(z, x, y)->Ok_0),
{
}

} // verus!
