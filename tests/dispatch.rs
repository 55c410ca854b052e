use tilestore::mbtiles::{is_mbtiles_name, tile_row};
use tilestore::{
    detect_kind, MbtilesStore, ModTileStore, StoreKind, TileError, TileSource, TileStashStore,
    TileStore, ZXYStore,
};

fn memory_store() -> MbtilesStore {
    MbtilesStore::from_connection(rusqlite::Connection::open_in_memory().unwrap())
}

#[test]
fn row_flip_zoom_three() {
    assert_eq!(tile_row(3, 0), Some(7));
    assert_eq!(tile_row(3, 7), Some(0));
    assert_eq!(tile_row(3, 2), Some(5));
}

#[test]
fn row_flip_out_of_range() {
    assert_eq!(tile_row(3, 8), None);
    assert_eq!(tile_row(0, 0), Some(0));
    assert_eq!(tile_row(32, 0), Some(u32::MAX));
    assert_eq!(tile_row(33, 0), None);
}

#[test]
fn detection_prefers_metatiles() {
    assert_eq!(detect_kind(true, true, false, false), Some(StoreKind::ModTile));
    assert_eq!(detect_kind(true, true, true, true), Some(StoreKind::ModTile));
}

#[test]
fn detection_order() {
    assert_eq!(detect_kind(false, true, true, true), Some(StoreKind::TileStash));
    assert_eq!(detect_kind(false, false, true, true), Some(StoreKind::ZXY));
    assert_eq!(detect_kind(false, false, false, true), Some(StoreKind::Mbtiles));
}

#[test]
fn detection_of_nothing() {
    assert_eq!(detect_kind(false, false, false, false), None);
}

#[test]
fn database_names() {
    assert!(is_mbtiles_name("world.mbtiles"));
    assert!(is_mbtiles_name("data/world.mbtiles"));
    assert!(!is_mbtiles_name("data/.mbtiles"));
    assert!(!is_mbtiles_name(".mbtiles"));
    assert!(!is_mbtiles_name("world.mbtile"));
    assert!(!is_mbtiles_name("world.sqlite"));
}

#[test]
fn database_creation_checks() {
    assert_eq!(MbtilesStore::check_new("a.mbtiles", true), Err(TileError::AlreadyExists));
    assert_eq!(MbtilesStore::check_new("a.txt", false), Err(TileError::BadExtension));
    assert_eq!(MbtilesStore::check_new("a.mbtiles", false), Ok(()));
    assert!(MbtilesStore::recognizes("a.mbtiles", true));
    assert!(!MbtilesStore::recognizes("a.mbtiles", false));
    assert!(!MbtilesStore::recognizes("a.db", true));
}

#[test]
fn metadata_text() {
    assert!(matches!(MbtilesStore::tilejson_from_text(None), Ok(None)));
    let v = MbtilesStore::tilejson_from_text(Some("{\"minzoom\": 2}".to_string()))
        .unwrap()
        .unwrap();
    assert_eq!(v["minzoom"], 2);
    assert_eq!(
        MbtilesStore::tilejson_from_text(Some("{\"minzoom\":".to_string())).unwrap_err(),
        TileError::InvalidMetadata
    );
}

#[test]
fn database_reads_flipped_row() {
    let s = TileStore::Mbtiles(memory_store());
    match s.tile_source(3, 2, 0) {
        TileSource::Row { zoom, column, row } => assert_eq!((zoom, column, row), (3, 2, 7)),
        other => panic!("{:?}", other),
    }
    assert!(matches!(s.tile_source(3, 2, 9), TileSource::Absent));
}

#[test]
fn database_operations_unsupported() {
    let s = TileStore::Mbtiles(memory_store());
    assert_eq!(s.pathish_for_tile_zxy(1, 0, 0), None);
    assert_eq!(s.put_path(1, 0, 0), Err(TileError::Unsupported));
    assert_eq!(s.has_path(1, 0, 0), Err(TileError::Unsupported));
    let m = memory_store();
    assert_eq!(m.set_tile_zxy(1, 0, 0, b"x"), Err(TileError::Unsupported));
    assert_eq!(m.has_tile_zxy(1, 0, 0), Err(TileError::Unsupported));
}

#[test]
fn generic_store_cannot_be_created() {
    assert!(matches!(TileStore::new("x", "png"), Err(TileError::Unsupported)));
}

#[test]
fn put_then_get_address_one_file() {
    let s = TileStore::ZXY(ZXYStore::new("t".to_string(), "png".to_string()));
    let w = s.put_path(4, 3, 2).unwrap();
    assert_eq!(w, "t/4/3/2.png");
    match s.tile_source(4, 3, 2) {
        TileSource::File(p) => assert_eq!(p, w),
        other => panic!("{:?}", other),
    }
    let t = TileStore::TileStash(TileStashStore::new("c".to_string(), "png".to_string()));
    let w = t.put_path(4, 3, 2).unwrap();
    assert_eq!(w, "c/4/000/003/000/002.png");
    match t.tile_source(4, 3, 2) {
        TileSource::File(p) => assert_eq!(p, w),
        other => panic!("{:?}", other),
    }
}

#[test]
fn metatile_store_dispatch() {
    let s = TileStore::ModTile(ModTileStore::new("m".to_string()));
    assert_eq!(s.kind(), StoreKind::ModTile);
    assert_eq!(s.put_path(5, 8, 8), Err(TileError::Unsupported));
    assert_eq!(s.has_path(5, 9, 9), Ok("m/5/0/0/0/0/136.meta".to_string()));
    match s.tile_source(5, 9, 9) {
        TileSource::Metatile(p) => assert_eq!(p, "m/5/0/0/0/0/136.meta"),
        other => panic!("{:?}", other),
    }
}
