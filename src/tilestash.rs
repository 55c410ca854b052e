//! The zero-padded convention: column and row each split into thousands and
//! remainder, written with three digits at least.
use vstd::prelude::*;

use crate::segments::{dec, dec_string, join, pad3, pad3_string, push_component, stem_with_ext, with_ext};

verus! {

/// A store of one file per tile under the directory `path`, with files named
/// by `file_ext`.
#[derive(Debug)]
pub struct TileStashStore {
    pub path: String,
    pub file_ext: String,
}

/// The four directory parts for `(x, y)`: thousands and remainder of `x`,
/// then of `y`.
pub open spec fn ts_parts(x: u32, y: u32) -> Seq<Seq<char>> {
    seq![
        pad3(x as nat / 1000),
        pad3(x as nat % 1000),
        pad3(y as nat / 1000),
        pad3(y as nat % 1000),
    ]
}

/// Where tile `(z, x, y)` lies under `root`.
pub open spec fn tilestash_path(root: Seq<char>, z: u8, x: u32, y: u32, ext: Seq<char>) -> Seq<
    char,
> {
    let p = ts_parts(x, y);
    join(join(join(join(join(root, dec(z as nat)), p[0]), p[1]), p[2]), with_ext(p[3], ext))
}

/// The zero-padded directory parts for `(x, y)`. A column or row of a
/// million or more has a thousands part of more than three digits, written
/// in full.
pub fn xy_to_ts(x: u32, y: u32) -> (r: [String; 4])
    ensures
        r@.len() == 4,
        forall|i: int| 0 <= i < 4 ==> #[trigger] r@[i]@ == ts_parts(x, y)[i],
{
    [
        pad3_string(x / 1_000),
        pad3_string(x % 1_000),
        pad3_string(y / 1_000),
        pad3_string(y % 1_000),
    ]
}

fn stash_path(root: &str, z: u8, x: u32, y: u32, ext: &str) -> (r: String)
    ensures
        r@ == tilestash_path(root@, z, x, y, ext@),
{
    let ts = xy_to_ts(x, y);
    let mut p = String::from_str(root);
    push_component(&mut p, dec_string(z as u32).as_str());
    push_component(&mut p, ts[0].as_str());
    push_component(&mut p, ts[1].as_str());
    push_component(&mut p, ts[2].as_str());
    let stem = stem_with_ext(ts[3].as_str(), ext);
    push_component(&mut p, stem.as_str());
    p
}

impl TileStashStore {
    /// A store over the directory `path` with files named by `file_ext`.
    pub fn new(path: String, file_ext: String) -> (r: TileStashStore)
        ensures
            r.path@ == path@,
            r.file_ext@ == file_ext@,
    {
        TileStashStore { path, file_ext }
    }

    /// The path whose existence marks a directory as a store of this
    /// convention: the file of tile `(0, 0, 0)`.
    pub fn marker_path(root: &str, file_ext: &str) -> (r: String)
        ensures
            r@ == tilestash_path(root@, 0, 0, 0, file_ext@),
    {
        stash_path(root, 0, 0, 0, file_ext)
    }

    /// The file that holds tile `(z, x, y)`.
    pub fn pathish_for_tile_zxy(&self, z: u8, x: u32, y: u32) -> (r: Option<String>)
        ensures
            r is Some,
            r->Some_0@ == tilestash_path(self.path@, z, x, y, self.file_ext@),
    {
        Some(stash_path(self.path.as_str(), z, x, y, self.file_ext.as_str()))
    }
}

} // verus!
