//! The direct convention: `zoom/column/row.ext`.
use vstd::prelude::*;

use crate::segments::{dec, dec_string, join, push_component, stem_with_ext, with_ext};

verus! {

/// A store of one file per tile under the directory `path`, with files named
/// by `file_ext`.
#[derive(Debug)]
pub struct ZXYStore {
    pub path: String,
    pub file_ext: String,
}

/// Where tile `(z, x, y)` lies under `root`.
pub open spec fn zxy_path(root: Seq<char>, z: u8, x: u32, y: u32, ext: Seq<char>) -> Seq<char> {
    join(join(join(root, dec(z as nat)), dec(x as nat)), with_ext(dec(y as nat), ext))
}

fn direct_path(root: &str, z: u8, x: u32, y: u32, ext: &str) -> (r: String)
    ensures
        r@ == zxy_path(root@, z, x, y, ext@),
{
    let mut p = String::from_str(root);
    push_component(&mut p, dec_string(z as u32).as_str());
    push_component(&mut p, dec_string(x).as_str());
    let stem = stem_with_ext(dec_string(y).as_str(), ext);
    push_component(&mut p, stem.as_str());
    p
}

impl ZXYStore {
    /// A store over the directory `path` with files named by `file_ext`.
    pub fn new(path: String, file_ext: String) -> (r: ZXYStore)
        ensures
            r.path@ == path@,
            r.file_ext@ == file_ext@,
    {
        ZXYStore { path, file_ext }
    }

    /// The path whose existence marks a directory as a store of this
    /// convention: the file of tile `(0, 0, 0)`.
    pub fn marker_path(root: &str, file_ext: &str) -> (r: String)
        ensures
            r@ == zxy_path(root@, 0, 0, 0, file_ext@),
    {
        direct_path(root, 0, 0, 0, file_ext)
    }

    /// The file that holds tile `(z, x, y)`.
    pub fn pathish_for_tile_zxy(&self, z: u8, x: u32, y: u32) -> (r: Option<String>)
        ensures
            r is Some,
            r->Some_0@ == zxy_path(self.path@, z, x, y, self.file_ext@),
    {
        Some(direct_path(self.path.as_str(), z, x, y, self.file_ext.as_str()))
    }
}

} // verus!
