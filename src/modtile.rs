//! The metatile convention: tiles bundled by 8x8 blocks into `.meta` files
//! under a five-level directory tree.
use vstd::prelude::*;

use crate::segments::{dec, dec_string, join, push_component, stem_with_ext, with_ext};
use crate::TileError;

verus! {

/// A store of metatiles under the directory `path`.
#[derive(Debug)]
pub struct ModTileStore {
    pub path: String,
}

/// The `k`-th interleave of `x` and `y`, counted from the low bits: four bits
/// of `x` above four bits of `y`.
pub open spec fn mt_seg(x: nat, y: nat, k: nat) -> nat
    decreases k,
{
    if k == 0 {
        (x % 16) * 16 + y % 16
    } else {
        mt_seg(x / 16, y / 16, (k - 1) as nat)
    }
}

/// The five directory components for `(x, y)`, the highest interleave first.
pub open spec fn mt_parts(x: u32, y: u32) -> Seq<Seq<char>> {
    seq![
        dec(mt_seg(x as nat, y as nat, 4)),
        dec(mt_seg(x as nat, y as nat, 3)),
        dec(mt_seg(x as nat, y as nat, 2)),
        dec(mt_seg(x as nat, y as nat, 1)),
        dec(mt_seg(x as nat, y as nat, 0)),
    ]
}

/// `v` rounded down to a multiple of eight.
pub open spec fn block(v: u32) -> nat {
    (v - v % 8) as nat
}

/// Where the metatile holding tile `(z, x, y)` lies under `root`.
pub open spec fn modtile_path(root: Seq<char>, z: u8, x: u32, y: u32) -> Seq<char> {
    let p = mt_parts((x - x % 8) as u32, (y - y % 8) as u32);
    join(
        join(join(join(join(join(root, dec(z as nat)), p[0]), p[1]), p[2]), p[3]),
        with_ext(p[4], seq!['m', 'e', 't', 'a']),
    )
}

proof fn lemma_block(v: u32)
    ensures
        v & !0b111u32 == v - v % 8,
        (v & !0b111u32) as nat == block(v),
{
    assert(v & !0b111u32 == v - v % 8) by (bit_vector);
}

proof fn lemma_mt_round(x: u32, y: u32)
    ensures
        (((x & 0xf) << 4u32) | (y & 0xf)) as nat == (x as nat % 16) * 16 + y as nat % 16,
        (((x & 0xf) << 4u32) | (y & 0xf)) < 256,
        (x >> 4u32) as nat == x as nat / 16,
        (y >> 4u32) as nat == y as nat / 16,
{
    assert((((x & 0xf) << 4u32) | (y & 0xf)) == (x % 16) * 16 + y % 16) by (bit_vector);
    assert((((x & 0xf) << 4u32) | (y & 0xf)) < 256) by (bit_vector);
    assert(x >> 4u32 == x / 16) by (bit_vector);
    assert(y >> 4u32 == y / 16) by (bit_vector);
}

/// The directory parts of the metatile tree for `(x, y)`, the highest
/// interleave first; the last one is the file's stem.
pub fn xy_to_mt(x: u32, y: u32) -> (r: [String; 5])
    ensures
        r@.len() == 5,
        forall|i: int| 0 <= i < 5 ==> #[trigger] r@[i]@ == mt_parts(x, y)[i],
        forall|k: nat| k < 5 ==> #[trigger] mt_seg(x as nat, y as nat, k) < 256,
{
    let mut x = x;
    let mut y = y;
    let ghost x0 = x as nat;
    let ghost y0 = y as nat;

    proof { lemma_mt_round(x, y); }
    let e = (((x & 0x0f) << 4) | (y & 0x0f)) as u8;
    x >>= 4;
    y >>= 4;

    proof { lemma_mt_round(x, y); }
    let d = (((x & 0x0f) << 4) | (y & 0x0f)) as u8;
    x >>= 4;
    y >>= 4;

    proof { lemma_mt_round(x, y); }
    let c = (((x & 0x0f) << 4) | (y & 0x0f)) as u8;
    x >>= 4;
    y >>= 4;

    proof { lemma_mt_round(x, y); }
    let b = (((x & 0x0f) << 4) | (y & 0x0f)) as u8;
    x >>= 4;
    y >>= 4;

    proof { lemma_mt_round(x, y); }
    let a = (((x & 0x0f) << 4) | (y & 0x0f)) as u8;

    proof {
        assert(mt_seg(x0, y0, 0) == e);
        assert(mt_seg(x0, y0, 1) == d) by {
            assert(mt_seg(x0, y0, 1) == mt_seg(x0 / 16, y0 / 16, 0));
        }
        assert(mt_seg(x0, y0, 2) == c) by {
            assert(mt_seg(x0, y0, 2) == mt_seg(x0 / 16, y0 / 16, 1));
            assert(mt_seg(x0 / 16, y0 / 16, 1) == mt_seg(x0 / 16 / 16, y0 / 16 / 16, 0));
        }
        assert(mt_seg(x0, y0, 3) == b) by {
            assert(mt_seg(x0, y0, 3) == mt_seg(x0 / 16, y0 / 16, 2));
            assert(mt_seg(x0 / 16, y0 / 16, 2) == mt_seg(x0 / 16 / 16, y0 / 16 / 16, 1));
            assert(mt_seg(x0 / 16 / 16, y0 / 16 / 16, 1) == mt_seg(
                x0 / 16 / 16 / 16,
                y0 / 16 / 16 / 16,
                0,
            ));
        }
        assert(mt_seg(x0, y0, 4) == a) by {
            assert(mt_seg(x0, y0, 4) == mt_seg(x0 / 16, y0 / 16, 3));
            assert(mt_seg(x0 / 16, y0 / 16, 3) == mt_seg(x0 / 16 / 16, y0 / 16 / 16, 2));
            assert(mt_seg(x0 / 16 / 16, y0 / 16 / 16, 2) == mt_seg(
                x0 / 16 / 16 / 16,
                y0 / 16 / 16 / 16,
                1,
            ));
            assert(mt_seg(x0 / 16 / 16 / 16, y0 / 16 / 16 / 16, 1) == mt_seg(
                x0 / 16 / 16 / 16 / 16,
                y0 / 16 / 16 / 16 / 16,
                0,
            ));
        }
        assert forall|k: nat| k < 5 implies #[trigger] mt_seg(x0, y0, k) < 256 by {
            if k == 0 {
            } else if k == 1 {
            } else if k == 2 {
            } else if k == 3 {
            } else {
            }
        }
    }
    let r = [
        dec_string(a as u32),
        dec_string(b as u32),
        dec_string(c as u32),
        dec_string(d as u32),
        dec_string(e as u32),
    ];
    r
}

/// Pushes the metatile file of tile `(z, x, y)` onto `root`.
fn metatile_path(root: &str, z: u8, x: u32, y: u32) -> (r: String)
    ensures
        r@ == modtile_path(root@, z, x, y),
{
    let bx = x & !0b111u32;
    let by = y & !0b111u32;
    proof {
        lemma_block(x);
        lemma_block(y);
    }
    let mt = xy_to_mt(bx, by);
    let mut p = String::from_str(root);
    push_component(&mut p, dec_string(z as u32).as_str());
    push_component(&mut p, mt[0].as_str());
    push_component(&mut p, mt[1].as_str());
    push_component(&mut p, mt[2].as_str());
    push_component(&mut p, mt[3].as_str());
    proof {
        reveal_strlit("meta");
    }
    let stem = stem_with_ext(mt[4].as_str(), "meta");
    assert("meta"@ =~= seq!['m', 'e', 't', 'a']);
    push_component(&mut p, stem.as_str());
    p
}

/// The four little-endian bytes of `b` from `i` on, as a number.
pub open spec fn le_u32(b: Seq<u8>, i: int) -> nat {
    b[i] as nat + b[i + 1] as nat * 0x100 + b[i + 2] as nat * 0x1_0000 + b[i + 3] as nat
        * 0x100_0000
}

/// The side of the square of tiles that a metatile with `count` tiles holds,
/// or `None` for a count that is not supported.
pub open spec fn side_of(count: nat) -> Option<nat> {
    if count == 0 {
        Some(0)
    } else if count == 1 {
        Some(1)
    } else if count == 4 {
        Some(2)
    } else if count == 16 {
        Some(4)
    } else if count == 64 {
        Some(8)
    } else {
        None
    }
}

/// Byte offset of the header field that follows the magic: the tile count.
pub const COUNT_AT: usize = 4;
/// Byte length of the header: magic, count, x, y and zoom.
pub const HEADER_LEN: usize = 20;

/// What a metatile container `b` gives for tile `(z, x, y)`: the tile's
/// bytes, `None` for a container of another block or a tile it does not hold,
/// or the format error.
pub open spec fn metatile_lookup(b: Seq<u8>, z: u8, x: u32, y: u32) -> Result<
    Option<Seq<u8>>,
    TileError,
> {
    if b.len() < 8 {
        Err(TileError::Truncated)
    } else if side_of(le_u32(b, 4)) is None {
        Err(TileError::BadCount(le_u32(b, 4) as u32))
    } else if b.len() < 20 {
        Err(TileError::Truncated)
    } else if le_u32(b, 16) % 256 != z as nat || le_u32(b, 8) != block(x) || le_u32(b, 12)
        != block(y) {
        Ok(None)
    } else {
        let count = le_u32(b, 4);
        let index = (x as nat % 8) * side_of(count)->Some_0 + y as nat % 8;
        let at = (20 + index * 8) as int;
        if index > count {
            Ok(None)
        } else if b.len() < at + 8 {
            Err(TileError::Truncated)
        } else if le_u32(b, at + 4) == 0 {
            Ok(None)
        } else if b.len() < le_u32(b, at) + le_u32(b, at + 4) {
            Err(TileError::Truncated)
        } else {
            Ok(Some(b.subrange(le_u32(b, at) as int, (le_u32(b, at) + le_u32(b, at + 4)) as int)))
        }
    }
}

/// The value of a read result, with the bytes as a sequence.
pub open spec fn bytes_result(r: Result<Option<Vec<u8>>, TileError>) -> Result<
    Option<Seq<u8>>,
    TileError,
> {
    match r {
        Ok(Some(v)) => Ok(Some(v@)),
        Ok(None) => Ok(None),
        Err(e) => Err(e),
    }
}

/// Relies on byteorder's `LittleEndian::read_u32`: the first four bytes of
/// its argument, least significant first.
#[verifier::external_body]
fn read_le_u32(b: &[u8], i: usize) -> (r: u32)
    requires
        i + 4 <= b@.len(),
    ensures
        r as nat == le_u32(b@, i as int),
{
    <byteorder::LittleEndian as byteorder::ByteOrder>::read_u32(&b[i..])
}

/// Extracts tile `(z, x, y)` from the bytes of a metatile container.
pub fn read_tile(input: &[u8], z: u8, x: u32, y: u32) -> (r: Result<Option<Vec<u8>>, TileError>)
    ensures
        bytes_result(r) == metatile_lookup(input@, z, x, y),
{
    let b = input;
    if b.len() < 8 {
        return Err(TileError::Truncated);
    }
    let count = read_le_u32(b, COUNT_AT);
    let size: u32 = if count == 0 {
        0
    } else if count == 1 {
        1
    } else if count == 4 {
        2
    } else if count == 16 {
        4
    } else if count == 64 {
        8
    } else {
        return Err(TileError::BadCount(count));
    };
    if b.len() < HEADER_LEN {
        return Err(TileError::Truncated);
    }
    let this_x = read_le_u32(b, 8);
    let this_y = read_le_u32(b, 12);
    let raw_z = read_le_u32(b, 16);
    let this_z = #[verifier::truncate] (raw_z as u8);
    assert(this_z == raw_z % 256) by (bit_vector)
        requires
            this_z == #[verifier::truncate] (raw_z as u8),
    ;
    let bx = x & !0b111u32;
    let by = y & !0b111u32;
    proof {
        lemma_block(x);
        lemma_block(y);
    }
    if this_z != z || bx != this_x || by != this_y {
        return Ok(None);
    }
    let index = (x % 8) * size + y % 8;
    if index > count {
        return Ok(None);
    }
    let at = HEADER_LEN + index as usize * 8;
    if b.len() < at + 8 {
        return Err(TileError::Truncated);
    }
    let offset = read_le_u32(b, at);
    let length = read_le_u32(b, at + 4);
    if length == 0 {
        return Ok(None);
    }
    if (b.len() as u64) < offset as u64 + length as u64 {
        return Err(TileError::Truncated);
    }
    let start = offset as usize;
    let end = start + length as usize;
    let mut data: Vec<u8> = Vec::new();
    let mut i: usize = start;
    while i < end
        invariant
            start <= i <= end <= b@.len(),
            data@ == b@.subrange(start as int, i as int),
        decreases end - i,
    {
        data.push(b[i]);
        i = i + 1;
        assert(data@ =~= b@.subrange(start as int, i as int));
    }
    Ok(Some(data))
}

impl ModTileStore {
    /// A store over the directory `path`.
    pub fn new(path: String) -> (r: ModTileStore)
        ensures
            r.path@ == path@,
    {
        ModTileStore { path }
    }

    /// The path whose existence marks a directory as a metatile store: the
    /// file of tile `(0, 0, 0)`.
    pub fn marker_path(root: &str) -> (r: String)
        ensures
            r@ == modtile_path(root@, 0, 0, 0),
    {
        metatile_path(root, 0, 0, 0)
    }

    /// The metatile file that holds tile `(z, x, y)`.
    pub fn pathish_for_tile_zxy(&self, z: u8, x: u32, y: u32) -> (r: Option<String>)
        ensures
            r is Some,
            r->Some_0@ == modtile_path(self.path@, z, x, y),
    {
        Some(metatile_path(self.path.as_str(), z, x, y))
    }

    /// Writing into a metatile is not supported.
    pub fn set_tile_zxy(&self, z: u8, x: u32, y: u32, content: &[u8]) -> (r: Result<(), TileError>)
        ensures
            r == Err::<(), TileError>(TileError::Unsupported),
    {
        Err(TileError::Unsupported)
    }
}

} // verus!
