//! The tile grid that locates the probable subject of a photo: tile sizes,
//! which tile a pixel falls in, and which tile has the most edge energy.
use vstd::prelude::*;

verus! {

/// The number of tiles along each side of the grid.
pub const TILE_GRID: u32 = 8;

/// The power of two that is the spacing of single-precision values around `v`:
/// 1 below 2^24, doubling with each further bit of `v`.
pub open spec fn significand_unit(v: nat) -> nat
    decreases v,
{
    if v < 0x100_0000 {
        1
    } else {
        2 * significand_unit(v / 2)
    }
}

/// `v` rounded to the nearest single-precision value, ties to an even significand.
pub open spec fn round_to_single(v: nat) -> nat {
    let u = significand_unit(v);
    let q = v / u;
    let r = v % u;
    if 2 * r > u || (2 * r == u && q % 2 == 1) {
        (q + 1) * u
    } else {
        q * u
    }
}

/// The extent of one of [`TILE_GRID`] tiles that cover `len` pixels: `len`, taken as a
/// single-precision value, divided by the grid size and rounded up.
pub open spec fn tile_extent_of(len: nat) -> nat {
    ((round_to_single(len) + 7) / 8) as nat
}

proof fn lemma_unit_step(v: nat, u: nat)
    requires
        u >= 1,
        v / u >= 0x100_0000,
    ensures
        significand_unit(v / u) == 2 * significand_unit(v / (2 * u)),
        v / (2 * u) < v / u,
{
    vstd::arithmetic::div_mod::lemma_div_denominator(v as int, u as int, 2);
    assert(significand_unit(v / u) == 2 * significand_unit((v / u) / 2));
}

/// `v` rounded to the nearest single-precision value, ties to an even significand.
pub fn round_to_single_precision(v: u32) -> (res: u64)
    ensures
        res == round_to_single(v as nat),
        res <= 0x2_0000_0000,
{
    let value = v as u64;
    let mut unit: u64 = 1;
    while value / unit >= 0x100_0000
        invariant
            value == v,
            1 <= unit <= 0x200,
            significand_unit(v as nat) == unit * significand_unit((v as nat) / (unit as nat)),
        decreases value / unit,
    {
        proof {
            lemma_unit_step(v as nat, unit as nat);
            assert(unit <= 0x100) by (nonlinear_arith)
                requires
                    (v as nat) / (unit as nat) >= 0x100_0000,
                    v <= 0xffff_ffff,
                    unit >= 1,
            ;
            assert(unit * (2 * significand_unit((v as nat) / (2 * unit as nat))) == (2 * unit)
                * significand_unit((v as nat) / (2 * unit as nat))) by (nonlinear_arith);
        }
        unit = unit * 2;
    }
    let q = value / unit;
    let r = value % unit;
    proof {
        assert(significand_unit((v as nat) / (unit as nat)) == 1);
        let su = significand_unit((v as nat) / (unit as nat));
        assert(significand_unit(v as nat) == unit) by (nonlinear_arith)
            requires
                su == 1,
                significand_unit(v as nat) == unit * su,
        ;
        assert(q * unit <= value) by (nonlinear_arith)
            requires
                q == value / unit,
                unit >= 1,
        ;
        assert((q + 1) * unit <= 0x2_0000_0000) by (nonlinear_arith)
            requires
                q < 0x100_0000,
                unit <= 0x200,
        ;
    }
    if 2 * r > unit || (2 * r == unit && q % 2 == 1) {
        (q + 1) * unit
    } else {
        q * unit
    }
}

/// The spacing of single-precision values around `v` is a power of two, and `v` divided
/// by it has a 24-bit significand: below 2^24 the spacing is 1, above it the quotient
/// lies in `[2^23, 2^24)`.
pub proof fn lemma_significand_unit_shape(v: nat)
    ensures
        exists|k: nat| significand_unit(v) == #[trigger] vstd::arithmetic::power2::pow2(k),
        significand_unit(v) >= 1,
        v < 0x100_0000 ==> significand_unit(v) == 1,
        v / significand_unit(v) < 0x100_0000,
        v >= 0x100_0000 ==> v / significand_unit(v) >= 0x80_0000,
    decreases v,
{
    vstd::arithmetic::power2::lemma2_to64();
    if v < 0x100_0000 {
        assert(significand_unit(v) == vstd::arithmetic::power2::pow2(0));
    } else {
        let h = v / 2;
        lemma_significand_unit_shape(h);
        let u1 = significand_unit(h);
        let k = choose|k: nat| u1 == #[trigger] vstd::arithmetic::power2::pow2(k);
        vstd::arithmetic::power2::lemma_pow2_unfold(k + 1);
        assert(significand_unit(v) == vstd::arithmetic::power2::pow2(k + 1));
        vstd::arithmetic::div_mod::lemma_div_denominator(v as int, 2, u1 as int);
        assert(v / significand_unit(v) == h / u1);
        if h < 0x100_0000 {
            assert(u1 == 1);
        }
    }
}

/// Rounding to single precision gives the nearest multiple of the spacing around `v`, and
/// at an exact tie the multiple with an even significand.
pub proof fn lemma_round_to_single_nearest(v: nat)
    ensures
        round_to_single(v) % significand_unit(v) == 0,
        2 * (round_to_single(v) - v) <= significand_unit(v),
        2 * (v - round_to_single(v)) <= significand_unit(v),
        (2 * (round_to_single(v) - v) == significand_unit(v) || 2 * (v - round_to_single(v))
            == significand_unit(v)) ==> (round_to_single(v) / significand_unit(v)) % 2 == 0,
{
    lemma_significand_unit_shape(v);
    let u = significand_unit(v);
    let q = v / u;
    let r = v % u;
    vstd::arithmetic::div_mod::lemma_fundamental_div_mod(v as int, u as int);
    assert(q * u == u * q) by (nonlinear_arith);
    assert((q + 1) * u == u * q + u) by (nonlinear_arith);
    vstd::arithmetic::div_mod::lemma_mod_multiples_basic(q as int, u as int);
    vstd::arithmetic::div_mod::lemma_mod_multiples_basic((q + 1) as int, u as int);
    vstd::arithmetic::div_mod::lemma_div_by_multiple(q as int, u as int);
    vstd::arithmetic::div_mod::lemma_div_by_multiple((q + 1) as int, u as int);
}

/// A tile extent covers the image in [`TILE_GRID`] tiles with less than one tile's worth
/// to spare: `8 * extent >= len` (as a single-precision value) and `8 * (extent - 1) < len`.
pub proof fn lemma_tile_extent_covers(len: nat)
    ensures
        TILE_GRID * tile_extent_of(len) >= round_to_single(len),
        round_to_single(len) > 0 ==> TILE_GRID * (tile_extent_of(len) - 1) < round_to_single(len),
        round_to_single(len) == 0 ==> tile_extent_of(len) == 0,
{
    let r = round_to_single(len) as int;
    vstd::arithmetic::div_mod::lemma_fundamental_div_mod(r + 7, 8);
}

/// The extent of one of [`TILE_GRID`] tiles that cover `len` pixels.
pub fn tile_extent(len: u32) -> (res: u32)
    ensures
        res == tile_extent_of(len as nat),
{
    let rounded = round_to_single_precision(len);
    ((rounded + 7) / 8) as u32
}

/// The tile sizes of an image of `width` by `height` pixels, or `None` for an image
/// too small (narrower or lower than 3 pixels) to look for a subject in.
pub fn subject_tile_size(width: u32, height: u32) -> (res: Option<(u32, u32)>)
    ensures
        match res {
            Some((tile_w, tile_h)) => {
                &&& width >= 3 && height >= 3
                &&& tile_w == tile_extent_of(width as nat)
                &&& tile_h == tile_extent_of(height as nat)
            },
            None => width < 3 || height < 3,
        },
{
    if width < 3 || height < 3 {
        None
    } else {
        Some((tile_extent(width), tile_extent(height)))
    }
}

/// The tile index of a coordinate: `coord / extent`, the last tile taking in what lies
/// beyond the grid.
pub open spec fn tile_of(coord: int, extent: int) -> int {
    if coord / extent < TILE_GRID {
        coord / extent
    } else {
        TILE_GRID - 1
    }
}

/// `tile` is the grid position of `coord` along an axis of tiles of `extent` pixels: the
/// tile whose pixel span `[tile * extent, (tile + 1) * extent)` holds `coord`, the last
/// tile holding whatever lies beyond the grid.
pub open spec fn locates(coord: int, extent: int, tile: int) -> bool {
    &&& 0 <= tile < TILE_GRID
    &&& coord < TILE_GRID * extent ==> tile * extent <= coord < (tile + 1) * extent
    &&& coord >= TILE_GRID * extent ==> tile == TILE_GRID - 1
}

/// A coordinate falls in the tile whose span holds it: for a coordinate inside the grid,
/// `tile * extent <= coord < (tile + 1) * extent`, so a coordinate `k * extent` (`k < 8`)
/// lies in tile `k`; beyond the grid it falls in the last tile.
pub proof fn lemma_tile_of_locates(coord: int, extent: int)
    requires
        0 <= coord,
        0 < extent,
    ensures
        locates(coord, extent, tile_of(coord, extent)),
{
    let q = coord / extent;
    vstd::arithmetic::div_mod::lemma_fundamental_div_mod(coord, extent);
    assert(q * extent == extent * q) by (nonlinear_arith);
    assert((q + 1) * extent == extent * q + extent) by (nonlinear_arith);
    assert(0 <= q) by (nonlinear_arith)
        requires
            coord == extent * q + coord % extent,
            0 <= coord % extent < extent,
            0 <= coord,
    ;
    if coord < TILE_GRID * extent {
        assert(q < TILE_GRID) by (nonlinear_arith)
            requires
                coord == extent * q + coord % extent,
                0 <= coord % extent,
                coord < 8 * extent,
                0 < extent,
        ;
    } else {
        assert(q >= TILE_GRID) by (nonlinear_arith)
            requires
                coord == extent * q + coord % extent,
                coord % extent < extent,
                coord >= 8 * extent,
                0 < extent,
        ;
    }
}

/// The index, row by row, of the tile that holds the pixel in column `x` of row `y`.
pub fn tile_index(x: u32, y: u32, tile_w: u32, tile_h: u32) -> (res: usize)
    requires
        tile_w > 0,
        tile_h > 0,
    ensures
        res == tile_of(y as int, tile_h as int) * TILE_GRID + tile_of(x as int, tile_w as int),
        res < TILE_GRID * TILE_GRID,
        locates(x as int, tile_w as int, (res as int) % (TILE_GRID as int)),
        locates(y as int, tile_h as int, (res as int) / (TILE_GRID as int)),
{
    let column = if x / tile_w < TILE_GRID {
        x / tile_w
    } else {
        TILE_GRID - 1
    };
    let row = if y / tile_h < TILE_GRID {
        y / tile_h
    } else {
        TILE_GRID - 1
    };
    proof {
        lemma_tile_of_locates(x as int, tile_w as int);
        lemma_tile_of_locates(y as int, tile_h as int);
        vstd::arithmetic::div_mod::lemma_fundamental_div_mod_converse(
            (row * TILE_GRID + column) as int,
            TILE_GRID as int,
            row as int,
            column as int,
        );
    }
    (row * TILE_GRID + column) as usize
}

/// The tile with the most edge energy, given the energies' total-order keys (see
/// [`crate::order::total_order_key`]) tile by tile: the last of the largest, as its index
/// and its column and row in the grid.
pub fn strongest_tile(energy_keys: &Vec<i64>) -> (res: (usize, u32, u32))
    requires
        energy_keys@.len() == TILE_GRID * TILE_GRID,
    ensures
        crate::order::is_last_max(energy_keys@, res.0 as int),
        res.1 == (res.0 as int) % (TILE_GRID as int),
        res.2 == (res.0 as int) / (TILE_GRID as int),
        res.1 < TILE_GRID,
        res.0 == res.2 * TILE_GRID + res.1,
{
    match crate::order::last_max_index(energy_keys) {
        Some(index) => {
            let i = index as u32;
            (index, i % TILE_GRID, i / TILE_GRID)
        },
        None => (0, 0, 0),
    }
}

} // verus!
