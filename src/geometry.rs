use vstd::prelude::*;
use vstd::arithmetic::div_mod::{lemma_fundamental_div_mod_converse, lemma_mod_multiples_vanish};

verus! {

/// Fine fixed-point units in one whole coordinate unit (2 to the 30th).
pub const FINE_UNITS: i64 = 1073741824;

/// Grid cells in one whole coordinate unit: coordinates snap to multiples of 1/256.
pub const GRID_UNITS: i64 = 256;

/// Fine fixed-point units in one grid cell (2 to the 22nd).
pub const FINE_PER_GRID: i64 = 4194304;

/// `a / b` rounded to the nearest integer, halves rounded away from zero.
pub open spec fn round_div(a: int, b: int) -> int
    recommends
        b > 0,
{
    if a >= 0 {
        (a + b / 2) / b
    } else {
        -((-a + b / 2) / b)
    }
}

/// A direction in degrees brought into `[0, 360)` (`%` on `int` is the Euclidean remainder).
pub open spec fn normalize(direction: int) -> int {
    direction % 360
}

/// Snaps a value held in fine units to the grid; the result counts grid cells.
pub open spec fn quantize_fine(v: int) -> int {
    round_div(v, FINE_PER_GRID as int)
}

/// Rounds a value held in grid cells to the nearest whole coordinate.
pub open spec fn whole(grid: int) -> int {
    round_div(grid, GRID_UNITS as int)
}

/// The sine of `a` degrees, for `a` in `[0, 90]`, in fine units, rounded to the nearest unit.
pub open spec fn sine_table(a: u8) -> int {
    match a {
        0 => 0,
        1 => 18739379,
        2 => 37473049,
        3 => 56195305,
        4 => 74900443,
        5 => 93582766,
        6 => 112236583,
        7 => 130856211,
        8 => 149435979,
        9 => 167970228,
        10 => 186453311,
        11 => 204879599,
        12 => 223243478,
        13 => 241539355,
        14 => 259761657,
        15 => 277904834,
        16 => 295963357,
        17 => 313931728,
        18 => 331804471,
        19 => 349576144,
        20 => 367241333,
        21 => 384794656,
        22 => 402230767,
        23 => 419544355,
        24 => 436730145,
        25 => 453782903,
        26 => 470697435,
        27 => 487468587,
        28 => 504091252,
        29 => 520560366,
        30 => 536870912,
        31 => 553017922,
        32 => 568996477,
        33 => 584801711,
        34 => 600428808,
        35 => 615873009,
        36 => 631129609,
        37 => 646193961,
        38 => 661061475,
        39 => 675727625,
        40 => 690187940,
        41 => 704438018,
        42 => 718473518,
        43 => 732290163,
        44 => 745883746,
        45 => 759250125,
        46 => 772385229,
        47 => 785285058,
        48 => 797945680,
        49 => 810363241,
        50 => 822533958,
        51 => 834454122,
        52 => 846120104,
        53 => 857528349,
        54 => 868675383,
        55 => 879557810,
        56 => 890172315,
        57 => 900515665,
        58 => 910584710,
        59 => 920376381,
        60 => 929887697,
        61 => 939115760,
        62 => 948057759,
        63 => 956710970,
        64 => 965072759,
        65 => 973140576,
        66 => 980911966,
        67 => 988384560,
        68 => 995556083,
        69 => 1002424350,
        70 => 1008987269,
        71 => 1015242840,
        72 => 1021189159,
        73 => 1026824413,
        74 => 1032146887,
        75 => 1037154959,
        76 => 1041847103,
        77 => 1046221891,
        78 => 1050277989,
        79 => 1054014162,
        80 => 1057429273,
        81 => 1060522280,
        82 => 1063292242,
        83 => 1065738315,
        84 => 1067859754,
        85 => 1069655912,
        86 => 1071126243,
        87 => 1072270298,
        88 => 1073087729,
        89 => 1073578288,
        90 => 1073741824,
        _ => 0,
    }
}

/// The sine of a normalized direction `n` (in `[0, 360)`), in fine units.
pub open spec fn sin_fixed(n: int) -> int {
    if n <= 90 {
        sine_table(n as u8)
    } else if n <= 180 {
        sine_table((180 - n) as u8)
    } else if n <= 270 {
        -sine_table((n - 180) as u8)
    } else {
        -sine_table((360 - n) as u8)
    }
}

/// The cosine of a normalized direction `n` (in `[0, 360)`), in fine units.
pub open spec fn cos_fixed(n: int) -> int {
    sin_fixed((n + 90) % 360)
}

/// The end of a line from whole point `(x, y)`, in grid cells.
///
/// Directions are compass degrees: 0 points up (towards smaller `y`) and angles grow
/// clockwise, so the step is `(length * sin, -length * cos)` of the normalized direction.
pub open spec fn end_grid(x: int, y: int, direction: int, length: int) -> (int, int) {
    let n = normalize(direction);
    (
        quantize_fine(x * FINE_UNITS + length * sin_fixed(n)),
        quantize_fine(y * FINE_UNITS - length * cos_fixed(n)),
    )
}

/// The end of a line from whole point `(x, y)`, rounded to whole coordinates.
pub open spec fn end_point(x: int, y: int, direction: int, length: int) -> (int, int) {
    let g = end_grid(x, y, direction, length);
    (whole(g.0), whole(g.1))
}

pub open spec fn fits_i32(v: int) -> bool {
    i32::MIN <= v <= i32::MAX
}

/// Whether both whole coordinates of the end point fit in an `i32`.
pub open spec fn end_fits(x: int, y: int, direction: int, length: int) -> bool {
    let p = end_point(x, y, direction, length);
    fits_i32(p.0) && fits_i32(p.1)
}

/// The tabulated sine of `a` degrees, `a` in `[0, 90]`.
fn sine_entry(a: i32) -> (r: i64)
    requires
        0 <= a <= 90,
    ensures
        r == sine_table(a as u8),
        0 <= r <= FINE_UNITS,
{
    match a {
        0 => 0,
        1 => 18739379,
        2 => 37473049,
        3 => 56195305,
        4 => 74900443,
        5 => 93582766,
        6 => 112236583,
        7 => 130856211,
        8 => 149435979,
        9 => 167970228,
        10 => 186453311,
        11 => 204879599,
        12 => 223243478,
        13 => 241539355,
        14 => 259761657,
        15 => 277904834,
        16 => 295963357,
        17 => 313931728,
        18 => 331804471,
        19 => 349576144,
        20 => 367241333,
        21 => 384794656,
        22 => 402230767,
        23 => 419544355,
        24 => 436730145,
        25 => 453782903,
        26 => 470697435,
        27 => 487468587,
        28 => 504091252,
        29 => 520560366,
        30 => 536870912,
        31 => 553017922,
        32 => 568996477,
        33 => 584801711,
        34 => 600428808,
        35 => 615873009,
        36 => 631129609,
        37 => 646193961,
        38 => 661061475,
        39 => 675727625,
        40 => 690187940,
        41 => 704438018,
        42 => 718473518,
        43 => 732290163,
        44 => 745883746,
        45 => 759250125,
        46 => 772385229,
        47 => 785285058,
        48 => 797945680,
        49 => 810363241,
        50 => 822533958,
        51 => 834454122,
        52 => 846120104,
        53 => 857528349,
        54 => 868675383,
        55 => 879557810,
        56 => 890172315,
        57 => 900515665,
        58 => 910584710,
        59 => 920376381,
        60 => 929887697,
        61 => 939115760,
        62 => 948057759,
        63 => 956710970,
        64 => 965072759,
        65 => 973140576,
        66 => 980911966,
        67 => 988384560,
        68 => 995556083,
        69 => 1002424350,
        70 => 1008987269,
        71 => 1015242840,
        72 => 1021189159,
        73 => 1026824413,
        74 => 1032146887,
        75 => 1037154959,
        76 => 1041847103,
        77 => 1046221891,
        78 => 1050277989,
        79 => 1054014162,
        80 => 1057429273,
        81 => 1060522280,
        82 => 1063292242,
        83 => 1065738315,
        84 => 1067859754,
        85 => 1069655912,
        86 => 1071126243,
        87 => 1072270298,
        88 => 1073087729,
        89 => 1073578288,
        90 => 1073741824,
        _ => 0,
    }
}

/// The sine of a normalized direction, in fine units.
fn sin_of(n: i32) -> (r: i64)
    requires
        0 <= n < 360,
    ensures
        r == sin_fixed(n as int),
        -FINE_UNITS <= r <= FINE_UNITS,
{
    if n <= 90 {
        sine_entry(n)
    } else if n <= 180 {
        sine_entry(180 - n)
    } else if n <= 270 {
        -sine_entry(n - 180)
    } else {
        -sine_entry(360 - n)
    }
}

/// The cosine of a normalized direction, in fine units.
fn cos_of(n: i32) -> (r: i64)
    requires
        0 <= n < 360,
    ensures
        r == cos_fixed(n as int),
        -FINE_UNITS <= r <= FINE_UNITS,
{
    sin_of((n + 90) % 360)
}

/// Normalizes a direction in degrees to `[0, 360)`, with the Euclidean remainder
/// (so -90 becomes 270).
pub fn normalize_direction(direction: i32) -> (r: i32)
    ensures
        r == normalize(direction as int),
        0 <= r < 360,
{
    if direction >= 0 {
        direction % 360
    } else {
        let m: i64 = (-(direction as i64)) % 360;
        proof {
            let d = direction as int;
            let k = (-d) / 360;
            assert(-d == 360 * k + m);
            if m == 0 {
                lemma_fundamental_div_mod_converse(d, 360, -k, 0);
            } else {
                lemma_fundamental_div_mod_converse(d, 360, -k - 1, 360 - m);
            }
        }
        if m == 0 {
            0
        } else {
            (360 - m) as i32
        }
    }
}

/// Snaps a value held in fine units (2 to the -30th of a coordinate unit) to the
/// nearest multiple of 1/256, halves away from zero. The result counts grid cells.
pub fn quantize(v: i64) -> (r: i64)
    ensures
        r == quantize_fine(v as int),
{
    let half: i64 = FINE_PER_GRID / 2;
    if v >= 0 {
        let w: i128 = v as i128 + half as i128;
        (w / FINE_PER_GRID as i128) as i64
    } else {
        let w: i128 = -(v as i128) + half as i128;
        -((w / FINE_PER_GRID as i128) as i64)
    }
}

/// Rounds a value held in grid cells to the nearest whole coordinate, halves away
/// from zero.
pub(crate) fn to_whole(g: i64) -> (r: i64)
    requires
        -0x4000_0000_0000_0000 <= g <= 0x4000_0000_0000_0000,
    ensures
        r == whole(g as int),
{
    let half: i64 = GRID_UNITS / 2;
    if g >= 0 {
        (g + half) / GRID_UNITS
    } else {
        -((-g + half) / GRID_UNITS)
    }
}

/// Where a line from whole point `(x, y)` with the given compass direction and length
/// ends, in grid cells (multiples of 1/256).
pub fn get_end_coordinates_precise(x: i32, y: i32, direction: i32, length: i32) -> (r: (i64, i64))
    ensures
        (r.0 as int, r.1 as int) == end_grid(x as int, y as int, direction as int, length as int),
        -0x200_0000_0000 <= r.0 <= 0x200_0000_0000,
        -0x200_0000_0000 <= r.1 <= 0x200_0000_0000,
{
    let n = normalize_direction(direction);
    let s = sin_of(n);
    let c = cos_of(n);
    let len = length as i64;
    proof {
        let l = len as int;
        assert(-0x8000_0000 * FINE_UNITS <= l * s <= 0x8000_0000 * FINE_UNITS) by (nonlinear_arith)
            requires
                -0x8000_0000 <= l <= 0x8000_0000,
                -FINE_UNITS <= s <= FINE_UNITS;
        assert(-0x8000_0000 * FINE_UNITS <= l * c <= 0x8000_0000 * FINE_UNITS) by (nonlinear_arith)
            requires
                -0x8000_0000 <= l <= 0x8000_0000,
                -FINE_UNITS <= c <= FINE_UNITS;
    }
    let fx: i64 = (x as i64) * FINE_UNITS + len * s;
    let fy: i64 = (y as i64) * FINE_UNITS - len * c;
    (quantize(fx), quantize(fy))
}

/// Where a line from `(x, y)` with the given compass direction and length ends,
/// rounded to whole coordinates. A function of its arguments alone.
pub fn get_end_coordinates(x: i32, y: i32, direction: i32, length: i32) -> (r: (i32, i32))
    requires
        end_fits(x as int, y as int, direction as int, length as int),
    ensures
        (r.0 as int, r.1 as int) == end_point(x as int, y as int, direction as int, length as int),
{
    let (gx, gy) = get_end_coordinates_precise(x, y, direction, length);
    let ex = to_whole(gx);
    let ey = to_whole(gy);
    (ex as i32, ey as i32)
}

/// Rounding an exact multiple of `b` gives back the multiple.
proof fn lemma_round_div_exact(q: int, b: int)
    requires
        b > 1,
    ensures
        round_div(q * b, b) == q,
{
    assert(0 <= b / 2 < b);
    if q >= 0 {
        assert(q * b >= 0) by (nonlinear_arith)
            requires
                q >= 0,
                b > 1;
        lemma_fundamental_div_mod_converse(q * b + b / 2, b, q, b / 2);
    } else {
        assert(q * b < 0) by (nonlinear_arith)
            requires
                q < 0,
                b > 1;
        assert(-(q * b) == (-q) * b) by (nonlinear_arith);
        lemma_fundamental_div_mod_converse((-q) * b + b / 2, b, -q, b / 2);
    }
}

/// Normalization lands in `[0, 360)` and ignores whole turns: `d` and `d + 360 * k`
/// normalize alike, and so give the same end point.
pub proof fn lemma_normalize_periodic(d: int, k: int, x: int, y: int, length: int)
    ensures
        0 <= normalize(d) < 360,
        normalize(d) == normalize(d + 360 * k),
        end_point(x, y, d + 360 * k, length) == end_point(x, y, d, length),
{
    lemma_mod_multiples_vanish(k, d, 360);
    assert(360 * k + d == d + 360 * k);
}

/// Quantizing is idempotent: a value already snapped to the grid, written back in
/// fine units, snaps to itself. Rounding grid cells to whole coordinates is
/// idempotent in the same way.
pub proof fn lemma_quantize_idempotent(v: int)
    ensures
        quantize_fine(quantize_fine(v) * FINE_PER_GRID) == quantize_fine(v),
        whole(whole(v) * GRID_UNITS) == whole(v),
{
    lemma_round_div_exact(quantize_fine(v), FINE_PER_GRID as int);
    lemma_round_div_exact(whole(v), GRID_UNITS as int);
}

/// A whole point written in fine units is on the grid: it quantizes to exactly
/// 256 cells per unit.
proof fn lemma_whole_on_grid(x: int)
    ensures
        quantize_fine(x * FINE_UNITS) == x * GRID_UNITS,
        whole(x * GRID_UNITS) == x,
{
    assert(x * FINE_UNITS == (x * GRID_UNITS) * FINE_PER_GRID) by (nonlinear_arith);
    lemma_round_div_exact(x * GRID_UNITS, FINE_PER_GRID as int);
    lemma_round_div_exact(x, GRID_UNITS as int);
}

/// The four compass points are exact: 0 goes up (`y - length`), 90 right, 180 down
/// and 270 left, in grid cells and in whole coordinates.
pub proof fn lemma_compass_points(x: int, y: int, length: int)
    ensures
        end_grid(x, y, 0, length) == (x * GRID_UNITS, (y - length) * GRID_UNITS),
        end_grid(x, y, 90, length) == ((x + length) * GRID_UNITS, y * GRID_UNITS),
        end_grid(x, y, 180, length) == (x * GRID_UNITS, (y + length) * GRID_UNITS),
        end_grid(x, y, 270, length) == ((x - length) * GRID_UNITS, y * GRID_UNITS),
        end_point(x, y, 0, length) == (x, y - length),
        end_point(x, y, 90, length) == (x + length, y),
        end_point(x, y, 180, length) == (x, y + length),
        end_point(x, y, 270, length) == (x - length, y),
{
    assert(sin_fixed(0) == 0);
    assert(cos_fixed(0) == FINE_UNITS);
    assert(sin_fixed(90) == FINE_UNITS);
    assert(cos_fixed(90) == 0);
    assert(sin_fixed(180) == 0);
    assert(cos_fixed(180) == -FINE_UNITS);
    assert(sin_fixed(270) == -FINE_UNITS);
    assert(cos_fixed(270) == 0);
    assert(y * FINE_UNITS - length * FINE_UNITS == (y - length) * FINE_UNITS) by (nonlinear_arith);
    assert(x * FINE_UNITS + length * FINE_UNITS == (x + length) * FINE_UNITS) by (nonlinear_arith);
    assert(y * FINE_UNITS + length * FINE_UNITS == (y + length) * FINE_UNITS) by (nonlinear_arith);
    assert(x * FINE_UNITS - length * FINE_UNITS == (x - length) * FINE_UNITS) by (nonlinear_arith);
    lemma_whole_on_grid(x);
    lemma_whole_on_grid(y);
    lemma_whole_on_grid(x + length);
    lemma_whole_on_grid(y + length);
    lemma_whole_on_grid(x - length);
    lemma_whole_on_grid(y - length);
}

/// Lines chained head to tail (each end point the next start) never drift off the
/// grid: every start and end point quantizes to itself, so re-snapping it moves it by
/// nothing.
pub proof fn lemma_chain_on_grid(
    x: int,
    y: int,
    d1: int,
    l1: int,
    d2: int,
    l2: int,
    d3: int,
    l3: int,
)
    ensures
        ({
            let p1 = end_point(x, y, d1, l1);
            let p2 = end_point(p1.0, p1.1, d2, l2);
            let p3 = end_point(p2.0, p2.1, d3, l3);
            &&& quantize_fine(x * FINE_UNITS) == x * GRID_UNITS
            &&& quantize_fine(y * FINE_UNITS) == y * GRID_UNITS
            &&& quantize_fine(p1.0 * FINE_UNITS) == p1.0 * GRID_UNITS
            &&& quantize_fine(p1.1 * FINE_UNITS) == p1.1 * GRID_UNITS
            &&& quantize_fine(p2.0 * FINE_UNITS) == p2.0 * GRID_UNITS
            &&& quantize_fine(p2.1 * FINE_UNITS) == p2.1 * GRID_UNITS
            &&& quantize_fine(p3.0 * FINE_UNITS) == p3.0 * GRID_UNITS
            &&& quantize_fine(p3.1 * FINE_UNITS) == p3.1 * GRID_UNITS
        }),
{
    let p1 = end_point(x, y, d1, l1);
    let p2 = end_point(p1.0, p1.1, d2, l2);
    let p3 = end_point(p2.0, p2.1, d3, l3);
    lemma_whole_on_grid(x);
    lemma_whole_on_grid(y);
    lemma_whole_on_grid(p1.0);
    lemma_whole_on_grid(p1.1);
    lemma_whole_on_grid(p2.0);
    lemma_whole_on_grid(p2.1);
    lemma_whole_on_grid(p3.0);
    lemma_whole_on_grid(p3.1);
}

} // verus!
