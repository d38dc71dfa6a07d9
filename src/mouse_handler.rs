use vstd::prelude::*;

use vstd::arithmetic::div_mod::lemma_fundamental_div_mod_converse;

verus! {

/// A mouse button.
#[derive(Clone, Copy, Debug, PartialEq, Eq, Structural)]
pub enum MouseButton {
    Left,
    Middle,
    Right,
}

/// How positions outside the buffer are reported.
#[derive(Clone, Copy, Debug, PartialEq, Eq, Structural)]
pub enum MouseMode {
    /// Reported as they are.
    Pass,
    /// Moved to the nearest pixel of the buffer.
    Clamp,
    /// Not reported.
    Discard,
}

/// `v` limited to `[lo, hi]`.
pub open spec fn clamp(v: int, lo: int, hi: int) -> int {
    if v < lo {
        lo
    } else if v > hi {
        hi
    } else {
        v
    }
}

/// Position in buffer pixels of the native position `(x, y)`, for an image
/// of `width` by `height` pixels drawn at `scale` from the native origin
/// `(ox, oy)`, filtered by `mode`.
pub open spec fn buffer_pos(
    mode: MouseMode,
    x: int,
    y: int,
    ox: int,
    oy: int,
    scale: int,
    width: int,
    height: int,
) -> Option<(int, int)> {
    let bx = (x - ox) / scale;
    let by = (y - oy) / scale;
    match mode {
        MouseMode::Pass => Some((bx, by)),
        MouseMode::Clamp => if width == 0 || height == 0 {
            None
        } else {
            Some((clamp(bx, 0, width - 1), clamp(by, 0, height - 1)))
        },
        MouseMode::Discard => if 0 <= bx < width && 0 <= by < height {
            Some((bx, by))
        } else {
            None
        },
    }
}

/// `v / s`, rounded down.
fn div_floor(v: i64, s: i64) -> (r: i64)
    requires
        s >= 1,
        -0x1_0000_0000 <= v <= 0x1_0000_0000,
    ensures
        r == v as int / s as int,
        v >= 0 ==> 0 <= r <= v,
        v < 0 ==> v <= r < 0,
{
    if v >= 0 {
        proof {
            assert(0 <= v / s <= v) by (nonlinear_arith)
                requires
                    v >= 0,
                    s >= 1,
            ;
        }
        v / s
    } else {
        let m = -v - 1;
        let q = m / s;
        proof {
            let rem = m % s;
            assert(m == q * s + rem && 0 <= rem < s) by (nonlinear_arith)
                requires
                    m >= 0,
                    s >= 1,
                    q == m / s,
                    rem == m % s,
            ;
            assert(v == (-q - 1) * s + (s - rem - 1)) by (nonlinear_arith)
                requires
                    m == q * s + rem,
                    m == -v - 1,
            ;
            lemma_fundamental_div_mod_converse(v as int, s as int, -q - 1, s - rem - 1);
            assert(0 <= q <= m) by (nonlinear_arith)
                requires
                    m >= 0,
                    s >= 1,
                    q == m / s,
            ;
        }
        -q - 1
    }
}

/// Maps the native position `(x, y)` to buffer pixels, for an image of
/// `width` by `height` pixels drawn at `scale` from the native origin
/// `(ox, oy)`, and filters it by `mode`.
pub fn get_pos(
    mode: MouseMode,
    x: i32,
    y: i32,
    ox: i32,
    oy: i32,
    scale: usize,
    width: usize,
    height: usize,
) -> (r: Option<(i64, i64)>)
    requires
        scale >= 1,
    ensures
        r matches Some(p) ==> buffer_pos(
            mode,
            x as int,
            y as int,
            ox as int,
            oy as int,
            scale as int,
            width as int,
            height as int,
        ) == Some((p.0 as int, p.1 as int)),
        r is None ==> buffer_pos(
            mode,
            x as int,
            y as int,
            ox as int,
            oy as int,
            scale as int,
            width as int,
            height as int,
        ) is None,
        r matches Some(p) ==> (mode == MouseMode::Clamp ==> 0 <= p.0 < width && 0 <= p.1 < height),
        mode == MouseMode::Clamp ==> (r is Some <==> width > 0 && height > 0),
        mode == MouseMode::Pass ==> r is Some,
{
    let s: i64 = if scale as u64 > 0x1_0000_0000u64 {
        0x1_0000_0000
    } else {
        scale as i64
    };
    let bx = div_floor(x as i64 - ox as i64, s);
    let by = div_floor(y as i64 - oy as i64, s);
    proof {
        if scale as u64 > 0x1_0000_0000u64 {
            let dx = x as int - ox as int;
            let dy = y as int - oy as int;
            assert(dx / (s as int) == dx / (scale as int)) by (nonlinear_arith)
                requires
                    -0x1_0000_0000 < dx < 0x1_0000_0000,
                    s as int >= 0x1_0000_0000,
                    scale as int >= 0x1_0000_0000,
            {
                if dx >= 0 {
                    assert(dx / (s as int) == 0);
                    assert(dx / (scale as int) == 0);
                } else {
                    assert(dx / (s as int) == -1);
                    assert(dx / (scale as int) == -1);
                }
            }
            assert(dy / (s as int) == dy / (scale as int)) by (nonlinear_arith)
                requires
                    -0x1_0000_0000 < dy < 0x1_0000_0000,
                    s as int >= 0x1_0000_0000,
                    scale as int >= 0x1_0000_0000,
            {
                if dy >= 0 {
                    assert(dy / (s as int) == 0);
                    assert(dy / (scale as int) == 0);
                } else {
                    assert(dy / (s as int) == -1);
                    assert(dy / (scale as int) == -1);
                }
            }
        }
    }
    match mode {
        MouseMode::Pass => Some((bx, by)),
        MouseMode::Clamp => {
            if width == 0 || height == 0 {
                return None;
            }
            Some((clamp_wide(bx, width), clamp_wide(by, height)))
        },
        MouseMode::Discard => {
            if bx < 0 || by < 0 || bx as u64 >= width as u64 || by as u64 >= height as u64 {
                None
            } else {
                Some((bx, by))
            }
        },
    }
}

/// `v` limited to the pixels `[0, len)`.
fn clamp_wide(v: i64, len: usize) -> (r: i64)
    requires
        len >= 1,
    ensures
        r == clamp(v as int, 0, len - 1),
{
    if v < 0 {
        0
    } else if v as u64 > (len - 1) as u64 {
        (len - 1) as i64
    } else {
        v
    }
}

/// With `MouseMode::Clamp` every position on a non-empty buffer is reported,
/// and as a pixel of the buffer.
pub proof fn law_clamp_in_bounds(x: int, y: int, ox: int, oy: int, scale: int, width: int, height: int)
    requires
        scale >= 1,
        width > 0,
        height > 0,
    ensures
        buffer_pos(MouseMode::Clamp, x, y, ox, oy, scale, width, height) matches Some(p) && 0
            <= p.0 < width && 0 <= p.1 < height,
{
}

} // verus!
