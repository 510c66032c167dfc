//! Icon drawing primitives: pure pixel-level functions.
//!
//! Each function takes pixel coordinates and returns an ARGB colour. The
//! shapes are laid out on a 32-pixel grid and scaled by `size / 32`; a
//! scaled length is `(k * size / 32) as i32` for a factor `k` given in
//! tenths, truncated toward zero. For every size within `size_exact` the
//! scaled lengths are exact, and they are computed here in integers.
use vstd::prelude::*;

verus! {

// ---------------------------------------------------------------------------
// Arithmetic
// ---------------------------------------------------------------------------

/// Division truncated toward zero, as `as i32` truncates a quotient.
pub open spec fn tdiv(a: int, b: int) -> int {
    if a >= 0 {
        a / b
    } else {
        -((-a) / b)
    }
}

/// A length of the 32-pixel grid, given in tenths of a pixel, scaled to
/// `size` and truncated toward zero.
pub open spec fn scale(tenths: int, size: int) -> int {
    tdiv(tenths * size, 320)
}

/// The sizes for which every scaled length of the icons is exact.
pub open spec fn size_exact(size: int) -> bool {
    -3355443 <= size <= 3355443
}

/// The value fits in an `i32`.
pub open spec fn in_i32(v: int) -> bool {
    i32::MIN <= v <= i32::MAX
}

/// The value fits in an `i32` and `i32::abs` takes it without overflow.
pub open spec fn abs_ok(v: int) -> bool {
    i32::MIN < v <= i32::MAX
}

/// Absolute value.
pub open spec fn abs(v: int) -> int {
    if v < 0 {
        -v
    } else {
        v
    }
}

fn scaled(tenths: i32, size: i32) -> (r: i32)
    requires
        -80 <= tenths <= 80,
        size_exact(size as int),
    ensures
        r == scale(tenths as int, size as int),
{
    assert(-268435440 <= tenths * size <= 268435440) by (nonlinear_arith)
        requires
            -80 <= tenths <= 80,
            -3355443 <= size <= 3355443,
    ;
    let p: i32 = tenths * size;
    if p >= 0 {
        p / 320
    } else {
        -((-p) / 320)
    }
}

fn abs_i32(v: i32) -> (r: i32)
    requires
        abs_ok(v as int),
    ensures
        r == abs(v as int),
{
    if v < 0 {
        -v
    } else {
        v
    }
}

// ---------------------------------------------------------------------------
// Three dots (connecting)
// ---------------------------------------------------------------------------

/// Squared distance of the offset point `(rx, ry)` from a dot centred at
/// `(dot_x, 0)`.
pub open spec fn dot_dist_sq(rx: int, ry: int, dot_x: int) -> int {
    (rx - dot_x) * (rx - dot_x) + ry * ry
}

/// Testing the dot at `dot_x` does not overflow.
pub open spec fn dot_safe(rx: int, ry: int, dot_x: int) -> bool {
    &&& in_i32(rx - dot_x)
    &&& in_i32((rx - dot_x) * (rx - dot_x))
    &&& in_i32(ry * ry)
    &&& in_i32(dot_dist_sq(rx, ry, dot_x))
}

/// The point lies on the dot at `dot_x` of radius `scale(25, size)`.
pub open spec fn on_dot(rx: int, ry: int, dot_x: int, size: int) -> bool {
    dot_dist_sq(rx, ry, dot_x) <= scale(25, size) * scale(25, size)
}

/// The inputs on which `draw_dots` runs without overflow: the dots are
/// tried left to right and the first hit ends the test.
pub open spec fn dots_safe(x: int, y: int, center: int, size: int) -> bool {
    let rx = x - center;
    let ry = y - center;
    &&& size_exact(size)
    &&& in_i32(rx)
    &&& in_i32(ry)
    &&& in_i32(scale(25, size) * scale(25, size))
    &&& dot_safe(rx, ry, scale(-60, size))
    &&& (on_dot(rx, ry, scale(-60, size), size) || (dot_safe(rx, ry, 0) && (on_dot(rx, ry, 0, size)
        || dot_safe(rx, ry, scale(60, size)))))
}

/// The point lies on one of the three dots, at `-6`, `0` and `6` grid
/// pixels from the centre.
pub open spec fn on_dots(x: int, y: int, center: int, size: int) -> bool {
    let rx = x - center;
    let ry = y - center;
    ||| on_dot(rx, ry, scale(-60, size), size)
    ||| on_dot(rx, ry, 0, size)
    ||| on_dot(rx, ry, scale(60, size), size)
}

fn hits_dot(rx: i32, ry: i32, dot_x: i32, dot_r_sq: i32) -> (r: bool)
    requires
        dot_safe(rx as int, ry as int, dot_x as int),
    ensures
        r == (dot_dist_sq(rx as int, ry as int, dot_x as int) <= dot_r_sq),
{
    let dx = rx - dot_x;
    dx * dx + ry * ry <= dot_r_sq
}

/// Draws three horizontal dots (the connecting animation).
pub fn draw_dots(x: i32, y: i32, center: i32, size: i32, fg: &[u8; 4], bg: &[u8; 4]) -> (r: [u8; 4])
    requires
        dots_safe(x as int, y as int, center as int, size as int),
    ensures
        r == if on_dots(x as int, y as int, center as int, size as int) {
            *fg
        } else {
            *bg
        },
{
    let rx = x - center;
    let ry = y - center;
    let dot_r = scaled(25, size);
    let dot_r_sq = dot_r * dot_r;
    let left = scaled(-60, size);
    if hits_dot(rx, ry, left, dot_r_sq) {
        return *fg;
    }
    if hits_dot(rx, ry, 0, dot_r_sq) {
        return *fg;
    }
    let right = scaled(60, size);
    if hits_dot(rx, ry, right, dot_r_sq) {
        return *fg;
    }
    *bg
}

// ---------------------------------------------------------------------------
// Dash (disconnected)
// ---------------------------------------------------------------------------

/// The inputs on which `draw_dash` runs without overflow.
pub open spec fn dash_safe(x: int, y: int, center: int, size: int) -> bool {
    let rx = x - center;
    let ry = y - center;
    &&& size_exact(size)
    &&& abs_ok(rx)
    &&& in_i32(ry)
    &&& (abs(rx) <= scale(80, size) ==> abs_ok(ry))
}

/// The point lies on the dash: 8 grid pixels to each side, 2.5 up and down.
pub open spec fn on_dash(x: int, y: int, center: int, size: int) -> bool {
    abs(x - center) <= scale(80, size) && abs(y - center) <= scale(25, size)
}

/// Draws a horizontal dash (the disconnected indicator).
pub fn draw_dash(x: i32, y: i32, center: i32, size: i32, fg: &[u8; 4], bg: &[u8; 4]) -> (r: [u8; 4])
    requires
        dash_safe(x as int, y as int, center as int, size as int),
    ensures
        r == if on_dash(x as int, y as int, center as int, size as int) {
            *fg
        } else {
            *bg
        },
{
    let rx = x - center;
    let ry = y - center;
    let half_w = scaled(80, size);
    let half_h = scaled(25, size);
    if abs_i32(rx) <= half_w && abs_i32(ry) <= half_h {
        *fg
    } else {
        *bg
    }
}

// ---------------------------------------------------------------------------
// X mark (failed)
// ---------------------------------------------------------------------------

/// Testing one diagonal, whose distance measure is `d`, does not overflow.
pub open spec fn diagonal_safe(d: int, rx: int, ry: int, size: int) -> bool {
    &&& abs_ok(d)
    &&& (abs(d) <= scale(25, size) ==> abs_ok(rx) && (abs(rx) <= scale(60, size) ==> abs_ok(ry)))
}

/// The point lies on the diagonal whose distance measure is `d`, within
/// the arms of 6 grid pixels.
pub open spec fn on_diagonal(d: int, rx: int, ry: int, size: int) -> bool {
    abs(d) <= scale(25, size) && abs(rx) <= scale(60, size) && abs(ry) <= scale(60, size)
}

/// The inputs on which `draw_x_mark` runs without overflow; both
/// diagonals are always tested.
pub open spec fn x_mark_safe(x: int, y: int, center: int, size: int) -> bool {
    let rx = x - center;
    let ry = y - center;
    &&& size_exact(size)
    &&& in_i32(rx)
    &&& in_i32(ry)
    &&& diagonal_safe(rx - ry, rx, ry, size)
    &&& diagonal_safe(rx + ry, rx, ry, size)
}

/// The point lies on the X: on one of its diagonals.
pub open spec fn on_x_mark(x: int, y: int, center: int, size: int) -> bool {
    let rx = x - center;
    let ry = y - center;
    on_diagonal(rx - ry, rx, ry, size) || on_diagonal(rx + ry, rx, ry, size)
}

/// The X mark is symmetric: swapping the offsets from the centre, or
/// mirroring either of them, does not change whether a point is on it.
pub proof fn lemma_x_mark_symmetric(c: int, a: int, b: int, size: int)
    ensures
        on_x_mark(c + a, c + b, c, size) == on_x_mark(c + b, c + a, c, size),
        on_x_mark(c + a, c + b, c, size) == on_x_mark(c - a, c + b, c, size),
        on_x_mark(c + a, c + b, c, size) == on_x_mark(c + a, c - b, c, size),
{
}

/// Offsets of at most 2^20 from the centre, with every coordinate an
/// `i32`, and sizes up to 2^20 draw the X mark without overflow.
pub proof fn lemma_x_mark_safe_range(c: int, a: int, b: int, size: int)
    requires
        -0x100000 <= a <= 0x100000,
        -0x100000 <= b <= 0x100000,
        in_i32(c),
        in_i32(c + a),
        in_i32(c + b),
        0 <= size <= 0x100000,
    ensures
        x_mark_safe(c + a, c + b, c, size),
{
}

fn hits_diagonal(d: i32, rx: i32, ry: i32, thick: i32, arm: i32, size: i32) -> (r: bool)
    requires
        size_exact(size as int),
        thick == scale(25, size as int),
        arm == scale(60, size as int),
        diagonal_safe(d as int, rx as int, ry as int, size as int),
    ensures
        r == on_diagonal(d as int, rx as int, ry as int, size as int),
{
    abs_i32(d) <= thick && abs_i32(rx) <= arm && abs_i32(ry) <= arm
}

/// Draws an X mark (the failed indicator).
pub fn draw_x_mark(x: i32, y: i32, center: i32, size: i32, fg: &[u8; 4], bg: &[u8; 4]) -> (r: [u8; 4])
    requires
        x_mark_safe(x as int, y as int, center as int, size as int),
    ensures
        r == if on_x_mark(x as int, y as int, center as int, size as int) {
            *fg
        } else {
            *bg
        },
{
    let rx = x - center;
    let ry = y - center;
    let thick = scaled(25, size);
    let arm = scaled(60, size);
    let on_d1 = hits_diagonal(rx - ry, rx, ry, thick, arm, size);
    let on_d2 = hits_diagonal(rx + ry, rx, ry, thick, arm, size);
    if on_d1 || on_d2 {
        *fg
    } else {
        *bg
    }
}

// ---------------------------------------------------------------------------
// Exclamation mark (degraded)
// ---------------------------------------------------------------------------

/// The inputs on which `draw_exclamation` runs without overflow.
pub open spec fn exclamation_safe(x: int, y: int, center: int, size: int) -> bool {
    let rx = x - center;
    let ry = y - center;
    let dy = ry - scale(50, size);
    &&& size_exact(size)
    &&& abs_ok(rx)
    &&& in_i32(ry)
    &&& in_i32(scale(20, size) * scale(20, size))
    &&& in_i32(dy)
    &&& in_i32(rx * rx)
    &&& in_i32(dy * dy)
    &&& in_i32(rx * rx + dy * dy)
}

/// The point lies on the bar: 2.5 grid pixels to each side, from 6 above
/// the centre to 2 below.
pub open spec fn on_bar(x: int, y: int, center: int, size: int) -> bool {
    let rx = x - center;
    let ry = y - center;
    abs(rx) <= scale(25, size) && scale(-60, size) <= ry <= scale(20, size)
}

/// The point lies on the dot of radius 2, 5 grid pixels below the centre.
pub open spec fn on_exclamation_dot(x: int, y: int, center: int, size: int) -> bool {
    let rx = x - center;
    let dy = (y - center) - scale(50, size);
    rx * rx + dy * dy <= scale(20, size) * scale(20, size)
}

/// Draws an exclamation mark (the degraded indicator).
pub fn draw_exclamation(
    x: i32,
    y: i32,
    center: i32,
    size: i32,
    fg: &[u8; 4],
    bg: &[u8; 4],
) -> (r: [u8; 4])
    requires
        exclamation_safe(x as int, y as int, center as int, size as int),
    ensures
        r == if on_bar(x as int, y as int, center as int, size as int) || on_exclamation_dot(
            x as int,
            y as int,
            center as int,
            size as int,
        ) {
            *fg
        } else {
            *bg
        },
{
    let rx = x - center;
    let ry = y - center;
    let bar_w = scaled(25, size);
    let bar_top = scaled(-60, size);
    let bar_bottom = scaled(20, size);
    let on_bar = abs_i32(rx) <= bar_w && ry >= bar_top && ry <= bar_bottom;
    let dot_y = scaled(50, size);
    let dot_r = scaled(20, size);
    let dot_r_sq = dot_r * dot_r;
    let dy = ry - dot_y;
    let on_dot = rx * rx + dy * dy <= dot_r_sq;
    if on_bar || on_dot {
        *fg
    } else {
        *bg
    }
}

// ---------------------------------------------------------------------------
// Icon variants
// ---------------------------------------------------------------------------

/// Which icon stands for the VPN's state.
#[derive(Debug, Clone, Copy, PartialEq, Eq, Hash)]
pub enum IconVariant {
    Connected,
    Connecting,
    Disconnected,
    Degraded,
    Failed,
}

/// Background red, green, blue, then foreground red, green, blue.
pub open spec fn colours_spec(v: IconVariant) -> (u8, u8, u8, u8, u8, u8) {
    match v {
        IconVariant::Connected => (46, 160, 67, 255, 255, 255),
        IconVariant::Connecting => (245, 158, 11, 255, 255, 255),
        IconVariant::Disconnected => (100, 116, 139, 255, 255, 255),
        IconVariant::Degraded => (249, 115, 22, 255, 255, 255),
        IconVariant::Failed => (239, 68, 68, 255, 255, 255),
    }
}

impl IconVariant {
    /// The icon's colours: background red, green, blue, then foreground
    /// red, green, blue.
    pub fn colours(&self) -> (r: (u8, u8, u8, u8, u8, u8))
        ensures
            r == colours_spec(*self),
    {
        match self {
            IconVariant::Connected => (46, 160, 67, 255, 255, 255),
            IconVariant::Connecting => (245, 158, 11, 255, 255, 255),
            IconVariant::Disconnected => (100, 116, 139, 255, 255, 255),
            IconVariant::Degraded => (249, 115, 22, 255, 255, 255),
            IconVariant::Failed => (239, 68, 68, 255, 255, 255),
        }
    }

    /// The icon sizes drawn, for screens of different density.
    pub fn sizes() -> (r: [i32; 4])
        ensures
            r@ == seq![16i32, 24, 32, 48],
    {
        let r = [16, 24, 32, 48];
        assert(r@ =~= seq![16i32, 24, 32, 48]);
        r
    }

    /// Length of the ARGB pixel data of one icon of the given size.
    pub fn data_len(size: i32) -> (r: usize)
        requires
            size * size * 4 <= i32::MAX,
        ensures
            r == size * size * 4,
    {
        assert(size * size >= 0) by (nonlinear_arith);
        let n: i32 = size * size * 4;
        n as usize
    }
}

/// No two variants share a background colour, and every foreground is
/// white.
pub proof fn lemma_colours_distinct(a: IconVariant, b: IconVariant)
    ensures
        a != b ==> (colours_spec(a).0, colours_spec(a).1, colours_spec(a).2) != (
            colours_spec(b).0,
            colours_spec(b).1,
            colours_spec(b).2,
        ),
        (colours_spec(a).3, colours_spec(a).4, colours_spec(a).5) == (255u8, 255u8, 255u8),
{
}

} // verus!
