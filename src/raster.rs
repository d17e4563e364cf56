use vstd::prelude::*;

verus! {

/// Width and height of a pixel buffer.
pub const PIXEL_BUF_WIDTH: usize = 320;

pub const PIXEL_BUF_HEIGHT: usize = 240;

pub open spec fn clamp_x(x: int) -> int {
    if x < 320 {
        x
    } else {
        319
    }
}

pub open spec fn clamp_y(y: int) -> int {
    if y < 240 {
        y
    } else {
        239
    }
}

pub open spec fn lo(a: int, b: int) -> int {
    if a <= b {
        a
    } else {
        b
    }
}

pub open spec fn hi(a: int, b: int) -> int {
    if a <= b {
        b
    } else {
        a
    }
}

pub open spec fn dist(a: int, b: int) -> int {
    hi(a, b) - lo(a, b)
}

/// A point moved into the buffer, as single pixels are plotted.
pub fn clamp_pixel(x: usize, y: usize) -> (r: (usize, usize))
    ensures
        r.0 == clamp_x(x as int),
        r.1 == clamp_y(y as int),
{
    (if x < PIXEL_BUF_WIDTH {
        x
    } else {
        PIXEL_BUF_WIDTH - 1
    }, if y < PIXEL_BUF_HEIGHT {
        y
    } else {
        PIXEL_BUF_HEIGHT - 1
    })
}

/// The corners of a filled box, clamped into the buffer and put in order:
/// `(left, top, right, bottom)`.
pub fn box_span(x0: usize, y0: usize, x1: usize, y1: usize) -> (r: (usize, usize, usize, usize))
    ensures
        r.0 == lo(clamp_x(x0 as int), clamp_x(x1 as int)),
        r.1 == lo(clamp_y(y0 as int), clamp_y(y1 as int)),
        r.2 == hi(clamp_x(x0 as int), clamp_x(x1 as int)),
        r.3 == hi(clamp_y(y0 as int), clamp_y(y1 as int)),
{
    let (ax, ay) = clamp_pixel(x0, y0);
    let (bx, by) = clamp_pixel(x1, y1);
    let (left, right) = if ax <= bx {
        (ax, bx)
    } else {
        (bx, ax)
    };
    let (top, bottom) = if ay <= by {
        (ay, by)
    } else {
        (by, ay)
    };
    (left, top, right, bottom)
}

/// The pixels of a line between two points, after clamping them into the
/// buffer, by Bresenham's algorithm: one pixel per step along the longer
/// axis, all within the box the two clamped ends span, starting at one of
/// them.
pub fn line_points(x0: usize, y0: usize, x1: usize, y1: usize) -> (r: Vec<(usize, usize)>)
    ensures
        ({
            let (ax, ay, bx, by) = (
                clamp_x(x0 as int),
                clamp_y(y0 as int),
                clamp_x(x1 as int),
                clamp_y(y1 as int),
            );
            &&& r@.len() == hi(dist(ax, bx), dist(ay, by)) + 1
            &&& forall|j: int|
                0 <= j < r@.len() ==> lo(ax, bx) <= (#[trigger] r@[j]).0 <= hi(ax, bx) && lo(ay, by)
                    <= r@[j].1 <= hi(ay, by)
            &&& ((r@[0] == (ax as usize, ay as usize) && r@[r@.len() - 1] == (bx as usize, by as usize))
                || (r@[0] == (bx as usize, by as usize) && r@[r@.len() - 1] == (
                ax as usize,
                ay as usize,
            )))
        }),
{
    let (cx0, cy0) = clamp_pixel(x0, y0);
    let (cx1, cy1) = clamp_pixel(x1, y1);
    let ghost (ax, ay, bx, by) = (cx0 as int, cy0 as int, cx1 as int, cy1 as int);
    let mut x0 = cx0 as i64;
    let mut y0 = cy0 as i64;
    let mut x1 = cx1 as i64;
    let mut y1 = cy1 as i64;
    let ady = if y1 >= y0 {
        y1 - y0
    } else {
        y0 - y1
    };
    let adx = if x1 >= x0 {
        x1 - x0
    } else {
        x0 - x1
    };
    let is_steep = ady > adx;
    if is_steep {
        let t = x0;
        x0 = y0;
        y0 = t;
        let t = x1;
        x1 = y1;
        y1 = t;
    }
    if x0 > x1 {
        let t = x0;
        x0 = x1;
        x1 = t;
        let t = y0;
        y0 = y1;
        y1 = t;
    }
    let deltax = x1 - x0;
    let deltay = if y0 >= y1 {
        y0 - y1
    } else {
        y1 - y0
    };
    let ghost first = if is_steep {
        (y0 as usize, x0 as usize)
    } else {
        (x0 as usize, y0 as usize)
    };
    let ghost last = if is_steep {
        (y1 as usize, x1 as usize)
    } else {
        (x1 as usize, y1 as usize)
    };
    assert((first == (ax as usize, ay as usize) && last == (bx as usize, by as usize)) || (first
        == (bx as usize, by as usize) && last == (ax as usize, ay as usize)));
    // the longer axis is the one stepped along
    assert(deltax == hi(dist(ax, bx), dist(ay, by)));
    assert(deltay <= deltax);
    let mut error: i64 = -(deltax / 2);
    assert(error == -(deltax / 2) + (x0 - x0) * deltay - 0 * deltax) by (nonlinear_arith)
        requires
            error == -(deltax / 2),
    ;
    let mut y = y0;
    let y_step: i64 = if y0 < y1 {
        1
    } else {
        -1
    };
    let ghost mut m: int = 0;
    let mut out: Vec<(usize, usize)> = Vec::new();
    let mut x = x0;
    while x <= x1
        invariant
            0 <= x0 <= x1 < 320,
            0 <= y0 < 320,
            0 <= y1 < 320,
            deltax == x1 - x0,
            deltay == (if y0 >= y1 {
                y0 - y1
            } else {
                y1 - y0
            }),
            deltay <= deltax,
            y_step == (if y0 < y1 {
                1int
            } else {
                -1int
            }),
            x0 <= x <= x1 + 1,
            out@.len() == x - x0,
            error == -(deltax / 2) + (x - x0) * deltay - m * deltax,
            -deltax <= error <= 0,
            0 <= m <= x - x0,
            x <= x1 ==> m <= deltay,
            y == y0 + y_step * m,
            is_steep ==> x1 < 240,
            !is_steep ==> y0 < 240 && y1 < 240,
            forall|j: int|
                0 <= j < out@.len() ==> {
                    let p = #[trigger] out@[j];
                    let (major, minor) = if is_steep {
                        (p.1 as int, p.0 as int)
                    } else {
                        (p.0 as int, p.1 as int)
                    };
                    major == x0 + j && lo(y0 as int, y1 as int) <= minor <= hi(y0 as int, y1 as int)
                },
            out@.len() > 0 ==> out@[0] == first,
            first == (if is_steep {
                (y0 as usize, x0 as usize)
            } else {
                (x0 as usize, y0 as usize)
            }),
            last == (if is_steep {
                (y1 as usize, x1 as usize)
            } else {
                (x1 as usize, y1 as usize)
            }),
            x == x1 + 1 ==> out@[out@.len() - 1] == last,
        decreases x1 + 1 - x,
    {
        assert(lo(y0 as int, y1 as int) <= y <= hi(y0 as int, y1 as int)) by (nonlinear_arith)
            requires
                y == y0 + y_step * m,
                0 <= m <= deltay,
                deltay == (if y0 >= y1 {
                    y0 - y1
                } else {
                    y1 - y0
                }),
                y_step == (if y0 < y1 {
                    1int
                } else {
                    -1int
                }),
        ;
        assert(m == 0 ==> y == y0) by (nonlinear_arith)
            requires
                y == y0 + y_step * m,
        ;
        if x == x1 {
            assert(m == deltay) by (nonlinear_arith)
                requires
                    error == -(deltax / 2) + (x - x0) * deltay - m * deltax,
                    -deltax <= error <= 0,
                    x == x1,
                    deltax == x1 - x0,
                    0 <= m <= deltay,
                    deltay <= deltax,
            ;
            assert(y == y1) by (nonlinear_arith)
                requires
                    y == y0 + y_step * m,
                    m == deltay,
                    deltay == (if y0 >= y1 {
                        y0 - y1
                    } else {
                        y1 - y0
                    }),
                    y_step == (if y0 < y1 {
                        1int
                    } else {
                        -1int
                    }),
            ;
        }
        let ghost before = out@;
        if is_steep {
            out.push((y as usize, x as usize));
        } else {
            out.push((x as usize, y as usize));
        }
        assert(before.len() > 0 ==> out@[0] == before[0]);
        let ghost k = x - x0;
        let ghost e0 = error;
        error = error + deltay;
        assert(error == -(deltax / 2) + (k + 1) * deltay - m * deltax) by (nonlinear_arith)
            requires
                e0 == -(deltax / 2) + k * deltay - m * deltax,
                error == e0 + deltay,
        ;
        if error > 0 {
            assert(x + 1 <= x1 ==> m + 1 <= deltay) by (nonlinear_arith)
                requires
                    error == -(deltax / 2) + (k + 1) * deltay - m * deltax,
                    error > 0,
                    k == x - x0,
                    deltax == x1 - x0,
                    0 <= m,
                    m <= deltay,
                    deltay <= deltax,
            ;
            assert(y + y_step == y0 + y_step * (m + 1)) by (nonlinear_arith)
                requires
                    y == y0 + y_step * m,
            ;
            y = y + y_step;
            let ghost e1 = error;
            error = error - deltax;
            proof {
                m = m + 1;
            }
            assert(error == -(deltax / 2) + (k + 1) * deltay - m * deltax) by (nonlinear_arith)
                requires
                    e1 == -(deltax / 2) + (k + 1) * deltay - (m - 1) * deltax,
                    error == e1 - deltax,
            ;
        }
        x = x + 1;
    }
    out
}

} // verus!
