//! Master-stack tiling arithmetic.
//!
//! `tile` is a pure function from a screen size, a window count, a master
//! share and a border width to one rectangle per window: the first window
//! takes the master column, the rest split the stack column evenly. A fixed
//! gap is kept around the screen edge, between the columns, and between
//! stack neighbours. Dimensions are clamped to one pixel rather than ever
//! emitting an empty or negative size, and a screen whose usable area
//! vanishes yields no rectangles at all.

use vstd::prelude::*;

verus! {

/// Fixed gap in pixels, kept at the screen edge and between windows.
pub const GAP: u32 = 8;

/// A window rectangle: position, size and uniform border width.
#[derive(Clone, Copy, Debug, PartialEq, Eq, Structural)]
pub struct Geometry {
    pub x: u32,
    pub y: u32,
    pub width: u32,
    pub height: u32,
    pub border_width: u32,
}

/// Screen width left after the gap is taken from both edges.
pub open spec fn spec_usable_width(screen_width: u16) -> int {
    screen_width - 2 * GAP
}

/// Screen height left after the gap is taken from both edges.
pub open spec fn spec_usable_height(screen_height: u16) -> int {
    screen_height - 2 * GAP
}

/// Tiling emits nothing: no windows, or the usable area vanishes.
pub open spec fn spec_tiling_aborts(screen_width: u16, screen_height: u16, n: int) -> bool {
    n == 0 || screen_width <= 2 * GAP || screen_height <= 2 * GAP
}

/// Width shared by the master and stack columns, after one inner gap
/// between them is reserved.
pub open spec fn spec_split_width(screen_width: u16) -> int {
    if spec_usable_width(screen_width) > GAP {
        spec_usable_width(screen_width) - GAP
    } else {
        0
    }
}

/// Master column width: its share of the split width, at least one pixel.
pub open spec fn spec_master_width(screen_width: u16, master_percent: u32) -> int {
    let w = spec_split_width(screen_width) * master_percent / 100;
    if w < 1 {
        1
    } else {
        w
    }
}

/// Stack column width: what the master leaves, at least one pixel.
pub open spec fn spec_stack_width(screen_width: u16, master_percent: u32) -> int {
    let w = spec_split_width(screen_width) - spec_master_width(screen_width, master_percent);
    if w < 1 {
        1
    } else {
        w
    }
}

/// Height of each of the `n - 1` stack slots: the usable height minus the
/// inter-stack gaps, split evenly, at least one pixel.
pub open spec fn spec_stack_height(screen_height: u16, n: int) -> int {
    let avail = spec_usable_height(screen_height) - (n - 2) * GAP;
    let h = avail / (n - 1);
    if h < 1 {
        1
    } else {
        h
    }
}

/// The single rectangle of a lone window: the whole usable area.
pub open spec fn spec_single_geometry(screen_width: u16, screen_height: u16, border_width: u32) -> Geometry {
    Geometry {
        x: GAP,
        y: GAP,
        width: spec_usable_width(screen_width) as u32,
        height: spec_usable_height(screen_height) as u32,
        border_width: border_width,
    }
}

/// The master rectangle when at least one stack window exists.
pub open spec fn spec_master_geometry(
    screen_width: u16,
    screen_height: u16,
    master_percent: u32,
    border_width: u32,
) -> Geometry {
    Geometry {
        x: GAP,
        y: GAP,
        width: spec_master_width(screen_width, master_percent) as u32,
        height: spec_usable_height(screen_height) as u32,
        border_width: border_width,
    }
}

/// The rectangle of the stack slot at position `i` (counted from zero at
/// the top of the stack).
pub open spec fn spec_stack_geometry(
    screen_width: u16,
    screen_height: u16,
    n: int,
    master_percent: u32,
    border_width: u32,
    i: int,
) -> Geometry {
    Geometry {
        x: (2 * GAP + spec_master_width(screen_width, master_percent)) as u32,
        y: (GAP + i * (spec_stack_height(screen_height, n) + GAP)) as u32,
        width: spec_stack_width(screen_width, master_percent) as u32,
        height: spec_stack_height(screen_height, n) as u32,
        border_width: border_width,
    }
}

/// The whole layout for `n` windows, one rectangle per window in window
/// order: none on abort, the usable area for a lone window, and otherwise
/// the master followed by the stack slots top to bottom.
pub open spec fn spec_tile(
    screen_width: u16,
    screen_height: u16,
    n: int,
    master_percent: u32,
    border_width: u32,
) -> Seq<Geometry> {
    if spec_tiling_aborts(screen_width, screen_height, n) {
        Seq::empty()
    } else if n == 1 {
        seq![spec_single_geometry(screen_width, screen_height, border_width)]
    } else {
        Seq::new(
            n as nat,
            |i: int|
                if i == 0 {
                    spec_master_geometry(screen_width, screen_height, master_percent, border_width)
                } else {
                    spec_stack_geometry(
                        screen_width,
                        screen_height,
                        n,
                        master_percent,
                        border_width,
                        i - 1,
                    )
                },
        )
    }
}

/// Computes the rectangle of every window in `windows`, in order.
///
/// The result is empty exactly when there is nothing to place or the gap
/// swallows the screen; otherwise every window gets a rectangle with
/// positive dimensions and the configured border.
pub fn tile(
    screen_width: u16,
    screen_height: u16,
    windows: &Vec<u32>,
    master_percent: u32,
    border_width: u32,
) -> (r: Vec<Geometry>)
    requires
        0 < master_percent < 100,
        windows@.len() <= 0xFFFF,
    ensures
        r@ == spec_tile(
            screen_width,
            screen_height,
            windows@.len() as int,
            master_percent,
            border_width,
        ),
        r@.len() == 0 <==> spec_tiling_aborts(screen_width, screen_height, windows@.len() as int),
        r@.len() != 0 ==> r@.len() == windows@.len(),
        forall|i: int|
            0 <= i < r@.len() ==> r@[i].width >= 1 && r@[i].height >= 1 && r@[i].border_width
                == border_width,
{
    let n = windows.len();
    let mut r: Vec<Geometry> = Vec::new();
    if n == 0 || screen_width <= 2 * (GAP as u16) || screen_height <= 2 * (GAP as u16) {
        assert(r@ =~= spec_tile(screen_width, screen_height, n as int, master_percent, border_width));
        return r;
    }
    let usable_width: u32 = screen_width as u32 - 2 * GAP;
    let usable_height: u32 = screen_height as u32 - 2 * GAP;
    assert(usable_width == spec_usable_width(screen_width));
    assert(usable_height == spec_usable_height(screen_height));
    if n == 1 {
        r.push(
            Geometry {
                x: GAP,
                y: GAP,
                width: usable_width,
                height: usable_height,
                border_width: border_width,
            },
        );
        assert(r@ =~= spec_tile(screen_width, screen_height, n as int, master_percent, border_width));
        return r;
    }
    let split_width: u32 = if usable_width > GAP {
        usable_width - GAP
    } else {
        0
    };
    assert(split_width * master_percent < 0x1_0000_0000) by (nonlinear_arith)
        requires
            split_width < 0x1_0000,
            master_percent < 100,
    ;
    let master_raw: u32 = split_width * master_percent / 100;
    let master_width: u32 = if master_raw < 1 {
        1
    } else {
        master_raw
    };
    assert(master_width == spec_master_width(screen_width, master_percent));
    let stack_raw: u32 = if split_width > master_width {
        split_width - master_width
    } else {
        0
    };
    let stack_width: u32 = if stack_raw < 1 {
        1
    } else {
        stack_raw
    };
    assert(stack_width == spec_stack_width(screen_width, master_percent));
    let stack_count: u32 = n as u32 - 1;
    let stack_gaps: u32 = (stack_count - 1) * GAP;
    let stack_avail: u32 = if usable_height > stack_gaps {
        usable_height - stack_gaps
    } else {
        0
    };
    let stack_height: u32 = {
        let h = stack_avail / stack_count;
        if h < 1 {
            1
        } else {
            h
        }
    };
    assert(stack_height <= 0xFFEF) by {
        assert(stack_avail <= 0xFFEF);
        assert(stack_avail / stack_count <= stack_avail) by (nonlinear_arith)
            requires
                stack_count >= 1,
                stack_avail >= 0,
        ;
    };
    assert(stack_height == spec_stack_height(screen_height, n as int)) by {
        let avail = spec_usable_height(screen_height) - (n - 2) * GAP;
        if avail >= 0 {
            assert(stack_avail == avail);
        } else {
            assert(stack_avail == 0);
            assert(avail / (stack_count as int) <= 0) by {
                vstd::arithmetic::div_mod::lemma_div_is_ordered(avail, 0, stack_count as int);
            }
        }
    };
    let stack_x: u32 = 2 * GAP + master_width;
    r.push(
        Geometry {
            x: GAP,
            y: GAP,
            width: master_width,
            height: usable_height,
            border_width: border_width,
        },
    );
    let ghost full = spec_tile(
        screen_width,
        screen_height,
        n as int,
        master_percent,
        border_width,
    );
    let mut i: usize = 1;
    while i < n
        invariant
            2 <= n <= 0xFFFF,
            i >= 1,
            i <= n,
            full == spec_tile(screen_width, screen_height, n as int, master_percent, border_width),
            full.len() == n,
            r@.len() == i,
            forall|j: int| 0 <= j < i ==> r@[j] == full[j],
            stack_height == spec_stack_height(screen_height, n as int),
            1 <= stack_height <= 0xFFEF,
            stack_x == 2 * GAP + spec_master_width(screen_width, master_percent),
            stack_width == spec_stack_width(screen_width, master_percent),
            n == windows@.len(),
        decreases n - i,
    {
        let k: u32 = i as u32 - 1;
        assert(k * (stack_height + GAP) + GAP < 0x1_0000_0000) by (nonlinear_arith)
            requires
                k <= 0xFFFD,
                1 <= stack_height <= 0xFFEF,
        ;
        let y: u32 = GAP + k * (stack_height + GAP);
        r.push(
            Geometry {
                x: stack_x,
                y: y,
                width: stack_width,
                height: stack_height,
                border_width: border_width,
            },
        );
        assert(r@[i as int] == full[i as int]);
        i = i + 1;
    }
    assert(r@ =~= full);
    r
}

/// The rectangle a fullscreen window is forced into: the whole screen with
/// no border.
pub fn fullscreen_geometry(screen_width: u16, screen_height: u16) -> (r: Geometry)
    ensures
        r == (Geometry {
            x: 0,
            y: 0,
            width: screen_width as u32,
            height: screen_height as u32,
            border_width: 0,
        }),
{
    Geometry {
        x: 0,
        y: 0,
        width: screen_width as u32,
        height: screen_height as u32,
        border_width: 0,
    }
}

/// For two or more windows on a screen whose usable area leaves at least
/// two pixels beside the inner gap and a pixel per stack slot beside the
/// inter-stack gaps, the emitted columns fit: master, inner gap and stack
/// together take no more than the usable width, and the stack slots with
/// their gaps take no more than the usable height.
pub proof fn lemma_tile_within_usable_area(
    screen_width: u16,
    screen_height: u16,
    n: int,
    master_percent: u32,
)
    requires
        2 <= n <= 0xFFFF,
        0 < master_percent < 100,
        spec_usable_width(screen_width) >= GAP + 2,
        spec_usable_height(screen_height) >= (n - 2) * GAP + (n - 1),
    ensures
        spec_master_width(screen_width, master_percent) + GAP + spec_stack_width(
            screen_width,
            master_percent,
        ) <= spec_usable_width(screen_width),
        (n - 1) * spec_stack_height(screen_height, n) + (n - 2) * GAP <= spec_usable_height(
            screen_height,
        ),
{
    let split = spec_split_width(screen_width);
    assert(split >= 2);
    assert(split * master_percent / 100 <= split - 1) by (nonlinear_arith)
        requires
            split >= 2,
            0 < master_percent < 100,
    ;
    assert(split * master_percent >= 0) by (nonlinear_arith)
        requires
            split >= 2,
            master_percent > 0,
    ;
    let master = spec_master_width(screen_width, master_percent);
    assert(1 <= master <= split - 1);
    let stack = spec_stack_width(screen_width, master_percent);
    assert(stack == split - master);
    let avail = spec_usable_height(screen_height) - (n - 2) * GAP;
    assert(avail >= n - 1);
    let h = spec_stack_height(screen_height, n);
    assert(avail / (n - 1) >= 1 && (n - 1) * (avail / (n - 1)) <= avail) by (nonlinear_arith)
        requires
            avail >= n - 1,
            n >= 2,
    ;
    assert(h == avail / (n - 1));
    assert((n - 1) * h <= avail);
}

} // verus!
