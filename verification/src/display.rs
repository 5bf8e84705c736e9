//! Render geometry: the deterministic mapping from 8-bit metric values to
//! the pixel rectangles of the bar-graph display, the fixed border chrome,
//! and the liveness-glyph state. Putting pixels on a physical surface is the
//! surrounding program's concern; everything here is plain arithmetic on a
//! 128×64 coordinate grid.

use vstd::prelude::*;

verus! {

/// Width of the display surface, in pixels.
pub const DISPLAY_WIDTH: u32 = 128;

/// Height of the display surface, in pixels.
pub const DISPLAY_HEIGHT: u32 = 64;

/// Greatest bar height, in pixels, of the plot area.
pub const BAR_MAX_HEIGHT: u8 = 54;

/// An axis-aligned rectangle on the display, by its top-left corner and
/// size.
#[derive(Copy, Clone, PartialEq, Eq, Structural, Debug)]
pub struct Rect {
    pub x: u32,
    pub y: u32,
    pub width: u32,
    pub height: u32,
}

impl Rect {
    /// The rectangle lies entirely on the display surface.
    pub open spec fn in_bounds(&self) -> bool {
        &&& self.x + self.width <= DISPLAY_WIDTH
        &&& self.y + self.height <= DISPLAY_HEIGHT
    }
}

/// Quantize an 8-bit value to a bar height: drop the two low bits (64
/// discrete levels from 256 input levels) and clamp to `max`.
pub open spec fn spec_byte_to_height(val: u8, max: u8) -> u32 {
    if val / 4 > max {
        max as u32
    } else {
        (val / 4) as u32
    }
}

pub fn byte_to_height(val: u8, max: u8) -> (r: u32)
    ensures
        r == spec_byte_to_height(val, max),
        r <= max,
{
    let t = (val >> 2) as u32;
    proof {
        assert(val >> 2 == val / 4) by (bit_vector);
    }
    if t > max as u32 {
        max as u32
    } else {
        t
    }
}

/// One metric bar: a background-colored rectangle from the top of the plot
/// area down to just above the bar, and a foreground-colored rectangle from
/// the bottom up.
#[derive(Copy, Clone, PartialEq, Eq, Structural, Debug)]
pub struct BarGeometry {
    pub background: Rect,
    pub bar: Rect,
}

/// The two rectangles of a bar column of the given width at column `x`, for
/// a bar height `h` of at most `BAR_MAX_HEIGHT`. A height of zero yields an
/// empty bar rectangle — never a wrapped one — and the background covers
/// the whole column.
pub open spec fn spec_bar_geometry(x: u32, width: u32, h: u32) -> BarGeometry {
    BarGeometry {
        background: Rect { x, y: 8, width, height: (55 - h) as u32 },
        bar: Rect {
            x,
            y: (62 - h) as u32,
            width,
            height: if h == 0 {
                0
            } else {
                (h + 1) as u32
            },
        },
    }
}

pub fn bar_geometry(x: u32, width: u32, h: u32) -> (r: BarGeometry)
    requires
        h <= BAR_MAX_HEIGHT,
        x + width <= DISPLAY_WIDTH,
    ensures
        r == spec_bar_geometry(x, width, h),
        r.background.in_bounds(),
        r.bar.in_bounds(),
        h == 0 ==> r.bar.height == 0,
{
    let background = Rect { x, y: 8, width, height: 55 - h };
    let bar_height: u32 = if h == 0 {
        0
    } else {
        h + 1
    };
    let bar = Rect { x, y: 62 - h, width, height: bar_height };
    BarGeometry { background, bar }
}

/// Leftmost pixel column of a metric bar (1-based bar index).
pub open spec fn spec_cpu_bar_x(index: u8) -> u32 {
    (5 + (index - 1) * 20) as u32
}

/// The geometry of one of the four metric bars (1-based index), for one
/// 8-bit metric value.
pub open spec fn spec_cpu_bar_geometry(index: u8, value: u8) -> BarGeometry {
    spec_bar_geometry(spec_cpu_bar_x(index), 15, spec_byte_to_height(value, BAR_MAX_HEIGHT))
}

pub fn cpu_bar_geometry(index: u8, value: u8) -> (r: BarGeometry)
    requires
        1 <= index <= 4,
    ensures
        r == spec_cpu_bar_geometry(index, value),
        r.background.in_bounds(),
        r.bar.in_bounds(),
        spec_byte_to_height(value, BAR_MAX_HEIGHT) == 0 ==> r.bar.height == 0,
{
    let x: u32 = 5 + ((index - 1) as u32) * 20;
    let height = byte_to_height(value, BAR_MAX_HEIGHT);
    bar_geometry(x, 15, height)
}

/// The two directions of the network-activity bars.
#[derive(Copy, Clone, PartialEq, Eq, Structural, Debug)]
pub enum NetDirection {
    TX,
    RX,
}

/// A network bar: a narrow "fine" sub-column and a wider "coarse"
/// sub-column, each fed its own byte value.
#[derive(Copy, Clone, PartialEq, Eq, Structural, Debug)]
pub struct NetBarGeometry {
    pub fine: BarGeometry,
    pub wide: BarGeometry,
}

/// Leftmost pixel column of a network bar.
pub open spec fn spec_net_bar_x(direction: NetDirection) -> u32 {
    match direction {
        NetDirection::TX => 103,
        NetDirection::RX => 115,
    }
}

/// The geometry of one network bar: the fine sub-column of width 2 at the
/// bar's left edge and the wide sub-column of width 7 three pixels further
/// right.
pub open spec fn spec_network_bar_geometry(
    direction: NetDirection,
    value_fine: u8,
    value_wide: u8,
) -> NetBarGeometry {
    NetBarGeometry {
        fine: spec_bar_geometry(
            spec_net_bar_x(direction),
            2,
            spec_byte_to_height(value_fine, BAR_MAX_HEIGHT),
        ),
        wide: spec_bar_geometry(
            (spec_net_bar_x(direction) + 3) as u32,
            7,
            spec_byte_to_height(value_wide, BAR_MAX_HEIGHT),
        ),
    }
}

pub fn network_bar_geometry(direction: NetDirection, value_fine: u8, value_wide: u8) -> (r:
    NetBarGeometry)
    ensures
        r == spec_network_bar_geometry(direction, value_fine, value_wide),
        r.fine.background.in_bounds(),
        r.fine.bar.in_bounds(),
        r.wide.background.in_bounds(),
        r.wide.bar.in_bounds(),
{
    let x: u32 = match direction {
        NetDirection::TX => 103,
        NetDirection::RX => 115,
    };
    let height_fine = byte_to_height(value_fine, BAR_MAX_HEIGHT);
    let height_wide = byte_to_height(value_wide, BAR_MAX_HEIGHT);
    let fine = bar_geometry(x, 2, height_fine);
    let wide = bar_geometry(x + 3, 7, height_wide);
    NetBarGeometry { fine, wide }
}

/// The four border rectangles of the fixed chrome: the metric plot frame,
/// the two halves of the glyph column, and the network plot frame.
pub open spec fn spec_ui_border_rects() -> Seq<Rect> {
    seq![
        Rect { x: 0, y: 0, width: 85, height: 64 },
        Rect { x: 87, y: 0, width: 11, height: 16 },
        Rect { x: 87, y: 16, width: 11, height: 48 },
        Rect { x: 100, y: 0, width: 28, height: 64 },
    ]
}

pub fn ui_border_rects() -> (r: Vec<Rect>)
    ensures
        r@ == spec_ui_border_rects(),
        forall|i: int| 0 <= i < r@.len() ==> (#[trigger] r@[i]).in_bounds(),
{
    let mut r: Vec<Rect> = Vec::new();
    r.push(Rect { x: 0, y: 0, width: 85, height: 64 });
    r.push(Rect { x: 87, y: 0, width: 11, height: 16 });
    r.push(Rect { x: 87, y: 16, width: 11, height: 48 });
    r.push(Rect { x: 100, y: 0, width: 28, height: 64 });
    proof {
        assert(r@ =~= spec_ui_border_rects());
    }
    r
}

/// Which character the liveness glyph shows for a given toggle state.
pub open spec fn spec_glyph(flip: bool) -> char {
    if flip {
        '-'
    } else {
        '|'
    }
}

/// The liveness glyph: a single character at a fixed position, toggling
/// between two shapes every render pass so an observer can tell that frames
/// are still arriving.
pub struct Spinner {
    pub flip: bool,
    pub x: i32,
    pub y: i32,
}

impl Spinner {
    pub fn new(x: i32, y: i32) -> (r: Self)
        ensures
            r.flip == true,
            r.x == x,
            r.y == y,
    {
        Spinner { flip: true, x, y }
    }

    /// The character to draw this pass; the shape toggles for the next one.
    pub fn advance(&mut self) -> (glyph: char)
        ensures
            glyph == spec_glyph(old(self).flip),
            final(self).flip == !old(self).flip,
            final(self).x == old(self).x,
            final(self).y == old(self).y,
    {
        let glyph = if self.flip {
            '-'
        } else {
            '|'
        };
        self.flip = !self.flip;
        glyph
    }
}

/// The payload of one render command: four metric values and the fine and
/// wide values of the two network directions.
#[derive(Copy, Clone, PartialEq, Eq, Structural, Debug)]
pub struct RenderRequest {
    pub cpu1: u8,
    pub cpu2: u8,
    pub cpu3: u8,
    pub cpu4: u8,
    pub tx_fine: u8,
    pub rx_fine: u8,
    pub tx_wide: u8,
    pub rx_wide: u8,
}

/// Everything one render pass draws: the glyph shown this pass and the
/// rectangles of the four metric bars and the two network bars.
#[derive(Copy, Clone, PartialEq, Eq, Structural, Debug)]
pub struct FramePlan {
    pub glyph: char,
    pub cpu1: BarGeometry,
    pub cpu2: BarGeometry,
    pub cpu3: BarGeometry,
    pub cpu4: BarGeometry,
    pub tx: NetBarGeometry,
    pub rx: NetBarGeometry,
}

/// Lay out one full render pass from a render command, advancing the
/// liveness glyph.
pub fn render_frame(req: &RenderRequest, spinner: &mut Spinner) -> (r: FramePlan)
    ensures
        r.glyph == spec_glyph(old(spinner).flip),
        final(spinner).flip == !old(spinner).flip,
        final(spinner).x == old(spinner).x,
        final(spinner).y == old(spinner).y,
        r.cpu1 == spec_cpu_bar_geometry(1, req.cpu1),
        r.cpu2 == spec_cpu_bar_geometry(2, req.cpu2),
        r.cpu3 == spec_cpu_bar_geometry(3, req.cpu3),
        r.cpu4 == spec_cpu_bar_geometry(4, req.cpu4),
        r.tx == spec_network_bar_geometry(NetDirection::TX, req.tx_fine, req.tx_wide),
        r.rx == spec_network_bar_geometry(NetDirection::RX, req.rx_fine, req.rx_wide),
{
    let glyph = spinner.advance();
    FramePlan {
        glyph,
        cpu1: cpu_bar_geometry(1, req.cpu1),
        cpu2: cpu_bar_geometry(2, req.cpu2),
        cpu3: cpu_bar_geometry(3, req.cpu3),
        cpu4: cpu_bar_geometry(4, req.cpu4),
        tx: network_bar_geometry(NetDirection::TX, req.tx_fine, req.tx_wide),
        rx: network_bar_geometry(NetDirection::RX, req.rx_fine, req.rx_wide),
    }
}

} // verus!
