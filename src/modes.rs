//! Visualizer modes: the parts of their drawing that place glyphs on the canvas.

use crate::canvas::{Canvas, Cell, Color};
use vstd::prelude::*;

verus! {

/// Full block glyph that fills a bar.
pub const FULL_BLOCK: char = '\u{2588}';

/// Middle dot glyph that marks a bar's peak.
pub const PEAK_DOT: char = '\u{b7}';

/// Filled disc glyph.
pub const DISC: char = '\u{25cf}';

/// Hollow ring glyph.
pub const RING: char = '\u{25cb}';

/// The glyph at row `position` of a bar `height` rows tall standing on the
/// bottom of a canvas `max_height` rows tall: filled for the bottom `height` rows.
pub open spec fn block_glyph(position: nat, height: nat, max_height: nat) -> char {
    if position + height >= max_height {
        FULL_BLOCK
    } else {
        ' '
    }
}

/// The cell at row `y` of a bar `h` rows tall in `color`, on a canvas `rows`
/// rows tall; with peaks shown, the row just above a bar shorter than the
/// canvas holds a dot.
pub open spec fn bar_cell(h: nat, rows: nat, y: int, color: Color, show_peaks: bool) -> Cell {
    if show_peaks && h < rows && y == rows - h - 1 {
        Cell { character: PEAK_DOT, color }
    } else if y + h >= rows {
        Cell { character: FULL_BLOCK, color }
    } else {
        Cell { character: ' ', color }
    }
}

/// Number of bars drawn for `n` bands on a canvas `width` columns wide.
pub open spec fn bar_count(n: nat, width: nat) -> nat {
    if n <= width {
        n
    } else {
        width
    }
}

/// Width in columns of each bar.
pub open spec fn bar_width(n: nat, width: nat) -> nat {
    width / bar_count(n, width)
}

/// The cell at column `x`, row `y` after drawing bars of `heights` in `colors`
/// over a canvas holding `before`: bar `i` covers the columns
/// `i * bar_width .. (i + 1) * bar_width`; columns past the last bar keep their cell.
pub open spec fn bars_cell(
    heights: Seq<usize>,
    colors: Seq<Color>,
    show_peaks: bool,
    width: nat,
    rows: nat,
    before: Cell,
    x: int,
    y: int,
) -> Cell {
    let n = bar_count(heights.len(), width);
    let bw = bar_width(heights.len(), width);
    if heights.len() == 0 || width == 0 || rows == 0 || x >= n * bw {
        before
    } else {
        bar_cell(heights[x / bw as int] as nat, rows, y, colors[x / bw as int], show_peaks)
    }
}

/// The visualizer modes.
#[derive(Clone, Copy, Debug, PartialEq, Eq, Structural)]
pub enum ModeKind {
    Spectrum,
    Waveform,
    Circular,
}

/// The mode called `name`, if any.
pub open spec fn mode_named(name: Seq<char>) -> Option<ModeKind> {
    if name == "spectrum"@ {
        Some(ModeKind::Spectrum)
    } else if name == "waveform"@ {
        Some(ModeKind::Waveform)
    } else if name == "circular"@ {
        Some(ModeKind::Circular)
    } else {
        None
    }
}

impl ModeKind {
    /// The mode called `name` (`spectrum`, `waveform` or `circular`), if any.
    pub fn from_name(name: &str) -> (r: Option<ModeKind>)
        ensures
            r == mode_named(name@),
    {
        let given: String = name.to_owned();
        if given == "spectrum".to_owned() {
            Some(ModeKind::Spectrum)
        } else if given == "waveform".to_owned() {
            Some(ModeKind::Waveform)
        } else if given == "circular".to_owned() {
            Some(ModeKind::Circular)
        } else {
            None
        }
    }

    /// The mode's name.
    pub fn name(&self) -> (s: &'static str)
        ensures
            mode_named(s@) == Some(*self),
    {
        proof {
            reveal_strlit("spectrum");
            reveal_strlit("waveform");
            reveal_strlit("circular");
            assert("spectrum"@[0] != "waveform"@[0]);
            assert("spectrum"@[0] != "circular"@[0]);
            assert("waveform"@ != "circular"@);
        }
        match self {
            ModeKind::Spectrum => "spectrum",
            ModeKind::Waveform => "waveform",
            ModeKind::Circular => "circular",
        }
    }
}

/// Vertical bars, one per frequency band.
pub struct SpectrumBarsMode;

impl SpectrumBarsMode {
    /// The bars mode.
    pub fn new() -> (m: SpectrumBarsMode)
        ensures
            m == SpectrumBarsMode,
    {
        SpectrumBarsMode
    }

    /// The mode's name.
    pub fn name(&self) -> (s: &'static str)
        ensures
            s@ == "spectrum"@,
    {
        "spectrum"
    }

    /// The glyph at row `position` of a bar `height` rows tall on a canvas
    /// `max_height` rows tall: a full block for the bottom `height` rows, else a space.
    pub fn get_block_char(position: usize, height: usize, max_height: usize) -> (c: char)
        requires
            height <= max_height,
            position < max_height,
        ensures
            c == block_glyph(position as nat, height as nat, max_height as nat),
    {
        if position >= max_height - height {
            let relative_pos = max_height - position - 1;
            if relative_pos < height {
                FULL_BLOCK
            } else {
                ' '
            }
        } else {
            ' '
        }
    }

    /// Draws one bar per band, left to right, for as many bands as the canvas has
    /// columns. Band `i` is `heights[i]` rows tall, in `colors[i]`; all bars share
    /// the width evenly and columns left over keep their cells.
    pub fn draw(
        &self,
        heights: &Vec<usize>,
        colors: &Vec<Color>,
        show_peaks: bool,
        canvas: &mut Canvas,
    )
        requires
            old(canvas).wf(),
            colors@.len() == heights@.len(),
            forall|i: int| 0 <= i < heights@.len() ==> heights@[i] <= old(canvas).height_spec(),
        ensures
            final(canvas).wf(),
            final(canvas).width_spec() == old(canvas).width_spec(),
            final(canvas).height_spec() == old(canvas).height_spec(),
            forall|y: int, x: int|
                0 <= y < old(canvas).height_spec() && 0 <= x < old(canvas).width_spec()
                    ==> #[trigger] final(canvas)@[y][x] == bars_cell(
                    heights@,
                    colors@,
                    show_peaks,
                    old(canvas).width_spec(),
                    old(canvas).height_spec(),
                    old(canvas)@[y][x],
                    x,
                    y,
                ),
    {
        let width = canvas.width();
        let rows = canvas.height();
        if heights.len() == 0 || width == 0 || rows == 0 {
            return;
        }
        let n: usize = if heights.len() <= width {
            heights.len()
        } else {
            width
        };
        let bw: usize = width / n;
        assert(n * bw <= width) by (nonlinear_arith)
            requires
                bw == width / n,
                n > 0,
        ;
        let span: usize = n * bw;
        let ghost before = canvas@;
        let mut y: usize = 0;
        while y < rows
            invariant
                canvas.wf(),
                canvas.width_spec() == width,
                canvas.height_spec() == rows,
                old(canvas).width_spec() == width,
                old(canvas).height_spec() == rows,
                before == old(canvas)@,
                old(canvas).wf(),
                0 < n <= heights@.len(),
                n == bar_count(heights@.len(), width as nat),
                bw == bar_width(heights@.len(), width as nat),
                span == n * bw,
                span <= width,
                y <= rows,
                colors@.len() == heights@.len(),
                forall|i: int| 0 <= i < heights@.len() ==> heights@[i] <= rows,
                forall|yy: int, xx: int|
                    0 <= yy < rows && 0 <= xx < width ==> #[trigger] canvas@[yy][xx] == if yy < y {
                        bars_cell(heights@, colors@, show_peaks, width as nat, rows as nat, before[yy][xx], xx, yy)
                    } else {
                        before[yy][xx]
                    },
            decreases rows - y,
        {
            let mut x: usize = 0;
            while x < span
                invariant
                    canvas.wf(),
                    canvas.width_spec() == width,
                    canvas.height_spec() == rows,
                    before == old(canvas)@,
                    0 < n <= heights@.len(),
                    n == bar_count(heights@.len(), width as nat),
                    bw == bar_width(heights@.len(), width as nat),
                    span == n * bw,
                    span <= width,
                    y < rows,
                    x <= span,
                    colors@.len() == heights@.len(),
                    forall|i: int| 0 <= i < heights@.len() ==> heights@[i] <= rows,
                    forall|yy: int, xx: int|
                        0 <= yy < rows && 0 <= xx < width ==> #[trigger] canvas@[yy][xx] == if yy < y || (yy == y
                            && xx < x) {
                            bars_cell(heights@, colors@, show_peaks, width as nat, rows as nat, before[yy][xx], xx, yy)
                        } else {
                            before[yy][xx]
                        },
                decreases span - x,
            {
                let i: usize = x / bw;
                assert(i < n) by (nonlinear_arith)
                    requires
                        i == x / bw,
                        x < span,
                        span == n * bw,
                        bw > 0,
                ;
                let h = heights[i];
                let color = colors[i];
                let glyph: char = if show_peaks && h < rows && y == rows - h - 1 {
                    PEAK_DOT
                } else if h >= rows - y {
                    FULL_BLOCK
                } else {
                    ' '
                };
                let ghost prev = canvas@;
                canvas.set_cell(x, y, Cell::new(glyph, color));
                assert forall|yy: int, xx: int| 0 <= yy < rows && 0 <= xx < width implies #[trigger] canvas@[yy][xx] == if yy < y || (
                    yy == y && xx < x + 1) {
                    bars_cell(heights@, colors@, show_peaks, width as nat, rows as nat, before[yy][xx], xx, yy)
                } else {
                    before[yy][xx]
                } by {
                    if yy == y && xx == x {
                        assert(canvas@[yy][xx] == (Cell { character: glyph, color }));
                    } else {
                        assert(canvas@[yy][xx] == prev[yy][xx]);
                    }
                }
                x = x + 1;
            }
            y = y + 1;
        }
    }
}

/// Horizontal line glyph of the waveform's center line.
pub const CENTER_LINE: char = '\u{2500}';

/// Vertical line glyph joining neighbouring points of the waveform.
pub const TRACE_LINE: char = '\u{2502}';

/// The cell the waveform trace puts at column `x`, row `y`, if any: the trace
/// point of column 0, a vertical line spanning the rows of each later column's
/// point and its left neighbour's, and the dark grey center line at row `center`
/// where the trace leaves it free.
pub open spec fn trace_cell(ys: Seq<usize>, center: int, color: Color, x: int, y: int) -> Option<Cell> {
    if x == 0 && y == ys[0] {
        Some(Cell { character: DISC, color })
    } else if x > 0 && min_usize(ys[x - 1], ys[x]) <= y <= max_usize(ys[x - 1], ys[x]) {
        Some(Cell { character: TRACE_LINE, color })
    } else if y == center {
        Some(Cell { character: CENTER_LINE, color: Color::DarkGrey })
    } else {
        None
    }
}

/// The smaller of two rows.
pub open spec fn min_usize(a: usize, b: usize) -> int {
    if a <= b {
        a as int
    } else {
        b as int
    }
}

/// The larger of two rows.
pub open spec fn max_usize(a: usize, b: usize) -> int {
    if a >= b {
        a as int
    } else {
        b as int
    }
}

/// Draws a waveform trace whose point in column `x` is at row `ys[x]`, in
/// `color`, over a dark grey center line at half the canvas height.
pub fn draw_trace(ys: &Vec<usize>, color: Color, canvas: &mut Canvas)
    requires
        old(canvas).wf(),
        ys@.len() == old(canvas).width_spec(),
        forall|i: int| 0 <= i < ys@.len() ==> ys@[i] < old(canvas).height_spec(),
    ensures
        final(canvas).wf(),
        final(canvas).width_spec() == old(canvas).width_spec(),
        final(canvas).height_spec() == old(canvas).height_spec(),
        forall|y: int, x: int|
            0 <= y < old(canvas).height_spec() && 0 <= x < old(canvas).width_spec()
                ==> #[trigger] final(canvas)@[y][x] == match trace_cell(
                ys@,
                (old(canvas).height_spec() / 2) as int,
                color,
                x,
                y,
            ) {
                Some(c) => c,
                None => old(canvas)@[y][x],
            },
{
    let width = canvas.width();
    let rows = canvas.height();
    let center = rows / 2;
    let ghost before = canvas@;
    let mut y: usize = 0;
    while y < rows
        invariant
            canvas.wf(),
            canvas.width_spec() == width,
            canvas.height_spec() == rows,
            old(canvas).width_spec() == width,
            old(canvas).height_spec() == rows,
            before == old(canvas)@,
            center == rows / 2,
            y <= rows,
            ys@.len() == width,
            forall|yy: int, xx: int|
                0 <= yy < rows && 0 <= xx < width ==> #[trigger] canvas@[yy][xx] == if yy < y {
                    match trace_cell(ys@, center as int, color, xx, yy) {
                        Some(c) => c,
                        None => before[yy][xx],
                    }
                } else {
                    before[yy][xx]
                },
        decreases rows - y,
    {
        let mut x: usize = 0;
        while x < width
            invariant
                canvas.wf(),
                canvas.width_spec() == width,
                canvas.height_spec() == rows,
                before == old(canvas)@,
                center == rows / 2,
                y < rows,
                x <= width,
                ys@.len() == width,
                forall|yy: int, xx: int|
                    0 <= yy < rows && 0 <= xx < width ==> #[trigger] canvas@[yy][xx] == if yy < y || (yy == y
                        && xx < x) {
                        match trace_cell(ys@, center as int, color, xx, yy) {
                            Some(c) => c,
                            None => before[yy][xx],
                        }
                    } else {
                        before[yy][xx]
                    },
            decreases width - x,
        {
            let here = ys[x];
            let (low, high): (usize, usize) = if x > 0 {
                let left = ys[x - 1];
                if left <= here {
                    (left, here)
                } else {
                    (here, left)
                }
            } else {
                (here, here)
            };
            let glyph: Option<Cell> = if x == 0 && y == here {
                Some(Cell::new(DISC, color))
            } else if x > 0 && low <= y && y <= high {
                Some(Cell::new(TRACE_LINE, color))
            } else if y == center {
                Some(Cell::new(CENTER_LINE, Color::DarkGrey))
            } else {
                None
            };
            assert(glyph == trace_cell(ys@, center as int, color, x as int, y as int));
            let ghost prev = canvas@;
            if let Some(cell) = glyph {
                canvas.set_cell(x, y, cell);
            }
            assert forall|yy: int, xx: int| 0 <= yy < rows && 0 <= xx < width implies #[trigger] canvas@[yy][xx] == if yy < y || (
                yy == y && xx < x + 1) {
                match trace_cell(ys@, center as int, color, xx, yy) {
                    Some(c) => c,
                    None => before[yy][xx],
                }
            } else {
                before[yy][xx]
            } by {
                if !(yy == y && xx == x) {
                    assert(canvas@[yy][xx] == prev[yy][xx]);
                }
            }
            x = x + 1;
        }
        y = y + 1;
    }
}

/// Spectrum drawn as spokes around a hub.
pub struct CircularMode;

/// The hub glyph at offset `(dx, dy)` from the center, columns counting half as
/// much as rows: a disc within distance 2, a ring out to distance 3, nothing beyond.
pub open spec fn hub_glyph(dx: int, dy: int) -> Option<char> {
    let d4 = dx * dx + 4 * (dy * dy);
    if d4 < 16 {
        Some(DISC)
    } else if d4 <= 36 {
        Some(RING)
    } else {
        None
    }
}

/// The cell at column `x`, row `y` after drawing the hub centered at column
/// `cx`, row `cy` over a canvas holding `before`.
pub open spec fn hub_cell(before: Cell, cx: int, cy: int, x: int, y: int) -> Cell {
    let dx = x - cx;
    let dy = y - cy;
    if -6 <= dx <= 6 && -3 <= dy <= 3 && hub_glyph(dx, dy) is Some {
        Cell { character: hub_glyph(dx, dy)->0, color: Color::White }
    } else {
        before
    }
}

/// Whether the hub position at offset `(dx, dy)` comes before `(cur_dx, cur_dy)`
/// in row-major order.
pub open spec fn hub_done(dx: int, dy: int, cur_dx: int, cur_dy: int) -> bool {
    dy < cur_dy || (dy == cur_dy && dx < cur_dx)
}

/// The column or row `center + offset`, when it is on the canvas side `extent` long.
fn offset_position(center: usize, offset: i32, extent: usize) -> (r: Option<usize>)
    requires
        -6 <= offset <= 6,
    ensures
        r is Some <==> 0 <= center + offset < extent,
        r is Some ==> r->0 == center + offset,
{
    if offset >= 0 {
        let step = offset as usize;
        if center < extent && step < extent - center {
            Some(center + step)
        } else {
            None
        }
    } else {
        let step = (0 - offset) as usize;
        if step <= center && center - step < extent {
            Some(center - step)
        } else {
            None
        }
    }
}

impl CircularMode {
    /// The circular mode.
    pub fn new() -> (m: CircularMode)
        ensures
            m == CircularMode,
    {
        CircularMode
    }

    /// The mode's name.
    pub fn name(&self) -> (s: &'static str)
        ensures
            s@ == "circular"@,
    {
        "circular"
    }

    /// Draws the hub in white around the canvas center `(width / 2, height / 2)`:
    /// discs near the center, a ring around them; positions off the canvas are skipped.
    pub fn draw_hub(&self, canvas: &mut Canvas)
        requires
            old(canvas).wf(),
        ensures
            final(canvas).wf(),
            final(canvas).width_spec() == old(canvas).width_spec(),
            final(canvas).height_spec() == old(canvas).height_spec(),
            forall|y: int, x: int|
                0 <= y < old(canvas).height_spec() && 0 <= x < old(canvas).width_spec()
                    ==> #[trigger] final(canvas)@[y][x] == hub_cell(
                    old(canvas)@[y][x],
                    (old(canvas).width_spec() / 2) as int,
                    (old(canvas).height_spec() / 2) as int,
                    x,
                    y,
                ),
    {
        let width = canvas.width();
        let rows = canvas.height();
        let cx = width / 2;
        let cy = rows / 2;
        let ghost before = canvas@;
        let mut dy: i32 = -3;
        while dy <= 3
            invariant
                canvas.wf(),
                canvas.width_spec() == width,
                canvas.height_spec() == rows,
                old(canvas).width_spec() == width,
                old(canvas).height_spec() == rows,
                before == old(canvas)@,
                cx == width / 2,
                cy == rows / 2,
                -3 <= dy <= 4,
                forall|yy: int, xx: int|
                    0 <= yy < rows && 0 <= xx < width ==> #[trigger] canvas@[yy][xx] == if hub_done(
                        xx - cx,
                        yy - cy,
                        -6,
                        dy as int,
                    ) {
                        hub_cell(before[yy][xx], cx as int, cy as int, xx, yy)
                    } else {
                        before[yy][xx]
                    },
            decreases 4 - dy,
        {
            let mut dx: i32 = -6;
            while dx <= 6
                invariant
                    canvas.wf(),
                    canvas.width_spec() == width,
                    canvas.height_spec() == rows,
                    before == old(canvas)@,
                    cx == width / 2,
                    cy == rows / 2,
                    -3 <= dy <= 3,
                    -6 <= dx <= 7,
                    forall|yy: int, xx: int|
                        0 <= yy < rows && 0 <= xx < width ==> #[trigger] canvas@[yy][xx] == if hub_done(
                            xx - cx,
                            yy - cy,
                            dx as int,
                            dy as int,
                        ) {
                            hub_cell(before[yy][xx], cx as int, cy as int, xx, yy)
                        } else {
                            before[yy][xx]
                        },
                decreases 7 - dx,
            {
                let ghost prev = canvas@;
                let glyph = Self::hub_glyph_at(dx, dy);
                let px = offset_position(cx, dx, width);
                let py = offset_position(cy, dy, rows);
                if let (Some(x), Some(y), Some(g)) = (px, py, glyph) {
                    canvas.set_cell(x, y, Cell::new(g, Color::White));
                }
                assert forall|yy: int, xx: int| 0 <= yy < rows && 0 <= xx < width implies #[trigger] canvas@[yy][xx]
                    == if hub_done(xx - cx, yy - cy, dx + 1, dy as int) {
                    hub_cell(before[yy][xx], cx as int, cy as int, xx, yy)
                } else {
                    before[yy][xx]
                } by {
                    if xx - cx == dx && yy - cy == dy {
                        if glyph is Some {
                            assert(canvas@[yy][xx] == (Cell { character: glyph->0, color: Color::White }));
                        } else {
                            assert(canvas@[yy][xx] == prev[yy][xx]);
                        }
                    } else {
                        assert(canvas@[yy][xx] == prev[yy][xx]);
                    }
                }
                dx = dx + 1;
            }
            assert forall|yy: int, xx: int| 0 <= yy < rows && 0 <= xx < width implies #[trigger] canvas@[yy][xx]
                == if hub_done(xx - cx, yy - cy, -6, dy + 1) {
                hub_cell(before[yy][xx], cx as int, cy as int, xx, yy)
            } else {
                before[yy][xx]
            } by {
                if hub_done(xx - cx, yy - cy, -6, dy + 1) && !hub_done(xx - cx, yy - cy, 7, dy as int) {
                    assert(hub_cell(before[yy][xx], cx as int, cy as int, xx, yy) == before[yy][xx]);
                }
            }
            dy = dy + 1;
        }
        assert forall|yy: int, xx: int| 0 <= yy < rows && 0 <= xx < width implies #[trigger] canvas@[yy][xx]
            == hub_cell(before[yy][xx], cx as int, cy as int, xx, yy) by {
            if !hub_done(xx - cx, yy - cy, -6, 4) {
                assert(!(-3 <= yy - cy <= 3 && -6 <= xx - cx <= 6));
            }
        }
    }

    /// The hub glyph at offset `dx` columns and `dy` rows from the center, for
    /// `-6 <= dx <= 6` and `-3 <= dy <= 3`.
    pub fn hub_glyph_at(dx: i32, dy: i32) -> (g: Option<char>)
        requires
            -6 <= dx <= 6,
            -3 <= dy <= 3,
        ensures
            g == hub_glyph(dx as int, dy as int),
    {
        assert(0 <= dx * dx <= 36 && 0 <= dy * dy <= 9) by (nonlinear_arith)
            requires
                -6 <= dx <= 6,
                -3 <= dy <= 3,
        ;
        let across: i32 = dx * dx;
        let down: i32 = dy * dy;
        let d4: i32 = across + 4 * down;
        if d4 < 16 {
            Some(DISC)
        } else if d4 <= 36 {
            Some(RING)
        } else {
            None
        }
    }
}

} // verus!
