//! Character frame buffer that visualizer modes draw into.

use vstd::prelude::*;

verus! {

/// Terminal foreground colors a cell can carry.
#[derive(Clone, Copy, Debug, PartialEq, Eq, Structural)]
pub enum Color {
    Reset,
    Black,
    DarkGrey,
    Red,
    DarkRed,
    Green,
    DarkGreen,
    Yellow,
    DarkYellow,
    Blue,
    DarkBlue,
    Magenta,
    DarkMagenta,
    Cyan,
    DarkCyan,
    White,
    Grey,
}

/// One character position of the canvas.
#[derive(Clone, Copy, Debug, PartialEq, Eq, Structural)]
pub struct Cell {
    pub character: char,
    pub color: Color,
}

/// A blank cell: a space in the terminal's default color.
pub open spec fn blank() -> Cell {
    Cell { character: ' ', color: Color::Reset }
}

/// A grid of `height` rows of `width` blank cells.
pub open spec fn blank_grid(width: nat, height: nat) -> Seq<Seq<Cell>> {
    Seq::new(height, |y: int| Seq::new(width, |x: int| blank()))
}

impl Cell {
    /// A cell showing `character` in `color`.
    pub fn new(character: char, color: Color) -> (c: Cell)
        ensures
            c == (Cell { character, color }),
    {
        Cell { character, color }
    }

    /// A blank cell.
    pub fn empty() -> (c: Cell)
        ensures
            c == blank(),
    {
        Cell { character: ' ', color: Color::Reset }
    }
}

/// A frame of `height` rows of `width` cells, row `y` holding columns `0 .. width`.
#[derive(Debug)]
pub struct Canvas {
    width: usize,
    height: usize,
    buffer: Vec<Vec<Cell>>,
}

/// A row of `width` blank cells.
fn blank_row(width: usize) -> (row: Vec<Cell>)
    ensures
        row@ == Seq::new(width as nat, |x: int| blank()),
{
    let mut row: Vec<Cell> = Vec::with_capacity(width);
    let mut x: usize = 0;
    while x < width
        invariant
            x <= width,
            row@ =~= Seq::new(x as nat, |i: int| blank()),
        decreases width - x,
    {
        row.push(Cell::empty());
        x = x + 1;
    }
    row
}

/// A grid of blank rows.
fn blank_buffer(width: usize, height: usize) -> (buffer: Vec<Vec<Cell>>)
    ensures
        buffer@.len() == height,
        forall|y: int| 0 <= y < height ==> (#[trigger] buffer@[y])@ == blank_grid(width as nat, height as nat)[y],
{
    let mut buffer: Vec<Vec<Cell>> = Vec::with_capacity(height);
    let mut y: usize = 0;
    while y < height
        invariant
            y <= height,
            buffer@.len() == y,
            forall|k: int| 0 <= k < y ==> (#[trigger] buffer@[k])@ == blank_grid(width as nat, height as nat)[k],
        decreases height - y,
    {
        let row = blank_row(width);
        buffer.push(row);
        y = y + 1;
    }
    buffer
}

impl View for Canvas {
    type V = Seq<Seq<Cell>>;

    closed spec fn view(&self) -> Seq<Seq<Cell>> {
        Seq::new(self.buffer@.len(), |y: int| self.buffer@[y]@)
    }
}

impl Canvas {
    /// Width in columns.
    pub closed spec fn width_spec(&self) -> nat {
        self.width as nat
    }

    /// Height in rows.
    pub closed spec fn height_spec(&self) -> nat {
        self.height as nat
    }

    /// The grid has `height` rows of `width` cells.
    pub open spec fn wf(&self) -> bool {
        &&& self@.len() == self.height_spec()
        &&& forall|y: int| 0 <= y < self.height_spec() ==> (#[trigger] self@[y]).len() == self.width_spec()
    }

    /// A blank canvas of the given size.
    pub fn new(width: usize, height: usize) -> (c: Canvas)
        ensures
            c.wf(),
            c.width_spec() == width,
            c.height_spec() == height,
            c@ == blank_grid(width as nat, height as nat),
    {
        let buffer = blank_buffer(width, height);
        let c = Canvas { width, height, buffer };
        proof {
            assert(c@ =~= blank_grid(width as nat, height as nat));
        }
        c
    }

    /// Width in columns.
    pub fn width(&self) -> (w: usize)
        ensures
            w == self.width_spec(),
    {
        self.width
    }

    /// Height in rows.
    pub fn height(&self) -> (h: usize)
        ensures
            h == self.height_spec(),
    {
        self.height
    }

    /// Writes `cell` at column `x` of row `y`; a position off the canvas is ignored.
    pub fn set_cell(&mut self, x: usize, y: usize, cell: Cell)
        requires
            old(self).wf(),
        ensures
            final(self).wf(),
            final(self).width_spec() == old(self).width_spec(),
            final(self).height_spec() == old(self).height_spec(),
            x < old(self).width_spec() && y < old(self).height_spec() ==> final(self)@ == old(self)@.update(
                y as int,
                old(self)@[y as int].update(x as int, cell),
            ),
            !(x < old(self).width_spec() && y < old(self).height_spec()) ==> final(self)@ == old(self)@,
    {
        if x < self.width && y < self.height {
            assert(self@[y as int] == self.buffer@[y as int]@);
            self.buffer[y][x] = cell;
            proof {
                assert(self@ =~= old(self)@.update(y as int, old(self)@[y as int].update(x as int, cell)));
            }
        }
    }

    /// The cell at column `x` of row `y`, or `None` off the canvas.
    pub fn get_cell(&self, x: usize, y: usize) -> (c: Option<&Cell>)
        requires
            self.wf(),
        ensures
            x < self.width_spec() && y < self.height_spec() ==> c == Some(&self@[y as int][x as int]),
            !(x < self.width_spec() && y < self.height_spec()) ==> c is None,
    {
        if x < self.width && y < self.height {
            assert(self@[y as int] == self.buffer@[y as int]@);
            Some(&self.buffer[y][x])
        } else {
            None
        }
    }

    /// Blanks every cell.
    pub fn clear(&mut self)
        requires
            old(self).wf(),
        ensures
            final(self).wf(),
            final(self).width_spec() == old(self).width_spec(),
            final(self).height_spec() == old(self).height_spec(),
            final(self)@ == blank_grid(old(self).width_spec(), old(self).height_spec()),
    {
        self.buffer = blank_buffer(self.width, self.height);
        proof {
            assert(self@ =~= blank_grid(old(self).width_spec(), old(self).height_spec()));
        }
    }

    /// Changes the size; every cell is blank afterwards.
    pub fn resize(&mut self, width: usize, height: usize)
        ensures
            final(self).wf(),
            final(self).width_spec() == width,
            final(self).height_spec() == height,
            final(self)@ == blank_grid(width as nat, height as nat),
    {
        self.width = width;
        self.height = height;
        self.buffer = blank_buffer(width, height);
        proof {
            assert(self@ =~= blank_grid(width as nat, height as nat));
        }
    }

    /// The rows of the canvas, top first.
    pub fn buffer(&self) -> (b: &Vec<Vec<Cell>>)
        ensures
            b@.len() == self@.len(),
            forall|y: int| 0 <= y < b@.len() ==> (#[trigger] b@[y])@ == self@[y],
    {
        &self.buffer
    }
}

} // verus!
