use vstd::prelude::*;

verus! {

/// Number of columns of the text display.
pub const BUFFER_WIDTH: usize = 80;

/// Number of rows of the text display.
pub const BUFFER_HEIGHT: usize = 25;

// Color indices of the 16-color text display.
pub const BLACK: u8 = 0;
pub const GREEN: u8 = 2;
pub const CYAN: u8 = 3;
pub const RED: u8 = 4;
pub const LIGHT_GRAY: u8 = 7;
pub const PINK: u8 = 13;
pub const WHITE: u8 = 15;

/// Foreground color that marks a collectible cell.
pub const COLLECTIBLE_COLOR: u8 = PINK;

/// Background color that marks a hazard cell.
pub const HAZARD_COLOR: u8 = BLACK;

/// Color of the player marker.
pub const MARKER_COLOR: u8 = RED;

/// One character cell of the display: a glyph byte and two color indices.
#[derive(Clone, Copy, PartialEq, Eq, Structural, Debug)]
pub struct Cell {
    pub glyph: u8,
    pub foreground: u8,
    pub background: u8,
}

/// What a cell means to the game.
#[derive(Clone, Copy, PartialEq, Eq, Structural, Debug)]
pub enum CellKind {
    Collectible,
    Hazard,
    Decoration,
}

/// Classification of a cell by its colors: collectible first, then hazard.
pub open spec fn kind_of(c: Cell) -> CellKind {
    if c.foreground == COLLECTIBLE_COLOR {
        CellKind::Collectible
    } else if c.background == HAZARD_COLOR {
        CellKind::Hazard
    } else {
        CellKind::Decoration
    }
}

/// Classifies a cell by its colors.
pub fn classify(c: Cell) -> (r: CellKind)
    ensures
        r == kind_of(c),
{
    if c.foreground == COLLECTIBLE_COLOR {
        CellKind::Collectible
    } else if c.background == HAZARD_COLOR {
        CellKind::Hazard
    } else {
        CellKind::Decoration
    }
}

/// Position of cell `(col, row)` in the row-major cell sequence.
pub open spec fn cell_index(col: int, row: int) -> int {
    row * BUFFER_WIDTH + col
}

/// The cell at `(col, row)` of a screen given as its row-major cells.
pub open spec fn cell_at(s: Seq<Cell>, col: int, row: int) -> Cell {
    s[cell_index(col, row)]
}

/// Whether `(col, row)` lies on the display.
pub open spec fn on_screen(col: int, row: int) -> bool {
    0 <= col < BUFFER_WIDTH && 0 <= row < BUFFER_HEIGHT
}

/// The cell of a freshly started display: a blank on black.
pub open spec fn blank_cell() -> Cell {
    Cell { glyph: 32, foreground: LIGHT_GRAY, background: BLACK }
}

/// Every cell of the display has a position in the cell sequence.
pub proof fn lemma_cell_index(col: int, row: int)
    requires
        on_screen(col, row),
    ensures
        0 <= cell_index(col, row) < BUFFER_WIDTH * BUFFER_HEIGHT,
{
}

/// Distinct cells have distinct positions.
pub proof fn lemma_cell_index_injective(c1: int, r1: int, c2: int, r2: int)
    requires
        on_screen(c1, r1),
        on_screen(c2, r2),
    ensures
        (cell_index(c1, r1) == cell_index(c2, r2)) <==> (c1 == c2 && r1 == r2),
{
    if cell_index(c1, r1) == cell_index(c2, r2) {
        if r1 < r2 {
            assert(r1 * 80 + 80 <= r2 * 80) by (nonlinear_arith)
                requires
                    r1 < r2,
            ;
        } else if r2 < r1 {
            assert(r2 * 80 + 80 <= r1 * 80) by (nonlinear_arith)
                requires
                    r2 < r1,
            ;
        }
    }
}

/// Number of cells of the text display.
pub const SCREEN_CELLS: usize = BUFFER_WIDTH * BUFFER_HEIGHT;

/// The text display as a grid of cells, written and read by coordinates.
#[derive(Clone, Copy, PartialEq, Eq, Debug)]
pub struct Screen {
    cells: [Cell; SCREEN_CELLS],
}

impl View for Screen {
    type V = Seq<Cell>;

    closed spec fn view(&self) -> Seq<Cell> {
        self.cells@
    }
}

impl Screen {
    pub open spec fn wf(&self) -> bool {
        self@.len() == BUFFER_WIDTH * BUFFER_HEIGHT
    }

    /// A display with every cell blank.
    pub fn new() -> (r: Screen)
        ensures
            r.wf(),
            forall|col: int, row: int|
                on_screen(col, row) ==> #[trigger] cell_at(r@, col, row) == blank_cell(),
    {
        let r = Screen { cells: [Cell { glyph: 32, foreground: LIGHT_GRAY, background: BLACK }; SCREEN_CELLS] };
        proof {
            assert forall|col: int, row: int| on_screen(col, row) implies #[trigger] cell_at(
                r@,
                col,
                row,
            ) == blank_cell() by {
                lemma_cell_index(col, row);
            }
        }
        r
    }

    /// The cell at `(col, row)`.
    pub fn peek(&self, col: usize, row: usize) -> (r: Cell)
        requires
            self.wf(),
            col < BUFFER_WIDTH,
            row < BUFFER_HEIGHT,
        ensures
            r == cell_at(self@, col as int, row as int),
    {
        proof {
            lemma_cell_index(col as int, row as int);
        }
        self.cells[row * BUFFER_WIDTH + col]
    }

    /// Writes `glyph` with the given colors at `(col, row)`.
    pub fn plot(&mut self, glyph: u8, col: usize, row: usize, foreground: u8, background: u8)
        requires
            old(self).wf(),
            col < BUFFER_WIDTH,
            row < BUFFER_HEIGHT,
        ensures
            final(self).wf(),
            final(self)@ == old(self)@.update(
                cell_index(col as int, row as int),
                Cell { glyph, foreground, background },
            ),
    {
        proof {
            lemma_cell_index(col as int, row as int);
        }
        self.cells[row * BUFFER_WIDTH + col] = Cell { glyph, foreground, background };
    }
}

/// Column and row of position `k` of the row-major cell sequence.
pub open spec fn col_of(k: int) -> usize {
    (k % BUFFER_WIDTH as int) as usize
}

pub open spec fn row_of(k: int) -> usize {
    (k / BUFFER_WIDTH as int) as usize
}

/// A screen built cell by cell from a function of the coordinates.
pub open spec fn build_screen(f: spec_fn(usize, usize) -> Cell) -> Seq<Cell> {
    Seq::new((BUFFER_WIDTH * BUFFER_HEIGHT) as nat, |k: int| f(col_of(k), row_of(k)))
}

/// Position `k` of the cell sequence is the cell at its column and row.
pub proof fn lemma_index_coords(k: int)
    requires
        0 <= k < BUFFER_WIDTH * BUFFER_HEIGHT,
    ensures
        on_screen(col_of(k) as int, row_of(k) as int),
        cell_index(col_of(k) as int, row_of(k) as int) == k,
{
    vstd::arithmetic::div_mod::lemma_fundamental_div_mod(k, BUFFER_WIDTH as int);
    vstd::arithmetic::div_mod::lemma_div_pos_is_pos(k, BUFFER_WIDTH as int);
    vstd::arithmetic::div_mod::lemma_div_is_ordered(k, (BUFFER_WIDTH * BUFFER_HEIGHT - 1) as int, BUFFER_WIDTH as int);
    assert((BUFFER_WIDTH * BUFFER_HEIGHT - 1) as int / BUFFER_WIDTH as int == BUFFER_HEIGHT - 1);
}

/// The cell at a column and row sits at a position that maps back to them.
pub proof fn lemma_coords_index(col: int, row: int)
    requires
        on_screen(col, row),
    ensures
        col_of(cell_index(col, row)) == col,
        row_of(cell_index(col, row)) == row,
        0 <= cell_index(col, row) < BUFFER_WIDTH * BUFFER_HEIGHT,
{
    vstd::arithmetic::div_mod::lemma_fundamental_div_mod_converse(
        cell_index(col, row),
        BUFFER_WIDTH as int,
        row,
        col,
    );
}

} // verus!
