//! The canvas: a fixed grid of accumulator values, one per cell.

use vstd::prelude::*;

verus! {

/// Number of columns.
pub const WIDTH: usize = 32;

/// Number of rows.
pub const HEIGHT: usize = 32;

/// Number of cells.
pub const CELLS: usize = WIDTH * HEIGHT;

/// The linear index of the cell in column `x` and row `y`.
pub open spec fn cell_index(x: int, y: int) -> int {
    y * (WIDTH as int) + x
}

/// What a blank canvas holds: positive zero in every cell.
pub open spec fn blank_cells() -> Seq<u64> {
    Seq::new(CELLS as nat, |i: int| 0u64)
}

/// What is known of a cell when its next value is computed: its linear
/// index, its column and row, and the value it holds.
#[derive(Clone, Copy, Debug)]
pub struct Cell {
    pub i: u32,
    pub x: u32,
    pub y: u32,
    pub a: u64,
}

/// The cell in column `x` and row `y` of a canvas that holds `cells`.
pub open spec fn cell_at(cells: Seq<u64>, x: int, y: int) -> Cell {
    Cell { i: cell_index(x, y) as u32, x: x as u32, y: y as u32, a: cells[cell_index(x, y)] }
}

/// Whether the grid has a cell in column `x` and row `y`.
pub open spec fn on_grid(x: int, y: int) -> bool {
    0 <= x < WIDTH && 0 <= y < HEIGHT
}

/// Whether the cell in column `p` and row `q` is computed before the one
/// in column `x` and row `y`: cells are taken column by column, and down
/// each column.
pub open spec fn comes_before(p: int, q: int, x: int, y: int) -> bool {
    p < x || (p == x && q < y)
}

/// Whether `eval` can give `value` for `cell`.
pub open spec fn can_give<E, F: Fn(Cell) -> Result<u64, E>>(eval: F, cell: Cell, value: u64) -> bool {
    eval.ensures((cell,), Ok(value))
}

/// Whether `eval`, taken over the cells of a canvas that holds `cells`, can
/// fail first at the cell in column `x` and row `y`, with `error`: it can
/// give that error there, and a value for each cell before.
pub open spec fn fails_first_at<E, F: Fn(Cell) -> Result<u64, E>>(
    cells: Seq<u64>,
    eval: F,
    error: E,
    x: int,
    y: int,
) -> bool {
    &&& eval.ensures((cell_at(cells, x, y),), Err(error))
    &&& forall|p: int, q: int|
        on_grid(p, q) && #[trigger] comes_before(p, q, x, y) ==> exists|value: u64| #[trigger]
            can_give(eval, cell_at(cells, p, q), value)
}

/// A grid of `WIDTH` by `HEIGHT` doubles, each held as its bit pattern and
/// stored row by row.
#[derive(Debug)]
pub struct Canvas(pub Vec<u64>);

impl View for Canvas {
    type V = Seq<u64>;

    open spec fn view(&self) -> Seq<u64> {
        self.0@
    }
}

impl Clone for Canvas {
    fn clone(&self) -> (copy: Self)
        ensures
            copy@ == self@,
    {
        Canvas(self.0.clone())
    }
}

impl Canvas {
    /// A canvas has one value per cell.
    pub open spec fn wf(&self) -> bool {
        self@.len() == CELLS
    }

    /// Make a new blank canvas.
    pub fn new() -> (canvas: Self)
        ensures
            canvas.wf(),
            canvas@ == blank_cells(),
    {
        let canvas = Canvas(vec![0u64; CELLS]);
        assert(canvas@ =~= blank_cells());
        canvas
    }

    /// The linear index of the cell in column `x` and row `y`.
    pub fn index_of(x: usize, y: usize) -> (i: usize)
        requires
            x < WIDTH,
            y < HEIGHT,
        ensures
            i == cell_index(x as int, y as int),
            i < CELLS,
    {
        y * WIDTH + x
    }

    /// The column and row of the cell with linear index `i`.
    pub fn position_of(i: usize) -> (at: (usize, usize))
        requires
            i < CELLS,
        ensures
            at.0 < WIDTH,
            at.1 < HEIGHT,
            cell_index(at.0 as int, at.1 as int) == i,
    {
        (i % WIDTH, i / WIDTH)
    }

    /// The value of the cell with linear index `i`.
    pub fn get(&self, i: usize) -> (value: u64)
        requires
            self.wf(),
            i < CELLS,
        ensures
            value == self@[i as int],
    {
        self.0[i]
    }

    /// Takes in the outcome of evaluating the cell with linear index `i`:
    /// a value is stored in that cell, a failure leaves every cell as it was
    /// and is handed back.
    pub fn record<E>(&mut self, i: usize, outcome: Result<u64, E>) -> (failure: Option<E>)
        requires
            old(self).wf(),
            i < CELLS,
        ensures
            final(self).wf(),
            match outcome {
                Ok(value) => failure is None && final(self)@ == old(self)@.update(i as int, value),
                Err(error) => failure == Some(error) && final(self)@ == old(self)@,
            },
    {
        match outcome {
            Ok(value) => {
                self.0[i] = value;
                None
            },
            Err(error) => Some(error),
        }
    }

    /// Computes the next canvas: `eval` is called once for each cell,
    /// column by column and down each column, always with the value that
    /// the cell holds on this canvas, and what it returns is the cell's next
    /// value. The first failure ends the pass and is handed back; the cells
    /// computed so far are dropped, and this canvas is never written to.
    pub fn try_map<E, F: Fn(Cell) -> Result<u64, E>>(&self, eval: F) -> (outcome: Result<Canvas, E>)
        requires
            self.wf(),
            forall|x: int, y: int|
                0 <= x < WIDTH && 0 <= y < HEIGHT ==> eval.requires(
                    (#[trigger] cell_at(self@, x, y),),
                ),
        ensures
            outcome matches Ok(next) ==> {
                &&& next.wf()
                &&& forall|x: int, y: int|
                    0 <= x < WIDTH && 0 <= y < HEIGHT ==> eval.ensures(
                        (cell_at(self@, x, y),),
                        Ok(next@[#[trigger] cell_index(x, y)]),
                    )
            },
            outcome matches Err(error) ==> exists|x: int, y: int| #[trigger]
                on_grid(x, y) && fails_first_at(self@, eval, error, x, y),
    {
        let mut next = self.clone();
        let mut x: usize = 0;
        while x < WIDTH
            invariant
                x <= WIDTH,
                self.wf(),
                next.wf(),
                forall|p: int, q: int|
                    0 <= p < WIDTH && 0 <= q < HEIGHT ==> eval.requires(
                        (#[trigger] cell_at(self@, p, q),),
                    ),
                forall|p: int, q: int|
                    0 <= p < x && 0 <= q < HEIGHT ==> eval.ensures(
                        (cell_at(self@, p, q),),
                        Ok(next@[#[trigger] cell_index(p, q)]),
                    ),
            decreases WIDTH - x,
        {
            let mut y: usize = 0;
            while y < HEIGHT
                invariant
                    x < WIDTH,
                    y <= HEIGHT,
                    self.wf(),
                    next.wf(),
                    forall|p: int, q: int|
                        0 <= p < WIDTH && 0 <= q < HEIGHT ==> eval.requires(
                            (#[trigger] cell_at(self@, p, q),),
                        ),
                    forall|p: int, q: int|
                        0 <= q < HEIGHT && (0 <= p < x || (p == x && q < y)) ==> eval.ensures(
                            (cell_at(self@, p, q),),
                            Ok(next@[#[trigger] cell_index(p, q)]),
                        ),
                decreases HEIGHT - y,
            {
                let i = Canvas::index_of(x, y);
                let cell = Cell { i: i as u32, x: x as u32, y: y as u32, a: self.get(i) };
                assert(cell == cell_at(self@, x as int, y as int));
                let computed = eval(cell);
                match next.record(i, computed) {
                    Some(error) => {
                        proof {
                            assert forall|p: int, q: int|
                                0 <= p < WIDTH && 0 <= q < HEIGHT && #[trigger] comes_before(
                                    p,
                                    q,
                                    x as int,
                                    y as int,
                                ) implies exists|value: u64| #[trigger]
                                can_give(eval, cell_at(self@, p, q), value) by {
                                assert(can_give(
                                    eval,
                                    cell_at(self@, p, q),
                                    next@[cell_index(p, q)],
                                ));
                            }
                            assert(on_grid(x as int, y as int) && fails_first_at(
                                self@,
                                eval,
                                error,
                                x as int,
                                y as int,
                            ));
                        }
                        return Err(error);
                    },
                    None => {},
                }
                y += 1;
            }
            x += 1;
        }
        Ok(next)
    }

    /// One step of the animation. Where `try_map` gives the next canvas, it
    /// takes this one's place. Where a cell fails, this canvas keeps every
    /// value it had, and the failure is handed back.
    pub fn advance<E, F: Fn(Cell) -> Result<u64, E>>(&mut self, eval: F) -> (failure: Option<E>)
        requires
            old(self).wf(),
            forall|x: int, y: int|
                0 <= x < WIDTH && 0 <= y < HEIGHT ==> eval.requires(
                    (#[trigger] cell_at(old(self)@, x, y),),
                ),
        ensures
            final(self).wf(),
            failure is None ==> forall|x: int, y: int|
                0 <= x < WIDTH && 0 <= y < HEIGHT ==> eval.ensures(
                    (cell_at(old(self)@, x, y),),
                    Ok(final(self)@[#[trigger] cell_index(x, y)]),
                ),
            failure is Some ==> final(self)@ == old(self)@,
            failure matches Some(error) ==> exists|x: int, y: int| #[trigger]
                on_grid(x, y) && fails_first_at(old(self)@, eval, error, x, y),
    {
        match self.try_map(eval) {
            Ok(next) => {
                *self = next;
                None
            },
            Err(error) => Some(error),
        }
    }
}

/// Distinct cells of the grid have distinct linear indices, and every linear
/// index below `CELLS` belongs to exactly one cell.
pub proof fn cell_index_is_one_to_one(x1: int, y1: int, x2: int, y2: int)
    requires
        0 <= x1 < WIDTH,
        0 <= y1 < HEIGHT,
        0 <= x2 < WIDTH,
        0 <= y2 < HEIGHT,
        cell_index(x1, y1) == cell_index(x2, y2),
    ensures
        x1 == x2,
        y1 == y2,
{
}

/// Every cell of the grid has a linear index below `CELLS`, and the column
/// and row are found again from it by remainder and quotient.
pub proof fn cell_index_round_trip(x: int, y: int)
    requires
        0 <= x < WIDTH,
        0 <= y < HEIGHT,
    ensures
        0 <= cell_index(x, y) < CELLS,
        cell_index(x, y) % (WIDTH as int) == x,
        cell_index(x, y) / (WIDTH as int) == y,
{
}

} // verus!
