//! The grid engine: cell states, neighbour resolution, pattern stamping and
//! the generation-advance (`tick`) algorithm.

use vstd::prelude::*;

verus! {

/// Result type of the fallible grid operations; errors are plain static
/// strings ("Invalid position", "No valid neighbor").
pub type Result<T> = std::result::Result<T, &'static str>;

#[derive(Debug, Clone)]
pub struct GridError;

/// The state of one cell: every cell is exactly Alive or Dead, with no
/// further metadata.
#[derive(Debug, Clone, Copy, PartialEq, Eq, Structural)]
pub enum CellState {
    Alive,
    Dead,
}

/// A transient (x, y) coordinate of one cell; x is the column, y the row.
#[derive(Debug)]
struct Point {
    x: usize,
    y: usize,
}

/// The eight compass directions of the Moore neighbourhood.
#[derive(Debug)]
enum Direction {
    TopLeft,
    Top,
    TopRight,
    Right,
    BottomRight,
    Bottom,
    BottomLeft,
    Left,
}

/// Horizontal offset of a one-cell step in the given direction.
spec fn direction_dx(d: Direction) -> int {
    match d {
        Direction::TopLeft => -1,
        Direction::Top => 0,
        Direction::TopRight => 1,
        Direction::Right => 1,
        Direction::BottomRight => 1,
        Direction::Bottom => 0,
        Direction::BottomLeft => -1,
        Direction::Left => -1,
    }
}

/// Vertical offset of a one-cell step in the given direction.
spec fn direction_dy(d: Direction) -> int {
    match d {
        Direction::TopLeft => -1,
        Direction::Top => -1,
        Direction::TopRight => -1,
        Direction::Right => 0,
        Direction::BottomRight => 1,
        Direction::Bottom => 1,
        Direction::BottomLeft => 1,
        Direction::Left => 0,
    }
}

/// How many entries of `s` are Alive.
pub open spec fn count_alive(s: Seq<CellState>) -> int
    decreases s.len(),
{
    if s.len() == 0 {
        0
    } else {
        count_alive(s.drop_last()) + if s.last() is Alive {
            1int
        } else {
            0int
        }
    }
}

/// A fixed-size rectangular grid of cells, indexed `state[row][column]`.
///
/// Well-formed grids (see [`Grid::wf`]) keep `state` at exactly `rows` rows
/// of exactly `columns` cells each, for the grid's whole lifetime.
#[derive(Debug)]
pub struct Grid {
    pub columns: usize,
    pub rows: usize,
    pub state: Vec<Vec<CellState>>,
}

impl Grid {
    /// The shape invariant: the state table is exactly rows x columns.
    pub open spec fn wf(self) -> bool {
        &&& self.state@.len() == self.rows
        &&& forall|i: int| 0 <= i < self.rows ==> self.state@[i]@.len() == self.columns
    }

    /// (x, y) names a cell of the grid.
    pub open spec fn in_bounds(self, x: int, y: int) -> bool {
        0 <= x < self.columns && 0 <= y < self.rows
    }

    /// The state of the cell at column x, row y.
    pub open spec fn cell(self, x: int, y: int) -> CellState {
        self.state@[y]@[x]
    }

    /// (x, y) lies strictly inside the outermost ring of rows and columns.
    /// Only interior cells ever see their neighbours.
    pub open spec fn interior(self, x: int, y: int) -> bool {
        1 <= x && x + 1 < self.columns && 1 <= y && y + 1 < self.rows
    }

    /// The cell at (x, y) is both interior and Alive.
    pub open spec fn alive_interior(self, x: int, y: int) -> bool {
        self.interior(x, y) && self.cell(x, y) is Alive
    }

    /// The states a cell sees in its eight neighbours, in the fixed
    /// enumeration order TopLeft, Top, TopRight, Right, BottomRight, Bottom,
    /// BottomLeft, Left. A cell on the outermost ring sees none at all, not
    /// even neighbours that lie inside the grid.
    pub open spec fn neighbor_states(self, x: int, y: int) -> Seq<CellState> {
        if self.interior(x, y) {
            seq![
                self.cell(x - 1, y - 1),
                self.cell(x, y - 1),
                self.cell(x + 1, y - 1),
                self.cell(x + 1, y),
                self.cell(x + 1, y + 1),
                self.cell(x, y + 1),
                self.cell(x - 1, y + 1),
                self.cell(x - 1, y),
            ]
        } else {
            Seq::empty()
        }
    }

    /// How many Alive neighbours the cell at (x, y) sees; 0 for every cell
    /// on the outermost ring.
    pub open spec fn alive_neighbor_count(self, x: int, y: int) -> int {
        count_alive(self.neighbor_states(x, y))
    }

    /// The cell at (x, y) is a Moore neighbour of some interior Alive cell,
    /// so a tick re-examines it for birth when it is Dead. Cells whose live
    /// neighbours all sit on the outermost ring are never re-examined.
    pub open spec fn rechecked(self, x: int, y: int) -> bool {
        ||| self.alive_interior(x - 1, y - 1)
        ||| self.alive_interior(x, y - 1)
        ||| self.alive_interior(x + 1, y - 1)
        ||| self.alive_interior(x + 1, y)
        ||| self.alive_interior(x + 1, y + 1)
        ||| self.alive_interior(x, y + 1)
        ||| self.alive_interior(x - 1, y + 1)
        ||| self.alive_interior(x - 1, y)
    }

    /// The state the cell at (x, y) holds after one generation advance:
    /// a live cell survives exactly when it sees two or three live
    /// neighbours; a dead cell is born exactly when it is re-examined and
    /// sees exactly three.
    pub open spec fn next_cell(self, x: int, y: int) -> CellState {
        let n = self.alive_neighbor_count(x, y);
        if self.cell(x, y) is Alive {
            if n < 2 || n > 3 {
                CellState::Dead
            } else {
                CellState::Alive
            }
        } else {
            if self.rechecked(x, y) && n == 3 {
                CellState::Alive
            } else {
                CellState::Dead
            }
        }
    }

    /// What the cell at column j, row i holds after stamping `pattern` at
    /// offset (x, y): the pattern value where (j, i) falls under some
    /// pattern row, the old cell everywhere else. Each pattern row is copied
    /// to its own length, so rows narrower or wider than the first are
    /// copied leniently, truncated at the grid's right edge.
    pub open spec fn stamp_cell(
        self,
        x: int,
        y: int,
        pattern: Seq<Vec<CellState>>,
        j: int,
        i: int,
    ) -> CellState {
        if y <= i < y + pattern.len() && x <= j && j - x < pattern[i - y]@.len() {
            pattern[i - y]@[j - x]
        } else {
            self.cell(j, i)
        }
    }

    /// A grid of the given dimensions with every cell Dead.
    pub fn new(columns: usize, rows: usize) -> (g: Grid)
        ensures
            g.wf(),
            g.columns == columns,
            g.rows == rows,
            forall|x: int, y: int| #![trigger g.cell(x, y)] g.in_bounds(x, y) ==> g.cell(x, y) is Dead,
    {
        let mut state: Vec<Vec<CellState>> = Vec::new();
        let mut y: usize = 0;
        while y < rows
            invariant
                y <= rows,
                state@.len() == y,
                forall|i: int| 0 <= i < y ==> state@[i]@.len() == columns,
                forall|i: int, j: int|
                    0 <= i < y && 0 <= j < columns ==> state@[i]@[j] is Dead,
            decreases rows - y,
        {
            let mut row: Vec<CellState> = Vec::new();
            let mut x: usize = 0;
            while x < columns
                invariant
                    x <= columns,
                    row@.len() == x,
                    forall|j: int| 0 <= j < x ==> row@[j] is Dead,
                decreases columns - x,
            {
                row.push(CellState::Dead);
                x += 1;
            }
            state.push(row);
            y += 1;
        }
        Grid { columns, rows, state }
    }

    /// Copies `pattern` cell by cell into the grid starting at offset
    /// (x, y), row-major. Bounds are validated before any write, against the
    /// pattern's row count and the width of its first row only; on a
    /// violation the call fails with "Invalid position" and the grid is left
    /// exactly as it was. Later rows are copied leniently to their own
    /// length, truncated at the grid's right edge.
    pub fn set_pattern(&mut self, x: usize, y: usize, pattern: Vec<Vec<CellState>>) -> (r: Result<
        (),
    >)
        requires
            old(self).wf(),
            pattern@.len() > 0,
        ensures
            final(self).wf(),
            final(self).columns == old(self).columns,
            final(self).rows == old(self).rows,
            (r is Err) <==> (y + pattern@.len() > old(self).rows || x + pattern@[0]@.len() > old(
                self,
            ).columns),
            r is Err ==> *final(self) == *old(self),
            r is Ok ==> forall|j: int, i: int| #![trigger final(self).cell(j, i)]
                old(self).in_bounds(j, i) ==> final(self).cell(j, i) == old(self).stamp_cell(
                    x as int,
                    y as int,
                    pattern@,
                    j,
                    i,
                ),
    {
        if pattern.len() > self.rows || y > self.rows - pattern.len() {
            return Err("Invalid position");
        }
        let width = pattern[0].len();
        if width > self.columns || x > self.columns - width {
            return Err("Invalid position");
        }
        let ghost g0 = *self;
        let mut i: usize = 0;
        while i < pattern.len()
            invariant
                self.wf(),
                self.columns == g0.columns,
                self.rows == g0.rows,
                g0.wf(),
                i <= pattern@.len(),
                y + pattern@.len() <= g0.rows,
                x <= g0.columns,
                forall|jj: int, ii: int|
                    g0.in_bounds(jj, ii) ==> self.cell(jj, ii) == (
                    if y <= ii < y + i && x <= jj && jj - x < pattern@[ii - y]@.len() {
                        pattern@[ii - y]@[jj - x]
                    } else {
                        g0.cell(jj, ii)
                    }),
            decreases pattern@.len() - i,
        {
            let row = &pattern[i];
            let avail = self.columns - x;
            let limit = if row.len() < avail {
                row.len()
            } else {
                avail
            };
            let mut j: usize = 0;
            while j < limit
                invariant
                    self.wf(),
                    self.columns == g0.columns,
                    self.rows == g0.rows,
                    g0.wf(),
                    i < pattern@.len(),
                    y + pattern@.len() <= g0.rows,
                    x <= g0.columns,
                    row == pattern@[i as int],
                    limit <= row@.len(),
                    x + limit <= g0.columns,
                    limit == if row@.len() < g0.columns - x {
                        row@.len() as int
                    } else {
                        g0.columns - x
                    },
                    j <= limit,
                    forall|jj: int, ii: int|
                        g0.in_bounds(jj, ii) ==> self.cell(jj, ii) == (
                        if (y <= ii < y + i && x <= jj && jj - x < pattern@[ii - y]@.len()) || (ii
                            == y + i && x <= jj < x + j) {
                            pattern@[ii - y]@[jj - x]
                        } else {
                            g0.cell(jj, ii)
                        }),
                decreases limit - j,
            {
                self.state[y + i][x + j] = row[j];
                j += 1;
            }
            i += 1;
        }
        Ok(())
    }

    /// Advances the grid one generation in place. The whole new generation
    /// is computed from the prior one before any cell changes (simultaneous
    /// update): a live cell is kept exactly when it sees two or three live
    /// neighbours, and a dead Moore neighbour of an interior live cell is
    /// born exactly when it sees three. The call never fails on a
    /// well-formed grid.
    pub fn tick(&mut self) -> (r: Result<()>)
        requires
            old(self).wf(),
        ensures
            r is Ok,
            final(self).wf(),
            final(self).columns == old(self).columns,
            final(self).rows == old(self).rows,
            forall|x: int, y: int| #![trigger final(self).cell(x, y)]
                old(self).in_bounds(x, y) ==> final(self).cell(x, y) == old(self).next_cell(x, y),
    {
        let ghost g0 = *self;
        let mut next_state: Vec<Vec<CellState>> = Vec::new();
        let mut y: usize = 0;
        while y < self.rows
            invariant
                *self == g0,
                g0.wf(),
                y <= g0.rows,
                next_state@.len() == y,
                forall|i: int| 0 <= i < y ==> next_state@[i]@.len() == g0.columns,
                forall|j: int, i: int|
                    0 <= i < y && 0 <= j < g0.columns ==> next_state@[i]@[j] == g0.next_cell(j, i),
            decreases g0.rows - y,
        {
            let mut row: Vec<CellState> = Vec::new();
            let mut x: usize = 0;
            while x < self.columns
                invariant
                    *self == g0,
                    g0.wf(),
                    y < g0.rows,
                    x <= g0.columns,
                    row@.len() == x,
                    forall|j: int| 0 <= j < x ==> row@[j] == g0.next_cell(j, y as int),
                decreases g0.columns - x,
            {
                let c = self.next_state_of(x, y);
                row.push(c);
                x += 1;
            }
            next_state.push(row);
            y += 1;
        }
        self.state = next_state;
        Ok(())
    }

    /// The state the cell at (x, y) takes in the next generation, read off
    /// the current one.
    fn next_state_of(&self, x: usize, y: usize) -> (c: CellState)
        requires
            self.wf(),
            x < self.columns,
            y < self.rows,
        ensures
            c == self.next_cell(x as int, y as int),
    {
        let position = Point { x, y };
        let n = self.get_alive_neighbor_count(&position);
        match self.state[y][x] {
            CellState::Alive => {
                if n < 2 || n > 3 {
                    CellState::Dead
                } else {
                    CellState::Alive
                }
            },
            CellState::Dead => {
                if n == 3 {
                    if self.is_rechecked(x, y) {
                        CellState::Alive
                    } else {
                        CellState::Dead
                    }
                } else {
                    CellState::Dead
                }
            },
        }
    }

    /// Whether the cell at (x, y) is both interior and Alive, read from the
    /// state table.
    fn cell_alive_interior(&self, x: usize, y: usize) -> (b: bool)
        requires
            self.wf(),
            x < self.columns,
            y < self.rows,
        ensures
            b == self.alive_interior(x as int, y as int),
    {
        if x >= 1 && x + 1 < self.columns && y >= 1 && y + 1 < self.rows {
            self.state[y][x] == CellState::Alive
        } else {
            false
        }
    }

    /// Whether a tick re-examines the dead cell at the interior position
    /// (x, y) for birth: true exactly when some Moore neighbour is an
    /// interior live cell.
    fn is_rechecked(&self, x: usize, y: usize) -> (b: bool)
        requires
            self.wf(),
            self.interior(x as int, y as int),
        ensures
            b == self.rechecked(x as int, y as int),
    {
        self.cell_alive_interior(x - 1, y - 1) || self.cell_alive_interior(x, y - 1)
            || self.cell_alive_interior(x + 1, y - 1) || self.cell_alive_interior(x + 1, y)
            || self.cell_alive_interior(x + 1, y + 1) || self.cell_alive_interior(x, y + 1)
            || self.cell_alive_interior(x - 1, y + 1) || self.cell_alive_interior(x - 1, y)
    }

    /// Counts the Alive entries among the neighbour states the cell at
    /// `position` sees; 0 for every cell on the outermost ring.
    fn get_alive_neighbor_count(&self, position: &Point) -> (alive_count: u8)
        requires
            self.wf(),
            position.x < self.columns,
            position.y < self.rows,
        ensures
            alive_count as int == self.alive_neighbor_count(
                position.x as int,
                position.y as int,
            ),
    {
        let states = self.get_neighbor_states(position);
        let mut alive_count: u8 = 0;
        let mut k: usize = 0;
        while k < states.len()
            invariant
                k <= states@.len(),
                states@.len() <= 8,
                states@ == self.neighbor_states(position.x as int, position.y as int),
                alive_count as int == count_alive(states@.take(k as int)),
            decreases states@.len() - k,
        {
            proof {
                lemma_count_alive_bounds(states@.take(k as int));
                assert(states@.take(k + 1).drop_last() =~= states@.take(k as int));
                assert(states@.take(k + 1).last() == states@[k as int]);
            }
            match states[k] {
                CellState::Alive => {
                    alive_count += 1;
                },
                CellState::Dead => {},
            }
            k += 1;
        }
        proof {
            assert(states@.take(states@.len() as int) =~= states@);
        }
        alive_count
    }

    /// The states of the neighbours that resolve from `position`, in the
    /// fixed direction order; empty for a cell on the outermost ring, whose
    /// lookups all fail.
    fn get_neighbor_states(&self, position: &Point) -> (states: Vec<CellState>)
        requires
            self.wf(),
            position.x < self.columns,
            position.y < self.rows,
        ensures
            states@ == self.neighbor_states(position.x as int, position.y as int),
    {
        let mut states: Vec<CellState> = Vec::new();
        match self.get_neighbor_state(position, &Direction::TopLeft) {
            Ok(e) => states.push(e),
            _ => (),
        }
        match self.get_neighbor_state(position, &Direction::Top) {
            Ok(e) => states.push(e),
            _ => (),
        }
        match self.get_neighbor_state(position, &Direction::TopRight) {
            Ok(e) => states.push(e),
            _ => (),
        }
        match self.get_neighbor_state(position, &Direction::Right) {
            Ok(e) => states.push(e),
            _ => (),
        }
        match self.get_neighbor_state(position, &Direction::BottomRight) {
            Ok(e) => states.push(e),
            _ => (),
        }
        match self.get_neighbor_state(position, &Direction::Bottom) {
            Ok(e) => states.push(e),
            _ => (),
        }
        match self.get_neighbor_state(position, &Direction::BottomLeft) {
            Ok(e) => states.push(e),
            _ => (),
        }
        match self.get_neighbor_state(position, &Direction::Left) {
            Ok(e) => states.push(e),
            _ => (),
        }
        proof {
            assert(states@ =~= self.neighbor_states(position.x as int, position.y as int));
        }
        states
    }

    /// Resolves the neighbour coordinate and reads its state; fails exactly
    /// when `position` sits on the outermost ring.
    fn get_neighbor_state(&self, position: &Point, direction: &Direction) -> (r: Result<
        CellState,
    >)
        requires
            self.wf(),
            position.x < self.columns,
            position.y < self.rows,
        ensures
            (r is Err) <==> !self.interior(position.x as int, position.y as int),
            r matches Ok(c) ==> c == self.cell(
                position.x as int + direction_dx(*direction),
                position.y as int + direction_dy(*direction),
            ),
    {
        let neighbor_position = self.get_neighbor_point(position, direction)?;
        Ok(self.state[neighbor_position.y][neighbor_position.x])
    }

    /// The coordinate one step from `position` in `direction`. A position
    /// on the outermost ring has no valid neighbour in any direction, even
    /// in directions that stay inside the grid.
    fn get_neighbor_point(&self, position: &Point, direction: &Direction) -> (r: Result<Point>)
        requires
            position.x < self.columns,
            position.y < self.rows,
        ensures
            (r is Err) <==> !self.interior(position.x as int, position.y as int),
            r matches Ok(p) ==> p.x as int == position.x as int + direction_dx(*direction)
                && p.y as int == position.y as int + direction_dy(*direction),
    {
        if position.x == 0 || position.y == 0 || position.x + 1 >= self.columns || position.y + 1
            >= self.rows {
            return Err("No valid neighbor");
        }
        let (x, y) = match direction {
            Direction::TopLeft => (position.x - 1, position.y - 1),
            Direction::Top => (position.x, position.y - 1),
            Direction::TopRight => (position.x + 1, position.y - 1),
            Direction::Right => (position.x + 1, position.y),
            Direction::BottomRight => (position.x + 1, position.y + 1),
            Direction::Bottom => (position.x, position.y + 1),
            Direction::BottomLeft => (position.x - 1, position.y + 1),
            Direction::Left => (position.x - 1, position.y),
        };
        Ok(Point { x, y })
    }
}

/// Every count of Alive entries lies between 0 and the sequence's length.
pub proof fn lemma_count_alive_bounds(s: Seq<CellState>)
    ensures
        0 <= count_alive(s) <= s.len(),
    decreases s.len(),
{
    if s.len() > 0 {
        lemma_count_alive_bounds(s.drop_last());
    }
}

/// Turns a table of numbers into a pattern of cell states: 1 maps to Alive,
/// every other value to Dead. Row lengths are kept as given.
pub fn convert_to_pattern(input: Vec<Vec<u8>>) -> (rows: Vec<Vec<CellState>>)
    ensures
        rows@.len() == input@.len(),
        forall|i: int| 0 <= i < input@.len() ==> rows@[i]@.len() == input@[i]@.len(),
        forall|i: int, j: int|
            0 <= i < input@.len() && 0 <= j < input@[i]@.len() ==> rows@[i]@[j] == (
            if input@[i]@[j] == 1u8 {
                CellState::Alive
            } else {
                CellState::Dead
            }),
{
    let mut rows: Vec<Vec<CellState>> = Vec::new();
    let mut i: usize = 0;
    while i < input.len()
        invariant
            i <= input@.len(),
            rows@.len() == i,
            forall|k: int| 0 <= k < i ==> rows@[k]@.len() == input@[k]@.len(),
            forall|k: int, j: int|
                0 <= k < i && 0 <= j < input@[k]@.len() ==> rows@[k]@[j] == (
                if input@[k]@[j] == 1u8 {
                    CellState::Alive
                } else {
                    CellState::Dead
                }),
        decreases input@.len() - i,
    {
        let row = &input[i];
        let mut column: Vec<CellState> = Vec::new();
        let mut j: usize = 0;
        while j < row.len()
            invariant
                j <= row@.len(),
                column@.len() == j,
                forall|l: int| 0 <= l < j ==> column@[l] == (
                if row@[l] == 1u8 {
                    CellState::Alive
                } else {
                    CellState::Dead
                }),
            decreases row@.len() - j,
        {
            if row[j] == 1 {
                column.push(CellState::Alive);
            } else {
                column.push(CellState::Dead);
            }
            j += 1;
        }
        rows.push(column);
        i += 1;
    }
    rows
}

} // verus!
