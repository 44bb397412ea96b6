//! The noise field: a grid of random 32-bit values that is filled once and
//! only read afterwards.

use vstd::prelude::*;
use crate::random::RandomSource;
use crate::swirl::SwirlSamples;
use crate::wrap::{cell_index, lemma_cell_index_cases, wrap};

verus! {

/// A grid of 32-bit values with `width` columns of `height` values each.
pub struct NoiseField {
    columns: Vec<Vec<u32>>,
}

impl View for NoiseField {
    type V = Seq<Seq<u32>>;

    /// The columns of the grid, each a sequence of values.
    closed spec fn view(&self) -> Seq<Seq<u32>> {
        Seq::new(self.columns@.len(), |x: int| self.columns@[x]@)
    }
}

/// Whether `grid` has `width` columns of `height` values each.
pub open spec fn is_grid(grid: Seq<Seq<u32>>, width: nat, height: nat) -> bool {
    &&& grid.len() == width
    &&& forall|x: int| 0 <= x < width ==> (#[trigger] grid[x]).len() == height
}

/// The grid that holds `draws` column by column.
pub open spec fn grid_of(draws: Seq<u32>, width: nat, height: nat) -> Seq<Seq<u32>> {
    Seq::new(width, |x: int| Seq::new(height, |y: int| draws[x * height + y]))
}

impl NoiseField {
    /// Number of columns.
    pub open spec fn spec_width(&self) -> nat {
        self@.len()
    }

    /// Number of values in each column.
    pub open spec fn spec_height(&self) -> nat {
        self@[0].len()
    }

    /// A field is well formed when it has at least one column, at least one
    /// value in each, and all its columns are of one length.
    pub open spec fn wf(&self) -> bool {
        &&& self.spec_width() > 0
        &&& self.spec_height() > 0
        &&& is_grid(self@, self.spec_width(), self.spec_height())
    }

    /// The value that the coordinates `(su, sv)` sample: each coordinate is
    /// reduced modulo the field's dimension along its axis, truncating toward
    /// zero, and the pair names a cell unless one of them stays negative.
    pub open spec fn sample_spec(&self, su: i32, sv: i32) -> Option<u32> {
        match (
            cell_index(su as int, self.spec_width() as int),
            cell_index(sv as int, self.spec_height() as int),
        ) {
            (Some(u), Some(v)) => Some(self@[u][v]),
            _ => None,
        }
    }

    /// Whether every pair of `samples` names a cell of this field.
    pub open spec fn accepts_spec(&self, samples: &SwirlSamples) -> bool {
        forall|k: int|
            0 <= k < samples@.len() ==> (#[trigger] self.sample_spec(
                samples@[k].0,
                samples@[k].1,
            )) is Some
    }

    /// Builds the field of `width` columns and `height` rows that holds
    /// `draws` column by column: the cell `(x, y)` gets `draws[x * height + y]`.
    pub fn from_draws(width: usize, height: usize, draws: &Vec<u32>) -> (field: NoiseField)
        requires
            width > 0,
            height > 0,
            draws@.len() == width * height,
        ensures
            field.wf(),
            field@ == grid_of(draws@, width as nat, height as nat),
    {
        let total: usize = draws.len();
        let mut columns: Vec<Vec<u32>> = Vec::new();
        let mut x: usize = 0;
        while x < width
            invariant
                x <= width,
                height > 0,
                total == width * height,
                draws@.len() == total,
                columns@.len() == x,
                forall|a: int| 0 <= a < x ==> (#[trigger] columns@[a])@ == Seq::new(
                    height as nat,
                    |y: int| draws@[a * height + y],
                ),
            decreases width - x,
        {
            let mut column: Vec<u32> = Vec::new();
            let mut y: usize = 0;
            while y < height
                invariant
                    x < width,
                    y <= height,
                    total == width * height,
                    draws@.len() == total,
                    column@.len() == y,
                    forall|b: int| 0 <= b < y ==> #[trigger] column@[b] == draws@[x * height + b],
                decreases height - y,
            {
                proof {
                    lemma_cell_position(x as int, y as int, width as int, height as int);
                }
                column.push(draws[x * height + y]);
                y = y + 1;
            }
            assert(column@ =~= Seq::new(height as nat, |y: int| draws@[x * height + y]));
            columns.push(column);
            x = x + 1;
        }
        let field = NoiseField { columns };
        assert(field@ =~= grid_of(draws@, width as nat, height as nat));
        field
    }

    /// Fills a field of `width` columns and `height` rows with one draw from
    /// `rng` for each cell, column by column.
    pub fn generate(width: usize, height: usize, rng: &mut RandomSource) -> (field: NoiseField)
        requires
            width > 0,
            height > 0,
            width * height <= usize::MAX,
        ensures
            field.wf(),
            field.spec_width() == width,
            field.spec_height() == height,
    {
        let draws = rng.draw_many(width * height);
        NoiseField::from_draws(width, height, &draws)
    }

    /// Number of columns.
    pub fn width(&self) -> (width: usize)
        ensures
            width == self.spec_width(),
    {
        self.columns.len()
    }

    /// Number of values in each column.
    pub fn height(&self) -> (height: usize)
        requires
            self.wf(),
        ensures
            height == self.spec_height(),
    {
        self.columns[0].len()
    }

    /// The value of the cell `(x, y)`, if the field has such a cell.
    pub fn cell(&self, x: usize, y: usize) -> (value: Option<u32>)
        requires
            self.wf(),
        ensures
            value == if x < self.spec_width() && y < self.spec_height() {
                Some(self@[x as int][y as int])
            } else {
                None
            },
    {
        if x < self.columns.len() {
            assert(self@[x as int].len() == self.spec_height());
            if y < self.columns[x].len() {
                Some(self.columns[x][y])
            } else {
                None
            }
        } else {
            None
        }
    }

    /// The value that the coordinates `(su, sv)` sample, if they name a cell.
    pub fn sample(&self, su: i32, sv: i32) -> (value: Option<u32>)
        requires
            self.wf(),
        ensures
            value == self.sample_spec(su, sv),
    {
        let u = wrap(su, self.width());
        let v = wrap(sv, self.height());
        if u >= 0 && v >= 0 {
            proof {
                lemma_cell_index_cases(su as int, self.spec_width() as int);
                lemma_cell_index_cases(sv as int, self.spec_height() as int);
            }
            Some(self.columns[u as usize][v as usize])
        } else {
            None
        }
    }

    /// Tells whether every pair of `samples` names a cell of this field.
    pub fn accepts(&self, samples: &SwirlSamples) -> (all: bool)
        requires
            self.wf(),
        ensures
            all == self.accepts_spec(samples),
    {
        let pairs = samples.pairs();
        let mut k: usize = 0;
        while k < pairs.len()
            invariant
                self.wf(),
                k <= pairs@.len(),
                pairs@ == samples@,
                forall|a: int|
                    0 <= a < k ==> (#[trigger] self.sample_spec(pairs@[a].0, pairs@[a].1)) is Some,
            decreases pairs@.len() - k,
        {
            let pair = pairs[k];
            if self.sample(pair.0, pair.1).is_none() {
                return false;
            }
            k = k + 1;
        }
        true
    }
}

/// The position of the cell `(x, y)` lies within the `width * height` draws.
proof fn lemma_cell_position(x: int, y: int, width: int, height: int)
    requires
        0 <= x < width,
        0 <= y < height,
    ensures
        0 <= x * height + y < width * height,
        x * height + y == y + x * height,
{
    assert(0 <= x * height && (x + 1) * height <= width * height && (x + 1) * height == x
        * height + height) by (nonlinear_arith)
        requires
            0 <= x < width,
            0 < height,
    ;
}

/// Coordinates that are not negative sample a cell of every well-formed
/// field: the cell whose indices are the remainders of the coordinates.
pub proof fn lemma_nonnegative_sample(field: &NoiseField, su: i32, sv: i32)
    requires
        field.wf(),
        su >= 0,
        sv >= 0,
    ensures
        0 <= (su as int) % (field.spec_width() as int) < field.spec_width(),
        0 <= (sv as int) % (field.spec_height() as int) < field.spec_height(),
        field.sample_spec(su, sv) == Some(
            field@[(su as int) % (field.spec_width() as int)][(sv as int) % (field.spec_height() as int)],
        ),
{
    lemma_cell_index_cases(su as int, field.spec_width() as int);
    lemma_cell_index_cases(sv as int, field.spec_height() as int);
}

/// A table whose coordinates are all non-negative is accepted by every
/// well-formed field.
pub proof fn lemma_nonnegative_accepted(field: &NoiseField, samples: &SwirlSamples)
    requires
        field.wf(),
        forall|k: int| 0 <= k < samples@.len() ==> (#[trigger] samples@[k]).0 >= 0 && samples@[k].1 >= 0,
    ensures
        field.accepts_spec(samples),
{
    assert forall|k: int| 0 <= k < samples@.len() implies (#[trigger] field.sample_spec(
        samples@[k].0,
        samples@[k].1,
    )) is Some by {
        lemma_nonnegative_sample(field, samples@[k].0, samples@[k].1);
    }
}

} // verus!
