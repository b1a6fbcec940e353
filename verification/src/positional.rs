use vstd::prelude::*;
use crate::error::EncoderError;
use crate::mask::rectangular;

verus! {

/// Which of the two sinusoids a positional-encoding cell evaluates.
#[derive(Clone, Copy, Debug, PartialEq, Eq, Structural)]
pub enum Wave {
    Sine,
    Cosine,
}

/// One cell of the sinusoidal positional table.
///
/// The cell at row `i`, column `j` of a table generated at offset `o`
/// denotes the real number
/// `sin(position / 10000^(2 * pair / d_model))` when `wave` is `Sine`
/// (even `j`, with `position = i + o` and `pair = j / 2`) and
/// `cos(position / 10000^(2 * pair / d_model))` when `wave` is `Cosine`
/// (odd `j`). The transcendental evaluation belongs to the numeric rim;
/// the core pins the exact angle arguments.
#[derive(Clone, Copy, Debug, PartialEq, Eq, Structural)]
pub struct PeCell {
    pub wave: Wave,
    pub position: usize,
    pub pair: usize,
}

/// The cell that belongs at row `i`, column `j` of a table generated at
/// start offset `offset`.
pub open spec fn table_cell(i: int, j: int, offset: int) -> PeCell {
    PeCell {
        wave: if j % 2 == 0 {
            Wave::Sine
        } else {
            Wave::Cosine
        },
        position: (i + offset) as usize,
        pair: (j / 2) as usize,
    }
}

/// At offset zero, every cell of the first row has angle numerator zero:
/// its position is zero, even columns are sine cells and odd columns are
/// cosine cells, so the denoted values are `sin(0) = 0` and `cos(0) = 1`
/// whatever `d_model` is.
pub proof fn law_first_row_angle_zero(j: int)
    requires
        0 <= j,
    ensures
        table_cell(0, j, 0).position == 0,
        j % 2 == 0 ==> table_cell(0, j, 0).wave == Wave::Sine,
        j % 2 == 1 ==> table_cell(0, j, 0).wave == Wave::Cosine,
{
}

/// Deterministic generator of the fixed (non-learned) positional signal.
///
/// It owns no parameters; the same length and offset always produce the
/// same table.
#[derive(Clone, Copy, Debug, PartialEq, Eq, Structural)]
pub struct PositionalEncoder {
    /// Capacity: the largest position (exclusive) a table may reach.
    pub max_len: usize,
    /// Number of columns of every generated table.
    pub d_model: usize,
}

impl PositionalEncoder {
    /// Builds a generator of the given capacity and width.
    pub fn new(max_len: usize, d_model: usize) -> (r: PositionalEncoder)
        ensures
            r.max_len == max_len,
            r.d_model == d_model,
    {
        PositionalEncoder { max_len, d_model }
    }

    /// Generates the positional table of `length` rows starting at
    /// `offset`: row `i`, column `j` holds `table_cell(i, j, offset)`.
    /// Fails with a range error exactly when the requested span exceeds
    /// the capacity.
    pub fn table(&self, length: usize, offset: usize) -> (r: Result<
        Vec<Vec<PeCell>>,
        EncoderError,
    >)
        ensures
            r is Ok <==> offset + length <= self.max_len,
            r is Err ==> r->Err_0 == EncoderError::Range,
            r is Ok ==> ({
                let t = r->Ok_0;
                &&& t@.len() == length
                &&& rectangular(t@, self.d_model as nat)
                &&& forall|i: int, j: int|
                    0 <= i < length && 0 <= j < self.d_model ==> t@[i]@[j] == table_cell(
                        i,
                        j,
                        offset as int,
                    )
            }),
    {
        if offset > self.max_len || length > self.max_len - offset {
            return Err(EncoderError::Range);
        }
        let mut t: Vec<Vec<PeCell>> = Vec::new();
        let mut i: usize = 0;
        while i < length
            invariant
                offset + length <= self.max_len,
                i <= length,
                t@.len() == i,
                forall|k: int| 0 <= k < i ==> (#[trigger] t@[k])@.len() == self.d_model,
                forall|k: int, j: int|
                    0 <= k < i && 0 <= j < self.d_model ==> t@[k]@[j] == table_cell(
                        k,
                        j,
                        offset as int,
                    ),
            decreases length - i,
        {
            let mut row: Vec<PeCell> = Vec::new();
            let mut j: usize = 0;
            while j < self.d_model
                invariant
                    offset + length <= self.max_len,
                    i < length,
                    j <= self.d_model,
                    row@.len() == j,
                    forall|c: int|
                        0 <= c < j ==> row@[c] == table_cell(i as int, c, offset as int),
                decreases self.d_model - j,
            {
                let wave = if j % 2 == 0 {
                    Wave::Sine
                } else {
                    Wave::Cosine
                };
                row.push(PeCell { wave, position: i + offset, pair: j / 2 });
                j = j + 1;
            }
            t.push(row);
            i = i + 1;
        }
        Ok(t)
    }
}

} // verus!
