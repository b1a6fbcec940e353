use vstd::prelude::*;
use crate::error::EncoderError;

verus! {

/// A batch of row vectors is rectangular with `cols` columns when every
/// row has exactly that many entries.
pub open spec fn rectangular<T>(rows: Seq<Vec<T>>, cols: nat) -> bool {
    forall|i: int| 0 <= i < rows.len() ==> (#[trigger] rows[i])@.len() == cols
}

/// Additive attention bias derived from a padding mask.
///
/// For every batch row and key position, `suppress` says whether attention
/// to that position is suppressed: a suppressed position contributes a
/// large negative additive bias to every attention score against it, so
/// its softmax weight tends to zero; an attendable position contributes
/// zero. The numeric bias values live in the external tensor engine; the
/// core decides exactly which positions are suppressed.
#[derive(Debug)]
pub struct AttnBias {
    pub batch: usize,
    pub seq_len: usize,
    pub suppress: Vec<Vec<bool>>,
}

impl AttnBias {
    /// Shape consistency of the suppression table.
    pub open spec fn wf(self) -> bool {
        &&& self.suppress@.len() == self.batch
        &&& rectangular(self.suppress@, self.seq_len as nat)
    }
}

/// Expands a 0-1 padding mask (true marks an attendable position, false a
/// padding position) into the additive attention bias: position `j` of
/// batch row `b` is suppressed exactly when `mask[b][j]` is false.
///
/// Fails with a shape error when the batch is empty or the rows are
/// ragged; the bias of a well-shaped mask always exists.
pub fn expand_mask(mask: &Vec<Vec<bool>>) -> (r: Result<AttnBias, EncoderError>)
    ensures
        r is Ok <==> mask@.len() >= 1 && rectangular(mask@, mask@[0]@.len()),
        r is Err ==> r->Err_0 == EncoderError::Shape,
        r is Ok ==> ({
            let b = r->Ok_0;
            &&& b.wf()
            &&& b.batch == mask@.len()
            &&& b.seq_len == mask@[0]@.len()
            &&& forall|i: int, j: int|
                0 <= i < b.batch && 0 <= j < b.seq_len ==> b.suppress@[i]@[j] == !mask@[i]@[j]
        }),
{
    let batch = mask.len();
    if batch == 0 {
        return Err(EncoderError::Shape);
    }
    let seq_len = mask[0].len();
    let mut suppress: Vec<Vec<bool>> = Vec::new();
    let mut i: usize = 0;
    while i < batch
        invariant
            batch == mask@.len(),
            seq_len == mask@[0]@.len(),
            i <= batch,
            suppress@.len() == i,
            forall|k: int| 0 <= k < i ==> (#[trigger] mask@[k])@.len() == seq_len,
            forall|k: int| 0 <= k < i ==> (#[trigger] suppress@[k])@.len() == seq_len,
            forall|k: int, j: int|
                0 <= k < i && 0 <= j < seq_len ==> suppress@[k]@[j] == !mask@[k]@[j],
        decreases batch - i,
    {
        let row = &mask[i];
        if row.len() != seq_len {
            return Err(EncoderError::Shape);
        }
        let mut out_row: Vec<bool> = Vec::new();
        let mut j: usize = 0;
        while j < seq_len
            invariant
                seq_len == row@.len(),
                j <= seq_len,
                out_row@.len() == j,
                forall|t: int| 0 <= t < j ==> out_row@[t] == !row@[t],
            decreases seq_len - j,
        {
            out_row.push(!row[j]);
            j = j + 1;
        }
        suppress.push(out_row);
        i = i + 1;
    }
    Ok(AttnBias { batch, seq_len, suppress })
}

} // verus!
