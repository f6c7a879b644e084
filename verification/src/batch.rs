//! Padding of token sequences into one rectangular batch.

use vstd::prelude::*;

verus! {

/// The token identifier that fills the cells behind the end of a sequence.
pub const PAD_TOKEN: i64 = 0;

/// The token identifiers of one input, no more of them than the limit that
/// the tokenizer was given.
pub struct TokenSequence {
    ids: Vec<i64>,
    limit: usize,
}

impl View for TokenSequence {
    type V = Seq<i64>;

    closed spec fn view(&self) -> Seq<i64> {
        self.ids@
    }
}

impl TokenSequence {
    /// The greatest length the sequence may have.
    pub closed spec fn spec_limit(&self) -> usize {
        self.limit
    }

    /// The sequence is no longer than its limit.
    #[verifier::type_invariant]
    spec fn within_limit(&self) -> bool {
        self.ids@.len() <= self.limit
    }

    /// The sequence of `ids` under the limit `limit`, or `None` where there
    /// are more of them.
    pub fn new(ids: Vec<i64>, limit: usize) -> (r: Option<TokenSequence>)
        ensures
            r is Some <==> ids@.len() <= limit,
            r matches Some(t) ==> t@ == ids@ && t.limit() == limit,
    {
        if ids.len() <= limit {
            Some(TokenSequence { ids, limit })
        } else {
            None
        }
    }

    /// The number of tokens.
    pub fn len(&self) -> (n: usize)
        ensures
            n == self@.len(),
            n <= self.limit(),
    {
        proof {
            use_type_invariant(self);
        }
        self.ids.len()
    }

    /// The greatest length the sequence may have: the limit that it was
    /// made under.
    #[verifier::when_used_as_spec(spec_limit)]
    pub fn limit(&self) -> (n: usize)
        ensures
            n == self.limit(),
    {
        self.limit
    }

    /// The token identifiers.
    pub fn token_ids(&self) -> (ids: &Vec<i64>)
        ensures
            ids@ == self@,
    {
        &self.ids
    }
}

/// The token identifiers of each sequence of a batch.
pub open spec fn contents(seqs: Seq<TokenSequence>) -> Seq<Seq<i64>> {
    Seq::new(seqs.len(), |i: int| seqs[i]@)
}

/// The length of the longest of `rows`, 0 where there is none.
pub open spec fn longest(rows: Seq<Seq<i64>>) -> nat
    decreases rows.len(),
{
    if rows.len() == 0 {
        0
    } else {
        let before = longest(rows.drop_last());
        if rows.last().len() > before {
            rows.last().len()
        } else {
            before
        }
    }
}

/// `row` filled up with the pad token to the length `width`. A row that is
/// as long as that or longer stays as it is.
pub open spec fn padded(row: Seq<i64>, width: nat) -> Seq<i64> {
    if row.len() >= width {
        row
    } else {
        row + Seq::new((width - row.len()) as nat, |j: int| PAD_TOKEN)
    }
}

/// Each of `rows` filled up to the length of the longest.
pub open spec fn padded_rows(rows: Seq<Seq<i64>>) -> Seq<Seq<i64>> {
    Seq::new(rows.len(), |i: int| padded(rows[i], longest(rows)))
}

/// No row is longer than the longest, and a batch that has rows has one of
/// that length.
pub proof fn lemma_longest(rows: Seq<Seq<i64>>)
    ensures
        forall|i: int| 0 <= i < rows.len() ==> (#[trigger] rows[i]).len() <= longest(rows),
        rows.len() > 0 ==> exists|i: int| 0 <= i < rows.len() && (#[trigger] rows[i]).len() == longest(rows),
    decreases rows.len(),
{
    if rows.len() > 0 {
        let before = rows.drop_last();
        lemma_longest(before);
        assert forall|i: int| 0 <= i < rows.len() implies (#[trigger] rows[i]).len() <= longest(
            rows,
        ) by {
            if i < before.len() {
                assert(before[i] == rows[i]);
            }
        }
        if rows.last().len() > longest(before) || before.len() == 0 {
            assert(rows[rows.len() - 1].len() == longest(rows));
        } else {
            let i = choose|i: int| 0 <= i < before.len() && (#[trigger] before[i]).len() == longest(before);
            assert(rows[i] == before[i]);
        }
    }
}

/// Token sequences side by side: every row has the same length, the width.
pub struct BatchTensor {
    rows: Vec<Vec<i64>>,
    width: usize,
}

impl View for BatchTensor {
    type V = Seq<Seq<i64>>;

    closed spec fn view(&self) -> Seq<Seq<i64>> {
        Seq::new(self.rows@.len(), |i: int| self.rows@[i]@)
    }
}

impl BatchTensor {
    /// The length of every row.
    pub closed spec fn width(&self) -> nat {
        self.width as nat
    }

    /// The batch is rectangular.
    #[verifier::type_invariant]
    spec fn rectangular(&self) -> bool {
        forall|i: int| 0 <= i < self.rows@.len() ==> (#[trigger] self.rows@[i])@.len() == self.width
    }

    /// The number of rows and the length of each.
    pub fn shape(&self) -> (s: (usize, usize))
        ensures
            s.0 == self@.len(),
            s.1 == self.width(),
    {
        (self.rows.len(), self.width)
    }

    /// The cells row by row, as a tensor of the batch's shape is filled.
    pub fn row_major(&self) -> (cells: Vec<i64>)
        ensures
            cells@.len() == self@.len() * self.width(),
            forall|i: int, j: int|
                0 <= i < self@.len() && 0 <= j < self.width() ==> cells@[i * self.width() + j]
                    == #[trigger] self@[i][j],
    {
        proof {
            use_type_invariant(self);
        }
        let ghost w = self.width as int;
        let mut cells: Vec<i64> = Vec::new();
        let mut i: usize = 0;
        while i < self.rows.len()
            invariant
                self.rectangular(),
                w == self.width,
                i <= self.rows@.len(),
                cells@.len() == i * w,
                forall|a: int, b: int|
                    0 <= a < i && 0 <= b < w ==> cells@[a * w + b] == #[trigger] self@[a][b],
            decreases self.rows@.len() - i,
        {
            let row = &self.rows[i];
            assert(row@ == self@[i as int]);
            let mut j: usize = 0;
            while j < self.width
                invariant
                    self.rectangular(),
                    w == self.width,
                    i < self.rows@.len(),
                    row@ == self@[i as int],
                    j <= w,
                    cells@.len() == i * w + j,
                    forall|a: int, b: int|
                        0 <= a < i && 0 <= b < w ==> cells@[a * w + b] == #[trigger] self@[a][b],
                    forall|b: int| 0 <= b < j ==> cells@[i * w + b] == #[trigger] row@[b],
                decreases w - j,
            {
                let ghost before = cells@;
                cells.push(row[j]);
                proof {
                    assert forall|a: int, b: int| 0 <= a < i && 0 <= b < w implies cells@[a * w + b]
                        == #[trigger] self@[a][b] by {
                        lemma_cell_index(a, b, i as int, w);
                        assert(cells@[a * w + b] == before[a * w + b]);
                    }
                }
                j += 1;
            }
            proof {
                assert(i * w + w == (i + 1) * w) by (nonlinear_arith);
                assert forall|a: int, b: int| 0 <= a < i + 1 && 0 <= b < w implies cells@[a * w
                    + b] == #[trigger] self@[a][b] by {
                    if a == i {
                        assert(cells@[i * w + b] == row@[b]);
                    }
                }
            }
            i += 1;
        }
        cells
    }

    /// The rows.
    pub fn rows(&self) -> (rows: &Vec<Vec<i64>>)
        ensures
            rows@.len() == self@.len(),
            forall|i: int| 0 <= i < rows@.len() ==> (#[trigger] rows@[i])@ == self@[i],
    {
        &self.rows
    }
}

/// The cell `b` of the row `a` lies before the row `i` where `a` does.
proof fn lemma_cell_index(a: int, b: int, i: int, w: int)
    requires
        0 <= a < i,
        0 <= b < w,
    ensures
        0 <= a * w + b < i * w,
{
    assert(a * w + b < (a + 1) * w) by (nonlinear_arith)
        requires
            0 <= b < w,
    ;
    assert((a + 1) * w <= i * w) by (nonlinear_arith)
        requires
            a + 1 <= i,
            0 <= w,
    ;
    assert(0 <= a * w) by (nonlinear_arith)
        requires
            0 <= a,
            0 <= w,
    ;
}

/// The length of the longest of `seqs`, 0 where there is none.
pub fn max_len(seqs: &Vec<TokenSequence>) -> (width: usize)
    ensures
        width == longest(contents(seqs@)),
        forall|i: int| 0 <= i < seqs@.len() ==> (#[trigger] seqs@[i])@.len() <= width,
        seqs@.len() == 0 ==> width == 0,
        seqs@.len() > 0 ==> exists|i: int|
            0 <= i < seqs@.len() && (#[trigger] seqs@[i])@.len() == width && width
                <= seqs@[i].limit(),
{
    let mut width: usize = 0;
    let mut i: usize = 0;
    while i < seqs.len()
        invariant
            i <= seqs.len(),
            width == longest(contents(seqs@).take(i as int)),
            forall|k: int| 0 <= k < i ==> (#[trigger] seqs@[k])@.len() <= seqs@[k].limit(),
        decreases seqs.len() - i,
    {
        let n = seqs[i].len();
        proof {
            let next = contents(seqs@).take(i + 1);
            assert(next.drop_last() =~= contents(seqs@).take(i as int));
            assert(next.last() == seqs@[i as int]@);
        }
        if n > width {
            width = n;
        }
        i += 1;
    }
    proof {
        let rows = contents(seqs@);
        assert(rows.take(seqs@.len() as int) =~= rows);
        lemma_longest(rows);
        assert forall|i: int| 0 <= i < seqs@.len() implies (#[trigger] seqs@[i])@.len()
            <= width by {
            assert(rows[i].len() <= longest(rows));
        }
        if seqs@.len() > 0 {
            let i = choose|i: int| 0 <= i < rows.len() && (#[trigger] rows[i]).len() == longest(rows);
            assert(seqs@[i]@.len() == width && width <= seqs@[i].limit());
        }
    }
    width
}

/// `seq` filled up with the pad token to the length `width`.
fn pad_row(seq: &TokenSequence, width: usize) -> (row: Vec<i64>)
    ensures
        row@ == padded(seq@, width as nat),
{
    let ids = seq.token_ids();
    let mut row: Vec<i64> = Vec::new();
    let mut j: usize = 0;
    while j < ids.len()
        invariant
            j <= ids.len(),
            row@ == ids@.take(j as int),
        decreases ids.len() - j,
    {
        row.push(ids[j]);
        assert(row@ =~= ids@.take(j + 1));
        j += 1;
    }
    assert(row@ =~= ids@);
    while j < width
        invariant
            ids@.len() <= j,
            ids@.len() < width ==> j <= width,
            ids@.len() >= width ==> j == ids@.len(),
            row@ == padded(ids@, j as nat),
        decreases width - j,
    {
        row.push(PAD_TOKEN);
        assert(row@ =~= padded(ids@, (j + 1) as nat));
        j += 1;
    }
    row
}

/// Pads every sequence of `seqs` on the right with the pad token to the
/// length of the longest, and sets them side by side. No sequence is cut.
pub fn pad_batch(seqs: &Vec<TokenSequence>) -> (batch: BatchTensor)
    ensures
        batch@ == padded_rows(contents(seqs@)),
        batch@.len() == seqs@.len(),
        batch.width() == longest(contents(seqs@)),
        forall|i: int| 0 <= i < seqs@.len() ==> (#[trigger] seqs@[i])@.len() <= batch.width(),
        seqs@.len() == 0 ==> batch.width() == 0,
        seqs@.len() > 0 ==> exists|i: int|
            0 <= i < seqs@.len() && (#[trigger] seqs@[i])@.len() == batch.width() && batch.width()
                <= seqs@[i].limit(),
        forall|i: int| 0 <= i < seqs@.len() ==> (#[trigger] batch@[i]).len() == batch.width(),
        forall|i: int, j: int|
            0 <= i < seqs@.len() && 0 <= j < seqs@[i]@.len() ==> #[trigger] batch@[i][j]
                == seqs@[i]@[j],
        forall|i: int, j: int|
            0 <= i < seqs@.len() && seqs@[i]@.len() <= j < batch.width() ==> #[trigger] batch@[i][j]
                == PAD_TOKEN,
{
    let width = max_len(seqs);
    let mut rows: Vec<Vec<i64>> = Vec::new();
    let mut i: usize = 0;
    while i < seqs.len()
        invariant
            i <= seqs.len(),
            width == longest(contents(seqs@)),
            rows@.len() == i,
            forall|k: int| 0 <= k < i ==> (#[trigger] rows@[k])@ == padded(seqs@[k]@, width as nat),
        decreases seqs.len() - i,
    {
        let row = pad_row(&seqs[i], width);
        rows.push(row);
        i += 1;
    }
    proof {
        lemma_longest(contents(seqs@));
        assert forall|i: int| 0 <= i < rows@.len() implies (#[trigger] rows@[i])@.len()
            == width by {
            assert(contents(seqs@)[i].len() <= longest(contents(seqs@)));
        }
    }
    let batch = BatchTensor { rows, width };
    proof {
        assert(batch@ =~= padded_rows(contents(seqs@)));
        lemma_padded_rows(contents(seqs@));
    }
    batch
}

/// What padding does to a batch: it keeps the number of rows, makes every row
/// as long as the longest was, keeps every token where it was, and fills the
/// cells behind with the pad token.
pub proof fn lemma_padded_rows(rows: Seq<Seq<i64>>)
    ensures
        padded_rows(rows).len() == rows.len(),
        forall|i: int|
            0 <= i < rows.len() ==> (#[trigger] padded_rows(rows)[i]).len() == longest(rows),
        forall|i: int, j: int|
            0 <= i < rows.len() && 0 <= j < rows[i].len() ==> #[trigger] padded_rows(rows)[i][j]
                == rows[i][j],
        forall|i: int, j: int|
            0 <= i < rows.len() && rows[i].len() <= j < longest(rows) ==> #[trigger] padded_rows(
                rows,
            )[i][j] == PAD_TOKEN,
{
    lemma_longest(rows);
}

/// Padding makes no batch wider than the limit that its sequences keep.
pub proof fn lemma_width_within_limit(rows: Seq<Seq<i64>>, limit: nat)
    requires
        forall|i: int| 0 <= i < rows.len() ==> (#[trigger] rows[i]).len() <= limit,
    ensures
        longest(rows) <= limit,
        forall|i: int|
            0 <= i < rows.len() ==> (#[trigger] padded_rows(rows)[i]).len() <= limit,
{
    lemma_longest(rows);
}

/// A batch of one sequence is that sequence, unpadded: its one row has as
/// many cells as the sequence has tokens, and so no more than the limit the
/// sequence was made under.
pub proof fn lemma_single_sequence(tokens: Seq<i64>, limit: nat)
    requires
        tokens.len() <= limit,
    ensures
        padded_rows(seq![tokens]) == seq![tokens],
        longest(seq![tokens]) == tokens.len(),
        longest(seq![tokens]) <= limit,
{
    let rows = seq![tokens];
    assert(rows.drop_last() =~= Seq::<Seq<i64>>::empty());
    assert(longest(rows.drop_last()) == 0);
    assert(rows.last() == tokens);
    assert(padded_rows(rows) =~= rows);
}

} // verus!
