use zero_shot::batch::{max_len, pad_batch, TokenSequence, PAD_TOKEN};

fn sequence(ids: &[i64]) -> TokenSequence {
    TokenSequence::new(ids.to_vec(), 128).unwrap()
}

#[test]
fn pad_token_is_zero() {
    assert_eq!(PAD_TOKEN, 0);
}

#[test]
fn sequence_within_limit_is_accepted() {
    let t = TokenSequence::new(vec![1, 17, 4, 2], 128).unwrap();
    assert_eq!(t.len(), 4);
    assert_eq!(t.limit(), 128);
    assert_eq!(t.token_ids(), &vec![1, 17, 4, 2]);
}

#[test]
fn sequence_of_exactly_the_limit_is_accepted() {
    let ids: Vec<i64> = (0..128).collect();
    let t = TokenSequence::new(ids.clone(), 128).unwrap();
    assert_eq!(t.len(), 128);
    assert_eq!(t.token_ids(), &ids);
}

#[test]
fn sequence_over_the_limit_is_refused() {
    let ids: Vec<i64> = (0..129).collect();
    assert!(TokenSequence::new(ids, 128).is_none());
    assert!(TokenSequence::new(vec![5], 0).is_none());
}

#[test]
fn empty_sequence_is_accepted() {
    let t = TokenSequence::new(Vec::new(), 0).unwrap();
    assert_eq!(t.len(), 0);
}

#[test]
fn single_row_is_not_padded() {
    let seqs = vec![sequence(&[1, 2023, 3011, 2])];
    let batch = pad_batch(&seqs);
    assert_eq!(batch.shape(), (1, 4));
    assert_eq!(batch.rows(), &vec![vec![1, 2023, 3011, 2]]);
    assert!(batch.shape().1 <= seqs[0].limit());
}

#[test]
fn rows_are_padded_to_the_longest() {
    let seqs = vec![sequence(&[1, 5, 2]), sequence(&[1, 7, 8, 9, 2]), sequence(&[1, 2])];
    assert_eq!(max_len(&seqs), 5);
    let batch = pad_batch(&seqs);
    assert_eq!(batch.shape(), (3, 5));
    assert_eq!(
        batch.rows(),
        &vec![vec![1, 5, 2, 0, 0], vec![1, 7, 8, 9, 2], vec![1, 2, 0, 0, 0]]
    );
    for row in batch.rows() {
        assert_eq!(row.len(), 5);
    }
}

#[test]
fn padding_keeps_zero_tokens_of_the_input() {
    let seqs = vec![sequence(&[0, 0]), sequence(&[3, 0, 4])];
    let batch = pad_batch(&seqs);
    assert_eq!(batch.rows(), &vec![vec![0, 0, 0], vec![3, 0, 4]]);
}

#[test]
fn empty_batch_has_no_rows() {
    let seqs: Vec<TokenSequence> = Vec::new();
    assert_eq!(max_len(&seqs), 0);
    let batch = pad_batch(&seqs);
    assert_eq!(batch.shape(), (0, 0));
    assert!(batch.rows().is_empty());
    assert!(batch.row_major().is_empty());
}

#[test]
fn batch_of_empty_sequences_has_empty_rows() {
    let seqs = vec![sequence(&[]), sequence(&[])];
    let batch = pad_batch(&seqs);
    assert_eq!(batch.shape(), (2, 0));
    assert_eq!(batch.rows(), &vec![Vec::<i64>::new(), Vec::new()]);
    assert!(batch.row_major().is_empty());
}

#[test]
fn cells_come_row_by_row() {
    let seqs = vec![sequence(&[1, 5, 2]), sequence(&[9]), sequence(&[7, 8])];
    let batch = pad_batch(&seqs);
    assert_eq!(batch.row_major(), vec![1, 5, 2, 9, 0, 0, 7, 8, 0]);
    let (rows, width) = batch.shape();
    let cells = batch.row_major();
    assert_eq!(cells.len(), rows * width);
    for i in 0..rows {
        for j in 0..width {
            assert_eq!(cells[i * width + j], batch.rows()[i][j]);
        }
    }
}

#[test]
fn negative_token_ids_are_kept() {
    let seqs = vec![sequence(&[-1, i64::MIN]), sequence(&[i64::MAX, 2, 3])];
    let batch = pad_batch(&seqs);
    assert_eq!(
        batch.rows(),
        &vec![vec![-1, i64::MIN, 0], vec![i64::MAX, 2, 3]]
    );
}

#[test]
fn minimal_sequence_of_an_empty_input_is_batched() {
    // an empty sentence still has its two marker tokens
    let seqs = vec![sequence(&[1, 2])];
    let batch = pad_batch(&seqs);
    assert_eq!(batch.shape(), (1, 2));
    assert_eq!(batch.rows(), &vec![vec![1, 2]]);
    assert_eq!(batch.row_major(), vec![1, 2]);
}

#[test]
fn truncated_sequence_fills_its_row_to_the_limit() {
    let ids: Vec<i64> = (1..=128).collect();
    let seqs = vec![TokenSequence::new(ids.clone(), 128).unwrap(), sequence(&[1, 2])];
    let batch = pad_batch(&seqs);
    assert_eq!(batch.shape(), (2, 128));
    assert_eq!(batch.rows()[0], ids);
    assert_eq!(&batch.rows()[1][..2], &[1, 2]);
    assert!(batch.rows()[1][2..].iter().all(|&cell| cell == 0));
}
