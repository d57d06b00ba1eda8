use geographiclib::krueger::{
    b1_block, series_blocks, SeriesBlock, ALP_COEFF, B1_COEFF, B1_TABLE_LEN, BET_COEFF,
    SERIES_TABLE_LEN, TRANSVERSE_MERCATOR_ORDER,
};

#[test]
fn series_blocks_layout() {
    let blocks = series_blocks();
    let expected = [(0, 5), (7, 4), (13, 3), (18, 2), (22, 1), (25, 0)];
    assert_eq!(blocks.len(), TRANSVERSE_MERCATOR_ORDER);
    for (block, &(offset, degree)) in blocks.iter().zip(expected.iter()) {
        assert_eq!(*block, SeriesBlock { offset, degree });
    }
}

#[test]
fn series_blocks_tile_table() {
    let blocks = series_blocks();
    let mut next = 0;
    for block in &blocks {
        assert_eq!(block.offset, next);
        next = block.divisor_index() + 1;
    }
    assert_eq!(next, SERIES_TABLE_LEN);
    assert_eq!(SERIES_TABLE_LEN, ALP_COEFF.len());
    assert_eq!(SERIES_TABLE_LEN, BET_COEFF.len());
}

#[test]
fn series_divisors() {
    let divisors: Vec<(i64, i64)> = series_blocks()
        .iter()
        .map(|b| (ALP_COEFF[b.divisor_index()], BET_COEFF[b.divisor_index()]))
        .collect();
    assert_eq!(
        divisors,
        vec![
            (151200, 2419200),
            (1935360, 3870720),
            (725760, 362880),
            (7257600, 7257600),
            (7983360, 15966720),
            (319334400, 638668800),
        ]
    );
}

#[test]
fn series_entries_exact_in_double() {
    for &c in ALP_COEFF.iter().chain(BET_COEFF.iter()).chain(B1_COEFF.iter()) {
        assert_eq!(c as f64 as i64, c);
    }
}

#[test]
fn b1_block_layout() {
    let block = b1_block();
    assert_eq!(block, SeriesBlock { offset: 0, degree: 3 });
    assert_eq!(block.divisor_index(), B1_TABLE_LEN - 1);
    assert_eq!(B1_COEFF[block.divisor_index()], 256);
}
