use trim_quals::reduce_qualities_in_edges;
use trim_quals::reduce_single_qual;

#[test]
fn test_reduce_qualities_in_edges() {
    let qual = vec![30, 25, 20, 15, 10, 5];
    let num_bases = 2;
    let qual_reduction = 5;
    let expected = vec![25, 20, 20, 15, 5, 0];
    let result = reduce_qualities_in_edges(qual, &num_bases, &qual_reduction, &0, &0);
    assert_eq!(result, expected);
}

#[test]
fn test_reduce_qualities_in_edges_no_reduction() {
    let qual = vec![30, 25, 20, 15, 10, 5];
    let num_bases = 2;
    let qual_reduction = 0;
    let expected = vec![30, 25, 20, 15, 10, 5];
    let result = reduce_qualities_in_edges(qual, &num_bases, &qual_reduction, &0, &0);
    assert_eq!(result, expected);
}

#[test]
fn test_reduce_qualities_in_edges_full_reduction() {
    let qual = vec![30, 25, 20, 15, 10, 5];
    let num_bases = 3;
    let qual_reduction = 40;
    let expected = vec![0, 0, 0, 0, 0, 0];
    let result = reduce_qualities_in_edges(qual, &num_bases, &qual_reduction, &0, &0);
    assert_eq!(result, expected);
}

#[test]
fn test_reduce_qualities_in_overlaping_edges() {
    let qual = vec![30, 25, 20, 15, 10, 5];
    let num_bases = 4;
    let qual_reduction = 10;
    let expected = vec![20, 15, 10, 5, 0, 0];
    let result = reduce_qualities_in_edges(qual, &num_bases, &qual_reduction, &0, &0);
    assert_eq!(result, expected);
}

#[test]
fn test_reduce_qualities_in_edges_empty_qual() {
    let qual = vec![];
    let num_bases = 2;
    let qual_reduction = 5;
    let expected: Vec<u8> = vec![];
    let result = reduce_qualities_in_edges(qual, &num_bases, &qual_reduction, &0, &0);
    assert_eq!(result, expected);
}

#[test]
fn test_reduce_qualities_in_edges_num_bases_exceeds_length() {
    let qual = vec![30, 25, 20];
    let num_bases = 4;
    let qual_reduction = 10;
    let expected = vec![20, 15, 10];
    let result = reduce_qualities_in_edges(qual, &num_bases, &qual_reduction, &0, &0);
    assert_eq!(result, expected);
}

#[test]
fn test_reduce_qualities_in_edges_with_soft_clips() {
    let qual = vec![30, 25, 20, 15, 10, 5];
    let num_bases = 1;
    let leading_softclips = 1;
    let trailing_softclips = 2;
    let qual_reduction = 5;
    let expected = vec![25, 20, 20, 10, 5, 0];
    let result = reduce_qualities_in_edges(
        qual,
        &num_bases,
        &qual_reduction,
        &leading_softclips,
        &trailing_softclips,
    );
    assert_eq!(result, expected);
}

#[test]
fn reduce_single_qual_saturates_at_zero() {
    assert_eq!(reduce_single_qual(5, &10), 0);
    assert_eq!(reduce_single_qual(10, &10), 0);
    assert_eq!(reduce_single_qual(10, &3), 7);
    assert_eq!(reduce_single_qual(255, &255), 0);
    assert_eq!(reduce_single_qual(0, &0), 0);
}

#[test]
fn length_is_preserved_with_large_clips() {
    let qual = vec![40, 40, 40, 40, 40];
    let result = reduce_qualities_in_edges(qual, &2, &7, &100, &100);
    assert_eq!(result.len(), 5);
}

#[test]
fn zero_reduction_is_identity_with_clips() {
    let qual = vec![12, 0, 255, 7];
    let result = reduce_qualities_in_edges(qual.clone(), &3, &0, &2, &9);
    assert_eq!(result, qual);
}

#[test]
fn rerun_with_same_arguments_selects_same_positions() {
    let qual = vec![60, 50, 40, 30, 20, 10, 5, 0];
    let first = reduce_qualities_in_edges(qual.clone(), &2, &5, &1, &1);
    let second = reduce_qualities_in_edges(qual, &2, &5, &1, &1);
    assert_eq!(first, second);
}

#[test]
fn oversized_arguments_are_clamped() {
    let qual = vec![30, 20, 10];
    let result = reduce_qualities_in_edges(qual, &usize::MAX, &5, &usize::MAX, &usize::MAX);
    assert_eq!(result, vec![25, 15, 5]);
}

#[test]
fn trailing_pass_respects_leading_reservation_zone() {
    // The trailing window may not reach below the raw edge width, however
    // large the trailing clip is: positions 0 and 1 are reduced once by the
    // leading pass only.
    let qual = vec![30, 30, 30, 30];
    let result = reduce_qualities_in_edges(qual, &2, &10, &0, &50);
    assert_eq!(result, vec![20, 20, 20, 20]);
}

#[test]
fn overlapping_windows_reduce_twice_beyond_reservation_zone() {
    // With a large leading clip the leading window covers the whole read;
    // the trailing pass still revisits the positions at or above the raw
    // edge width, so those are reduced twice.
    let qual = vec![30, 30, 30, 30];
    let result = reduce_qualities_in_edges(qual, &1, &10, &10, &10);
    assert_eq!(result, vec![20, 10, 10, 10]);
}
