use vauchi_gtk::qr::{qr_rows, rows_from_modules};

#[test]
fn a_short_payload_encodes_as_a_square_grid() {
    let rows = qr_rows("vauchi").expect("short payload encodes");
    assert_eq!(rows.len(), 21, "a version 1 symbol is 21 modules wide");
    assert!(rows.iter().all(|row| row.len() == rows.len()));
    // The three finder patterns put dark corners top-left, top-right and
    // bottom-left.
    assert!(rows[0][0]);
    assert!(rows[0][20]);
    assert!(rows[20][0]);
    assert!(!rows[7][7], "the separator around a finder pattern is light");
}

#[test]
fn an_oversized_payload_encodes_to_nothing() {
    let payload = "x".repeat(8000);
    assert!(qr_rows(&payload).is_none());
}

#[test]
fn modules_are_cut_into_rows_of_the_width() {
    assert_eq!(
        rows_from_modules(&vec![true, false, false, true], 2),
        vec![vec![true, false], vec![false, true]]
    );
    assert_eq!(
        rows_from_modules(&vec![true, true, false, false, true], 2),
        vec![vec![true, true], vec![false, false], vec![true]]
    );
    assert!(rows_from_modules(&vec![], 3).is_empty());
}
