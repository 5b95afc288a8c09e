use wavepacket::tridiagonal;

#[test]
fn tridiagonal_places_diagonal_and_neighbours() {
    let m = tridiagonal(&vec![1.0, 2.0, 3.0, 4.0], -0.5, 0.0);
    assert_eq!(
        m,
        vec![
            vec![1.0, -0.5, 0.0, 0.0],
            vec![-0.5, 2.0, -0.5, 0.0],
            vec![0.0, -0.5, 3.0, -0.5],
            vec![0.0, 0.0, -0.5, 4.0],
        ]
    );
}

#[test]
fn tridiagonal_of_one_point_has_no_neighbours() {
    assert_eq!(tridiagonal(&vec![(2, 3)], (9, 9), (0, 0)), vec![vec![(2, 3)]]);
}

#[test]
fn tridiagonal_of_nothing_is_empty() {
    assert!(tridiagonal(&Vec::<u8>::new(), 1, 0).is_empty());
}
