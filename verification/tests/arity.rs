use libsugar::arity::{
    iter_arities, map_arities, map_positions, positions, supports_iter, supports_map,
    MAX_ITER_ARITY, MAX_MAP_ARITY, MIN_ARITY,
};

#[test]
fn iteration_covers_two_to_thirty_two() {
    assert_eq!(iter_arities(), (2..=32).collect::<Vec<usize>>());
    assert_eq!(iter_arities().len(), 31);
    assert_eq!(MIN_ARITY, 2);
    assert_eq!(MAX_ITER_ARITY, 32);
}

#[test]
fn maps_cover_two_to_sixteen() {
    assert_eq!(map_arities(), (2..=16).collect::<Vec<usize>>());
    assert_eq!(map_arities().len(), 15);
    assert_eq!(MAX_MAP_ARITY, 16);
}

#[test]
fn the_lists_are_the_same_on_every_call() {
    assert_eq!(iter_arities(), iter_arities());
    assert_eq!(map_arities(), map_arities());
}

#[test]
fn supports_agrees_with_the_lists() {
    for n in 0..40usize {
        assert_eq!(supports_iter(n), iter_arities().contains(&n));
        assert_eq!(supports_map(n), map_arities().contains(&n));
    }
    assert!(!supports_iter(0));
    assert!(!supports_iter(1));
    assert!(supports_iter(2));
    assert!(supports_iter(32));
    assert!(!supports_iter(33));
    assert!(!supports_iter(usize::MAX));
    assert!(!supports_map(1));
    assert!(supports_map(2));
    assert!(supports_map(16));
    assert!(!supports_map(17));
    assert!(!supports_map(usize::MAX));
}

#[test]
fn positions_run_from_zero() {
    assert_eq!(positions(0), Vec::<usize>::new());
    assert_eq!(positions(1), vec![0]);
    assert_eq!(positions(3), vec![0, 1, 2]);
    assert_eq!(positions(32), (0..32).collect::<Vec<usize>>());
}

#[test]
fn only_arities_with_maps_have_map_positions() {
    assert_eq!(map_positions(0), Vec::<usize>::new());
    assert_eq!(map_positions(1), Vec::<usize>::new());
    assert_eq!(map_positions(2), vec![0, 1]);
    assert_eq!(map_positions(3), vec![0, 1, 2]);
    assert_eq!(map_positions(16), (0..16).collect::<Vec<usize>>());
    assert_eq!(map_positions(17), Vec::<usize>::new());
    assert_eq!(map_positions(32), Vec::<usize>::new());
    assert_eq!(map_positions(usize::MAX), Vec::<usize>::new());
}
