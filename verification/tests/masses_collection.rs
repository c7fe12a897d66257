use gravity_sim::masses::Masses;

#[test]
fn new_collection_is_empty_at_first_slot() {
    let masses: Masses<&str> = Masses::new();
    assert_eq!(masses.len(), 0);
    assert_eq!(masses.positions_index(), 0);
    assert!(masses.drag_pairs().is_empty());
}

#[test]
fn add_returns_index_of_added_mass() {
    let mut masses: Masses<&str> = Masses::new();
    let sun = masses.add_at_place("sun");
    let earth = masses.add_at_place("earth");
    let luna = masses.add_at_place("luna");
    assert_eq!((sun, earth, luna), (0, 1, 2));
    assert_eq!(*masses.get(sun), "sun");
    assert_eq!(*masses.get(earth), "earth");
    assert_eq!(*masses.get(luna), "luna");
    assert_eq!(masses.len(), 3);
}

#[test]
fn add_keeps_ring_index() {
    let mut masses: Masses<i32> = Masses::new();
    masses.inc_position();
    masses.inc_position();
    masses.add_at_place(5);
    assert_eq!(masses.positions_index(), 2);
}

#[test]
fn get_from_index_changes_only_that_mass() {
    let mut masses: Masses<i32> = Masses::new();
    masses.add_at_place(10);
    masses.add_at_place(20);
    masses.add_at_place(30);
    *masses.get_from_index(1) += 5;
    assert_eq!(*masses.get(0), 10);
    assert_eq!(*masses.get(1), 25);
    assert_eq!(*masses.get(2), 30);
}

#[test]
fn drag_pairs_of_four_masses() {
    let mut masses: Masses<u8> = Masses::new();
    for k in 0..4 {
        masses.add_at_place(k);
    }
    assert_eq!(
        masses.drag_pairs(),
        vec![(0, 1), (0, 2), (0, 3), (1, 2), (1, 3), (2, 3)]
    );
}

#[test]
fn drag_pairs_of_one_mass_is_empty() {
    let mut masses: Masses<u8> = Masses::new();
    masses.add_at_place(0);
    assert!(masses.drag_pairs().is_empty());
}

#[test]
fn drag_pairs_cover_each_pair_once() {
    let mut masses: Masses<u8> = Masses::new();
    for k in 0..7 {
        masses.add_at_place(k);
    }
    let pairs = masses.drag_pairs();
    assert_eq!(pairs.len(), 7 * 6 / 2);
    for i in 0..7usize {
        for j in 0..7usize {
            let count = pairs.iter().filter(|p| **p == (i, j)).count();
            assert_eq!(count, if i < j { 1 } else { 0 });
        }
    }
}
