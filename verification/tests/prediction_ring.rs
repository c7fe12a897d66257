use gravity_sim::masses::Masses;
use gravity_sim::prediction::{next_index, PREDICT_COUNT};

#[test]
fn next_index_moves_one_slot() {
    assert_eq!(next_index(0), 1);
    assert_eq!(next_index(41), 42);
    assert_eq!(next_index(PREDICT_COUNT - 2), PREDICT_COUNT - 1);
}

#[test]
fn next_index_wraps_after_last_slot() {
    assert_eq!(next_index(PREDICT_COUNT - 1), 0);
}

#[test]
fn full_round_returns_to_start() {
    for start in [0usize, 1, 500, PREDICT_COUNT - 1] {
        let mut index = start;
        for _ in 0..PREDICT_COUNT {
            index = next_index(index);
        }
        assert_eq!(index, start);
    }
}

#[test]
fn round_visits_each_slot_once() {
    let mut seen = vec![false; PREDICT_COUNT];
    let mut index = 7;
    for _ in 0..PREDICT_COUNT {
        assert!(!seen[index]);
        seen[index] = true;
        index = next_index(index);
    }
    assert!(seen.iter().all(|s| *s));
}

#[test]
fn prediction_wraps_index_back() {
    // As the prediction of all future positions does: one move per predicted
    // step and a last one that wraps round.
    let mut masses: Masses<u32> = Masses::new();
    masses.add_at_place(1);
    for _ in 1..PREDICT_COUNT {
        masses.inc_position();
    }
    assert_eq!(masses.positions_index(), PREDICT_COUNT - 1);
    masses.inc_position();
    assert_eq!(masses.positions_index(), 0);
    assert_eq!(masses.get_position(), 0);
}
