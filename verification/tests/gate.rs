use augu::error::StarError;
use augu::gate::evaluate_gate;

#[test]
fn gate_opens_on_a_multiple() {
    assert_eq!(evaluate_gate(2, 3, 5), Ok(true));
    assert_eq!(evaluate_gate(0, 10, 5), Ok(true));
    assert_eq!(evaluate_gate(7, 8, 5), Ok(true));
}

#[test]
fn gate_stays_closed_off_a_multiple() {
    assert_eq!(evaluate_gate(2, 2, 5), Ok(false));
    assert_eq!(evaluate_gate(0, 1, 5), Ok(false));
    assert_eq!(evaluate_gate(4, 0, 5), Ok(false));
}

#[test]
fn gate_is_open_when_nothing_is_starred_or_pending() {
    assert_eq!(evaluate_gate(0, 0, 5), Ok(true));
    assert_eq!(evaluate_gate(0, 0, 1), Ok(true));
}

#[test]
fn gate_with_threshold_one_is_always_open() {
    for starred in 0..20usize {
        for pending in 0..20usize {
            assert_eq!(evaluate_gate(starred, pending, 1), Ok(true));
        }
    }
}

#[test]
fn gate_agrees_with_the_remainder() {
    for starred in 0..30usize {
        for pending in 0..30usize {
            for threshold in 1..12i64 {
                let expected = (starred + pending) % (threshold as usize) == 0;
                assert_eq!(evaluate_gate(starred, pending, threshold), Ok(expected));
            }
        }
    }
}

#[test]
fn gate_refuses_threshold_zero() {
    assert_eq!(evaluate_gate(2, 3, 0), Err(StarError::InvalidConfiguration));
    assert_eq!(evaluate_gate(0, 0, 0), Err(StarError::InvalidConfiguration));
}

#[test]
fn gate_refuses_negative_threshold() {
    assert_eq!(evaluate_gate(2, 3, -5), Err(StarError::InvalidConfiguration));
    assert_eq!(evaluate_gate(2, 3, -1), Err(StarError::InvalidConfiguration));
    assert_eq!(evaluate_gate(2, 3, i64::MIN), Err(StarError::InvalidConfiguration));
}

#[test]
fn gate_counts_past_the_machine_word() {
    // usize::MAX is odd, so one more makes an even sum that no usize holds.
    assert_eq!(evaluate_gate(usize::MAX, 1, 2), Ok(true));
    assert_eq!(evaluate_gate(usize::MAX, 0, 2), Ok(false));
    assert_eq!(evaluate_gate(usize::MAX, usize::MAX, 2), Ok(true));
    assert_eq!(evaluate_gate(usize::MAX, usize::MAX, i64::MAX), Ok(false));
}
