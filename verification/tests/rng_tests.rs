use chatui::rng::{random_duration_millis, MAX_DELAY_MILLIS};

#[test]
fn sampled_delays_stay_below_the_maximum() {
    for _ in 0..10000 {
        assert!(random_duration_millis() < MAX_DELAY_MILLIS);
    }
}

#[test]
fn sampled_delays_are_not_constant() {
    let first = random_duration_millis();
    let mut saw_different = false;
    for _ in 0..10000 {
        if random_duration_millis() != first {
            saw_different = true;
            break;
        }
    }
    assert!(saw_different, "ten thousand samples never differed");
}
