use battery_notif::audio::AudioFlag;

// The toggle pair: starting from the enabled default, toggle returns
// false and then the original value.
#[test]
fn toggle_pair_returns_false_then_original() {
    let mut f = AudioFlag::new();
    let original = f.is_enabled();
    assert!(original);
    assert_eq!(f.toggle(), false);
    assert_eq!(f.toggle(), original);
}

// After n toggles the flag reads initial XOR (n mod 2 == 1).
#[test]
fn toggle_parity_over_many_calls() {
    let mut f = AudioFlag::new();
    let initial = f.is_enabled();
    for n in 1..=10u32 {
        f.toggle();
        assert_eq!(f.is_enabled(), initial ^ (n % 2 == 1));
    }
}

#[test]
fn toggle_returns_the_new_value() {
    let mut f = AudioFlag::new();
    let r = f.toggle();
    assert_eq!(r, f.is_enabled());
    let r = f.toggle();
    assert_eq!(r, f.is_enabled());
}
