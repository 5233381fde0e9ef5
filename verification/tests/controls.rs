use page_logic::controls::{highlights, step_down, step_up, toggled, STEP};

#[test]
fn counter_moves_by_five() {
    assert_eq!(STEP, 5);
    assert_eq!(step_up(0), Some(5));
    assert_eq!(step_up(5), Some(10));
    assert_eq!(step_up(-5), Some(0));
    assert_eq!(step_up(-3), Some(2));
    assert_eq!(step_down(0), Some(-5));
    assert_eq!(step_down(200), Some(195));
    assert_eq!(step_down(3), Some(-2));
}

#[test]
fn counter_stops_at_the_ends_of_its_range() {
    assert_eq!(step_up(i32::MAX), None);
    assert_eq!(step_up(i32::MAX - 4), None);
    assert_eq!(step_up(i32::MAX - 5), Some(i32::MAX));
    assert_eq!(step_down(i32::MIN), None);
    assert_eq!(step_down(i32::MIN + 4), None);
    assert_eq!(step_down(i32::MIN + 5), Some(i32::MIN));
}

#[test]
fn a_step_up_and_a_step_down_cancel() {
    for value in [-100, -5, -1, 0, 1, 5, 77, 200] {
        assert_eq!(step_down(step_up(value).unwrap()), Some(value));
        assert_eq!(step_up(step_down(value).unwrap()), Some(value));
    }
}

#[test]
fn only_the_word_blue_highlights() {
    assert!(highlights("blue"));
    assert!(!highlights("Enter some text"));
    assert!(!highlights(""));
    assert!(!highlights("Blue"));
    assert!(!highlights("BLUE"));
    assert!(!highlights("blue "));
    assert!(!highlights(" blue"));
    assert!(!highlights("blu"));
    assert!(!highlights("blues"));
    assert!(!highlights("red"));
}

#[test]
fn a_press_flips_the_switch() {
    assert!(toggled(false));
    assert!(!toggled(true));
    assert!(!toggled(toggled(false)));
    assert!(toggled(toggled(true)));
}
