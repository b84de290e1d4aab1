use nanos_ui::ui::buttons::{get_button_event, ButtonsState, Event};

fn classify(old: u8, new: u8) -> (Option<Event>, u8) {
    let mut buttons = ButtonsState { button_mask: old, cmd_buffer: [9, 8, 7, 6] };
    let event = get_button_event(&mut buttons, new);
    assert_eq!(buttons.cmd_buffer, [9, 8, 7, 6]);
    (event, buttons.button_mask)
}

#[test]
fn new_state_is_at_rest() {
    let buttons = ButtonsState::new();
    assert_eq!(buttons.button_mask, 0);
    assert_eq!(buttons.cmd_buffer, [0u8; 4]);
    assert_eq!(ButtonsState::default(), buttons);
}

#[test]
fn single_presses_from_rest() {
    assert_eq!(classify(0, 1), (Some(Event::LeftButtonPress), 1));
    assert_eq!(classify(0, 2), (Some(Event::RightButtonPress), 2));
}

#[test]
fn both_down_is_a_press_of_both_whatever_was_held() {
    for old in 0u8..=3 {
        assert_eq!(classify(old, 3), (Some(Event::BothButtonsPress), 3));
    }
}

#[test]
fn releases_name_what_was_held() {
    assert_eq!(classify(1, 0), (Some(Event::LeftButtonRelease), 0));
    assert_eq!(classify(2, 0), (Some(Event::RightButtonRelease), 0));
    assert_eq!(classify(3, 0), (Some(Event::BothButtonsRelease), 0));
}

#[test]
fn rest_after_rest_is_no_event() {
    assert_eq!(classify(0, 0), (None, 0));
}

#[test]
fn other_transitions_are_no_event_but_are_remembered() {
    assert_eq!(classify(1, 1), (None, 1));
    assert_eq!(classify(2, 2), (None, 2));
    assert_eq!(classify(1, 2), (None, 3));
    assert_eq!(classify(2, 1), (None, 3));
    assert_eq!(classify(3, 1), (None, 3));
    assert_eq!(classify(3, 2), (None, 3));
}

#[test]
fn mask_is_reset_after_every_release() {
    for old in 0u8..=3 {
        let (_, mask) = classify(old, 0);
        assert_eq!(mask, 0);
    }
}

#[test]
fn both_press_is_not_edge_triggered() {
    let mut buttons = ButtonsState::new();
    for _ in 0..5 {
        assert_eq!(get_button_event(&mut buttons, 3), Some(Event::BothButtonsPress));
        assert_eq!(buttons.button_mask, 3);
    }
    assert_eq!(get_button_event(&mut buttons, 0), Some(Event::BothButtonsRelease));
    assert_eq!(buttons.button_mask, 0);
}

#[test]
fn one_button_after_the_other_releases_as_both() {
    let mut buttons = ButtonsState::new();
    assert_eq!(get_button_event(&mut buttons, 1), Some(Event::LeftButtonPress));
    assert_eq!(get_button_event(&mut buttons, 3), Some(Event::BothButtonsPress));
    assert_eq!(get_button_event(&mut buttons, 2), None);
    assert_eq!(get_button_event(&mut buttons, 0), Some(Event::BothButtonsRelease));
    assert_eq!(get_button_event(&mut buttons, 0), None);
}

#[test]
fn levels_beyond_two_bits_are_no_event() {
    assert_eq!(classify(0, 5), (None, 5));
    assert_eq!(classify(1, 4), (None, 5));
    assert_eq!(classify(4, 0), (None, 0));
}
