use nanos_ui::ui::buttons::{ButtonsState, Event};
use nanos_ui::ui::source::{
    get_event, next_action, receive, Delivery, SourceAction, BUTTON_PUSH_TAG,
};

#[test]
fn button_push_tag_is_five() {
    assert_eq!(BUTTON_PUSH_TAG, 0x05);
}

#[test]
fn a_missing_status_is_sent_at_the_first_question_only() {
    assert_eq!(next_action(true, false), SourceAction::SendStatus);
    assert_eq!(next_action(false, false), SourceAction::GiveUp);
}

#[test]
fn an_outstanding_status_means_receive() {
    assert_eq!(next_action(true, true), SourceAction::Receive);
    assert_eq!(next_action(false, true), SourceAction::Receive);
}

#[test]
fn receive_keeps_the_command() {
    let mut buttons = ButtonsState::new();
    assert_eq!(receive(&mut buttons, [1, 2, 3, 4]), Delivery::Ignored);
    assert_eq!(buttons.cmd_buffer, [1, 2, 3, 4]);
    assert_eq!(buttons.button_mask, 0);
}

#[test]
fn receive_reads_bits_one_and_two_of_the_last_byte() {
    let mut buttons = ButtonsState::new();
    assert_eq!(
        receive(&mut buttons, [5, 0, 0, 0b010]),
        Delivery::Button(Some(Event::LeftButtonPress))
    );
    assert_eq!(buttons.button_mask, 1);
    assert_eq!(
        receive(&mut buttons, [5, 0, 0, 0b000]),
        Delivery::Button(Some(Event::LeftButtonRelease))
    );
    assert_eq!(
        receive(&mut buttons, [5, 0, 0, 0b100]),
        Delivery::Button(Some(Event::RightButtonPress))
    );
    assert_eq!(
        receive(&mut buttons, [5, 0, 0, 0b110]),
        Delivery::Button(Some(Event::BothButtonsPress))
    );
    assert_eq!(
        receive(&mut buttons, [5, 0, 0, 0b001]),
        Delivery::Button(Some(Event::BothButtonsRelease))
    );
    assert_eq!(buttons.button_mask, 0);
}

#[test]
fn receive_ignores_the_other_bits_of_the_last_byte() {
    let mut buttons = ButtonsState::new();
    assert_eq!(
        receive(&mut buttons, [5, 0, 0, 0b1111_1010]),
        Delivery::Button(Some(Event::LeftButtonPress))
    );
    assert_eq!(buttons.button_mask, 1);
    assert_eq!(buttons.cmd_buffer, [5, 0, 0, 0b1111_1010]);
}

#[test]
fn receive_returns_a_report_without_event_as_such() {
    let mut buttons = ButtonsState::new();
    assert_eq!(receive(&mut buttons, [5, 0, 0, 0]), Delivery::Button(None));
    assert_eq!(receive(&mut buttons, [5, 0, 0, 2]), Delivery::Button(Some(Event::LeftButtonPress)));
    assert_eq!(receive(&mut buttons, [5, 0, 0, 2]), Delivery::Button(None));
}

#[test]
fn get_event_skips_what_is_no_button_report() {
    let mut buttons = ButtonsState::new();
    let commands = [[1, 0, 0, 2], [0x15, 0, 0, 2], [5, 0, 0, 4], [5, 0, 0, 0]];
    assert_eq!(get_event(&mut buttons, &commands), (Some(Event::RightButtonPress), 3));
    assert_eq!(buttons.cmd_buffer, [5, 0, 0, 4]);
    assert_eq!(buttons.button_mask, 2);
    assert_eq!(get_event(&mut buttons, &commands[3..]), (Some(Event::RightButtonRelease), 1));
    assert_eq!(buttons.button_mask, 0);
}

#[test]
fn get_event_returns_at_the_first_report_also_without_event() {
    let mut buttons = ButtonsState::new();
    let commands = [[5, 0, 0, 0], [5, 0, 0, 2]];
    assert_eq!(get_event(&mut buttons, &commands), (None, 1));
    assert_eq!(buttons.cmd_buffer, [5, 0, 0, 0]);
}

#[test]
fn get_event_without_a_report_is_none() {
    let mut buttons = ButtonsState { button_mask: 2, cmd_buffer: [7, 7, 7, 7] };
    assert_eq!(get_event(&mut buttons, &[]), (None, 0));
    assert_eq!(buttons, ButtonsState { button_mask: 2, cmd_buffer: [7, 7, 7, 7] });
    assert_eq!(get_event(&mut buttons, &[[1, 1, 1, 1], [2, 2, 2, 2]]), (None, 2));
    assert_eq!(buttons, ButtonsState { button_mask: 2, cmd_buffer: [2, 2, 2, 2] });
}
