use chatui::state::{ChatState, LoopControl};
use tui_textarea::{Input, Key};

#[test]
fn session_type_hi_enter_then_timer_then_escape() {
    let mut state = ChatState::new();
    assert_eq!(state.messages, Vec::<String>::new());
    assert_eq!(state.sent, 0);
    assert_eq!(state.received, 0);

    let r = state.on_key(Input { key: Key::Char('h'), ctrl: false, alt: false });
    assert_eq!(r, LoopControl::Continue);
    let r = state.on_key(Input { key: Key::Char('i'), ctrl: false, alt: false });
    assert_eq!(r, LoopControl::Continue);
    assert_eq!(state.messages, Vec::<String>::new());

    let r = state.on_key(Input { key: Key::Enter, ctrl: false, alt: false });
    assert_eq!(r, LoopControl::Continue);
    assert_eq!(state.messages, vec!["hi".to_string()]);
    assert_eq!(state.sent, 1);
    assert_eq!(state.received, 0);

    state.on_timer();
    assert_eq!(state.messages, vec!["hi".to_string(), "hello!".to_string()]);
    assert_eq!(state.sent, 1);
    assert_eq!(state.received, 1);

    let r = state.on_key(Input { key: Key::Esc, ctrl: false, alt: false });
    assert_eq!(r, LoopControl::Quit);
    assert_eq!(state.messages, vec!["hi".to_string(), "hello!".to_string()]);
}

#[test]
fn submit_with_empty_input_logs_empty_message() {
    let mut state = ChatState::new();
    let r = state.on_key(Input { key: Key::Enter, ctrl: false, alt: false });
    assert_eq!(r, LoopControl::Continue);
    assert_eq!(state.messages, vec!["".to_string()]);
    assert_eq!(state.sent, 1);
}

#[test]
fn submit_multi_line_input_joins_lines_in_order() {
    let mut state = ChatState::new();
    state.edit(Input { key: Key::Char('a'), ctrl: false, alt: false });
    // Inside the widget an Enter key inserts a line break; it submits only
    // when it reaches the key dispatch.
    state.edit(Input { key: Key::Enter, ctrl: false, alt: false });
    state.edit(Input { key: Key::Char('b'), ctrl: false, alt: false });
    state.edit(Input { key: Key::Char('c'), ctrl: false, alt: false });
    assert_eq!(state.inputbox.current_lines(), vec!["a".to_string(), "bc".to_string()]);

    let r = state.on_key(Input { key: Key::Enter, ctrl: false, alt: false });
    assert_eq!(r, LoopControl::Continue);
    assert_eq!(state.messages, vec!["a\nbc".to_string()]);
}

#[test]
fn ordinary_keys_leave_log_and_counters_alone() {
    let mut state = ChatState::new();
    let keys = [
        Key::Char('x'),
        Key::Left,
        Key::Right,
        Key::Up,
        Key::Down,
        Key::Backspace,
        Key::Delete,
        Key::Tab,
        Key::Home,
        Key::End,
    ];
    for key in keys {
        let r = state.on_key(Input { key, ctrl: false, alt: false });
        assert_eq!(r, LoopControl::Continue);
        assert_eq!(state.messages, Vec::<String>::new());
        assert_eq!(state.sent, 0);
        assert_eq!(state.received, 0);
        assert!(state.inputbox.current_lines().len() >= 1);
    }
}

#[test]
fn submit_always_resets_widget_to_one_empty_line() {
    let mut state = ChatState::new();
    state.on_key(Input { key: Key::Enter, ctrl: false, alt: false });
    assert_eq!(state.inputbox.current_lines(), vec!["".to_string()]);

    state.edit(Input { key: Key::Char('q'), ctrl: false, alt: false });
    state.edit(Input { key: Key::Enter, ctrl: false, alt: false });
    state.edit(Input { key: Key::Char('r'), ctrl: false, alt: false });
    state.on_key(Input { key: Key::Enter, ctrl: false, alt: false });
    assert_eq!(state.inputbox.current_lines(), vec!["".to_string()]);
}

#[test]
fn counters_equal_events_processed_and_never_decrease() {
    let mut state = ChatState::new();
    let mut max_sent = 0;
    let mut max_received = 0;
    for round in 0..5 {
        state.edit(Input { key: Key::Char('m'), ctrl: false, alt: false });
        state.on_key(Input { key: Key::Enter, ctrl: false, alt: false });
        state.on_timer();
        if round % 2 == 0 {
            state.on_timer();
        }
        assert!(state.sent >= max_sent);
        assert!(state.received >= max_received);
        max_sent = state.sent;
        max_received = state.received;
    }
    assert_eq!(state.sent, 5);
    assert_eq!(state.received, 8);
    assert_eq!(state.messages.len(), 13);
}

#[test]
fn update_status_reflects_counters() {
    let mut state = ChatState::new();
    state.update_status();
    assert_eq!(
        state.status,
        format!("Messages sent: {:4}  Messages received: {:4}", 0, 0)
    );
    state.on_key(Input { key: Key::Enter, ctrl: false, alt: false });
    state.on_timer();
    state.on_timer();
    state.update_status();
    assert_eq!(
        state.status,
        format!("Messages sent: {:4}  Messages received: {:4}", 1, 2)
    );
}

#[test]
fn quit_key_quits_whatever_the_modifiers() {
    let mut state = ChatState::new();
    let r = state.on_key(Input { key: Key::Esc, ctrl: true, alt: true });
    assert_eq!(r, LoopControl::Quit);
    assert_eq!(state.sent, 0);
    assert_eq!(state.messages, Vec::<String>::new());
}
