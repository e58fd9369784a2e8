use kanban_io::events::{Events, InputEvent, Key, Mouse, TerminalEvent};

#[test]
fn every_round_ends_with_a_tick() {
    let events = Events::new();
    assert_eq!(events.capture(None), vec![InputEvent::Tick]);
    assert_eq!(events.capture(Some(TerminalEvent::Other)), vec![InputEvent::Tick]);
    assert_eq!(
        events.capture(Some(TerminalEvent::Key(Key::Char('q')))),
        vec![InputEvent::KeyBoardInput(Key::Char('q')), InputEvent::Tick]
    );
    assert_eq!(
        events.capture(Some(TerminalEvent::Mouse(Mouse::Drag(3, 4)))),
        vec![InputEvent::MouseAction(Mouse::Drag(3, 4)), InputEvent::Tick]
    );
}

#[test]
fn a_closed_listening_ends_after_its_round() {
    let mut events = Events::new();
    assert!(events.goes_on());
    events.close();
    assert_eq!(
        events.capture(Some(TerminalEvent::Key(Key::Esc))),
        vec![InputEvent::KeyBoardInput(Key::Esc), InputEvent::Tick]
    );
    assert!(!events.goes_on());
    events.close();
    assert!(!events.goes_on());
}

#[test]
fn keys_without_a_name_are_ticks() {
    let events = Events::new();
    assert_eq!(events.next(Some(InputEvent::KeyBoardInput(Key::Unknown))), InputEvent::Tick);
    assert_eq!(events.next(None), InputEvent::Tick);
    assert_eq!(events.next(Some(InputEvent::Tick)), InputEvent::Tick);
    assert_eq!(
        events.next(Some(InputEvent::KeyBoardInput(Key::Ctrl('c')))),
        InputEvent::KeyBoardInput(Key::Ctrl('c'))
    );
    assert_eq!(
        events.next(Some(InputEvent::MouseAction(Mouse::Unknown))),
        InputEvent::MouseAction(Mouse::Unknown)
    );
}
