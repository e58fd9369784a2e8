//! What the terminal says, as the user interface hears it.

use vstd::prelude::*;

verus! {

/// A key of the keyboard.
#[derive(Clone, Copy, Debug, PartialEq, Eq, Structural)]
pub enum Key {
    Enter,
    Tab,
    ShiftTab,
    Backspace,
    Esc,
    Left,
    Right,
    Up,
    Down,
    Ins,
    Delete,
    Home,
    End,
    PageUp,
    PageDown,
    /// A function key.
    F(u8),
    Char(char),
    Ctrl(char),
    Alt(char),
    /// A key that the program has no name for.
    Unknown,
}

/// Something that the mouse does.
#[derive(Clone, Copy, Debug, PartialEq, Eq, Structural)]
pub enum Mouse {
    LeftPress,
    MiddlePress,
    RightPress,
    ScrollUp,
    ScrollDown,
    /// Column and row.
    Drag(u16, u16),
    /// Column and row.
    Move(u16, u16),
    /// Anything that the program has no name for.
    Unknown,
}

/// What the terminal reports.
#[derive(Clone, Copy, Debug, PartialEq, Eq, Structural)]
pub enum TerminalEvent {
    Mouse(Mouse),
    Key(Key),
    /// Anything that the program does not listen to.
    Other,
}

/// What the user interface hears.
#[derive(Clone, Copy, Debug, PartialEq, Eq, Structural)]
pub enum InputEvent {
    KeyBoardInput(Key),
    MouseAction(Mouse),
    /// Time has passed.
    Tick,
}

/// What one round of listening sends: what the terminal reported, if the program listens to it, and
/// then a tick. Without `polled` the terminal reported nothing in time.
pub open spec fn round_events(polled: Option<TerminalEvent>) -> Seq<InputEvent> {
    match polled {
        Some(TerminalEvent::Mouse(mouse)) => seq![InputEvent::MouseAction(mouse), InputEvent::Tick],
        Some(TerminalEvent::Key(key)) => seq![InputEvent::KeyBoardInput(key), InputEvent::Tick],
        _ => seq![InputEvent::Tick],
    }
}

/// What is handed to the user interface. A key without a name, and the end of all events, is a tick.
pub open spec fn delivered(received: Option<InputEvent>) -> InputEvent {
    match received {
        None => InputEvent::Tick,
        Some(InputEvent::KeyBoardInput(Key::Unknown)) => InputEvent::Tick,
        Some(event) => event,
    }
}

/// The listening to the terminal.
#[derive(Debug, PartialEq, Eq)]
pub struct Events {
    stop_capture: bool,
}

impl View for Events {
    type V = bool;

    /// The listening goes on.
    closed spec fn view(&self) -> bool {
        !self.stop_capture
    }
}

impl Events {
    /// Begins to listen.
    pub fn new() -> (events: Events)
        ensures
            events@,
    {
        Events { stop_capture: false }
    }

    /// Asks the listening to end.
    pub fn close(&mut self)
        ensures
            !final(self)@,
    {
        self.stop_capture = true;
    }

    /// Tells whether another round of listening follows.
    pub fn goes_on(&self) -> (going: bool)
        ensures
            going == self@,
    {
        !self.stop_capture
    }

    /// One round of listening: what is to be sent. The listening may be asked to end meanwhile.
    pub fn capture(&self, polled: Option<TerminalEvent>) -> (sent: Vec<InputEvent>)
        ensures
            sent@ == round_events(polled),
    {
        let mut events: Vec<InputEvent> = Vec::new();
        match polled {
            Some(TerminalEvent::Mouse(mouse)) => {
                events.push(InputEvent::MouseAction(mouse));
            },
            Some(TerminalEvent::Key(key)) => {
                events.push(InputEvent::KeyBoardInput(key));
            },
            _ => {},
        }
        events.push(InputEvent::Tick);
        assert(events@ =~= round_events(polled));
        events
    }

    /// The next event for the user interface, given what was received.
    pub fn next(&self, received: Option<InputEvent>) -> (event: InputEvent)
        ensures
            event == delivered(received),
    {
        match received {
            None => InputEvent::Tick,
            Some(InputEvent::KeyBoardInput(Key::Unknown)) => InputEvent::Tick,
            Some(event) => event,
        }
    }
}

/// What several rounds of listening send, one after the other.
pub open spec fn rounds_events(polls: Seq<Option<TerminalEvent>>) -> Seq<InputEvent>
    decreases polls.len(),
{
    if polls.len() == 0 {
        seq![]
    } else {
        rounds_events(polls.drop_last()) + round_events(polls.last())
    }
}

/// How many of the events are ticks.
pub open spec fn ticks(events: Seq<InputEvent>) -> int
    decreases events.len(),
{
    if events.len() == 0 {
        0
    } else {
        ticks(events.drop_last()) + if events.last() == InputEvent::Tick {
            1int
        } else {
            0
        }
    }
}

/// The ticks of two rows of events add up.
proof fn lemma_ticks_add_up(a: Seq<InputEvent>, b: Seq<InputEvent>)
    ensures
        ticks(a + b) == ticks(a) + ticks(b),
    decreases b.len(),
{
    if b.len() == 0 {
        assert(a + b =~= a);
    } else {
        lemma_ticks_add_up(a, b.drop_last());
        assert((a + b).drop_last() =~= a + b.drop_last());
    }
}

/// Every round of listening ticks once, at its end, and sends no more than one other event.
pub proof fn every_round_ticks(polls: Seq<Option<TerminalEvent>>)
    ensures
        ticks(rounds_events(polls)) == polls.len(),
        polls.len() <= rounds_events(polls).len() <= 2 * polls.len(),
        polls.len() > 0 ==> rounds_events(polls).last() == InputEvent::Tick,
    decreases polls.len(),
{
    if polls.len() > 0 {
        every_round_ticks(polls.drop_last());
        let last = round_events(polls.last());
        lemma_ticks_add_up(rounds_events(polls.drop_last()), last);
        assert(ticks(last) == 1) by {
            reveal_with_fuel(ticks, 3);
            assert(last.drop_last().len() <= 1);
        }
    }
}

/// The user interface never hears a key without a name, and hears everything else as it was sent.
pub proof fn unknown_keys_are_not_delivered(received: Option<InputEvent>)
    ensures
        delivered(received) != InputEvent::KeyBoardInput(Key::Unknown),
        received matches Some(event) ==> event != InputEvent::KeyBoardInput(Key::Unknown)
            ==> delivered(received) == event,
{
}

/// A key and an action of the mouse are sent as they are, before the tick of their round, and nothing
/// else is sent but the tick.
pub proof fn reports_are_sent_before_the_tick(key: Key, mouse: Mouse)
    ensures
        round_events(Some(TerminalEvent::Key(key))).len() == 2,
        round_events(Some(TerminalEvent::Key(key)))[0] == InputEvent::KeyBoardInput(key),
        round_events(Some(TerminalEvent::Mouse(mouse))).len() == 2,
        round_events(Some(TerminalEvent::Mouse(mouse)))[0] == InputEvent::MouseAction(mouse),
        round_events(Some(TerminalEvent::Other)).len() == 1,
        round_events(None).len() == 1,
        forall|polled: Option<TerminalEvent>|
            (#[trigger] round_events(polled)).last() == InputEvent::Tick,
{
}

/// What is reported earlier is sent earlier.
pub proof fn rounds_follow_each_other(
    first: Seq<Option<TerminalEvent>>,
    second: Seq<Option<TerminalEvent>>,
)
    ensures
        rounds_events(first + second) == rounds_events(first) + rounds_events(second),
    decreases second.len(),
{
    if second.len() == 0 {
        assert(first + second =~= first);
        assert(rounds_events(first) + rounds_events(second) =~= rounds_events(first));
    } else {
        let before = second.drop_last();
        rounds_follow_each_other(first, before);
        assert((first + second).drop_last() =~= first + before);
        assert(rounds_events(first + second) =~= rounds_events(first) + rounds_events(second));
    }
}

/// The mouse is always heard, a named key is heard as it is, and where nothing is received time passes.
pub proof fn what_is_sent_is_heard(key: Key, mouse: Mouse)
    ensures
        delivered(Some(InputEvent::MouseAction(mouse))) == InputEvent::MouseAction(mouse),
        key != Key::Unknown ==> delivered(Some(InputEvent::KeyBoardInput(key)))
            == InputEvent::KeyBoardInput(key),
        delivered(Some(InputEvent::KeyBoardInput(Key::Unknown))) == InputEvent::Tick,
        delivered(Some(InputEvent::Tick)) == InputEvent::Tick,
        delivered(None) == InputEvent::Tick,
{
}

} // verus!
