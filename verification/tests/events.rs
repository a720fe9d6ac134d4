use crypto_feed::events::{Events, InputEvent};
use crypto_feed::key::Key;

#[test]
fn tick_input_pairing() {
    // A cycle that received a key emits both events, input first.
    let mut ev = Events::new();
    ev.poll_cycle(Some(Key::Char('1')));
    assert_eq!(ev.next(), Some(InputEvent::Input(Key::Char('1'))));
    assert_eq!(ev.next(), Some(InputEvent::Tick));
    assert_eq!(ev.next(), None);
}

#[test]
fn idle_ticking() {
    // With no key input for five cycles the consumer observes exactly
    // five ticks.
    let mut ev = Events::new();
    for _ in 0..5 {
        ev.poll_cycle(None);
    }
    let mut ticks = 0;
    while let Some(e) = ev.next() {
        assert_eq!(e, InputEvent::Tick);
        ticks += 1;
    }
    assert_eq!(ticks, 5);
}

#[test]
fn fifo_order_no_loss() {
    let mut ev = Events::new();
    ev.poll_cycle(None);
    ev.poll_cycle(Some(Key::Char('a')));
    ev.poll_cycle(Some(Key::Ctrl('c')));
    ev.poll_cycle(None);
    let expected = [
        InputEvent::Tick,
        InputEvent::Input(Key::Char('a')),
        InputEvent::Tick,
        InputEvent::Input(Key::Ctrl('c')),
        InputEvent::Tick,
        InputEvent::Tick,
    ];
    assert_eq!(ev.len(), expected.len());
    for want in expected {
        assert_eq!(ev.next(), Some(want));
    }
    assert_eq!(ev.next(), None);
    assert_eq!(ev.len(), 0);
}
