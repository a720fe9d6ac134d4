use crypto_feed::app::{join_strings, App, AppReturn, Effect};
use crypto_feed::binance::Binance;
use crypto_feed::events::{Events, InputEvent};
use crypto_feed::key::Key;

fn fresh_app() -> App {
    App::new(Binance::new(
        "https://api.example.com/api/v3".to_string(),
        "wss://stream.example.com/ws".to_string(),
    ))
}

#[test]
fn quit_keys_exit() {
    let app = fresh_app();
    assert_eq!(app.do_action(Key::Char('q')), (AppReturn::Exit, Effect::Nothing));
    assert_eq!(app.do_action(Key::Ctrl('c')), (AppReturn::Exit, Effect::Nothing));
}

#[test]
fn bound_keys_request_their_effect() {
    let app = fresh_app();
    assert_eq!(
        app.do_action(Key::Char('1')),
        (AppReturn::Continue, Effect::FetchSymbols)
    );
    assert_eq!(
        app.do_action(Key::Char('2')),
        (AppReturn::Continue, Effect::OpenStream)
    );
}

#[test]
fn unbound_key_continues_quietly() {
    let app = fresh_app();
    assert_eq!(app.do_action(Key::Char('x')), (AppReturn::Continue, Effect::Nothing));
    assert_eq!(app.do_action(Key::Enter), (AppReturn::Continue, Effect::Nothing));
}

#[test]
fn ticks_are_counted() {
    let mut app = fresh_app();
    assert_eq!(app.state().count_tick(), 0);
    assert_eq!(app.update_on_tick(), AppReturn::Continue);
    assert_eq!(app.update_on_tick(), AppReturn::Continue);
    assert_eq!(app.state().count_tick(), 2);
}

#[test]
fn successful_fetch_is_cached_joined() {
    let mut app = fresh_app();
    assert_eq!(app.request_content(), "");
    let r = app.apply_symbols_result(Some(vec![
        "btcusdt".to_string(),
        "ethusdt".to_string(),
        "bnbusdt".to_string(),
    ]));
    assert_eq!(r, AppReturn::Continue);
    assert_eq!(app.request_content(), "btcusdt|ethusdt|bnbusdt");
    assert_eq!(app.line_separator(), "|");
}

#[test]
fn failed_fetch_leaves_cache_untouched() {
    let mut app = fresh_app();
    app.apply_symbols_result(Some(vec!["btcusdt".to_string()]));
    let before = app.request_content();
    let r = app.apply_symbols_result(None);
    assert_eq!(r, AppReturn::Continue);
    assert_eq!(app.request_content(), before);
    // a later success overwrites, keeping no history
    app.apply_symbols_result(Some(vec!["ethusdt".to_string()]));
    assert_eq!(app.request_content(), "ethusdt");
}

#[test]
fn failed_first_fetch_leaves_cache_empty() {
    let mut app = fresh_app();
    app.apply_symbols_result(None);
    assert_eq!(app.request_content(), "");
}

#[test]
fn join_empty_one_many() {
    assert_eq!(join_strings(&Vec::new(), "|"), "");
    assert_eq!(join_strings(&vec!["a".to_string()], "|"), "a");
    assert_eq!(
        join_strings(&vec!["a".to_string(), "b".to_string(), "c".to_string()], ", "),
        "a, b, c"
    );
}

#[test]
fn end_to_end_scenario() {
    // Registry: Quit -> [Ctrl-c, 'q'], ListSymbols -> ['1'],
    // StartStream -> ['2']. Events fed: Tick, Input('1'), Tick,
    // Input('q') — each input cycle also emits its pacing tick.
    let mut app = fresh_app();
    let mut events = Events::new();
    events.poll_cycle(None); // Tick
    events.poll_cycle(Some(Key::Char('1'))); // Input('1'), Tick
    events.poll_cycle(Some(Key::Char('q'))); // Input('q'), Tick

    let mut fetch_calls = 0;
    let mut exited = false;
    while let Some(event) = events.next() {
        let result = match event {
            InputEvent::Input(key) => {
                let (ret, effect) = app.do_action(key);
                if effect == Effect::FetchSymbols {
                    // the collaborator answers with a snapshot
                    fetch_calls += 1;
                    app.apply_symbols_result(Some(vec![
                        "btcusdt".to_string(),
                        "ethusdt".to_string(),
                    ]));
                }
                ret
            },
            InputEvent::Tick => app.update_on_tick(),
        };
        if result == AppReturn::Exit {
            exited = true;
            break;
        }
    }

    assert!(exited);
    assert_eq!(app.state().count_tick(), 2);
    assert_eq!(fetch_calls, 1);
    assert_eq!(app.request_content(), "btcusdt|ethusdt");
    // the loop stopped on the quit input: the pacing tick of that last
    // cycle was never processed
    assert_eq!(events.len(), 1);
}
