use pong::assets::{create_sprites, load_assets, PlayerId};
use pong::basic::{
    create_paddles, create_window, loop_events, PongGameState, LHS_START_POS_X, PADDLE_PADDING,
    PADDLE_VELOCITY, RHS_START_POS_X, WINDOW_HEIGHT, WINDOW_WIDTH,
};
use pong::window::{Event, Key};

fn fresh_state() -> PongGameState {
    let (window, _clear_color) = create_window();
    let assets = load_assets();
    let sprites = create_sprites(&assets);
    let paddles = create_paddles(sprites);
    PongGameState::new_default(paddles, window, PlayerId::GreenPaddle)
}

#[test]
fn create_window_opens_the_configured_mode() {
    let (window, clear_color) = create_window();
    assert_eq!(window.mode.width, WINDOW_WIDTH);
    assert_eq!(window.mode.height, WINDOW_HEIGHT);
    assert_eq!(window.mode.bits_per_pixel, 32);
    assert_eq!(window.title, "RSFML Pong - Rust");
    assert_eq!(window.framerate_limit, 0);
    assert!(window.open);
    assert!(window.pending.is_empty());
    assert_eq!(
        (clear_color.red, clear_color.green, clear_color.blue, clear_color.alpha),
        (255, 255, 255, 255)
    );
}

#[test]
fn create_paddles_fills_the_first_two_start_positions() {
    let assets = load_assets();
    let sprites = create_sprites(&assets);
    let paddles = create_paddles(sprites);
    assert_eq!(paddles.len(), 2);
    assert_eq!(paddles[0].sprite.position.x, LHS_START_POS_X);
    assert_eq!(paddles[0].sprite.position.y, PADDLE_PADDING);
    assert_eq!(paddles[1].sprite.position.x, RHS_START_POS_X);
    assert_eq!(paddles[1].sprite.position.y, PADDLE_PADDING);
}

#[test]
fn new_default_starts_with_an_empty_key_buffer() {
    let state = fresh_state();
    assert!(state.keys.is_empty());
    assert_eq!(state.player_id, PlayerId::GreenPaddle);
    assert_eq!(state.paddles.len(), 2);
    assert!(state.window.open);
}

#[test]
fn from_previous_applies_the_gathered_keys_in_order() {
    let mut state = fresh_state();
    let start_y = state.paddles[1].sprite.position.y;
    state.keys.push(Key::K);
    state.keys.push(Key::K);
    state.keys.push(Key::J);
    state.keys.push(Key::Other(42));

    let state = PongGameState::from_previous(state);
    // Two steps one way, one step back.
    assert_eq!(state.paddles[1].sprite.position.y, start_y + PADDLE_VELOCITY);
    assert_eq!(state.paddles[1].sprite.position.x, RHS_START_POS_X);
    assert!(state.keys.is_empty());
    assert!(state.window.open);
}

#[test]
fn from_previous_leaves_the_other_paddle_alone() {
    let mut state = fresh_state();
    let other = state.paddles[0];
    state.keys.push(Key::J);
    let state = PongGameState::from_previous(state);
    assert_eq!(state.paddles[0], other);
    assert_eq!(state.paddles[1].sprite.position.y, PADDLE_PADDING - PADDLE_VELOCITY);
}

#[test]
fn from_previous_closes_the_window_on_escape() {
    let mut state = fresh_state();
    state.keys.push(Key::K);
    state.keys.push(Key::Escape);
    let state = PongGameState::from_previous(state);
    assert!(!state.window.open);
    // The key still moved the paddle before the close request.
    assert_eq!(state.paddles[1].sprite.position.y, PADDLE_PADDING + PADDLE_VELOCITY);
}

#[test]
fn loop_events_buffers_key_presses_until_another_event_kind() {
    let mut state = fresh_state();
    state.window.push_event(Event::KeyPressed { code: Key::J });
    state.window.push_event(Event::KeyPressed { code: Key::K });
    state.window.push_event(Event::Other);
    state.window.push_event(Event::KeyPressed { code: Key::Escape });

    let state = loop_events(state);
    assert_eq!(state.keys, vec![Key::J, Key::K]);
    // The pump consumed the other-kind event and stopped there.
    assert_eq!(state.window.pending, vec![Event::KeyPressed { code: Key::Escape }]);
    assert!(state.window.open);
}

#[test]
fn loop_events_closes_the_window_on_a_close_request() {
    let mut state = fresh_state();
    state.window.push_event(Event::KeyPressed { code: Key::K });
    state.window.push_event(Event::Closed);
    state.window.push_event(Event::KeyPressed { code: Key::K });

    let state = loop_events(state);
    // The close request closes the window, and the pump keeps going until
    // the queue runs dry.
    assert!(!state.window.open);
    assert_eq!(state.keys, vec![Key::K, Key::K]);
    assert!(state.window.pending.is_empty());
}

#[test]
fn loop_events_applies_the_previous_frame_before_pumping() {
    let mut state = fresh_state();
    state.keys.push(Key::K);
    state.window.push_event(Event::KeyPressed { code: Key::J });

    let state = loop_events(state);
    // The old buffer moved the paddle and was cleared; the new press is
    // waiting for the next frame.
    assert_eq!(state.paddles[1].sprite.position.y, PADDLE_PADDING + PADDLE_VELOCITY);
    assert_eq!(state.keys, vec![Key::J]);
}
