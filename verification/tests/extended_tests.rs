use pong::assets::{create_sprites, load_assets, PlayerId};
use pong::extended::{
    create_ball, create_paddles, create_window, loop_events, PongGameState, BALL_INITIAL_X,
    BALL_INITIAL_Y, BALL_OUTLINE_THICKNESS, BALL_RADIUS, FPS_LIMIT, LHS_START_POS_X,
    PADDLE_PADDING, RHS_START_POS_X,
};
use pong::geometry::{Color, SUBPIXELS};
use pong::window::{Event, Key};

#[test]
fn create_window_throttles_the_framerate() {
    let (window, clear_color) = create_window();
    assert_eq!(window.mode.width, 800);
    assert_eq!(window.mode.height, 600);
    assert_eq!(window.mode.bits_per_pixel, 32);
    assert_eq!(window.title, "RSFML Pong - Rust");
    assert_eq!(window.framerate_limit, FPS_LIMIT);
    assert!(window.open);
    assert!(window.pending.is_empty());
    assert_eq!(clear_color, Color { red: 255, green: 255, blue: 255, alpha: 255 });
}

#[test]
fn create_ball_styles_the_circle() {
    let ball = create_ball();
    assert_eq!(ball.drawable.radius, BALL_RADIUS);
    assert_eq!(ball.drawable.outline_thickness, BALL_OUTLINE_THICKNESS);
    assert_eq!(ball.drawable.fill_color, Color { red: 255, green: 0, blue: 0, alpha: 255 });
    assert_eq!(ball.drawable.outline_color, Color { red: 255, green: 0, blue: 255, alpha: 255 });
    assert_eq!(ball.drawable.position.x, BALL_INITIAL_X);
    assert_eq!(ball.drawable.position.y, BALL_INITIAL_Y);
}

#[test]
fn create_ball_launches_within_the_allowed_velocities() {
    // The velocity is drawn at random; every draw must land in the small
    // allowed set.
    for _ in 0..100 {
        let ball = create_ball();
        assert!([-SUBPIXELS, -3, 3, SUBPIXELS].contains(&ball.velocity.x));
        assert!(-SUBPIXELS <= ball.velocity.y && ball.velocity.y < SUBPIXELS);
    }
}

#[test]
fn create_paddles_starts_them_standing_still() {
    let assets = load_assets();
    let sprites = create_sprites(&assets);
    let paddles = create_paddles(sprites);
    assert_eq!(paddles.len(), 2);
    assert_eq!(paddles[0].sprite.position.x, LHS_START_POS_X);
    assert_eq!(paddles[0].sprite.position.y, PADDLE_PADDING);
    assert_eq!(paddles[1].sprite.position.x, RHS_START_POS_X);
    assert_eq!(paddles[1].sprite.position.y, PADDLE_PADDING);
    for paddle in &paddles {
        assert_eq!(paddle.velocity.x, 0);
        assert_eq!(paddle.velocity.y, 0);
    }
}

#[test]
fn new_default_hands_each_player_its_paddle() {
    let assets = load_assets();
    let sprites = create_sprites(&assets);
    let paddles = create_paddles(sprites);
    let ball = create_ball();
    let state = PongGameState::new_default(paddles, ball);

    assert_eq!(state.player_contexts.len(), 2);
    assert_eq!(state.player_contexts[0].player_id, PlayerId::BluePaddle);
    assert_eq!(state.player_contexts[1].player_id, PlayerId::GreenPaddle);
    for (i, context) in state.player_contexts.iter().enumerate() {
        assert_eq!(context.paddle.sprite.texture, PlayerId::from_index(i).unwrap());
        assert!(context.keys.is_empty());
    }
    assert_eq!(state.ball.drawable.radius, BALL_RADIUS);
}

#[test]
fn from_previous_hands_the_state_on_unchanged() {
    let assets = load_assets();
    let sprites = create_sprites(&assets);
    let paddles = create_paddles(sprites);
    let ball = create_ball();
    let state = PongGameState::new_default(paddles, ball);
    let positions: Vec<_> =
        state.player_contexts.iter().map(|c| c.paddle.sprite.position).collect();

    let state = PongGameState::from_previous(state);
    for (context, position) in state.player_contexts.iter().zip(positions) {
        assert_eq!(context.paddle.sprite.position, position);
    }
    assert_eq!(state.ball, ball);
}

#[test]
fn loop_events_buffers_key_presses_for_one_player() {
    let (mut window, _) = create_window();
    let assets = load_assets();
    let sprites = create_sprites(&assets);
    let paddles = create_paddles(sprites);
    let ball = create_ball();
    let state = PongGameState::new_default(paddles, ball);

    window.push_event(Event::KeyPressed { code: Key::J });
    window.push_event(Event::KeyPressed { code: Key::K });
    window.push_event(Event::Other);
    window.push_event(Event::Closed);

    let context = state.player_contexts[0].clone();
    let context = loop_events(context, &mut window);

    assert_eq!(context.player_id, PlayerId::BluePaddle);
    assert_eq!(context.keys, vec![Key::J, Key::K]);
    // The pump stopped at the other-kind event; the close request is still
    // queued for the next frame.
    assert_eq!(window.pending, vec![Event::Closed]);
    assert!(window.open);
}

#[test]
fn loop_events_stops_on_an_empty_queue() {
    let (mut window, _) = create_window();
    let assets = load_assets();
    let sprites = create_sprites(&assets);
    let paddles = create_paddles(sprites);
    let state = PongGameState::new_default(paddles, create_ball());

    let context = loop_events(state.player_contexts[1].clone(), &mut window);
    assert!(context.keys.is_empty());
    assert!(window.pending.is_empty());
    assert!(window.open);
}
