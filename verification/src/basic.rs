//! The first variant of the game: four fixed paddle slots, one controlled
//! paddle, and a per-frame event pump.
//!
//! Each frame, [`PongGameState::from_previous`] applies the keys gathered
//! during the last frame — `K` nudges the controlled paddle down the screen,
//! `J` nudges it up, `Escape` closes the window — and then
//! [`loop_events`] drains the window's event queue into the key buffer for
//! the next frame.

use vstd::prelude::*;
use vstd::arithmetic::mul::lemma_mul_inequality;

use crate::assets::{PADDLE_WIDTH, PADDLE_HEIGHT, PlayerId, Sprite, player_index};
use crate::geometry::{Color, Vec2, SUBPIXELS};
use crate::window::{same_window_config, Event, Key, VideoMode, Window};

verus! {

/// Window width in pixels.
pub const WINDOW_WIDTH: u32 = 1024;

/// Window height in pixels.
pub const WINDOW_HEIGHT: u32 = 768;

/// Color depth of the display mode, in bits per pixel.
pub const PIXELS: u32 = 32;

/// Gap kept between a paddle and the window border, in quarter pixels.
pub const PADDLE_PADDING: i32 = 30 * SUBPIXELS;

/// Leftmost paddle column, in quarter pixels.
pub const LHS_START_POS_X: i32 = PADDLE_PADDING;

/// Rightmost paddle column, in quarter pixels: the window width, less the
/// padding and the paddle's own width.
pub const RHS_START_POS_X: i32 = 1024 * SUBPIXELS - PADDLE_PADDING - PADDLE_WIDTH * SUBPIXELS;

/// Bottom paddle row, in quarter pixels: the window height, less the padding
/// and the paddle's own height.
pub const BOTTOM_START_POS_Y: i32 = 768 * SUBPIXELS - PADDLE_PADDING - PADDLE_HEIGHT * SUBPIXELS;

/// How far one key press moves the controlled paddle, in quarter pixels.
pub const PADDLE_VELOCITY: i32 = 5 * SUBPIXELS;

/// How many fixed start positions there are.
pub const START_POSITION_COUNT: usize = 4;

/// The fixed start position of paddle slot `i`: the four corners of the
/// play field, inset by the padding.
pub open spec fn start_position(i: int) -> Vec2 {
    if i == 0 {
        Vec2 { x: LHS_START_POS_X, y: PADDLE_PADDING }
    } else if i == 1 {
        Vec2 { x: RHS_START_POS_X, y: PADDLE_PADDING }
    } else if i == 2 {
        Vec2 { x: LHS_START_POS_X, y: BOTTOM_START_POS_Y }
    } else {
        Vec2 { x: RHS_START_POS_X, y: BOTTOM_START_POS_Y }
    }
}

/// The fixed start position of paddle slot `i`.
pub fn start_position_at(i: usize) -> (r: Vec2)
    requires
        i < START_POSITION_COUNT,
    ensures
        r == start_position(i as int),
{
    if i == 0 {
        Vec2 { x: LHS_START_POS_X, y: PADDLE_PADDING }
    } else if i == 1 {
        Vec2 { x: RHS_START_POS_X, y: PADDLE_PADDING }
    } else if i == 2 {
        Vec2 { x: LHS_START_POS_X, y: BOTTOM_START_POS_Y }
    } else {
        Vec2 { x: RHS_START_POS_X, y: BOTTOM_START_POS_Y }
    }
}

/// A player-controlled drawable rectangle.
#[derive(Clone, Copy, PartialEq, Eq, Structural, Debug)]
pub struct Paddle {
    pub sprite: Sprite,
}

/// Create the window the rest of the game draws into, and the color each
/// frame is cleared to.
pub fn create_window() -> (r: (Window, Color))
    ensures
        r.0.mode == (VideoMode { width: WINDOW_WIDTH, height: WINDOW_HEIGHT, bits_per_pixel: PIXELS }),
        r.0.title@ == "RSFML Pong - Rust"@,
        r.0.framerate_limit == 0,
        r.0.open,
        r.0.pending@ == Seq::<Event>::empty(),
        r.1 == (Color { red: 255, green: 255, blue: 255, alpha: 255 }),
{
    let title = String::from_str("RSFML Pong - Rust");
    let video_mode = VideoMode::new_init(WINDOW_WIDTH, WINDOW_HEIGHT, PIXELS);
    let clear_color = Color::new_rgb(255, 255, 255);
    let window = Window::new(video_mode, title);
    (window, clear_color)
}

/// Build one paddle per sprite, each moved to its slot's start position.
/// Slots are handed out in sprite order and run out after
/// [`START_POSITION_COUNT`] paddles, as pairing the sprites with the start
/// positions does.
pub fn create_paddles(sprites: Vec<(PlayerId, Sprite)>) -> (paddles: Vec<Paddle>)
    ensures
        paddles@.len() == if sprites@.len() < START_POSITION_COUNT {
            sprites@.len() as int
        } else {
            START_POSITION_COUNT as int
        },
        forall|i: int|
            0 <= i < paddles@.len() ==> {
                &&& (#[trigger] paddles@[i]).sprite.texture == sprites@[i].1.texture
                &&& paddles@[i].sprite.position == start_position(i)
            },
{
    let n: usize = if sprites.len() < START_POSITION_COUNT {
        sprites.len()
    } else {
        START_POSITION_COUNT
    };
    let mut paddles: Vec<Paddle> = Vec::new();
    let mut i: usize = 0;
    while i < n
        invariant
            i <= n,
            n == if sprites@.len() < START_POSITION_COUNT {
                sprites@.len() as int
            } else {
                START_POSITION_COUNT as int
            },
            paddles@.len() == i,
            forall|k: int|
                0 <= k < i ==> {
                    &&& (#[trigger] paddles@[k]).sprite.texture == sprites@[k].1.texture
                    &&& paddles@[k].sprite.position == start_position(k)
                },
        decreases n - i,
    {
        let mut paddle = Paddle { sprite: sprites[i].1 };
        paddle.sprite.set_position(start_position_at(i));
        paddles.push(paddle);
        i += 1;
    }
    paddles
}

/// Whether `keys` holds an `Escape` press, scanned front to back.
pub open spec fn presses_escape(keys: Seq<Key>) -> bool
    decreases keys.len(),
{
    if keys.len() == 0 {
        false
    } else if keys[0] == Key::Escape {
        true
    } else {
        presses_escape(keys.drop_first())
    }
}

/// Where the controlled paddle's vertical position ends up after the keys
/// in `keys` are applied in order: `K` adds one step, `J` takes one away,
/// every other key leaves it alone.
pub open spec fn moved_y(y: int, keys: Seq<Key>) -> int
    decreases keys.len(),
{
    if keys.len() == 0 {
        y
    } else {
        match keys[0] {
            Key::K => moved_y(y + PADDLE_VELOCITY, keys.drop_first()),
            Key::J => moved_y(y - PADDLE_VELOCITY, keys.drop_first()),
            _ => moved_y(y, keys.drop_first()),
        }
    }
}

/// What one frame's event pump leaves behind, given the queued events, the
/// key buffer and the open flag at its start: a close request closes the
/// window, a key press lands in the buffer, and the first event of any
/// other kind — or an empty queue — ends the pump for this frame.
pub open spec fn drain(pending: Seq<Event>, keys: Seq<Key>, open: bool) -> (Seq<Event>, Seq<
    Key,
>, bool)
    decreases pending.len(),
{
    if pending.len() == 0 {
        (pending, keys, open)
    } else {
        match pending[0] {
            Event::Closed => drain(pending.drop_first(), keys, false),
            Event::KeyPressed { code } => drain(pending.drop_first(), keys.push(code), open),
            _ => (pending.drop_first(), keys, open),
        }
    }
}

/// The whole game between frames: the window, the paddles, which paddle the
/// keyboard controls, and the keys gathered since the last frame.
pub struct PongGameState {
    pub window: Window,
    pub paddles: Vec<Paddle>,
    pub player_id: PlayerId,
    pub keys: Vec<Key>,
}

impl PongGameState {
    /// The state the game starts in: the given paddles and window, an empty
    /// key buffer, and the keyboard bound to `player_id_param`, whose slot
    /// must exist.
    pub fn new_default(
        paddles_param: Vec<Paddle>,
        window_param: Window,
        player_id_param: PlayerId,
    ) -> (state: PongGameState)
        requires
            player_index(player_id_param) < paddles_param@.len(),
        ensures
            state.keys@ == Seq::<Key>::empty(),
            state.paddles@ == paddles_param@,
            state.player_id == player_id_param,
            state.window == window_param,
    {
        PongGameState {
            keys: Vec::new(),
            paddles: paddles_param,
            player_id: player_id_param,
            window: window_param,
        }
    }

    /// Construct a new state from an existing one: apply every gathered key
    /// in order — `Escape` closes the window, `K` and `J` move the
    /// controlled paddle by one step down and up the screen — then clear
    /// the key buffer. Only the controlled paddle moves, and only
    /// vertically, to exactly [`moved_y`] of its old position.
    pub fn from_previous(prev: PongGameState) -> (state: PongGameState)
        requires
            player_index(prev.player_id) < prev.paddles@.len(),
            prev.paddles@[player_index(prev.player_id)].sprite.position.y - PADDLE_VELOCITY
                * prev.keys@.len() >= i32::MIN,
            prev.paddles@[player_index(prev.player_id)].sprite.position.y + PADDLE_VELOCITY
                * prev.keys@.len() <= i32::MAX,
        ensures
            state.player_id == prev.player_id,
            state.keys@ == Seq::<Key>::empty(),
            state.paddles@.len() == prev.paddles@.len(),
            forall|i: int|
                0 <= i < prev.paddles@.len() && i != player_index(prev.player_id)
                    ==> #[trigger] state.paddles@[i] == prev.paddles@[i],
            state.paddles@[player_index(prev.player_id)].sprite.texture == prev.paddles@[
                player_index(prev.player_id)
            ].sprite.texture,
            state.paddles@[player_index(prev.player_id)].sprite.position.x == prev.paddles@[
                player_index(prev.player_id)
            ].sprite.position.x,
            state.paddles@[player_index(prev.player_id)].sprite.position.y == moved_y(
                prev.paddles@[player_index(prev.player_id)].sprite.position.y as int,
                prev.keys@,
            ),
            same_window_config(prev.window, state.window),
            state.window.pending@ == prev.window.pending@,
            state.window.open == (prev.window.open && !presses_escape(prev.keys@)),
    {
        let ghost prev0 = prev;
        let mut state = prev;
        let player_idx: usize = state.player_id.index();
        let ghost y0 = prev0.paddles@[player_idx as int].sprite.position.y as int;
        let mut player_paddle: Paddle = state.paddles[player_idx];
        let n: usize = state.keys.len();
        let mut i: usize = 0;
        proof {
            assert(prev0.keys@.skip(0) =~= prev0.keys@);
        }
        while i < n
            invariant
                i <= n,
                n == prev0.keys@.len(),
                player_idx == player_index(prev0.player_id),
                player_idx < prev0.paddles@.len(),
                y0 == prev0.paddles@[player_idx as int].sprite.position.y as int,
                y0 - PADDLE_VELOCITY * n >= i32::MIN,
                y0 + PADDLE_VELOCITY * n <= i32::MAX,
                state.paddles@ == prev0.paddles@,
                state.keys@ == prev0.keys@,
                state.player_id == prev0.player_id,
                same_window_config(prev0.window, state.window),
                state.window.pending@ == prev0.window.pending@,
                (prev0.window.open && !presses_escape(prev0.keys@)) == (state.window.open
                    && !presses_escape(prev0.keys@.skip(i as int))),
                moved_y(y0, prev0.keys@) == moved_y(
                    player_paddle.sprite.position.y as int,
                    prev0.keys@.skip(i as int),
                ),
                player_paddle.sprite.texture == prev0.paddles@[player_idx as int].sprite.texture,
                player_paddle.sprite.position.x == prev0.paddles@[player_idx as int].sprite.position.x,
                y0 - PADDLE_VELOCITY * i <= player_paddle.sprite.position.y <= y0 + PADDLE_VELOCITY
                    * i,
            decreases n - i,
        {
            proof {
                assert(prev0.keys@.skip(i as int).len() == n - i);
                assert(prev0.keys@.skip(i as int)[0] == prev0.keys@[i as int]);
                assert(prev0.keys@.skip(i as int).drop_first() =~= prev0.keys@.skip(i as int + 1));
                // Fixing the step constant keeps the bound below linear.
                assert(PADDLE_VELOCITY == 20);
                lemma_mul_inequality(i as int + 1, n as int, PADDLE_VELOCITY as int);
                assert(PADDLE_VELOCITY * (i as int + 1) == PADDLE_VELOCITY * (i as int)
                    + PADDLE_VELOCITY);
                assert(PADDLE_VELOCITY * (i as int + 1) <= PADDLE_VELOCITY * (n as int));
            }
            let key = state.keys[i];
            match key {
                Key::Escape => state.window.close(),
                Key::K => player_paddle.sprite.move_by(Vec2 { x: 0, y: PADDLE_VELOCITY }),
                Key::J => player_paddle.sprite.move_by(Vec2 { x: 0, y: -PADDLE_VELOCITY }),
                _ => {},
            }
            i += 1;
        }
        proof {
            assert(prev0.keys@.skip(n as int) =~= Seq::<Key>::empty());
        }
        state.paddles[player_idx] = player_paddle;
        state.keys.clear();
        state
    }
}

/// Pump the window's queued events into the frame that
/// [`PongGameState::from_previous`] begins: poll until an event of another
/// kind — or an empty queue — ends the frame, closing the window on a close
/// request and buffering every key press.
pub fn loop_events(prev: PongGameState) -> (state: PongGameState)
    requires
        player_index(prev.player_id) < prev.paddles@.len(),
        prev.paddles@[player_index(prev.player_id)].sprite.position.y - PADDLE_VELOCITY
            * prev.keys@.len() >= i32::MIN,
        prev.paddles@[player_index(prev.player_id)].sprite.position.y + PADDLE_VELOCITY
            * prev.keys@.len() <= i32::MAX,
    ensures
        state.player_id == prev.player_id,
        state.paddles@.len() == prev.paddles@.len(),
        forall|i: int|
            0 <= i < prev.paddles@.len() && i != player_index(prev.player_id)
                ==> #[trigger] state.paddles@[i] == prev.paddles@[i],
        state.paddles@[player_index(prev.player_id)].sprite.texture == prev.paddles@[
            player_index(prev.player_id)
        ].sprite.texture,
        state.paddles@[player_index(prev.player_id)].sprite.position.x == prev.paddles@[
            player_index(prev.player_id)
        ].sprite.position.x,
        state.paddles@[player_index(prev.player_id)].sprite.position.y == moved_y(
            prev.paddles@[player_index(prev.player_id)].sprite.position.y as int,
            prev.keys@,
        ),
        same_window_config(prev.window, state.window),
        state.window.pending@ == drain(
            prev.window.pending@,
            Seq::<Key>::empty(),
            prev.window.open && !presses_escape(prev.keys@),
        ).0,
        state.keys@ == drain(
            prev.window.pending@,
            Seq::<Key>::empty(),
            prev.window.open && !presses_escape(prev.keys@),
        ).1,
        state.window.open == drain(
            prev.window.pending@,
            Seq::<Key>::empty(),
            prev.window.open && !presses_escape(prev.keys@),
        ).2,
{
    let mut state = PongGameState::from_previous(prev);
    let ghost mid = state;
    loop
        invariant_except_break
            drain(mid.window.pending@, mid.keys@, mid.window.open) == drain(
                state.window.pending@,
                state.keys@,
                state.window.open,
            ),
        invariant
            state.player_id == mid.player_id,
            state.paddles@ == mid.paddles@,
            same_window_config(mid.window, state.window),
        ensures
            state.player_id == mid.player_id,
            state.paddles@ == mid.paddles@,
            same_window_config(mid.window, state.window),
            drain(mid.window.pending@, mid.keys@, mid.window.open) == (
                state.window.pending@,
                state.keys@,
                state.window.open,
            ),
        decreases state.window.pending@.len(),
    {
        let event = state.window.poll_event();
        match event {
            Event::Closed => state.window.close(),
            Event::KeyPressed { code } => state.keys.push(code),
            _ => break ,
        }
    }
    state
}

} // verus!
