//! The later variant of the game: a smaller throttled window, one context
//! per player, and a ball launched from the center with a randomized
//! velocity.
//!
//! Per-frame movement and collision response are not part of this variant:
//! [`PongGameState::from_previous`] hands the state on unchanged, and the
//! ball's velocity is only ever set at launch.

use vstd::prelude::*;

use crate::assets::{PADDLE_WIDTH, PADDLE_HEIGHT, PlayerId, Sprite, player_index};
use crate::geometry::{Color, Vec2, SUBPIXELS};
use crate::rng::random_in_range;
use crate::window::{same_window_config, Event, Key, VideoMode, Window};

verus! {

/// Frames per second the display is throttled to.
pub const FPS_LIMIT: u32 = 60;

/// Window width in pixels.
pub const WINDOW_WIDTH: u32 = 800;

/// Window height in pixels.
pub const WINDOW_HEIGHT: u32 = 600;

/// Color depth of the display mode, in bits per pixel.
pub const PIXEL_COUNT: u32 = 32;

/// Gap kept between a paddle and the window border, in quarter pixels.
pub const PADDLE_PADDING: i32 = 30 * SUBPIXELS;

/// Leftmost paddle column, in quarter pixels.
pub const LHS_START_POS_X: i32 = PADDLE_PADDING;

/// Rightmost paddle column, in quarter pixels: the window width, less the
/// padding and the paddle's own width.
pub const RHS_START_POS_X: i32 = 800 * SUBPIXELS - PADDLE_PADDING - PADDLE_WIDTH * SUBPIXELS;

/// Bottom paddle row, in quarter pixels: the window height, less the padding
/// and the paddle's own height.
pub const BOTTOM_START_POS_Y: i32 = 600 * SUBPIXELS - PADDLE_PADDING - PADDLE_HEIGHT * SUBPIXELS;

/// Speed a key press would lend a paddle, in quarter pixels per frame.
pub const PADDLE_VELOCITY: i32 = 15 * SUBPIXELS;

/// Radius of the ball, in quarter pixels.
pub const BALL_RADIUS: i32 = 10 * SUBPIXELS;

/// Thickness of the ball's outline, in quarter pixels.
pub const BALL_OUTLINE_THICKNESS: i32 = 3 * SUBPIXELS;

/// Speed the ball would gain or lose on a key press, in quarter pixels per
/// frame.
pub const BALL_VELOCITY: i32 = 5;

/// Horizontal center of the window — half its width — in quarter pixels.
pub const BALL_INITIAL_X: i32 = 400 * SUBPIXELS;

/// Vertical center of the window — half its height — in quarter pixels.
pub const BALL_INITIAL_Y: i32 = 300 * SUBPIXELS;

/// How many fixed start positions there are.
pub const START_POSITION_COUNT: usize = 4;

/// The ball's fill color: red.
pub open spec fn ball_fill_color() -> Color {
    Color { red: 255, green: 0, blue: 0, alpha: 255 }
}

/// The ball's outline color: magenta.
pub open spec fn ball_outline_color() -> Color {
    Color { red: 255, green: 0, blue: 255, alpha: 255 }
}

/// Where the ball starts: the center of the window.
pub open spec fn ball_initial_position() -> Vec2 {
    Vec2 { x: BALL_INITIAL_X, y: BALL_INITIAL_Y }
}

/// The four horizontal speeds the ball can launch with, in quarter pixels
/// per frame: a whole or three quarters of a pixel, toward either side.
pub open spec fn is_launch_speed_x(x: int) -> bool {
    ||| x == -SUBPIXELS
    ||| x == -3
    ||| x == 3
    ||| x == SUBPIXELS
}

/// The fixed start position of paddle slot `i`: the four corners of the
/// play field, inset by the padding.
pub open spec fn start_position(i: int) -> Vec2 {
    if i == 0 {
        Vec2 { x: LHS_START_POS_X, y: PADDLE_PADDING }
    } else if i == 1 {
        Vec2 { x: RHS_START_POS_X, y: PADDLE_PADDING }
    } else if i == 2 {
        Vec2 { x: LHS_START_POS_X, y: BOTTOM_START_POS_Y }
    } else {
        Vec2 { x: RHS_START_POS_X, y: BOTTOM_START_POS_Y }
    }
}

/// The fixed start position of paddle slot `i`.
pub fn start_position_at(i: usize) -> (r: Vec2)
    requires
        i < START_POSITION_COUNT,
    ensures
        r == start_position(i as int),
{
    if i == 0 {
        Vec2 { x: LHS_START_POS_X, y: PADDLE_PADDING }
    } else if i == 1 {
        Vec2 { x: RHS_START_POS_X, y: PADDLE_PADDING }
    } else if i == 2 {
        Vec2 { x: LHS_START_POS_X, y: BOTTOM_START_POS_Y }
    } else {
        Vec2 { x: RHS_START_POS_X, y: BOTTOM_START_POS_Y }
    }
}

/// A drawable circle: radius, outline, colors and position.
#[derive(Clone, Copy, PartialEq, Eq, Structural, Debug)]
pub struct CircleShape {
    pub radius: i32,
    pub outline_thickness: i32,
    pub fill_color: Color,
    pub outline_color: Color,
    pub position: Vec2,
}

impl CircleShape {
    /// A fresh circle: no radius, no outline, white, at the origin.
    pub fn new() -> (r: CircleShape)
        ensures
            r == (CircleShape {
                radius: 0,
                outline_thickness: 0,
                fill_color: Color { red: 255, green: 255, blue: 255, alpha: 255 },
                outline_color: Color { red: 255, green: 255, blue: 255, alpha: 255 },
                position: Vec2 { x: 0, y: 0 },
            }),
    {
        CircleShape {
            radius: 0,
            outline_thickness: 0,
            fill_color: Color { red: 255, green: 255, blue: 255, alpha: 255 },
            outline_color: Color { red: 255, green: 255, blue: 255, alpha: 255 },
            position: Vec2 { x: 0, y: 0 },
        }
    }

    /// Set the radius, in quarter pixels.
    pub fn set_radius(&mut self, radius: i32)
        ensures
            *final(self) == (CircleShape { radius: radius, ..*old(self) }),
    {
        self.radius = radius;
    }

    /// Set the outline thickness, in quarter pixels.
    pub fn set_outline_thickness(&mut self, thickness: i32)
        ensures
            *final(self) == (CircleShape { outline_thickness: thickness, ..*old(self) }),
    {
        self.outline_thickness = thickness;
    }

    /// Set the fill color.
    pub fn set_fill_color(&mut self, color: Color)
        ensures
            *final(self) == (CircleShape { fill_color: color, ..*old(self) }),
    {
        self.fill_color = color;
    }

    /// Set the outline color.
    pub fn set_outline_color(&mut self, color: Color)
        ensures
            *final(self) == (CircleShape { outline_color: color, ..*old(self) }),
    {
        self.outline_color = color;
    }

    /// Put the circle at `p`.
    pub fn set_position(&mut self, p: Vec2)
        ensures
            *final(self) == (CircleShape { position: p, ..*old(self) }),
    {
        self.position = p;
    }
}

/// A player-controlled drawable rectangle, with the speed its keys have
/// lent it.
#[derive(Clone, Copy, PartialEq, Eq, Structural, Debug)]
pub struct Paddle {
    pub sprite: Sprite,
    pub velocity: Vec2,
}

/// The drawable circle meant to bounce between the paddles, and its
/// velocity.
#[derive(Clone, Copy, PartialEq, Eq, Structural, Debug)]
pub struct Ball {
    pub drawable: CircleShape,
    pub velocity: Vec2,
}

/// One player's slice of the game: the player's tag, paddle, and the keys
/// gathered for it since the last frame.
#[derive(Clone)]
pub struct PlayerContext {
    pub player_id: PlayerId,
    pub paddle: Paddle,
    pub keys: Vec<Key>,
}

/// The whole game between frames: one context per player, and the ball.
pub struct PongGameState {
    pub player_contexts: Vec<PlayerContext>,
    pub ball: Ball,
}

/// Create the window the rest of the game draws into, throttled to
/// [`FPS_LIMIT`], and the color each frame is cleared to.
pub fn create_window() -> (r: (Window, Color))
    ensures
        r.0.mode == (VideoMode {
            width: WINDOW_WIDTH,
            height: WINDOW_HEIGHT,
            bits_per_pixel: PIXEL_COUNT,
        }),
        r.0.title@ == "RSFML Pong - Rust"@,
        r.0.framerate_limit == FPS_LIMIT,
        r.0.open,
        r.0.pending@ == Seq::<Event>::empty(),
        r.1 == (Color { red: 255, green: 255, blue: 255, alpha: 255 }),
{
    let title = String::from_str("RSFML Pong - Rust");
    let video_mode = VideoMode::new_init(WINDOW_WIDTH, WINDOW_HEIGHT, PIXEL_COUNT);
    let clear_color = Color::new_rgb(255, 255, 255);
    let mut window = Window::new(video_mode, title);
    window.set_framerate_limit(FPS_LIMIT);
    (window, clear_color)
}

/// Create a ball at the center of the window, fully styled, with a
/// velocity drawn at random: horizontally one of the four launch speeds,
/// vertically anything under a pixel per frame toward either side.
pub fn create_ball() -> (ball: Ball)
    ensures
        ball.drawable.radius == BALL_RADIUS,
        ball.drawable.outline_thickness == BALL_OUTLINE_THICKNESS,
        ball.drawable.fill_color == ball_fill_color(),
        ball.drawable.outline_color == ball_outline_color(),
        ball.drawable.position == ball_initial_position(),
        is_launch_speed_x(ball.velocity.x as int),
        -SUBPIXELS <= ball.velocity.y < SUBPIXELS,
{
    let pick: i32 = random_in_range(0, 4);
    let launch_x: i32 = if pick == 0 {
        -SUBPIXELS
    } else if pick == 1 {
        -3
    } else if pick == 2 {
        3
    } else {
        SUBPIXELS
    };
    let launch_y: i32 = random_in_range(-SUBPIXELS, SUBPIXELS);
    let mut ball = Ball { drawable: CircleShape::new(), velocity: Vec2 { x: launch_x, y: launch_y } };
    ball.drawable.set_radius(BALL_RADIUS);
    ball.drawable.set_outline_thickness(BALL_OUTLINE_THICKNESS);
    ball.drawable.set_fill_color(Color { red: 255, green: 0, blue: 0, alpha: 255 });
    ball.drawable.set_outline_color(Color { red: 255, green: 0, blue: 255, alpha: 255 });
    ball.drawable.set_position(Vec2 { x: BALL_INITIAL_X, y: BALL_INITIAL_Y });
    ball
}

/// Build one paddle per sprite, each moved to its slot's start position and
/// standing still. Slots are handed out in sprite order and run out after
/// [`START_POSITION_COUNT`] paddles, as pairing the sprites with the start
/// positions does.
pub fn create_paddles(sprites: Vec<(PlayerId, Sprite)>) -> (paddles: Vec<Paddle>)
    ensures
        paddles@.len() == if sprites@.len() < START_POSITION_COUNT {
            sprites@.len() as int
        } else {
            START_POSITION_COUNT as int
        },
        forall|i: int|
            0 <= i < paddles@.len() ==> {
                &&& (#[trigger] paddles@[i]).sprite.texture == sprites@[i].1.texture
                &&& paddles@[i].sprite.position == start_position(i)
                &&& paddles@[i].velocity == (Vec2 { x: 0, y: 0 })
            },
{
    let n: usize = if sprites.len() < START_POSITION_COUNT {
        sprites.len()
    } else {
        START_POSITION_COUNT
    };
    let mut paddles: Vec<Paddle> = Vec::new();
    let mut i: usize = 0;
    while i < n
        invariant
            i <= n,
            n == if sprites@.len() < START_POSITION_COUNT {
                sprites@.len() as int
            } else {
                START_POSITION_COUNT as int
            },
            paddles@.len() == i,
            forall|k: int|
                0 <= k < i ==> {
                    &&& (#[trigger] paddles@[k]).sprite.texture == sprites@[k].1.texture
                    &&& paddles@[k].sprite.position == start_position(k)
                    &&& paddles@[k].velocity == (Vec2 { x: 0, y: 0 })
                },
        decreases n - i,
    {
        let mut paddle = Paddle { sprite: sprites[i].1, velocity: Vec2::new(0, 0) };
        paddle.sprite.set_position(start_position_at(i));
        paddles.push(paddle);
        i += 1;
    }
    paddles
}

/// What this variant's event pump leaves behind, given the queued events
/// and the key buffer at its start: a key press lands in the buffer, and
/// the first event of any other kind — or an empty queue — ends the pump
/// for this frame.
pub open spec fn drain(pending: Seq<Event>, keys: Seq<Key>) -> (Seq<Event>, Seq<Key>)
    decreases pending.len(),
{
    if pending.len() == 0 {
        (pending, keys)
    } else {
        match pending[0] {
            Event::KeyPressed { code } => drain(pending.drop_first(), keys.push(code)),
            _ => (pending.drop_first(), keys),
        }
    }
}

/// Whether this variant's event pump runs to its end of frame: it aborts
/// the program if the first event past the leading key presses is a close
/// request.
pub open spec fn drain_completes(pending: Seq<Event>) -> bool
    decreases pending.len(),
{
    if pending.len() == 0 {
        true
    } else {
        match pending[0] {
            Event::Closed => false,
            Event::KeyPressed { code } => drain_completes(pending.drop_first()),
            _ => true,
        }
    }
}

impl PongGameState {
    /// The initial state of the game: context `i` belongs to the player
    /// with table position `i`, holds paddle `i`, and has gathered no keys
    /// yet. There are only as many players as paddles, and never more than
    /// the two that exist.
    pub fn new_default(paddles_param: Vec<Paddle>, ball_param: Ball) -> (state: PongGameState)
        requires
            paddles_param@.len() <= 2,
        ensures
            state.ball == ball_param,
            state.player_contexts@.len() == paddles_param@.len(),
            forall|i: int|
                0 <= i < paddles_param@.len() ==> {
                    &&& player_index((#[trigger] state.player_contexts@[i]).player_id) == i
                    &&& state.player_contexts@[i].paddle == paddles_param@[i]
                    &&& state.player_contexts@[i].keys@ == Seq::<Key>::empty()
                },
    {
        let n: usize = paddles_param.len();
        let mut player_contexts: Vec<PlayerContext> = Vec::new();
        let mut index: usize = 0;
        while index < n
            invariant
                index <= n,
                n == paddles_param@.len(),
                n <= 2,
                player_contexts@.len() == index,
                forall|k: int|
                    0 <= k < index ==> {
                        &&& player_index((#[trigger] player_contexts@[k]).player_id) == k
                        &&& player_contexts@[k].paddle == paddles_param@[k]
                        &&& player_contexts@[k].keys@ == Seq::<Key>::empty()
                    },
            decreases n - index,
        {
            let player_id = PlayerId::from_index(index).unwrap();
            player_contexts.push(
                PlayerContext { player_id: player_id, paddle: paddles_param[index], keys: Vec::new() },
            );
            index += 1;
        }
        PongGameState { ball: ball_param, player_contexts: player_contexts }
    }

    /// Construct a new state from an existing one. Movement, collision
    /// response and scoring are not part of this variant yet, so the state
    /// is handed on unchanged.
    pub fn from_previous(prev: PongGameState) -> (state: PongGameState)
        ensures
            state == prev,
    {
        let state = prev;
        state
    }
}

/// Pump the window's queued events into one player's context: poll until an
/// event of another kind — or an empty queue — ends the frame, buffering
/// every key press. A close request aborts the program, so the queue must
/// not hand one out this frame.
pub fn loop_events(player_context: PlayerContext, window: &mut Window) -> (context: PlayerContext)
    requires
        drain_completes(old(window).pending@),
    ensures
        context.player_id == player_context.player_id,
        context.paddle == player_context.paddle,
        context.keys@ == drain(old(window).pending@, player_context.keys@).1,
        same_window_config(*old(window), *final(window)),
        final(window).open == old(window).open,
        final(window).pending@ == drain(old(window).pending@, player_context.keys@).0,
{
    let mut context = player_context;
    let ghost keys0 = player_context.keys@;
    loop
        invariant_except_break
            drain(old(window).pending@, keys0) == drain(window.pending@, context.keys@),
            drain_completes(window.pending@),
        invariant
            context.player_id == player_context.player_id,
            context.paddle == player_context.paddle,
            same_window_config(*old(window), *window),
            window.open == old(window).open,
        ensures
            drain(old(window).pending@, keys0) == (window.pending@, context.keys@),
        decreases window.pending@.len(),
    {
        let event = window.poll_event();
        match event {
            Event::Closed => {
                // The precondition rules a close request out; the program
                // would abort here.
                proof {
                    assert(false);
                }
            },
            Event::KeyPressed { code } => context.keys.push(code),
            _ => break ,
        }
    }
    context
}

} // verus!
