//! A model of the game window: its display mode, an open/closed flag, and a
//! queue of pending input events.
//!
//! The real window belongs to the operating system; whatever drives the game
//! enqueues the events it received with [`Window::push_event`] and reads the
//! state the game logic leaves behind. Polling and closing behave exactly as
//! the contracts state, so every frame function built on them is verified for
//! every possible stream of events.

use vstd::prelude::*;

verus! {

/// A keyboard key. Only the keys the game reacts to are distinguished; every
/// other key carries its raw scan code.
#[derive(Clone, Copy, PartialEq, Eq, Structural, Debug)]
pub enum Key {
    Escape,
    J,
    K,
    Other(u32),
}

/// A window event, as the event pump hands it out.
#[derive(Clone, Copy, PartialEq, Eq, Structural, Debug)]
pub enum Event {
    /// The user asked to close the window.
    Closed,
    /// A key went down.
    KeyPressed { code: Key },
    /// The event queue was empty when it was polled.
    NoEvent,
    /// Any other event kind (resize, focus, mouse, ...).
    Other,
}

/// A display mode: window size and color depth.
#[derive(Clone, Copy, PartialEq, Eq, Structural, Debug)]
pub struct VideoMode {
    pub width: u32,
    pub height: u32,
    pub bits_per_pixel: u32,
}

impl VideoMode {
    /// A mode with the given size and depth.
    pub fn new_init(width: u32, height: u32, bits_per_pixel: u32) -> (r: VideoMode)
        ensures
            r == (VideoMode { width: width, height: height, bits_per_pixel: bits_per_pixel }),
    {
        VideoMode { width: width, height: height, bits_per_pixel: bits_per_pixel }
    }
}

/// The window state the game logic reads and writes.
pub struct Window {
    pub mode: VideoMode,
    pub title: String,
    /// Frames per second the display is throttled to; `0` means unthrottled.
    pub framerate_limit: u32,
    /// `true` until the window is closed.
    pub open: bool,
    /// Input events that have arrived and have not been polled yet, oldest
    /// first.
    pub pending: Vec<Event>,
}

/// Holds when two window states agree on everything but the open flag and
/// the event queue.
pub open spec fn same_window_config(pre: Window, post: Window) -> bool {
    &&& post.mode == pre.mode
    &&& post.title@ == pre.title@
    &&& post.framerate_limit == pre.framerate_limit
}

impl Window {
    /// A freshly opened window: no pending events, no framerate limit.
    pub fn new(mode: VideoMode, title: String) -> (w: Window)
        ensures
            w.mode == mode,
            w.title@ == title@,
            w.framerate_limit == 0,
            w.open,
            w.pending@ == Seq::<Event>::empty(),
    {
        Window { mode: mode, title: title, framerate_limit: 0, open: true, pending: Vec::new() }
    }

    /// Throttle the display to `limit` frames per second.
    pub fn set_framerate_limit(&mut self, limit: u32)
        ensures
            final(self).mode == old(self).mode,
            final(self).title@ == old(self).title@,
            final(self).framerate_limit == limit,
            final(self).open == old(self).open,
            final(self).pending@ == old(self).pending@,
    {
        self.framerate_limit = limit;
    }

    /// Whether the window is still open.
    pub fn is_open(&self) -> (r: bool)
        ensures
            r == self.open,
    {
        self.open
    }

    /// Close the window. Pending events stay queued.
    pub fn close(&mut self)
        ensures
            same_window_config(*old(self), *final(self)),
            !final(self).open,
            final(self).pending@ == old(self).pending@,
    {
        self.open = false;
    }

    /// Hand the window one more input event. The driver that talks to the
    /// operating system calls this with each event it received.
    pub fn push_event(&mut self, e: Event)
        ensures
            same_window_config(*old(self), *final(self)),
            final(self).open == old(self).open,
            final(self).pending@ == old(self).pending@.push(e),
    {
        self.pending.push(e);
    }

    /// Take the oldest pending event, or report that none is queued.
    pub fn poll_event(&mut self) -> (e: Event)
        ensures
            same_window_config(*old(self), *final(self)),
            final(self).open == old(self).open,
            old(self).pending@.len() == 0 ==> {
                &&& e == Event::NoEvent
                &&& final(self).pending@ == old(self).pending@
            },
            old(self).pending@.len() > 0 ==> {
                &&& e == old(self).pending@[0]
                &&& final(self).pending@ == old(self).pending@.drop_first()
            },
    {
        if self.pending.len() == 0 {
            Event::NoEvent
        } else {
            let e = self.pending.remove(0);
            proof {
                assert(old(self).pending@.remove(0) =~= old(self).pending@.drop_first());
            }
            e
        }
    }
}

} // verus!
