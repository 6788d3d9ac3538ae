//! Window state tracking: a snapshot of one window's geometry, focus,
//! cursor and close-request status, folded from a stream of platform
//! events and filtered to a single window identity.

use vstd::prelude::*;

verus! {

/// Width and height of a window in physical pixels.
#[derive(Debug, Clone, Copy, PartialEq, Eq, Structural)]
pub struct PhysicalSize {
    pub width: u32,
    pub height: u32,
}

/// Cursor coordinates as handed over by the platform layer. Each
/// coordinate is carried verbatim as an opaque 64-bit pattern; the
/// tracker stores the most recent pair and never interprets it.
#[derive(Debug, Clone, Copy, PartialEq, Eq, Structural)]
pub struct CursorPosition {
    pub x_bits: u64,
    pub y_bits: u64,
}

/// Aspect ratio of a window as the exact quotient `numer / denom`.
/// A window of zero height gets the ratio `0 / 1`, so that the
/// quotient is exactly zero rather than undefined.
#[derive(Debug, Clone, Copy, PartialEq, Eq, Structural)]
pub struct AspectRatio {
    pub numer: u32,
    pub denom: u32,
}

/// The identity a tracker follows: either not yet bound, or bound
/// once and for all to the window that carries the given token.
#[derive(Debug, Clone, Copy, PartialEq, Eq, Structural)]
pub enum WindowBinding {
    Unbound,
    Bound(u64),
}

/// What happened to a window, with the payload the tracker reads.
#[derive(Debug, Clone, Copy, PartialEq, Eq, Structural)]
pub enum WindowEvent {
    CursorEntered,
    CursorLeft,
    CursorMoved(CursorPosition),
    Resized(PhysicalSize),
    Focused(bool),
    CloseRequested,
    /// Any other window event kind; the tracker ignores it.
    Other,
}

/// A platform event as the tracker sees it: a window event carrying
/// the identity token of its window, or anything else.
#[derive(Debug, Clone, Copy, PartialEq, Eq, Structural)]
pub enum Event {
    Window { window_id: u64, event: WindowEvent },
    /// Any event that does not pertain to a window; it cannot concern
    /// this tracker and is ignored.
    Other,
}

/// The aspect ratio that belongs to a size: `width / height`, and
/// exactly zero (`0 / 1`) when the height is zero.
pub open spec fn aspect_of(size: PhysicalSize) -> AspectRatio {
    if size.height == 0 {
        AspectRatio { numer: 0, denom: 1 }
    } else {
        AspectRatio { numer: size.width, denom: size.height }
    }
}

/// Snapshot of one window's geometry, focus, cursor and close-request
/// status, accumulated from a stream of platform events.
#[derive(Debug, Clone, PartialEq, Eq)]
pub struct WindowState {
    /// window size in physical pixels
    pub size: PhysicalSize,
    /// window aspect ratio, kept equal to `aspect_of(size)`
    pub aspect: AspectRatio,
    /// is the window focused
    pub focused: bool,
    /// the window has been asked to close; once set, never reset
    pub should_close: bool,
    /// is the cursor inside the window
    pub cursor_in: bool,
    /// last known cursor position; stale while `cursor_in` is false
    pub cursor_pos: CursorPosition,
    /// display scale factor, carried verbatim as an opaque 64-bit
    /// pattern from the platform layer
    pub scale_bits: u64,
    /// the window this tracker follows
    pub binding: WindowBinding,
}

impl WindowState {
    /// The tracker invariant: the stored aspect ratio agrees with the
    /// stored size.
    pub open spec fn wf(self) -> bool {
        self.aspect == aspect_of(self.size)
    }

    /// Does the identity filter let `event` through in this state?
    /// Window events are accepted while unbound, or when their token
    /// matches the bound one; everything else is ignored.
    pub open spec fn accepts(self, event: Event) -> bool {
        match event {
            Event::Window { window_id, .. } => match self.binding {
                WindowBinding::Unbound => true,
                WindowBinding::Bound(id) => id == window_id,
            },
            Event::Other => false,
        }
    }

    /// The binding after the identity filter saw `event`: an unbound
    /// tracker binds to the first window event's token; a bound
    /// tracker never changes.
    pub open spec fn binding_after(self, event: Event) -> WindowBinding {
        match event {
            Event::Window { window_id, .. } => match self.binding {
                WindowBinding::Unbound => WindowBinding::Bound(window_id),
                WindowBinding::Bound(_) => self.binding,
            },
            Event::Other => self.binding,
        }
    }

    /// The same snapshot with only the binding replaced.
    pub open spec fn with_binding(self, binding: WindowBinding) -> WindowState {
        WindowState {
            size: self.size,
            aspect: self.aspect,
            focused: self.focused,
            should_close: self.should_close,
            cursor_in: self.cursor_in,
            cursor_pos: self.cursor_pos,
            scale_bits: self.scale_bits,
            binding: binding,
        }
    }

    /// The snapshot after the payload of an accepted window event is
    /// applied; each field names the one event kind that changes it.
    pub open spec fn applied(self, event: WindowEvent) -> WindowState {
        WindowState {
            size: match event {
                WindowEvent::Resized(size) => size,
                _ => self.size,
            },
            aspect: match event {
                WindowEvent::Resized(size) => aspect_of(size),
                _ => self.aspect,
            },
            focused: match event {
                WindowEvent::Focused(flag) => flag,
                _ => self.focused,
            },
            should_close: match event {
                WindowEvent::CloseRequested => true,
                _ => self.should_close,
            },
            cursor_in: match event {
                WindowEvent::CursorEntered => true,
                WindowEvent::CursorLeft => false,
                _ => self.cursor_in,
            },
            cursor_pos: match event {
                WindowEvent::CursorMoved(position) => position,
                _ => self.cursor_pos,
            },
            scale_bits: self.scale_bits,
            binding: self.binding,
        }
    }

    /// The full transition one inbound event causes: the identity
    /// filter binds or rejects, then the payload of an accepted event
    /// is applied.
    pub open spec fn after(self, event: Event) -> WindowState {
        if self.accepts(event) {
            match event {
                Event::Window { window_id: _, event: payload } => self.with_binding(
                    self.binding_after(event),
                ).applied(payload),
                Event::Other => self,
            }
        } else {
            self
        }
    }

    /// A tracker for the window with identity token `id`, whose
    /// current inner size and scale factor are given. The identity is
    /// bound immediately; flags start false and the cursor at the
    /// zero coordinate.
    pub fn new(size: PhysicalSize, scale_bits: u64, id: u64) -> (r: WindowState)
        ensures
            r.wf(),
            r.size == size,
            r.aspect == aspect_of(size),
            !r.focused,
            !r.should_close,
            !r.cursor_in,
            r.cursor_pos == (CursorPosition { x_bits: 0, y_bits: 0 }),
            r.scale_bits == scale_bits,
            r.binding == WindowBinding::Bound(id),
    {
        WindowState {
            size,
            aspect: Self::aspect(size),
            focused: false,
            should_close: false,
            cursor_in: false,
            cursor_pos: CursorPosition { x_bits: 0, y_bits: 0 },
            scale_bits,
            binding: WindowBinding::Bound(id),
        }
    }

    /// Consumes one inbound platform event: events for other windows
    /// (and events without a window) leave the snapshot untouched; an
    /// accepted event mutates exactly the fields its kind stands for.
    /// An unbound tracker binds to the first window event it sees; a
    /// close request is sticky; the aspect ratio follows every
    /// resize.
    pub fn event(&mut self, event: &Event)
        requires
            old(self).wf(),
        ensures
            *final(self) == (*old(self)).after(*event),
            final(self).wf(),
            final(self).binding == (*old(self)).binding_after(*event),
            old(self).should_close ==> final(self).should_close,
            (*old(self)).accepts(*event) && (*event matches Event::Window {
                event: WindowEvent::CloseRequested,
                ..
            }) ==> final(self).should_close,
            (old(self).binding matches WindowBinding::Bound(_)) ==> final(self).binding
                == old(self).binding,
            !(*old(self)).accepts(*event) ==> *final(self) == *old(self),
    {
        if !self.filter(event) {
            return ;
        }
        match event {
            Event::Window { window_id: _, event: payload } => match payload {
                WindowEvent::CursorEntered => {
                    self.cursor_in = true;
                },
                WindowEvent::CursorLeft => {
                    self.cursor_in = false;
                },
                WindowEvent::CursorMoved(position) => {
                    self.cursor_pos = *position;
                },
                WindowEvent::Resized(size) => {
                    self.size = *size;
                    self.aspect = Self::aspect(*size);
                },
                WindowEvent::Focused(flag) => {
                    self.focused = *flag;
                },
                WindowEvent::CloseRequested => {
                    self.should_close = true;
                },
                WindowEvent::Other => {},
            },
            Event::Other => {},
        }
    }

    /// The aspect ratio of `size`: `width / height`, with the ratio
    /// pinned to exactly zero for a zero height rather than dividing
    /// by zero.
    fn aspect(size: PhysicalSize) -> (r: AspectRatio)
        ensures
            r == aspect_of(size),
    {
        if size.height == 0 {
            AspectRatio { numer: 0, denom: 1 }
        } else {
            AspectRatio { numer: size.width, denom: size.height }
        }
    }

    /// The identity filter: decides whether `event` concerns this
    /// tracker, and binds an unbound tracker to the first window
    /// event's token.
    fn filter(&mut self, event: &Event) -> (r: bool)
        ensures
            r == (*old(self)).accepts(*event),
            *final(self) == (*old(self)).with_binding((*old(self)).binding_after(*event)),
    {
        match event {
            Event::Window { window_id, event: _ } => match self.binding {
                WindowBinding::Unbound => {
                    self.binding = WindowBinding::Bound(*window_id);
                    true
                },
                WindowBinding::Bound(id) => id == *window_id,
            },
            Event::Other => false,
        }
    }
}

impl Default for WindowState {
    /// The zero snapshot: zero size (aspect ratio exactly zero), no
    /// flags set, cursor at the zero coordinate, and no identity yet —
    /// the tracker binds to the first window event it sees.
    fn default() -> (r: Self)
        ensures
            r.wf(),
            r.size == (PhysicalSize { width: 0, height: 0 }),
            r.aspect == aspect_of(r.size),
            !r.focused,
            !r.should_close,
            !r.cursor_in,
            r.cursor_pos == (CursorPosition { x_bits: 0, y_bits: 0 }),
            r.scale_bits == 0,
            r.binding == WindowBinding::Unbound,
    {
        WindowState {
            size: PhysicalSize { width: 0, height: 0 },
            aspect: AspectRatio { numer: 0, denom: 1 },
            focused: false,
            should_close: false,
            cursor_in: false,
            cursor_pos: CursorPosition { x_bits: 0, y_bits: 0 },
            scale_bits: 0,
            binding: WindowBinding::Unbound,
        }
    }
}

} // verus!
