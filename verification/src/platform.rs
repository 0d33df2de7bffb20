//! The window façade: the lifecycle state an application handle carries
//! and the dispatch of platform events onto the shared event bus.
//!
//! [`WinitWindow`] holds the plain-value side of a platform window — its
//! requested size, position, flags, title and the bus of registered
//! event callbacks.  The unverified shell owns the native window handle
//! and the blocking platform loop; while that loop runs it feeds every
//! delivered event through [`WinitWindow::handle_platform_event`], which
//! translates window-system notifications into domain events and fires
//! them on the bus.

use vstd::prelude::*;

use crate::event::{delivered_to, Event, Invocable};
use crate::window::{LoopEvent, Offset, PhysicalSize};

verus! {

/// The domain-level notifications surfaced to application code.
///
/// A resize carries the new physical size in pixels.
#[derive(Clone, Copy, Debug, PartialEq, Eq, Structural)]
pub enum WindowEvent {
    /// The window was asked to close.
    WindowClosed,
    /// The window took a new physical size.
    WindowResize(u32, u32),
}

/// The façade state of one platform window, generic over the callback
/// type registered for its events.
///
/// Width and height are the one load-bearing pair: the shell propagates
/// them to the platform window.  Position and the resizeable and
/// fullscreen flags are declared capability surface with no behaviour
/// behind them yet.
pub struct WinitWindow<H> {
    width: u32,
    height: u32,
    posx: i64,
    posy: i64,
    resizeable: bool,
    fullscreen: bool,
    events: Event<WindowEvent, H>,
    title: String,
}

impl<H: Invocable<WindowEvent>> WinitWindow<H> {
    /// The size last requested of the platform window.
    pub closed spec fn size(&self) -> PhysicalSize {
        PhysicalSize { width: self.width, height: self.height }
    }

    /// The stored window position (declared surface; never moved yet).
    pub closed spec fn position(&self) -> Offset {
        Offset { x: self.posx, y: self.posy }
    }

    /// Whether the window is flagged resizeable.
    pub closed spec fn resizeable(&self) -> bool {
        self.resizeable
    }

    /// Whether the window is flagged fullscreen.
    pub closed spec fn fullscreen(&self) -> bool {
        self.fullscreen
    }

    /// The event bus shared between this façade and the platform loop.
    pub closed spec fn events(&self) -> Event<WindowEvent, H> {
        self.events
    }

    /// The window title.
    pub closed spec fn title(&self) -> Seq<char> {
        self.title@
    }

    /// A fresh façade for a window with the given title: zero size and
    /// position, resizeable, windowed, and no callbacks registered.
    pub fn new(title: &str) -> (window: Self)
        ensures
            window.size() == (PhysicalSize { width: 0, height: 0 }),
            window.position() == (Offset { x: 0, y: 0 }),
            window.resizeable(),
            !window.fullscreen(),
            window.events().subscribers().len() == 0,
            window.events().history().len() == 0,
            window.title() == title@,
    {
        WinitWindow {
            width: 0,
            height: 0,
            posx: 0,
            posy: 0,
            resizeable: true,
            fullscreen: false,
            events: Event::new(),
            title: title.to_string(),
        }
    }

    /// Request a new window size.  The stored size takes the new value;
    /// the shell must pass it on to the platform window.
    pub fn set_size(&mut self, width: u32, height: u32)
        ensures
            final(self).size() == (PhysicalSize { width, height }),
            final(self).position() == old(self).position(),
            final(self).resizeable() == old(self).resizeable(),
            final(self).fullscreen() == old(self).fullscreen(),
            final(self).events() == old(self).events(),
            final(self).title() == old(self).title(),
    {
        self.width = width;
        self.height = height;
    }

    /// Register a callback for this window's events.  Earlier
    /// registrations keep their place.
    pub fn handle_events(&mut self, callback: H)
        ensures
            final(self).events().subscribers() == old(self).events().subscribers().push(
                callback,
            ),
            final(self).events().history() == old(self).events().history(),
            final(self).size() == old(self).size(),
            final(self).position() == old(self).position(),
            final(self).resizeable() == old(self).resizeable(),
            final(self).fullscreen() == old(self).fullscreen(),
            final(self).title() == old(self).title(),
    {
        self.events.subscribe(callback);
    }

    /// Synthesize a close notification: fire [`WindowEvent::WindowClosed`]
    /// at every registered callback, in registration order.  This does
    /// not by itself stop a platform loop that is already running.
    pub fn close(&mut self)
        ensures
            final(self).events().subscribers().len() == old(self).events().subscribers().len(),
            forall|i: int|
                0 <= i < old(self).events().subscribers().len() ==> delivered_to(
                    old(self).events().subscribers()[i],
                    final(self).events().subscribers()[i],
                    WindowEvent::WindowClosed,
                ),
            final(self).events().history() == old(self).events().history().push(
                WindowEvent::WindowClosed,
            ),
            final(self).size() == old(self).size(),
            final(self).position() == old(self).position(),
            final(self).resizeable() == old(self).resizeable(),
            final(self).fullscreen() == old(self).fullscreen(),
            final(self).title() == old(self).title(),
    {
        self.events.trigger(WindowEvent::WindowClosed);
    }

    /// Translate one platform-delivered event into domain events: a
    /// close request fires [`WindowEvent::WindowClosed`], a resize fires
    /// [`WindowEvent::WindowResize`] with the new size, and everything
    /// else fires nothing.
    pub fn handle_platform_event(&mut self, event: &LoopEvent)
        ensures
            final(self).events().subscribers().len() == old(self).events().subscribers().len(),
            final(self).size() == old(self).size(),
            final(self).position() == old(self).position(),
            final(self).resizeable() == old(self).resizeable(),
            final(self).fullscreen() == old(self).fullscreen(),
            final(self).title() == old(self).title(),
            match *event {
                LoopEvent::CloseRequested => {
                    &&& forall|i: int|
                        0 <= i < old(self).events().subscribers().len() ==> delivered_to(
                            old(self).events().subscribers()[i],
                            final(self).events().subscribers()[i],
                            WindowEvent::WindowClosed,
                        )
                    &&& final(self).events().history() == old(self).events().history().push(
                        WindowEvent::WindowClosed,
                    )
                },
                LoopEvent::Resized { width, height } => {
                    &&& forall|i: int|
                        0 <= i < old(self).events().subscribers().len() ==> delivered_to(
                            old(self).events().subscribers()[i],
                            final(self).events().subscribers()[i],
                            WindowEvent::WindowResize(width, height),
                        )
                    &&& final(self).events().history() == old(self).events().history().push(
                        WindowEvent::WindowResize(width, height),
                    )
                },
                _ => *final(self) == *old(self),
            },
    {
        match *event {
            LoopEvent::CloseRequested => {
                self.events.trigger(WindowEvent::WindowClosed);
            },
            LoopEvent::Resized { width, height } => {
                self.events.trigger(WindowEvent::WindowResize(width, height));
            },
            _ => {},
        }
    }

    /// The registered callbacks and everything fired so far, for
    /// observation from outside.
    pub fn event_bus(&self) -> (bus: &Event<WindowEvent, H>)
        ensures
            *bus == self.events(),
    {
        &self.events
    }

    /// The window title, for the shell to hand to the platform window.
    pub fn window_title(&self) -> (title: &String)
        ensures
            title@ == self.title(),
    {
        &self.title
    }

    /// Hide the window.  Declared capability surface; does nothing yet.
    pub fn hide_window(&self) {
    }

    /// Retitle the window.  Declared capability surface; does nothing
    /// yet.
    pub fn set_title(&self) {
    }

    /// Query the window size.  Declared capability surface; reports
    /// nothing yet.
    pub fn get_size(&self) {
    }

    /// Move the window.  Declared capability surface; does nothing yet.
    pub fn set_pos(&self) {
    }

    /// Query the window position.  Declared capability surface; reports
    /// nothing yet.
    pub fn get_pos(&self) {
    }

    /// Allow or forbid resizing.  Declared capability surface; does
    /// nothing yet.
    pub fn set_resizeable(&self) {
    }

    /// Query whether the window is resizeable.  Declared capability
    /// surface; reports nothing yet.
    pub fn is_resizeable(&self) {
    }

    /// Enter or leave fullscreen.  Declared capability surface; does
    /// nothing yet.
    pub fn set_fullscreen(&self) {
    }
}

} // verus!
