use vstd::prelude::*;

verus! {

/// The keys the renderer tells apart.
#[derive(PartialEq, Eq, Structural, Clone, Copy, Debug)]
pub enum Key {
    Escape,
    Other,
}

/// What happened to a key.
#[derive(PartialEq, Eq, Structural, Clone, Copy, Debug)]
pub enum Action {
    Press,
    Release,
    Repeat,
}

/// The window events the renderer looks at.
#[derive(PartialEq, Eq, Structural, Clone, Copy, Debug)]
pub enum WindowEvent {
    /// The drawable area changed to this width and height, in pixels.
    FramebufferSize(i32, i32),
    Key(Key, Action),
    /// Any other event.
    Other,
}

/// What the renderer does about an event.
#[derive(PartialEq, Eq, Structural, Clone, Copy, Debug)]
pub enum WindowAction {
    /// Draw into this rectangle of the window: x, y, width, height.
    SetViewport(i32, i32, i32, i32),
    /// Ask the window to close.
    Close,
    Nothing,
}

/// The action for an event: a resized drawable area becomes the whole viewport,
/// pressing Escape closes the window, and nothing else has an effect.
pub open spec fn action_for(event: WindowEvent) -> WindowAction {
    match event {
        WindowEvent::FramebufferSize(w, h) => WindowAction::SetViewport(0, 0, w, h),
        WindowEvent::Key(Key::Escape, Action::Press) => WindowAction::Close,
        _ => WindowAction::Nothing,
    }
}

/// Only pressing Escape closes the window; only a resize moves the viewport, and then to
/// the whole new drawable area; every other event, any other key or any other key action
/// included, changes nothing.
pub proof fn law_window_actions(event: WindowEvent)
    ensures
        (action_for(event) == WindowAction::Close) == (event == WindowEvent::Key(Key::Escape, Action::Press)),
        (action_for(event) is SetViewport) == (event is FramebufferSize),
        event matches WindowEvent::FramebufferSize(w, h) ==> action_for(event)
            == WindowAction::SetViewport(0, 0, w, h),
        event is Key && event != WindowEvent::Key(Key::Escape, Action::Press) ==> action_for(event)
            == WindowAction::Nothing,
        event == WindowEvent::Other ==> action_for(event) == WindowAction::Nothing,
{
}

/// The decisions of the window that shows the video: its size, its frame rate, and what
/// it does about each event.
pub struct GLRenderer {
    pub width: u32,
    pub height: u32,
    pub frame_rate: u32,
}

impl GLRenderer {
    pub fn new(width: u32, height: u32, framerate: u32) -> (r: Self)
        ensures
            r.width == width,
            r.height == height,
            r.frame_rate == framerate,
    {
        GLRenderer { width, height, frame_rate: framerate }
    }

    /// What to do about one window event.
    pub fn process_event(&self, event: WindowEvent) -> (a: WindowAction)
        ensures
            a == action_for(event),
            (a == WindowAction::Close) == (event == WindowEvent::Key(Key::Escape, Action::Press)),
            event is Key && event != WindowEvent::Key(Key::Escape, Action::Press) ==> a == WindowAction::Nothing,
            event is Other ==> a == WindowAction::Nothing,
            event matches WindowEvent::FramebufferSize(w, h) ==> a == WindowAction::SetViewport(0, 0, w, h),
    {
        match event {
            WindowEvent::FramebufferSize(w, h) => WindowAction::SetViewport(0, 0, w, h),
            WindowEvent::Key(Key::Escape, Action::Press) => WindowAction::Close,
            _ => WindowAction::Nothing,
        }
    }
}

} // verus!
