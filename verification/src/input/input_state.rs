//! What a device's keys did since the last flush.

use vstd::prelude::*;
use crate::input::device_input_state::{
    DeviceInputState, ElementState, KeyboardState, MouseButtonsState,
};

verus! {

/// What the window reported, as far as the buffers take note of it.
#[derive(Clone, Copy, Debug, PartialEq, Eq, Structural)]
pub enum WindowEvent {
    /// A key went down or up; a key that the platform cannot name has no
    /// code.
    KeyboardInput { virtual_keycode: Option<u32>, state: ElementState },
    /// A mouse button went down or up.
    MouseInput { button: u32, state: ElementState },
    /// Anything else.
    Other,
}

/// The buffers of keyboard and mouse.
pub struct InputState {
    keyboard: InputStateBuffers<KeyboardState>,
    mouse: InputStateBuffers<MouseButtonsState>,
}

/// Keyboard and mouse, as mathematics.
pub struct InputStateView {
    pub keyboard: InputStateBuffersView<u32>,
    pub mouse: InputStateBuffersView<u32>,
}

impl InputStateView {
    /// After `event`: a key with a code goes to the keyboard's buffers, a
    /// button to the mouse's, and nothing else is noted.
    pub open spec fn handled(self, event: WindowEvent) -> InputStateView {
        match event {
            WindowEvent::KeyboardInput { virtual_keycode: Some(key), state } => InputStateView {
                keyboard: self.keyboard.handled(state, key),
                ..self
            },
            WindowEvent::MouseInput { button, state } => InputStateView {
                mouse: self.mouse.handled(state, button),
                ..self
            },
            _ => self,
        }
    }

    pub open spec fn flushed(self) -> InputStateView {
        InputStateView { keyboard: self.keyboard.flushed(), mouse: self.mouse.flushed() }
    }
}

impl View for InputState {
    type V = InputStateView;

    closed spec fn view(&self) -> InputStateView {
        InputStateView { keyboard: self.keyboard@, mouse: self.mouse@ }
    }
}

impl InputState {
    pub fn new() -> (state: InputState)
        ensures
            state@ == (InputStateView {
                keyboard: InputStateBuffersView::empty(),
                mouse: InputStateBuffersView::empty(),
            }),
    {
        InputState { keyboard: InputStateBuffers::new(), mouse: InputStateBuffers::new() }
    }

    pub fn flush(&mut self)
        ensures
            final(self)@ == old(self)@.flushed(),
    {
        self.keyboard.flush();
        self.mouse.flush();
    }

    pub fn handle_window_event(&mut self, event: &WindowEvent)
        ensures
            final(self)@ == old(self)@.handled(*event),
    {
        match event {
            WindowEvent::KeyboardInput { virtual_keycode, state } => {
                let key = match virtual_keycode {
                    Some(key) => key,
                    None => {
                        return ;
                    },
                };
                self.keyboard.handle_key(state, key);
            },
            WindowEvent::MouseInput { button, state } => self.mouse.handle_key(state, button),
            _ => {},
        }
    }

    pub fn keyboard(&self) -> (keyboard: &InputStateBuffers<KeyboardState>)
        ensures
            keyboard@ == self@.keyboard,
    {
        &self.keyboard
    }

    pub fn mouse(&self) -> (mouse: &InputStateBuffers<MouseButtonsState>)
        ensures
            mouse@ == self@.mouse,
    {
        &self.mouse
    }
}

/// The keys of a device as they are and as they were at the last flush,
/// with what was noted of the events in between.
pub struct InputStateBuffers<T> where T: DeviceInputState {
    current: T,
    previous: T,
    any_pressed: bool,
    any_released: bool,
    last_pressed_key: Option<T::Key>,
}

/// The buffers of a device, as mathematics.
#[verifier::reject_recursive_types(Key)]
pub struct InputStateBuffersView<Key> {
    pub current: Set<Key>,
    pub previous: Set<Key>,
    pub any_pressed: bool,
    pub any_released: bool,
    pub last_pressed_key: Option<Key>,
}

impl<Key> InputStateBuffersView<Key> {
    /// Nothing held, nothing noted.
    pub open spec fn empty() -> Self {
        InputStateBuffersView {
            current: Set::empty(),
            previous: Set::empty(),
            any_pressed: false,
            any_released: false,
            last_pressed_key: None,
        }
    }

    /// After a flush: what is held now is what was held, and the notes are
    /// cleared.
    pub open spec fn flushed(self) -> Self {
        InputStateBuffersView {
            current: self.current,
            previous: self.current,
            any_pressed: false,
            any_released: false,
            last_pressed_key: None,
        }
    }

    /// After `key` went to `state`. A key that goes down is held and is the
    /// last that went down; a press is noted if it was not held before. A
    /// key that goes up is no longer held; a release is noted if the key was
    /// not held before.
    pub open spec fn handled(self, state: ElementState, key: Key) -> Self {
        match state {
            ElementState::Pressed => InputStateBuffersView {
                current: self.current.insert(key),
                any_pressed: self.any_pressed || !self.current.contains(key),
                last_pressed_key: Some(key),
                ..self
            },
            ElementState::Released => InputStateBuffersView {
                current: self.current.remove(key),
                any_released: self.any_released || !self.current.contains(key),
                ..self
            },
        }
    }
}

impl<T> View for InputStateBuffers<T> where T: DeviceInputState {
    type V = InputStateBuffersView<T::Key>;

    closed spec fn view(&self) -> InputStateBuffersView<T::Key> {
        InputStateBuffersView {
            current: self.current.pressed(),
            previous: self.previous.pressed(),
            any_pressed: self.any_pressed,
            any_released: self.any_released,
            last_pressed_key: self.last_pressed_key,
        }
    }
}

impl<T> InputStateBuffers<T> where T: DeviceInputState {
    pub fn new() -> (buffers: Self)
        ensures
            buffers@ == InputStateBuffersView::<T::Key>::empty(),
    {
        InputStateBuffers {
            current: T::new(),
            previous: T::new(),
            any_pressed: false,
            any_released: false,
            last_pressed_key: None,
        }
    }

    pub fn flush(&mut self)
        ensures
            final(self)@ == old(self)@.flushed(),
    {
        self.previous.copy_from(&self.current);
        self.any_pressed = false;
        self.any_released = false;
        self.last_pressed_key = None;
    }

    pub fn handle_key(&mut self, state: &ElementState, key: &T::Key)
        ensures
            final(self)@ == old(self)@.handled(*state, *key),
    {
        match state {
            ElementState::Pressed => {
                if !self.current.is_pressed(key) {
                    self.any_pressed = true;
                }
                self.current.press(key);
                self.last_pressed_key = Some(*key);
            },
            ElementState::Released => {
                if !self.current.is_pressed(key) {
                    self.any_released = true;
                }
                self.current.release(key)
            },
        }
    }

    /// The key that went down last since the flush, if one did.
    pub fn last_pressed_key(&self) -> (key: Option<T::Key>)
        ensures
            key == self@.last_pressed_key,
    {
        self.last_pressed_key
    }

    pub fn is_pressed(&self, key: &T::Key) -> (pressed: bool)
        ensures
            pressed == self@.current.contains(*key),
    {
        self.current.is_pressed(key)
    }

    /// Answers as `is_pressed` does.
    pub fn is_released(&self, key: &T::Key) -> (released: bool)
        ensures
            released == self@.current.contains(*key),
    {
        self.current.is_pressed(key)
    }

    /// Whether `key` is held and was not at the last flush.
    pub fn was_pressed(&self, key: &T::Key) -> (pressed: bool)
        ensures
            pressed == (!self@.previous.contains(*key) && self@.current.contains(*key)),
    {
        !self.previous.is_pressed(key) && self.current.is_pressed(key)
    }

    /// Whether `key` was held at the last flush and is not now.
    pub fn was_released(&self, key: &T::Key) -> (released: bool)
        ensures
            released == (self@.previous.contains(*key) && !self@.current.contains(*key)),
    {
        self.previous.is_pressed(key) && !self.current.is_pressed(key)
    }

    pub fn was_any_pressed(&self) -> (any: bool)
        ensures
            any == self@.any_pressed,
    {
        self.any_pressed
    }

    pub fn was_any_released(&self) -> (any: bool)
        ensures
            any == self@.any_released,
    {
        self.any_released
    }
}

impl<T> Default for InputStateBuffers<T> where T: DeviceInputState {
    fn default() -> (buffers: Self)
        ensures
            buffers@ == InputStateBuffersView::<T::Key>::empty(),
    {
        InputStateBuffers::new()
    }
}

} // verus!
