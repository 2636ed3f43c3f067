//! The event model: a closed set of event variants, each carrying an
//! immutable payload plus a mutable `handled` flag, together with derived
//! category flags and the dispatcher.

use vstd::prelude::*;
use vstd::string::StringExecFns;

use crate::text::bool_text;
use crate::text::i32_text;
use crate::text::spec_bool_text;
use crate::text::spec_decimal;
use crate::text::spec_decimal_int;
use crate::text::u32_text;

verus! {

/// Stable discriminant of an event, decidable without looking at the payload.
#[derive(Debug, Copy, Clone, PartialEq, Eq, Hash, Structural)]
pub enum EventType {
    KeyPressed,
    KeyReleased,
    MouseMoved,
    MouseScroll,
    MouseButtonPressed,
    MouseButtonReleased,
    WindowClose,
    WindowResize,
    WindowFocus,
    WindowLostFocus,
    WindowMoved,
}

/// A request to close the application window.
#[derive(Debug, Copy, Clone, PartialEq, Eq, Structural)]
pub struct WindowCloseEventData {
    pub handled: bool,
}

impl WindowCloseEventData {
    pub fn new() -> (r: Self)
        ensures
            r.handled == false,
    {
        Self { handled: false }
    }

    pub fn handled(&self) -> (r: bool)
        ensures
            r == self.handled,
    {
        self.handled
    }

    pub fn set_handled(&mut self, handled: bool)
        ensures
            final(self).handled == handled,
    {
        self.handled = handled;
    }
}

impl Default for WindowCloseEventData {
    fn default() -> (r: Self)
        ensures
            r.handled == false,
    {
        Self { handled: false }
    }
}

/// A request to resize the application window.
#[derive(Debug, Copy, Clone, PartialEq, Eq, Structural)]
pub struct WindowResizeEventData {
    pub width: i32,
    pub height: i32,
    pub handled: bool,
}

impl WindowResizeEventData {
    pub fn new(width: i32, height: i32) -> (r: Self)
        ensures
            r == (WindowResizeEventData { width, height, handled: false }),
    {
        Self { width, height, handled: false }
    }

    pub fn handled(&self) -> (r: bool)
        ensures
            r == self.handled,
    {
        self.handled
    }

    pub fn set_handled(&mut self, handled: bool)
        ensures
            *final(self) == (WindowResizeEventData { handled, ..*old(self) }),
    {
        self.handled = handled;
    }

    pub fn get_width(&self) -> (r: i32)
        ensures
            r == self.width,
    {
        self.width
    }

    pub fn get_height(&self) -> (r: i32)
        ensures
            r == self.height,
    {
        self.height
    }
}

/// A key was pressed; carries the key code and how often the press has
/// auto-repeated.
#[derive(Debug, Copy, Clone, PartialEq, Eq, Structural)]
pub struct KeyPressedEventData {
    pub key_code: u32,
    pub repeat_count: u32,
    pub handled: bool,
}

impl KeyPressedEventData {
    pub fn new(key_code: u32, repeat_count: u32) -> (r: Self)
        ensures
            r == (KeyPressedEventData { key_code, repeat_count, handled: false }),
    {
        Self { key_code, repeat_count, handled: false }
    }

    pub fn handled(&self) -> (r: bool)
        ensures
            r == self.handled,
    {
        self.handled
    }

    pub fn set_handled(&mut self, handled: bool)
        ensures
            *final(self) == (KeyPressedEventData { handled, ..*old(self) }),
    {
        self.handled = handled;
    }

    pub fn get_key_code(&self) -> (r: u32)
        ensures
            r == self.key_code,
    {
        self.key_code
    }

    pub fn get_repeat_count(&self) -> (r: u32)
        ensures
            r == self.repeat_count,
    {
        self.repeat_count
    }
}

/// A key was released; carries the key code.
#[derive(Debug, Copy, Clone, PartialEq, Eq, Structural)]
pub struct KeyReleasedEventData {
    pub key_code: u32,
    pub handled: bool,
}

impl KeyReleasedEventData {
    pub fn new(key_code: u32) -> (r: Self)
        ensures
            r == (KeyReleasedEventData { key_code, handled: false }),
    {
        Self { key_code, handled: false }
    }

    pub fn handled(&self) -> (r: bool)
        ensures
            r == self.handled,
    {
        self.handled
    }

    pub fn set_handled(&mut self, handled: bool)
        ensures
            *final(self) == (KeyReleasedEventData { handled, ..*old(self) }),
    {
        self.handled = handled;
    }

    pub fn get_key_code(&self) -> (r: u32)
        ensures
            r == self.key_code,
    {
        self.key_code
    }
}

/// The mouse cursor moved; carries its position in whole pixels.
#[derive(Debug, Copy, Clone, PartialEq, Eq, Structural)]
pub struct MouseMovedEventData {
    pub x_pos: i32,
    pub y_pos: i32,
    pub handled: bool,
}

impl MouseMovedEventData {
    pub fn new(x_pos: i32, y_pos: i32) -> (r: Self)
        ensures
            r == (MouseMovedEventData { x_pos, y_pos, handled: false }),
    {
        Self { x_pos, y_pos, handled: false }
    }

    pub fn handled(&self) -> (r: bool)
        ensures
            r == self.handled,
    {
        self.handled
    }

    pub fn set_handled(&mut self, handled: bool)
        ensures
            *final(self) == (MouseMovedEventData { handled, ..*old(self) }),
    {
        self.handled = handled;
    }

    pub fn get_x_pos(&self) -> (r: i32)
        ensures
            r == self.x_pos,
    {
        self.x_pos
    }

    pub fn get_y_pos(&self) -> (r: i32)
        ensures
            r == self.y_pos,
    {
        self.y_pos
    }
}

/// A mouse button was pressed; carries the button code, the cursor position
/// and the click count.
#[derive(Debug, Copy, Clone, PartialEq, Eq, Structural)]
pub struct MouseButtonPressedEventData {
    pub button_code: u32,
    pub x: i32,
    pub y: i32,
    pub clicks: u32,
    pub handled: bool,
}

impl MouseButtonPressedEventData {
    pub fn new(button_code: u32, x: i32, y: i32, clicks: u32) -> (r: Self)
        ensures
            r == (MouseButtonPressedEventData { button_code, x, y, clicks, handled: false }),
    {
        Self { button_code, x, y, clicks, handled: false }
    }

    pub fn handled(&self) -> (r: bool)
        ensures
            r == self.handled,
    {
        self.handled
    }

    pub fn set_handled(&mut self, handled: bool)
        ensures
            *final(self) == (MouseButtonPressedEventData { handled, ..*old(self) }),
    {
        self.handled = handled;
    }

    pub fn get_button_code(&self) -> (r: u32)
        ensures
            r == self.button_code,
    {
        self.button_code
    }

    pub fn get_button_pos(&self) -> (r: (i32, i32))
        ensures
            r == (self.x, self.y),
    {
        (self.x, self.y)
    }
}

/// A mouse button was released; carries the button code.
#[derive(Debug, Copy, Clone, PartialEq, Eq, Structural)]
pub struct MouseButtonReleasedEventData {
    pub button_code: u32,
    pub handled: bool,
}

impl MouseButtonReleasedEventData {
    pub fn new(button_code: u32) -> (r: Self)
        ensures
            r == (MouseButtonReleasedEventData { button_code, handled: false }),
    {
        Self { button_code, handled: false }
    }

    pub fn handled(&self) -> (r: bool)
        ensures
            r == self.handled,
    {
        self.handled
    }

    pub fn set_handled(&mut self, handled: bool)
        ensures
            *final(self) == (MouseButtonReleasedEventData { handled, ..*old(self) }),
    {
        self.handled = handled;
    }

    pub fn get_button_code(&self) -> (r: u32)
        ensures
            r == self.button_code,
    {
        self.button_code
    }
}

/// The mouse wheel was scrolled; carries the scroll offsets in whole steps.
#[derive(Debug, Copy, Clone, PartialEq, Eq, Structural)]
pub struct MouseScrollEventData {
    pub x_offset: i32,
    pub y_offset: i32,
    pub handled: bool,
}

impl MouseScrollEventData {
    pub fn new(x_offset: i32, y_offset: i32) -> (r: Self)
        ensures
            r == (MouseScrollEventData { x_offset, y_offset, handled: false }),
    {
        Self { x_offset, y_offset, handled: false }
    }

    pub fn handled(&self) -> (r: bool)
        ensures
            r == self.handled,
    {
        self.handled
    }

    pub fn set_handled(&mut self, handled: bool)
        ensures
            *final(self) == (MouseScrollEventData { handled, ..*old(self) }),
    {
        self.handled = handled;
    }

    pub fn get_x_offset(&self) -> (r: i32)
        ensures
            r == self.x_offset,
    {
        self.x_offset
    }

    pub fn get_y_offset(&self) -> (r: i32)
        ensures
            r == self.y_offset,
    {
        self.y_offset
    }
}

/// Category flags, one bit each; an event's flags are derived from its
/// variant alone and never stored.
pub const CATEGORY_NONE: u32 = 0;

pub const CATEGORY_APPLICATION: u32 = 1;

pub const CATEGORY_INPUT: u32 = 2;

pub const CATEGORY_KEYBOARD: u32 = 4;

pub const CATEGORY_MOUSE: u32 = 8;

pub const CATEGORY_MOUSE_BUTTON: u32 = 16;

/// The closed set of events the engine routes. Each variant carries its
/// payload together with the mutable `handled` flag.
#[derive(Debug, Copy, Clone, PartialEq, Eq, Structural)]
pub enum Event {
    WindowClose(WindowCloseEventData),
    WindowResize(WindowResizeEventData),
    KeyPressed(KeyPressedEventData),
    KeyReleased(KeyReleasedEventData),
    MouseMoved(MouseMovedEventData),
    MouseButtonPressed(MouseButtonPressedEventData),
    MouseButtonReleased(MouseButtonReleasedEventData),
    MouseScroll(MouseScrollEventData),
}

/// The discriminant of an event.
pub open spec fn spec_event_type(e: Event) -> EventType {
    match e {
        Event::WindowClose(_) => EventType::WindowClose,
        Event::WindowResize(_) => EventType::WindowResize,
        Event::KeyPressed(_) => EventType::KeyPressed,
        Event::KeyReleased(_) => EventType::KeyReleased,
        Event::MouseMoved(_) => EventType::MouseMoved,
        Event::MouseButtonPressed(_) => EventType::MouseButtonPressed,
        Event::MouseButtonReleased(_) => EventType::MouseButtonReleased,
        Event::MouseScroll(_) => EventType::MouseScroll,
    }
}

/// The `handled` flag of an event, whatever its variant.
pub open spec fn spec_handled(e: Event) -> bool {
    match e {
        Event::WindowClose(d) => d.handled,
        Event::WindowResize(d) => d.handled,
        Event::KeyPressed(d) => d.handled,
        Event::KeyReleased(d) => d.handled,
        Event::MouseMoved(d) => d.handled,
        Event::MouseButtonPressed(d) => d.handled,
        Event::MouseButtonReleased(d) => d.handled,
        Event::MouseScroll(d) => d.handled,
    }
}

/// The same event with its `handled` flag replaced and the payload kept.
pub open spec fn spec_with_handled(e: Event, handled: bool) -> Event {
    match e {
        Event::WindowClose(d) => Event::WindowClose(WindowCloseEventData { handled }),
        Event::WindowResize(d) => Event::WindowResize(WindowResizeEventData { handled, ..d }),
        Event::KeyPressed(d) => Event::KeyPressed(KeyPressedEventData { handled, ..d }),
        Event::KeyReleased(d) => Event::KeyReleased(KeyReleasedEventData { handled, ..d }),
        Event::MouseMoved(d) => Event::MouseMoved(MouseMovedEventData { handled, ..d }),
        Event::MouseButtonPressed(d) => Event::MouseButtonPressed(
            MouseButtonPressedEventData { handled, ..d },
        ),
        Event::MouseButtonReleased(d) => Event::MouseButtonReleased(
            MouseButtonReleasedEventData { handled, ..d },
        ),
        Event::MouseScroll(d) => Event::MouseScroll(MouseScrollEventData { handled, ..d }),
    }
}

/// The display name of a discriminant.
pub open spec fn spec_type_name(t: EventType) -> Seq<char> {
    match t {
        EventType::KeyPressed => "KeyPressed"@,
        EventType::KeyReleased => "KeyReleased"@,
        EventType::MouseMoved => "MouseMoved"@,
        EventType::MouseScroll => "MouseScroll"@,
        EventType::MouseButtonPressed => "MouseButtonPressed"@,
        EventType::MouseButtonReleased => "MouseButtonReleased"@,
        EventType::WindowClose => "WindowClose"@,
        EventType::WindowResize => "WindowResize"@,
        EventType::WindowFocus => "WindowFocus"@,
        EventType::WindowLostFocus => "WindowLostFocus"@,
        EventType::WindowMoved => "WindowMoved"@,
    }
}

/// The category flags derived from an event's variant.
pub open spec fn spec_category_flags(e: Event) -> u32 {
    match e {
        Event::WindowClose(_) => CATEGORY_APPLICATION,
        Event::WindowResize(_) => CATEGORY_APPLICATION,
        Event::KeyPressed(_) => CATEGORY_INPUT | CATEGORY_KEYBOARD,
        Event::KeyReleased(_) => CATEGORY_INPUT | CATEGORY_KEYBOARD,
        Event::MouseMoved(_) => CATEGORY_MOUSE,
        Event::MouseButtonPressed(_) => CATEGORY_INPUT | CATEGORY_MOUSE | CATEGORY_MOUSE_BUTTON,
        Event::MouseButtonReleased(_) => CATEGORY_INPUT | CATEGORY_MOUSE | CATEGORY_MOUSE_BUTTON,
        Event::MouseScroll(_) => CATEGORY_MOUSE,
    }
}

impl EventType {
    /// The display name of this discriminant.
    pub fn name(&self) -> (r: &'static str)
        ensures
            r@ == spec_type_name(*self),
    {
        match self {
            EventType::KeyPressed => "KeyPressed",
            EventType::KeyReleased => "KeyReleased",
            EventType::MouseMoved => "MouseMoved",
            EventType::MouseScroll => "MouseScroll",
            EventType::MouseButtonPressed => "MouseButtonPressed",
            EventType::MouseButtonReleased => "MouseButtonReleased",
            EventType::WindowClose => "WindowClose",
            EventType::WindowResize => "WindowResize",
            EventType::WindowFocus => "WindowFocus",
            EventType::WindowLostFocus => "WindowLostFocus",
            EventType::WindowMoved => "WindowMoved",
        }
    }
}

impl Event {
    /// The stable discriminant of this event.
    pub fn event_type(&self) -> (r: EventType)
        ensures
            r == spec_event_type(*self),
    {
        match self {
            Event::WindowClose(_) => EventType::WindowClose,
            Event::WindowResize(_) => EventType::WindowResize,
            Event::KeyPressed(_) => EventType::KeyPressed,
            Event::KeyReleased(_) => EventType::KeyReleased,
            Event::MouseMoved(_) => EventType::MouseMoved,
            Event::MouseButtonPressed(_) => EventType::MouseButtonPressed,
            Event::MouseButtonReleased(_) => EventType::MouseButtonReleased,
            Event::MouseScroll(_) => EventType::MouseScroll,
        }
    }

    /// The display name of this event's variant.
    pub fn name(&self) -> (r: &'static str)
        ensures
            r@ == spec_type_name(spec_event_type(*self)),
    {
        match self {
            Event::WindowClose(_) => "WindowClose",
            Event::WindowResize(_) => "WindowResize",
            Event::KeyPressed(_) => "KeyPressed",
            Event::KeyReleased(_) => "KeyReleased",
            Event::MouseMoved(_) => "MouseMoved",
            Event::MouseButtonPressed(_) => "MouseButtonPressed",
            Event::MouseButtonReleased(_) => "MouseButtonReleased",
            Event::MouseScroll(_) => "MouseScroll",
        }
    }

    /// The category flags of this event's variant.
    pub fn category_flags(&self) -> (r: u32)
        ensures
            r == spec_category_flags(*self),
    {
        match self {
            Event::WindowClose(_) => CATEGORY_APPLICATION,
            Event::WindowResize(_) => CATEGORY_APPLICATION,
            Event::KeyPressed(_) => CATEGORY_INPUT | CATEGORY_KEYBOARD,
            Event::KeyReleased(_) => CATEGORY_INPUT | CATEGORY_KEYBOARD,
            Event::MouseMoved(_) => CATEGORY_MOUSE,
            Event::MouseButtonPressed(_) => {
                CATEGORY_INPUT | CATEGORY_MOUSE | CATEGORY_MOUSE_BUTTON
            },
            Event::MouseButtonReleased(_) => {
                CATEGORY_INPUT | CATEGORY_MOUSE | CATEGORY_MOUSE_BUTTON
            },
            Event::MouseScroll(_) => CATEGORY_MOUSE,
        }
    }

    /// Whether every bit of `category` is set in this event's flags.
    pub fn is_in_category(&self, category: u32) -> (r: bool)
        ensures
            r == (spec_category_flags(*self) & category == category),
    {
        self.category_flags() & category == category
    }

    /// The `handled` flag.
    pub fn handled(&self) -> (r: bool)
        ensures
            r == spec_handled(*self),
    {
        match self {
            Event::WindowClose(d) => d.handled,
            Event::WindowResize(d) => d.handled,
            Event::KeyPressed(d) => d.handled,
            Event::KeyReleased(d) => d.handled,
            Event::MouseMoved(d) => d.handled,
            Event::MouseButtonPressed(d) => d.handled,
            Event::MouseButtonReleased(d) => d.handled,
            Event::MouseScroll(d) => d.handled,
        }
    }

    /// Set the `handled` flag, keeping the payload.
    pub fn set_handled(&mut self, handled: bool)
        ensures
            *final(self) == spec_with_handled(*old(self), handled),
    {
        match self {
            Event::WindowClose(d) => d.handled = handled,
            Event::WindowResize(d) => d.handled = handled,
            Event::KeyPressed(d) => d.handled = handled,
            Event::KeyReleased(d) => d.handled = handled,
            Event::MouseMoved(d) => d.handled = handled,
            Event::MouseButtonPressed(d) => d.handled = handled,
            Event::MouseButtonReleased(d) => d.handled = handled,
            Event::MouseScroll(d) => d.handled = handled,
        }
    }
}

/// The display form of an event: the variant name with the `Event` suffix,
/// then the payload fields and the `handled` flag.
pub open spec fn spec_display(e: Event) -> Seq<char> {
    match e {
        Event::WindowClose(d) => "WindowCloseEvent: handled="@ + spec_bool_text(d.handled),
        Event::WindowResize(d) => "WindowResizeEvent: width="@ + spec_decimal_int(d.width as int)
            + ", height="@ + spec_decimal_int(d.height as int) + ", handled="@ + spec_bool_text(
            d.handled,
        ),
        Event::KeyPressed(d) => "KeyPressedEvent: keycode="@ + spec_decimal(d.key_code as nat)
            + ", repeat="@ + spec_decimal(d.repeat_count as nat) + ", handled="@ + spec_bool_text(
            d.handled,
        ),
        Event::KeyReleased(d) => "KeyReleasedEvent: keycode="@ + spec_decimal(d.key_code as nat)
            + ", handled="@ + spec_bool_text(d.handled),
        Event::MouseMoved(d) => "MouseMovedEvent: x="@ + spec_decimal_int(d.x_pos as int) + ", y="@
            + spec_decimal_int(d.y_pos as int) + ", handled="@ + spec_bool_text(d.handled),
        Event::MouseButtonPressed(d) => "MouseButtonPressedEvent: button_code="@ + spec_decimal(
            d.button_code as nat,
        ) + ", handled="@ + spec_bool_text(d.handled),
        Event::MouseButtonReleased(d) => "MouseButtonReleasedEvent: button_code="@ + spec_decimal(
            d.button_code as nat,
        ) + ", handled="@ + spec_bool_text(d.handled),
        Event::MouseScroll(d) => "MouseScrollEvent: x="@ + spec_decimal_int(d.x_offset as int)
            + ", y="@ + spec_decimal_int(d.y_offset as int) + ", handled="@ + spec_bool_text(
            d.handled,
        ),
    }
}

impl Event {
    /// Render the display form of this event.
    pub fn to_display_string(&self) -> (r: String)
        ensures
            r@ == spec_display(*self),
    {
        match self {
            Event::WindowClose(d) => {
                let mut s = String::from_str("WindowCloseEvent: handled=");
                s.append(bool_text(d.handled));
                proof {
                    assert(s@ =~= spec_display(*self));
                }
                s
            },
            Event::WindowResize(d) => {
                let mut s = String::from_str("WindowResizeEvent: width=");
                s.append(i32_text(d.width).as_str());
                s.append(", height=");
                s.append(i32_text(d.height).as_str());
                s.append(", handled=");
                s.append(bool_text(d.handled));
                proof {
                    assert(s@ =~= spec_display(*self));
                }
                s
            },
            Event::KeyPressed(d) => {
                let mut s = String::from_str("KeyPressedEvent: keycode=");
                s.append(u32_text(d.key_code).as_str());
                s.append(", repeat=");
                s.append(u32_text(d.repeat_count).as_str());
                s.append(", handled=");
                s.append(bool_text(d.handled));
                proof {
                    assert(s@ =~= spec_display(*self));
                }
                s
            },
            Event::KeyReleased(d) => {
                let mut s = String::from_str("KeyReleasedEvent: keycode=");
                s.append(u32_text(d.key_code).as_str());
                s.append(", handled=");
                s.append(bool_text(d.handled));
                proof {
                    assert(s@ =~= spec_display(*self));
                }
                s
            },
            Event::MouseMoved(d) => {
                let mut s = String::from_str("MouseMovedEvent: x=");
                s.append(i32_text(d.x_pos).as_str());
                s.append(", y=");
                s.append(i32_text(d.y_pos).as_str());
                s.append(", handled=");
                s.append(bool_text(d.handled));
                proof {
                    assert(s@ =~= spec_display(*self));
                }
                s
            },
            Event::MouseButtonPressed(d) => {
                let mut s = String::from_str("MouseButtonPressedEvent: button_code=");
                s.append(u32_text(d.button_code).as_str());
                s.append(", handled=");
                s.append(bool_text(d.handled));
                proof {
                    assert(s@ =~= spec_display(*self));
                }
                s
            },
            Event::MouseButtonReleased(d) => {
                let mut s = String::from_str("MouseButtonReleasedEvent: button_code=");
                s.append(u32_text(d.button_code).as_str());
                s.append(", handled=");
                s.append(bool_text(d.handled));
                proof {
                    assert(s@ =~= spec_display(*self));
                }
                s
            },
            Event::MouseScroll(d) => {
                let mut s = String::from_str("MouseScrollEvent: x=");
                s.append(i32_text(d.x_offset).as_str());
                s.append(", y=");
                s.append(i32_text(d.y_offset).as_str());
                s.append(", handled=");
                s.append(bool_text(d.handled));
                proof {
                    assert(s@ =~= spec_display(*self));
                }
                s
            },
        }
    }
}

/// Wraps one handler call: the handler inspects the event and answers
/// whether it handled it; the dispatcher stores that answer in the event's
/// `handled` flag and passes it back.
pub struct EventDispatcher {}

impl EventDispatcher {
    pub fn new() -> (r: Self) {
        Self {  }
    }

    /// Call `func` on the event and write the returned flag into it.
    pub fn dispatch<F: Fn(Event) -> bool>(&mut self, event: &mut Event, func: F) -> (handled:
        bool)
        requires
            call_requires(func, (*old(event),)),
        ensures
            call_ensures(func, (*old(event),), handled),
            *final(event) == spec_with_handled(*old(event), handled),
    {
        let h = func(*event);
        event.set_handled(h);
        h
    }
}

} // verus!
