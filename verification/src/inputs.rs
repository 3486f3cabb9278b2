use vstd::prelude::*;

verus! {

/// Number of key slots: one more than the highest key code.
pub const KEYS_COUNT: usize = 349;

/// A keyboard key, named after its printed symbol or function.
#[derive(Clone, Copy, Debug, PartialEq, Eq, Structural)]
#[allow(non_camel_case_types)]
pub enum Keys {
    Space,
    Apostrophe,
    Comma,
    Minus,
    Period,
    Slash,
    N0,
    N1,
    N2,
    N3,
    N4,
    N5,
    N6,
    N7,
    N8,
    N9,
    Semicolon,
    Equal,
    A,
    B,
    C,
    D,
    E,
    F,
    G,
    H,
    I,
    J,
    K,
    L,
    M,
    N,
    O,
    P,
    Q,
    R,
    S,
    T,
    U,
    V,
    W,
    X,
    Y,
    Z,
    LeftBracket,
    BackSlash,
    RightBracket,
    GraveAccent,
    World1,
    World2,
    Escape,
    Enter,
    Tab,
    BackSpace,
    Insert,
    Delete,
    Right,
    Left,
    Down,
    Up,
    PageUp,
    PageDown,
    Home,
    End,
    CapsLock,
    ScrollLock,
    NumLock,
    Pri32Screen,
    Pause,
    F1,
    F2,
    F3,
    F4,
    F5,
    F6,
    F7,
    F8,
    F9,
    F10,
    F11,
    F12,
    F13,
    F14,
    F15,
    F16,
    F17,
    F18,
    F19,
    F20,
    F21,
    F22,
    F23,
    F24,
    F25,
    Kp0,
    Kp1,
    Kp2,
    Kp3,
    Kp4,
    Kp5,
    Kp6,
    Kp7,
    Kp8,
    Kp9,
    KpDecimal,
    KpDivide,
    KpMultiply,
    KpSubtract,
    KpAdd,
    KpEnter,
    KpEqual,
    LeftShift,
    LeftControl,
    LeftAlt,
    LeftSuper,
    RightShift,
    RightControl,
    RightAlt,
    RightSuper,
    Menu,
    LAST_KEY,
}

/// The key code of `key`: the number that identifies it in window events and the slot
/// that holds its state. `LAST_KEY` is one past the highest code.
pub open spec fn key_code(key: Keys) -> nat {
    match key {
        Keys::Space => 32,
        Keys::Apostrophe => 39,
        Keys::Comma => 44,
        Keys::Minus => 45,
        Keys::Period => 46,
        Keys::Slash => 47,
        Keys::N0 => 48,
        Keys::N1 => 49,
        Keys::N2 => 50,
        Keys::N3 => 51,
        Keys::N4 => 52,
        Keys::N5 => 53,
        Keys::N6 => 54,
        Keys::N7 => 55,
        Keys::N8 => 56,
        Keys::N9 => 57,
        Keys::Semicolon => 59,
        Keys::Equal => 61,
        Keys::A => 65,
        Keys::B => 66,
        Keys::C => 67,
        Keys::D => 68,
        Keys::E => 69,
        Keys::F => 70,
        Keys::G => 71,
        Keys::H => 72,
        Keys::I => 73,
        Keys::J => 74,
        Keys::K => 75,
        Keys::L => 76,
        Keys::M => 77,
        Keys::N => 78,
        Keys::O => 79,
        Keys::P => 80,
        Keys::Q => 81,
        Keys::R => 82,
        Keys::S => 83,
        Keys::T => 84,
        Keys::U => 85,
        Keys::V => 86,
        Keys::W => 87,
        Keys::X => 88,
        Keys::Y => 89,
        Keys::Z => 90,
        Keys::LeftBracket => 91,
        Keys::BackSlash => 92,
        Keys::RightBracket => 93,
        Keys::GraveAccent => 96,
        Keys::World1 => 161,
        Keys::World2 => 162,
        Keys::Escape => 256,
        Keys::Enter => 257,
        Keys::Tab => 258,
        Keys::BackSpace => 259,
        Keys::Insert => 260,
        Keys::Delete => 261,
        Keys::Right => 262,
        Keys::Left => 263,
        Keys::Down => 264,
        Keys::Up => 265,
        Keys::PageUp => 266,
        Keys::PageDown => 267,
        Keys::Home => 268,
        Keys::End => 269,
        Keys::CapsLock => 280,
        Keys::ScrollLock => 281,
        Keys::NumLock => 282,
        Keys::Pri32Screen => 283,
        Keys::Pause => 284,
        Keys::F1 => 290,
        Keys::F2 => 291,
        Keys::F3 => 292,
        Keys::F4 => 293,
        Keys::F5 => 294,
        Keys::F6 => 295,
        Keys::F7 => 296,
        Keys::F8 => 297,
        Keys::F9 => 298,
        Keys::F10 => 299,
        Keys::F11 => 300,
        Keys::F12 => 301,
        Keys::F13 => 302,
        Keys::F14 => 303,
        Keys::F15 => 304,
        Keys::F16 => 305,
        Keys::F17 => 306,
        Keys::F18 => 307,
        Keys::F19 => 308,
        Keys::F20 => 309,
        Keys::F21 => 310,
        Keys::F22 => 311,
        Keys::F23 => 312,
        Keys::F24 => 313,
        Keys::F25 => 314,
        Keys::Kp0 => 320,
        Keys::Kp1 => 321,
        Keys::Kp2 => 322,
        Keys::Kp3 => 323,
        Keys::Kp4 => 324,
        Keys::Kp5 => 325,
        Keys::Kp6 => 326,
        Keys::Kp7 => 327,
        Keys::Kp8 => 328,
        Keys::Kp9 => 329,
        Keys::KpDecimal => 330,
        Keys::KpDivide => 331,
        Keys::KpMultiply => 332,
        Keys::KpSubtract => 333,
        Keys::KpAdd => 334,
        Keys::KpEnter => 335,
        Keys::KpEqual => 336,
        Keys::LeftShift => 340,
        Keys::LeftControl => 341,
        Keys::LeftAlt => 342,
        Keys::LeftSuper => 343,
        Keys::RightShift => 344,
        Keys::RightControl => 345,
        Keys::RightAlt => 346,
        Keys::RightSuper => 347,
        Keys::Menu => 348,
        Keys::LAST_KEY => 349,
    }
}

impl Keys {
    /// The key code of this key.
    pub fn code(self) -> (c: usize)
        ensures
            c == key_code(self),
    {
        match self {
            Keys::Space => 32,
            Keys::Apostrophe => 39,
            Keys::Comma => 44,
            Keys::Minus => 45,
            Keys::Period => 46,
            Keys::Slash => 47,
            Keys::N0 => 48,
            Keys::N1 => 49,
            Keys::N2 => 50,
            Keys::N3 => 51,
            Keys::N4 => 52,
            Keys::N5 => 53,
            Keys::N6 => 54,
            Keys::N7 => 55,
            Keys::N8 => 56,
            Keys::N9 => 57,
            Keys::Semicolon => 59,
            Keys::Equal => 61,
            Keys::A => 65,
            Keys::B => 66,
            Keys::C => 67,
            Keys::D => 68,
            Keys::E => 69,
            Keys::F => 70,
            Keys::G => 71,
            Keys::H => 72,
            Keys::I => 73,
            Keys::J => 74,
            Keys::K => 75,
            Keys::L => 76,
            Keys::M => 77,
            Keys::N => 78,
            Keys::O => 79,
            Keys::P => 80,
            Keys::Q => 81,
            Keys::R => 82,
            Keys::S => 83,
            Keys::T => 84,
            Keys::U => 85,
            Keys::V => 86,
            Keys::W => 87,
            Keys::X => 88,
            Keys::Y => 89,
            Keys::Z => 90,
            Keys::LeftBracket => 91,
            Keys::BackSlash => 92,
            Keys::RightBracket => 93,
            Keys::GraveAccent => 96,
            Keys::World1 => 161,
            Keys::World2 => 162,
            Keys::Escape => 256,
            Keys::Enter => 257,
            Keys::Tab => 258,
            Keys::BackSpace => 259,
            Keys::Insert => 260,
            Keys::Delete => 261,
            Keys::Right => 262,
            Keys::Left => 263,
            Keys::Down => 264,
            Keys::Up => 265,
            Keys::PageUp => 266,
            Keys::PageDown => 267,
            Keys::Home => 268,
            Keys::End => 269,
            Keys::CapsLock => 280,
            Keys::ScrollLock => 281,
            Keys::NumLock => 282,
            Keys::Pri32Screen => 283,
            Keys::Pause => 284,
            Keys::F1 => 290,
            Keys::F2 => 291,
            Keys::F3 => 292,
            Keys::F4 => 293,
            Keys::F5 => 294,
            Keys::F6 => 295,
            Keys::F7 => 296,
            Keys::F8 => 297,
            Keys::F9 => 298,
            Keys::F10 => 299,
            Keys::F11 => 300,
            Keys::F12 => 301,
            Keys::F13 => 302,
            Keys::F14 => 303,
            Keys::F15 => 304,
            Keys::F16 => 305,
            Keys::F17 => 306,
            Keys::F18 => 307,
            Keys::F19 => 308,
            Keys::F20 => 309,
            Keys::F21 => 310,
            Keys::F22 => 311,
            Keys::F23 => 312,
            Keys::F24 => 313,
            Keys::F25 => 314,
            Keys::Kp0 => 320,
            Keys::Kp1 => 321,
            Keys::Kp2 => 322,
            Keys::Kp3 => 323,
            Keys::Kp4 => 324,
            Keys::Kp5 => 325,
            Keys::Kp6 => 326,
            Keys::Kp7 => 327,
            Keys::Kp8 => 328,
            Keys::Kp9 => 329,
            Keys::KpDecimal => 330,
            Keys::KpDivide => 331,
            Keys::KpMultiply => 332,
            Keys::KpSubtract => 333,
            Keys::KpAdd => 334,
            Keys::KpEnter => 335,
            Keys::KpEqual => 336,
            Keys::LeftShift => 340,
            Keys::LeftControl => 341,
            Keys::LeftAlt => 342,
            Keys::LeftSuper => 343,
            Keys::RightShift => 344,
            Keys::RightControl => 345,
            Keys::RightAlt => 346,
            Keys::RightSuper => 347,
            Keys::Menu => 348,
            Keys::LAST_KEY => 349,
        }
    }
}

/// A mouse button. Its code shares the key slots: the left button uses slot 0, the right slot 1.
#[derive(Clone, Copy, Debug, PartialEq, Eq, Structural)]
pub enum MouseButton {
    Left,
    Right,
}

/// The slot of a mouse button.
pub open spec fn button_code(button: MouseButton) -> nat {
    match button {
        MouseButton::Left => 0,
        MouseButton::Right => 1,
    }
}

impl MouseButton {
    /// The slot of this button.
    pub fn code(self) -> (c: usize)
        ensures
            c == button_code(self),
    {
        match self {
            MouseButton::Left => 0,
            MouseButton::Right => 1,
        }
    }
}

/// What a button did in the current frame.
#[derive(Clone, Copy, Debug, PartialEq, Eq, Structural)]
pub enum InputActions {
    Pressed,
    Repeat,
    Release,
    Noting,
}

/// A window event as far as the input state reads it.
#[derive(Clone, Copy, Debug, PartialEq, Eq, Structural)]
pub enum InputEvent {
    /// A key changed: `code` is its key code, `released` tells a release from a press or
    /// repeat, `unknown` marks a key the window system could not name.
    Key { code: usize, released: bool, unknown: bool },
    /// A mouse button changed: `code` is its slot.
    MouseButton { code: usize, released: bool },
    /// The wheel moved by `delta` notches, already truncated to an integer.
    Scroll { delta: i32 },
    /// Any other event; the input state ignores it.
    Other,
}

/// The abstract state of the inputs: the down state of every slot in this frame and in the
/// previous one, and the scroll of this frame.
pub struct InputsView {
    pub keys: Seq<bool>,
    pub last_keys: Seq<bool>,
    pub scroll: int,
}

/// A slot went down in this frame.
pub open spec fn slot_pressed(v: InputsView, i: int) -> bool {
    v.keys[i] && !v.last_keys[i]
}

/// A slot came up in this frame.
pub open spec fn slot_released(v: InputsView, i: int) -> bool {
    !v.keys[i] && v.last_keys[i]
}

/// The action that `get_mouse_action` reports for a slot.
pub open spec fn slot_action(v: InputsView, i: int) -> InputActions {
    if slot_pressed(v, i) {
        InputActions::Pressed
    } else if v.keys[i] {
        InputActions::Repeat
    } else if slot_released(v, i) {
        InputActions::Release
    } else {
        InputActions::Noting
    }
}

/// The state after one event. A key that the window system could not name is stored as up.
pub open spec fn apply_event(v: InputsView, e: InputEvent) -> InputsView {
    match e {
        InputEvent::Key { code, released, unknown } =>
            InputsView { keys: v.keys.update(code as int, !released && !unknown), ..v },
        InputEvent::MouseButton { code, released } =>
            InputsView { keys: v.keys.update(code as int, !released), ..v },
        InputEvent::Scroll { delta } => InputsView { scroll: delta as int, ..v },
        InputEvent::Other => v,
    }
}

/// The state at the start of a new frame: this frame's keys become the previous frame's,
/// and the scroll is reset.
pub open spec fn start_frame(v: InputsView) -> InputsView {
    InputsView { keys: v.keys, last_keys: v.keys, scroll: 0 }
}

/// An event whose slot, if it has one, exists.
pub open spec fn event_in_range(e: InputEvent) -> bool {
    match e {
        InputEvent::Key { code, .. } => code < KEYS_COUNT,
        InputEvent::MouseButton { code, .. } => code < KEYS_COUNT,
        _ => true,
    }
}

/// Law: a slot pressed in this frame is down, a slot released in this frame is up, and
/// no slot is both pressed and released.
pub proof fn lemma_pressed_released_exclusive(v: InputsView, i: int)
    ensures
        slot_pressed(v, i) ==> v.keys[i],
        slot_released(v, i) ==> !v.keys[i],
        !(slot_pressed(v, i) && slot_released(v, i)),
{
}

/// Law: right after a frame starts, nothing is pressed or released; a slot held down
/// repeats and any other slot does nothing.
pub proof fn lemma_new_frame_settles(v: InputsView, i: int)
    ensures
        !slot_pressed(start_frame(v), i),
        !slot_released(start_frame(v), i),
        slot_action(start_frame(v), i) == (if v.keys[i] { InputActions::Repeat } else { InputActions::Noting }),
        start_frame(v).scroll == 0,
{
}

/// Law: an event on one slot leaves every other slot as it was.
pub proof fn lemma_event_touches_one_slot(v: InputsView, code: usize, released: bool, i: int)
    requires
        code < KEYS_COUNT,
        v.keys.len() == KEYS_COUNT,
        0 <= i < KEYS_COUNT,
        i != code,
    ensures
        apply_event(v, InputEvent::MouseButton { code, released }).keys[i] == v.keys[i],
        apply_event(v, InputEvent::Key { code, released, unknown: false }).keys[i] == v.keys[i],
{
}

/// Law: a click seen over four frames. A button that was up reports `Pressed` in the frame of
/// its press, `Repeat` in the next frame while held, `Release` in the frame it comes up, and
/// `Noting` in the frame after.
pub proof fn lemma_click_over_frames(v: InputsView, code: usize)
    requires
        code < KEYS_COUNT,
        v.keys.len() == KEYS_COUNT,
        v.last_keys.len() == KEYS_COUNT,
        !v.keys[code as int],
    ensures ({
        let f1 = apply_event(start_frame(v), InputEvent::MouseButton { code, released: false });
        let f2 = start_frame(f1);
        let f3 = apply_event(start_frame(f2), InputEvent::MouseButton { code, released: true });
        let f4 = start_frame(f3);
        &&& slot_action(f1, code as int) == InputActions::Pressed
        &&& slot_action(f2, code as int) == InputActions::Repeat
        &&& slot_action(f3, code as int) == InputActions::Release
        &&& slot_action(f4, code as int) == InputActions::Noting
    }),
{
}

/// Keyboard and mouse button state across two frames, with the wheel scroll of the frame.
pub struct Inputs {
    keys: Vec<bool>,
    last_keys: Vec<bool>,
    mouse_scroll_delta: i32,
}

impl Inputs {
    /// Every key slot exists in both frames.
    pub closed spec fn wf(&self) -> bool {
        self.keys.len() == KEYS_COUNT && self.last_keys.len() == KEYS_COUNT
    }

    /// The abstract state.
    pub closed spec fn view(&self) -> InputsView {
        InputsView { keys: self.keys@, last_keys: self.last_keys@, scroll: self.mouse_scroll_delta as int }
    }

    /// A well-formed state has a slot for every key code in both frames.
    pub proof fn lemma_wf(&self)
        requires
            self.wf(),
        ensures
            self.view().keys.len() == KEYS_COUNT,
            self.view().last_keys.len() == KEYS_COUNT,
    {
    }

    /// All keys up in both frames, and no scroll.
    pub fn new() -> (r: Self)
        ensures
            r.view().keys == Seq::new(KEYS_COUNT as nat, |i: int| false),
            r.view().last_keys == Seq::new(KEYS_COUNT as nat, |i: int| false),
            r.view().scroll == 0,
            r.wf(),
    {
        let mut keys: Vec<bool> = Vec::new();
        let mut last_keys: Vec<bool> = Vec::new();
        let mut i: usize = 0;
        while i < KEYS_COUNT
            invariant
                i <= KEYS_COUNT,
                keys@ == Seq::new(i as nat, |j: int| false),
                last_keys@ == Seq::new(i as nat, |j: int| false),
            decreases KEYS_COUNT - i,
        {
            keys.push(false);
            last_keys.push(false);
            i = i + 1;
        }
        Inputs { keys, last_keys, mouse_scroll_delta: 0 }
    }

    /// Starts a frame: the current keys become the previous frame's keys and the scroll is reset.
    pub fn new_frame(&mut self)
        requires
            old(self).wf(),
        ensures
            final(self).wf(),
            final(self).view() == start_frame(old(self).view()),
    {
        let mut last_keys = Vec::new();
        let mut i: usize = 0;
        while i < KEYS_COUNT
            invariant
                i <= KEYS_COUNT,
                self.keys.len() == KEYS_COUNT,
                last_keys@ == self.keys@.subrange(0, i as int),
            decreases KEYS_COUNT - i,
        {
            last_keys.push(self.keys[i]);
            i = i + 1;
        }
        assert(self.keys@.subrange(0, KEYS_COUNT as int) =~= self.keys@);
        self.last_keys = last_keys;
        self.mouse_scroll_delta = 0;
    }

    /// Records one window event.
    pub fn roll_event(&mut self, event: &InputEvent)
        requires
            old(self).wf(),
            event_in_range(*event),
        ensures
            final(self).wf(),
            final(self).view() == apply_event(old(self).view(), *event),
    {
        match *event {
            InputEvent::Key { code, released, unknown } => {
                self.keys.set(code, !released && !unknown);
            }
            InputEvent::MouseButton { code, released } => {
                self.keys.set(code, !released);
            }
            InputEvent::Scroll { delta } => {
                self.mouse_scroll_delta = delta;
            }
            InputEvent::Other => {}
        }
    }

    /// The wheel scroll of this frame.
    pub fn get_mouse_scroll(&self) -> (r: i32)
        ensures
            r == self.view().scroll,
    {
        self.mouse_scroll_delta
    }

    /// The key is down.
    pub fn key_down(&self, key: Keys) -> (r: bool)
        requires
            self.wf(),
            key != Keys::LAST_KEY,
        ensures
            r == self.view().keys[key_code(key) as int],
    {
        self.keys[key.code()]
    }

    /// The key went down in this frame.
    pub fn key_pressed(&self, key: Keys) -> (r: bool)
        requires
            self.wf(),
            key != Keys::LAST_KEY,
        ensures
            r == slot_pressed(self.view(), key_code(key) as int),
    {
        let i = key.code();
        self.keys[i] && !self.last_keys[i]
    }

    /// The key came up in this frame.
    pub fn key_release(&self, key: Keys) -> (r: bool)
        requires
            self.wf(),
            key != Keys::LAST_KEY,
        ensures
            r == slot_released(self.view(), key_code(key) as int),
    {
        let i = key.code();
        !self.keys[i] && self.last_keys[i]
    }

    /// The button is down.
    pub fn mouse_down(&self, button: MouseButton) -> (r: bool)
        requires
            self.wf(),
        ensures
            r == self.view().keys[button_code(button) as int],
    {
        self.keys[button.code()]
    }

    /// The button went down in this frame.
    pub fn mouse_pressed(&self, button: MouseButton) -> (r: bool)
        requires
            self.wf(),
        ensures
            r == slot_pressed(self.view(), button_code(button) as int),
    {
        let i = button.code();
        self.keys[i] && !self.last_keys[i]
    }

    /// The button came up in this frame.
    pub fn mouse_release(&self, button: MouseButton) -> (r: bool)
        requires
            self.wf(),
        ensures
            r == slot_released(self.view(), button_code(button) as int),
    {
        let i = button.code();
        !self.keys[i] && self.last_keys[i]
    }

    /// What the button did in this frame: pressed in it, held down, released in it, or nothing.
    pub fn get_mouse_action(&self, button: MouseButton) -> (r: InputActions)
        requires
            self.wf(),
        ensures
            r == slot_action(self.view(), button_code(button) as int),
    {
        if self.mouse_pressed(button) {
            return InputActions::Pressed;
        }
        if self.mouse_down(button) {
            return InputActions::Repeat;
        }
        if self.mouse_release(button) {
            return InputActions::Release;
        }
        InputActions::Noting
    }
}


/// The character printed on a key whose GLFW code is that character's ASCII code (uppercase for
/// letters), or `None` for a key without one.
pub open spec fn key_symbol(key: Keys) -> Option<char> {
    match key {
        Keys::Space => Some(' '),
        Keys::Apostrophe => Some('\''),
        Keys::Comma => Some(','),
        Keys::Minus => Some('-'),
        Keys::Period => Some('.'),
        Keys::Slash => Some('/'),
        Keys::N0 => Some('0'),
        Keys::N1 => Some('1'),
        Keys::N2 => Some('2'),
        Keys::N3 => Some('3'),
        Keys::N4 => Some('4'),
        Keys::N5 => Some('5'),
        Keys::N6 => Some('6'),
        Keys::N7 => Some('7'),
        Keys::N8 => Some('8'),
        Keys::N9 => Some('9'),
        Keys::Semicolon => Some(';'),
        Keys::Equal => Some('='),
        Keys::A => Some('A'),
        Keys::B => Some('B'),
        Keys::C => Some('C'),
        Keys::D => Some('D'),
        Keys::E => Some('E'),
        Keys::F => Some('F'),
        Keys::G => Some('G'),
        Keys::H => Some('H'),
        Keys::I => Some('I'),
        Keys::J => Some('J'),
        Keys::K => Some('K'),
        Keys::L => Some('L'),
        Keys::M => Some('M'),
        Keys::N => Some('N'),
        Keys::O => Some('O'),
        Keys::P => Some('P'),
        Keys::Q => Some('Q'),
        Keys::R => Some('R'),
        Keys::S => Some('S'),
        Keys::T => Some('T'),
        Keys::U => Some('U'),
        Keys::V => Some('V'),
        Keys::W => Some('W'),
        Keys::X => Some('X'),
        Keys::Y => Some('Y'),
        Keys::Z => Some('Z'),
        Keys::LeftBracket => Some('['),
        Keys::BackSlash => Some('\\'),
        Keys::RightBracket => Some(']'),
        Keys::GraveAccent => Some('`'),
        _ => None,
    }
}

/// The number of a function key: 1 for `F1` up to 25 for `F25`, 0 for any other key.
pub open spec fn function_key_number(key: Keys) -> nat {
    match key {
        Keys::F1 => 1,
        Keys::F2 => 2,
        Keys::F3 => 3,
        Keys::F4 => 4,
        Keys::F5 => 5,
        Keys::F6 => 6,
        Keys::F7 => 7,
        Keys::F8 => 8,
        Keys::F9 => 9,
        Keys::F10 => 10,
        Keys::F11 => 11,
        Keys::F12 => 12,
        Keys::F13 => 13,
        Keys::F14 => 14,
        Keys::F15 => 15,
        Keys::F16 => 16,
        Keys::F17 => 17,
        Keys::F18 => 18,
        Keys::F19 => 19,
        Keys::F20 => 20,
        Keys::F21 => 21,
        Keys::F22 => 22,
        Keys::F23 => 23,
        Keys::F24 => 24,
        Keys::F25 => 25,
        _ => 0,
    }
}

/// The digit of a keypad digit key, or `None` for any other key.
pub open spec fn keypad_digit(key: Keys) -> Option<nat> {
    match key {
        Keys::Kp0 => Some(0),
        Keys::Kp1 => Some(1),
        Keys::Kp2 => Some(2),
        Keys::Kp3 => Some(3),
        Keys::Kp4 => Some(4),
        Keys::Kp5 => Some(5),
        Keys::Kp6 => Some(6),
        Keys::Kp7 => Some(7),
        Keys::Kp8 => Some(8),
        Keys::Kp9 => Some(9),
        _ => None,
    }
}

/// The key that the window system reports with a code, or `None` for a code no key has.
pub open spec fn key_of_code(code: nat) -> Option<Keys> {
    if code == 32 { Some(Keys::Space) }
    else if code == 39 { Some(Keys::Apostrophe) }
    else if code == 44 { Some(Keys::Comma) }
    else if code == 45 { Some(Keys::Minus) }
    else if code == 46 { Some(Keys::Period) }
    else if code == 47 { Some(Keys::Slash) }
    else if code == 48 { Some(Keys::N0) }
    else if code == 49 { Some(Keys::N1) }
    else if code == 50 { Some(Keys::N2) }
    else if code == 51 { Some(Keys::N3) }
    else if code == 52 { Some(Keys::N4) }
    else if code == 53 { Some(Keys::N5) }
    else if code == 54 { Some(Keys::N6) }
    else if code == 55 { Some(Keys::N7) }
    else if code == 56 { Some(Keys::N8) }
    else if code == 57 { Some(Keys::N9) }
    else if code == 59 { Some(Keys::Semicolon) }
    else if code == 61 { Some(Keys::Equal) }
    else if code == 65 { Some(Keys::A) }
    else if code == 66 { Some(Keys::B) }
    else if code == 67 { Some(Keys::C) }
    else if code == 68 { Some(Keys::D) }
    else if code == 69 { Some(Keys::E) }
    else if code == 70 { Some(Keys::F) }
    else if code == 71 { Some(Keys::G) }
    else if code == 72 { Some(Keys::H) }
    else if code == 73 { Some(Keys::I) }
    else if code == 74 { Some(Keys::J) }
    else if code == 75 { Some(Keys::K) }
    else if code == 76 { Some(Keys::L) }
    else if code == 77 { Some(Keys::M) }
    else if code == 78 { Some(Keys::N) }
    else if code == 79 { Some(Keys::O) }
    else if code == 80 { Some(Keys::P) }
    else if code == 81 { Some(Keys::Q) }
    else if code == 82 { Some(Keys::R) }
    else if code == 83 { Some(Keys::S) }
    else if code == 84 { Some(Keys::T) }
    else if code == 85 { Some(Keys::U) }
    else if code == 86 { Some(Keys::V) }
    else if code == 87 { Some(Keys::W) }
    else if code == 88 { Some(Keys::X) }
    else if code == 89 { Some(Keys::Y) }
    else if code == 90 { Some(Keys::Z) }
    else if code == 91 { Some(Keys::LeftBracket) }
    else if code == 92 { Some(Keys::BackSlash) }
    else if code == 93 { Some(Keys::RightBracket) }
    else if code == 96 { Some(Keys::GraveAccent) }
    else if code == 161 { Some(Keys::World1) }
    else if code == 162 { Some(Keys::World2) }
    else if code == 256 { Some(Keys::Escape) }
    else if code == 257 { Some(Keys::Enter) }
    else if code == 258 { Some(Keys::Tab) }
    else if code == 259 { Some(Keys::BackSpace) }
    else if code == 260 { Some(Keys::Insert) }
    else if code == 261 { Some(Keys::Delete) }
    else if code == 262 { Some(Keys::Right) }
    else if code == 263 { Some(Keys::Left) }
    else if code == 264 { Some(Keys::Down) }
    else if code == 265 { Some(Keys::Up) }
    else if code == 266 { Some(Keys::PageUp) }
    else if code == 267 { Some(Keys::PageDown) }
    else if code == 268 { Some(Keys::Home) }
    else if code == 269 { Some(Keys::End) }
    else if code == 280 { Some(Keys::CapsLock) }
    else if code == 281 { Some(Keys::ScrollLock) }
    else if code == 282 { Some(Keys::NumLock) }
    else if code == 283 { Some(Keys::Pri32Screen) }
    else if code == 284 { Some(Keys::Pause) }
    else if code == 290 { Some(Keys::F1) }
    else if code == 291 { Some(Keys::F2) }
    else if code == 292 { Some(Keys::F3) }
    else if code == 293 { Some(Keys::F4) }
    else if code == 294 { Some(Keys::F5) }
    else if code == 295 { Some(Keys::F6) }
    else if code == 296 { Some(Keys::F7) }
    else if code == 297 { Some(Keys::F8) }
    else if code == 298 { Some(Keys::F9) }
    else if code == 299 { Some(Keys::F10) }
    else if code == 300 { Some(Keys::F11) }
    else if code == 301 { Some(Keys::F12) }
    else if code == 302 { Some(Keys::F13) }
    else if code == 303 { Some(Keys::F14) }
    else if code == 304 { Some(Keys::F15) }
    else if code == 305 { Some(Keys::F16) }
    else if code == 306 { Some(Keys::F17) }
    else if code == 307 { Some(Keys::F18) }
    else if code == 308 { Some(Keys::F19) }
    else if code == 309 { Some(Keys::F20) }
    else if code == 310 { Some(Keys::F21) }
    else if code == 311 { Some(Keys::F22) }
    else if code == 312 { Some(Keys::F23) }
    else if code == 313 { Some(Keys::F24) }
    else if code == 314 { Some(Keys::F25) }
    else if code == 320 { Some(Keys::Kp0) }
    else if code == 321 { Some(Keys::Kp1) }
    else if code == 322 { Some(Keys::Kp2) }
    else if code == 323 { Some(Keys::Kp3) }
    else if code == 324 { Some(Keys::Kp4) }
    else if code == 325 { Some(Keys::Kp5) }
    else if code == 326 { Some(Keys::Kp6) }
    else if code == 327 { Some(Keys::Kp7) }
    else if code == 328 { Some(Keys::Kp8) }
    else if code == 329 { Some(Keys::Kp9) }
    else if code == 330 { Some(Keys::KpDecimal) }
    else if code == 331 { Some(Keys::KpDivide) }
    else if code == 332 { Some(Keys::KpMultiply) }
    else if code == 333 { Some(Keys::KpSubtract) }
    else if code == 334 { Some(Keys::KpAdd) }
    else if code == 335 { Some(Keys::KpEnter) }
    else if code == 336 { Some(Keys::KpEqual) }
    else if code == 340 { Some(Keys::LeftShift) }
    else if code == 341 { Some(Keys::LeftControl) }
    else if code == 342 { Some(Keys::LeftAlt) }
    else if code == 343 { Some(Keys::LeftSuper) }
    else if code == 344 { Some(Keys::RightShift) }
    else if code == 345 { Some(Keys::RightControl) }
    else if code == 346 { Some(Keys::RightAlt) }
    else if code == 347 { Some(Keys::RightSuper) }
    else if code == 348 { Some(Keys::Menu) }
    else if code == 349 { Some(Keys::LAST_KEY) }
    else { None }
}

/// Law: a key with a printed character has that character's ASCII code, the GLFW convention;
/// so `W` is 87 and `V` is 86.
pub proof fn lemma_printable_keys_use_ascii(key: Keys)
    ensures
        key_symbol(key) matches Some(c) ==> key_code(key) == c as int,
{
}

/// Law: the function keys `F1` to `F25` have the consecutive codes 290 to 314, and the keypad
/// digits 0 to 9 the codes 320 to 329.
pub proof fn lemma_function_and_keypad_codes(key: Keys)
    ensures
        function_key_number(key) > 0 ==> key_code(key) == 289 + function_key_number(key),
        keypad_digit(key) matches Some(d) ==> key_code(key) == 320 + d,
{
}

/// Law: GLFW's layout of the other codes. Exactly the printable keys (and the two non-US keys)
/// have codes below 256, where Escape starts the non-printable keys; the arrow keys are
/// consecutive (right, left, down, up); and each right-hand modifier is four codes after its
/// left-hand twin.
pub proof fn lemma_non_printable_key_codes(key: Keys)
    ensures
        (key_symbol(key).is_some() || key == Keys::World1 || key == Keys::World2) <==> key_code(key) < 256,
        key_code(Keys::Escape) == 256,
        key_code(Keys::Left) == key_code(Keys::Right) + 1,
        key_code(Keys::Down) == key_code(Keys::Right) + 2,
        key_code(Keys::Up) == key_code(Keys::Right) + 3,
        key_code(Keys::RightShift) == key_code(Keys::LeftShift) + 4,
        key_code(Keys::RightControl) == key_code(Keys::LeftControl) + 4,
        key_code(Keys::RightAlt) == key_code(Keys::LeftAlt) + 4,
        key_code(Keys::RightSuper) == key_code(Keys::LeftSuper) + 4,
{
}

/// Law: the window system's code of a key names that key back: no two keys share a code, so a
/// key event reaches the slot of its own key and no other.
pub proof fn lemma_key_codes_name_their_keys(key: Keys)
    ensures
        key_of_code(key_code(key)) == Some(key),
        key_code(key) <= KEYS_COUNT,
{
}

/// Law: different keys have different codes.
pub proof fn lemma_key_codes_distinct(a: Keys, b: Keys)
    ensures
        key_code(a) == key_code(b) ==> a == b,
{
    lemma_key_codes_name_their_keys(a);
    lemma_key_codes_name_their_keys(b);
}

/// Law: the two mouse buttons have different slots, below every key code.
pub proof fn lemma_button_slots(a: MouseButton, b: MouseButton, key: Keys)
    ensures
        button_code(a) == button_code(b) ==> a == b,
        button_code(a) < key_code(key),
{
}

} // verus!
