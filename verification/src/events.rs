use vstd::prelude::*;

verus! {

/// A keyboard key that the engine reports to its consumers.
#[derive(Clone, Copy, Debug, PartialEq, Eq, Hash, Structural)]
pub enum Key {
    Key1,
    Key2,
    Key3,
    Key4,
    Key5,
    Key6,
    Key7,
    Key8,
    Key9,
    Key0,
    A,
    B,
    C,
    D,
    E,
    F,
    G,
    H,
    I,
    J,
    K,
    L,
    M,
    N,
    O,
    P,
    Q,
    R,
    S,
    T,
    U,
    V,
    W,
    X,
    Y,
    Z,
    Insert,
    Home,
    Delete,
    End,
    PageDown,
    PageUp,
    Left,
    Up,
    Right,
    Down,
    Back,
    Return,
    Space,
    Numpad0,
    Numpad1,
    Numpad2,
    Numpad3,
    Numpad4,
    Numpad5,
    Numpad6,
    Numpad7,
    Numpad8,
    Numpad9,
    Add,
    At,
    Backslash,
    Colon,
    Comma,
    Decimal,
    Divide,
    Equals,
    Grave,
    LAlt,
    LBracket,
    LControl,
    LShift,
    Minus,
    Multiply,
    NumpadComma,
    NumpadEnter,
    NumpadEquals,
    Period,
    RAlt,
    RBracket,
    RControl,
    RShift,
    Semicolon,
    Slash,
    Subtract,
    Tab,
}

} // verus!
