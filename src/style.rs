//! The categories that the keys are styled by. Colours and shapes belong to
//! the front end; the engine only says which category a key falls in.

use vstd::prelude::*;
use crate::calculator::Message;

verus! {

/// The category of a key, which decides how it is drawn.
#[derive(Debug, Clone, Copy, PartialEq, Eq, Structural)]
pub enum ButtonType {
    Number,
    /// MC, MR, MS, M+
    Memory,
    /// The four operators.
    Operation,
    /// Square root, reciprocal, percent.
    Special,
    /// Equals.
    Equal,
    /// C, CE, backspace.
    Clear,
}

/// The category of the key that sends `m`.
pub open spec fn category(m: Message) -> ButtonType {
    match m {
        Message::Num(_) | Message::Dot | Message::Neg => ButtonType::Number,
        Message::Sign(_) => ButtonType::Operation,
        Message::Ans => ButtonType::Equal,
        Message::Clear | Message::ClearEnd | Message::Backspace => ButtonType::Clear,
        Message::Memory(_) => ButtonType::Memory,
        Message::Special(_) => ButtonType::Special,
    }
}

impl ButtonType {
    /// The category of the key that sends `m`.
    pub fn of(m: Message) -> (r: ButtonType)
        ensures
            r == category(m),
    {
        match m {
            Message::Num(_) | Message::Dot | Message::Neg => ButtonType::Number,
            Message::Sign(_) => ButtonType::Operation,
            Message::Ans => ButtonType::Equal,
            Message::Clear | Message::ClearEnd | Message::Backspace => ButtonType::Clear,
            Message::Memory(_) => ButtonType::Memory,
            Message::Special(_) => ButtonType::Special,
        }
    }
}

/// The style of a key of the keypad.
#[derive(Debug, Clone, Copy, PartialEq, Eq, Structural)]
pub struct CustomButtonStyle {
    pub button_type: ButtonType,
}

impl CustomButtonStyle {
    /// The style of the key that sends `m`.
    pub fn for_message(m: Message) -> (r: CustomButtonStyle)
        ensures
            r.button_type == category(m),
    {
        CustomButtonStyle { button_type: ButtonType::of(m) }
    }
}

/// The style of the window's outer frame.
#[derive(Debug, Clone, Copy, PartialEq, Eq, Structural)]
pub struct MainContainerStyle;

/// A plainer palette of keys: equals, digits, functions.
#[derive(Debug, Clone, Copy, PartialEq, Eq, Structural)]
pub enum Button {
    Ans,
    Num,
    Func,
}

} // verus!
