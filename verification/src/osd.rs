//! Types used to render messages through the host's On-Screen-Display.

use vstd::prelude::*;
use vstd::string::StringSliceAdditionalSpecFns;
use crate::text::has_nul;

verus! {

/// Colors that the On-Screen-Display can render.
#[derive(Clone, Copy, Debug, PartialEq, Eq, Structural)]
pub enum Color {
    Cyan,
    Green,
    Red,
    Yellow,
    Custom(u32),
}

impl Color {
    /// The ARGB value that the host expects for this color.
    pub open spec fn code(self) -> u32 {
        match self {
            Color::Cyan => 0xFF00FFFF,
            Color::Green => 0xFF00FF00,
            Color::Red => 0xFFFF0000,
            Color::Yellow => 0xFFFFFF30,
            Color::Custom(value) => value,
        }
    }

    /// Returns a `u32` representation of this color.
    pub fn to_u32(&self) -> (r: u32)
        ensures
            r == self.code(),
    {
        match self {
            Color::Cyan => 0xFF00FFFF,
            Color::Green => 0xFF00FF00,
            Color::Red => 0xFFFF0000,
            Color::Yellow => 0xFFFFFF30,
            Color::Custom(value) => *value,
        }
    }
}

/// How long an On-Screen-Display message stays on screen.
#[derive(Clone, Copy, Debug, PartialEq, Eq, Structural)]
pub enum Duration {
    Short,
    Normal,
    VeryLong,
    Custom(u32),
}

impl Duration {
    /// The number of milliseconds this duration stands for.
    pub open spec fn millis(self) -> u32 {
        match self {
            Duration::Short => 2000,
            Duration::Normal => 5000,
            Duration::VeryLong => 10000,
            Duration::Custom(value) => value,
        }
    }

    /// Returns a `u32` representation of this duration, in milliseconds.
    pub fn to_u32(&self) -> (r: u32)
        ensures
            r == self.millis(),
    {
        match self {
            Duration::Short => 2000,
            Duration::Normal => 5000,
            Duration::VeryLong => 10000,
            Duration::Custom(value) => *value,
        }
    }
}

/// Sets the hook for sending an On-Screen-Display message back to the host.
///
/// Once set, the hook cannot be changed: a later call leaves the first hook
/// in place.
pub fn set_global_hook<H>(holder: &mut Option<H>, hook: H)
    ensures
        *final(holder) == (if old(holder).is_some() {
            *old(holder)
        } else {
            Some(hook)
        }),
{
    if holder.is_none() {
        *holder = Some(hook);
    }
}

/// A message for the On-Screen-Display.
#[derive(Debug)]
pub struct OsdMessage {
    pub color: Color,
    pub duration: Duration,
    pub text: String,
}

/// What the host's display hook is called with.
#[derive(Debug)]
pub struct OsdCall {
    /// The text to render; it holds no NUL byte.
    pub message: String,
    pub color: u32,
    pub duration: u32,
}

/// A namespace for what is sent back to the host.
pub struct Dolphin;

impl Dolphin {
    /// Prepares a message for the current game window's On-Screen-Display.
    ///
    /// The host takes the text as a NUL-terminated string, so a message that
    /// holds a NUL byte cannot be rendered: `None` is returned for it, and
    /// nothing is to be shown.
    pub fn add_osd_message(color: Color, duration: Duration, message: &str) -> (call: Option<
        OsdCall,
    >)
        ensures
            call.is_some() == !message.spec_bytes().contains(0u8),
            match call {
                Some(c) => c.message@ == message@ && c.color == color.code() && c.duration
                    == duration.millis(),
                None => true,
            },
    {
        if has_nul(message) {
            return None;
        }
        Some(
            OsdCall {
                message: String::from_str(message),
                color: color.to_u32(),
                duration: duration.to_u32(),
            },
        )
    }
}

} // verus!
