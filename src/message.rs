use vstd::prelude::*;

use crate::options::GfxLayer;

verus! {

/// A layer of the document to repaint: the element that roots it and
/// whether it is the topmost layer.
#[derive(Copy, Clone, Debug, PartialEq, Eq, Structural)]
pub struct PaintLayer {
    pub element: u64,
    pub is_foreground: bool,
}

impl PaintLayer {
    pub fn new(element: u64, is_foreground: bool) -> (r: PaintLayer)
        ensures
            r.element == element,
            r.is_foreground == is_foreground,
    {
        PaintLayer { element, is_foreground }
    }
}

/// A pointer position in window coordinates.
#[derive(Copy, Clone, Debug, PartialEq, Eq, Structural)]
pub struct Point {
    pub x: i32,
    pub y: i32,
}

impl Point {
    pub fn new(x: i32, y: i32) -> (r: Point)
        ensures
            r.x == x,
            r.y == y,
    {
        Point { x, y }
    }
}

/// The mouse events a host can feed to the engine.
#[derive(Copy, Clone, Debug, PartialEq, Eq, Structural)]
pub enum MouseEvents {
    MouseMove,
    MouseUp,
    MouseDown,
    MouseWheel,
    MouseClick,
}

impl MouseEvents {
    /// The engine's numeric code for this mouse event.
    pub open spec fn code(self) -> u32 {
        match self {
            MouseEvents::MouseMove => 2,
            MouseEvents::MouseUp => 3,
            MouseEvents::MouseDown => 4,
            MouseEvents::MouseWheel => 6,
            MouseEvents::MouseClick => 0xFF,
        }
    }

    pub fn engine_code(&self) -> (r: u32)
        ensures
            r == self.code(),
    {
        match self {
            MouseEvents::MouseMove => 2,
            MouseEvents::MouseUp => 3,
            MouseEvents::MouseDown => 4,
            MouseEvents::MouseWheel => 6,
            MouseEvents::MouseClick => 0xFF,
        }
    }
}

/// The keyboard events a host can feed to the engine.
#[derive(Copy, Clone, Debug, PartialEq, Eq, Structural)]
pub enum KeyEvents {
    KeyDown,
    KeyUp,
    KeyChar,
}

impl KeyEvents {
    /// The engine's numeric code for this key event.
    pub open spec fn code(self) -> u32 {
        match self {
            KeyEvents::KeyDown => 0,
            KeyEvents::KeyUp => 1,
            KeyEvents::KeyChar => 2,
        }
    }

    pub fn engine_code(&self) -> (r: u32)
        ensures
            r == self.code(),
    {
        match self {
            KeyEvents::KeyDown => 0,
            KeyEvents::KeyUp => 1,
            KeyEvents::KeyChar => 2,
        }
    }
}

/// The mouse buttons of the engine's protocol, with `NoButton` for an
/// event that presses none.
#[derive(Copy, Clone, Debug, PartialEq, Eq, Structural)]
pub enum MouseButton {
    NoButton,
    Main,
    Prop,
    Middle,
}

impl MouseButton {
    /// The engine's numeric code for this button.
    pub open spec fn code(self) -> i32 {
        match self {
            MouseButton::NoButton => 0,
            MouseButton::Main => 1,
            MouseButton::Prop => 2,
            MouseButton::Middle => 3,
        }
    }

    /// The button that the engine's code `code` stands for, if any.
    pub open spec fn spec_from_code(code: i32) -> Option<MouseButton> {
        if code == 0 {
            Some(MouseButton::NoButton)
        } else if code == 1 {
            Some(MouseButton::Main)
        } else if code == 2 {
            Some(MouseButton::Prop)
        } else if code == 3 {
            Some(MouseButton::Middle)
        } else {
            None
        }
    }

    pub fn from_code(code: i32) -> (r: Option<MouseButton>)
        ensures
            r == MouseButton::spec_from_code(code),
            r matches Some(b) ==> b.code() == code,
    {
        if code == 0 {
            Some(MouseButton::NoButton)
        } else if code == 1 {
            Some(MouseButton::Main)
        } else if code == 2 {
            Some(MouseButton::Prop)
        } else if code == 3 {
            Some(MouseButton::Middle)
        } else {
            None
        }
    }
}

/// A rectangle in window coordinates.
#[derive(Copy, Clone, Debug, PartialEq, Eq, Structural)]
pub struct Rect {
    left: i32,
    top: i32,
    right: i32,
    bottom: i32,
}

impl Rect {
    pub fn new(left: i32, top: i32, right: i32, bottom: i32) -> (r: Rect)
        ensures
            r.left() == left,
            r.top() == top,
            r.right() == right,
            r.bottom() == bottom,
    {
        Rect { left, top, right, bottom }
    }

    #[verifier::when_used_as_spec(spec_left)]
    pub fn left(&self) -> (r: i32)
        ensures
            r == self.spec_left(),
    {
        self.left
    }

    #[verifier::when_used_as_spec(spec_top)]
    pub fn top(&self) -> (r: i32)
        ensures
            r == self.spec_top(),
    {
        self.top
    }

    #[verifier::when_used_as_spec(spec_right)]
    pub fn right(&self) -> (r: i32)
        ensures
            r == self.spec_right(),
    {
        self.right
    }

    #[verifier::when_used_as_spec(spec_bottom)]
    pub fn bottom(&self) -> (r: i32)
        ensures
            r == self.spec_bottom(),
    {
        self.bottom
    }

    pub closed spec fn spec_left(&self) -> i32 {
        self.left
    }

    pub closed spec fn spec_top(&self) -> i32 {
        self.top
    }

    pub closed spec fn spec_right(&self) -> i32 {
        self.right
    }

    pub closed spec fn spec_bottom(&self) -> i32 {
        self.bottom
    }
}

/// The layers of a custom-drawn element that the engine asks a draw
/// handler to paint.
#[derive(Copy, Clone, Debug, PartialEq, Eq, Structural)]
pub enum DrawEvents {
    DrawBackground,
    DrawContent,
    DrawForeground,
    DrawOutline,
}

impl DrawEvents {
    /// The engine's numeric code for this layer.
    pub open spec fn code(self) -> u32 {
        match self {
            DrawEvents::DrawBackground => 0,
            DrawEvents::DrawContent => 1,
            DrawEvents::DrawForeground => 2,
            DrawEvents::DrawOutline => 3,
        }
    }

    /// The layer that the engine's code `code` stands for, if any.
    pub fn from_code(code: u32) -> (r: Option<DrawEvents>)
        ensures
            r matches Some(d) ==> d.code() == code,
            r is None <==> code > 3,
    {
        if code == 0 {
            Some(DrawEvents::DrawBackground)
        } else if code == 1 {
            Some(DrawEvents::DrawContent)
        } else if code == 2 {
            Some(DrawEvents::DrawForeground)
        } else if code == 3 {
            Some(DrawEvents::DrawOutline)
        } else {
            None
        }
    }
}

/// One input or lifecycle event for a windowless engine instance.
#[derive(Copy, Clone, Debug, PartialEq, Eq, Structural)]
pub enum Message {
    Create { backend: GfxLayer, transparent: bool },
    Destroy,
    Size { width: u32, height: u32 },
    Resolution { ppi: u32 },
    Focus { enter: bool },
    Heartbit { milliseconds: u32 },
    Redraw,
    Paint { layer: PaintLayer },
    Mouse { event: MouseEvents, button: i32, modifiers: i32, pos: Point },
    Keyboard { event: KeyEvents, code: u32, modifiers: i32 },
}

/// The engine's windowless message protocol, field for field, with every
/// enumeration held as the engine's numeric code and every modifier set as
/// the engine's unsigned bit set.
#[derive(Copy, Clone, Debug, PartialEq, Eq, Structural)]
pub enum WireMessage {
    Create { backend: u32, transparent: bool },
    Destroy,
    Size { width: u32, height: u32 },
    Resolution { ppi: u32 },
    Focus { enter: bool },
    Heartbit { milliseconds: u32 },
    Redraw,
    Paint { element: u64, is_foreground: bool },
    Mouse { event: u32, button: i32, modifiers: u32, x: i32, y: i32 },
    Keyboard { event: u32, code: u32, modifiers: u32 },
}

/// The engine's bit set for a modifier word: the same 32 bits, unsigned.
pub open spec fn modifier_bits(modifiers: i32) -> u32 {
    modifiers as u32
}

proof fn lemma_modifier_bits_injective(a: i32, b: i32)
    ensures
        modifier_bits(a) == modifier_bits(b) ==> a == b,
{
    assert(a as u32 == b as u32 ==> a == b) by (bit_vector);
}

impl Message {
    pub fn create(backend: GfxLayer, transparent: bool) -> (r: Message)
        ensures
            r == (Message::Create { backend, transparent }),
    {
        Message::Create { backend, transparent }
    }

    pub fn destroy() -> (r: Message)
        ensures
            r == Message::Destroy,
    {
        Message::Destroy
    }

    pub fn size(width: u32, height: u32) -> (r: Message)
        ensures
            r == (Message::Size { width, height }),
    {
        Message::Size { width, height }
    }

    pub fn resolution(ppi: u32) -> (r: Message)
        ensures
            r == (Message::Resolution { ppi }),
    {
        Message::Resolution { ppi }
    }

    pub fn focus(enter: bool) -> (r: Message)
        ensures
            r == (Message::Focus { enter }),
    {
        Message::Focus { enter }
    }

    pub fn heartbit(milliseconds: u32) -> (r: Message)
        ensures
            r == (Message::Heartbit { milliseconds }),
    {
        Message::Heartbit { milliseconds }
    }

    pub fn redraw() -> (r: Message)
        ensures
            r == Message::Redraw,
    {
        Message::Redraw
    }

    pub fn paint(layer: PaintLayer) -> (r: Message)
        ensures
            r == (Message::Paint { layer }),
    {
        Message::Paint { layer }
    }

    pub fn mouse(event: MouseEvents, button: i32, modifiers: i32, pos: Point) -> (r: Message)
        ensures
            r == (Message::Mouse { event, button, modifiers, pos }),
    {
        Message::Mouse { event, button, modifiers, pos }
    }

    pub fn keyboard(event: KeyEvents, code: u32, modifiers: i32) -> (r: Message)
        ensures
            r == (Message::Keyboard { event, code, modifiers }),
    {
        Message::Keyboard { event, code, modifiers }
    }

    /// A message the engine can take: a mouse message names a button of the
    /// engine's protocol.
    pub open spec fn wf(self) -> bool {
        match self {
            Message::Mouse { button, .. } => MouseButton::spec_from_code(button) is Some,
            _ => true,
        }
    }

    /// The engine's wire form of this message.
    pub open spec fn wire(self) -> WireMessage {
        match self {
            Message::Create { backend, transparent } => WireMessage::Create {
                backend: backend.code(),
                transparent,
            },
            Message::Destroy => WireMessage::Destroy,
            Message::Size { width, height } => WireMessage::Size { width, height },
            Message::Resolution { ppi } => WireMessage::Resolution { ppi },
            Message::Focus { enter } => WireMessage::Focus { enter },
            Message::Heartbit { milliseconds } => WireMessage::Heartbit { milliseconds },
            Message::Redraw => WireMessage::Redraw,
            Message::Paint { layer } => WireMessage::Paint {
                element: layer.element,
                is_foreground: layer.is_foreground,
            },
            Message::Mouse { event, button, modifiers, pos } => WireMessage::Mouse {
                event: event.code(),
                button,
                modifiers: modifier_bits(modifiers),
                x: pos.x,
                y: pos.y,
            },
            Message::Keyboard { event, code, modifiers } => WireMessage::Keyboard {
                event: event.code(),
                code,
                modifiers: modifier_bits(modifiers),
            },
        }
    }

    /// Checks `wf`: whether the engine can take this message.
    pub fn is_valid(&self) -> (r: bool)
        ensures
            r == self.wf(),
    {
        match self {
            Message::Mouse { button, .. } => MouseButton::from_code(*button).is_some(),
            _ => true,
        }
    }

    /// Renders this message in the engine's wire form. Pure: it neither
    /// reads nor changes any engine state.
    pub fn to_wire(&self) -> (r: WireMessage)
        ensures
            r == self.wire(),
    {
        match self {
            Message::Create { backend, transparent } => WireMessage::Create {
                backend: backend.engine_code(),
                transparent: *transparent,
            },
            Message::Destroy => WireMessage::Destroy,
            Message::Size { width, height } => WireMessage::Size {
                width: *width,
                height: *height,
            },
            Message::Resolution { ppi } => WireMessage::Resolution { ppi: *ppi },
            Message::Focus { enter } => WireMessage::Focus { enter: *enter },
            Message::Heartbit { milliseconds } => WireMessage::Heartbit {
                milliseconds: *milliseconds,
            },
            Message::Redraw => WireMessage::Redraw,
            Message::Paint { layer } => WireMessage::Paint {
                element: layer.element,
                is_foreground: layer.is_foreground,
            },
            Message::Mouse { event, button, modifiers, pos } => WireMessage::Mouse {
                event: event.engine_code(),
                button: *button,
                modifiers: *modifiers as u32,
                x: pos.x,
                y: pos.y,
            },
            Message::Keyboard { event, code, modifiers } => WireMessage::Keyboard {
                event: event.engine_code(),
                code: *code,
                modifiers: *modifiers as u32,
            },
        }
    }
}

/// The wire form is a function of the message, and no two distinct messages
/// share one: equal messages have equal wire forms, and equal wire forms come
/// only from equal messages.
pub proof fn lemma_wire_injective(a: Message, b: Message)
    ensures
        (a.wire() == b.wire()) == (a == b),
{
    match (a, b) {
        (
            Message::Mouse { modifiers: ma, .. },
            Message::Mouse { modifiers: mb, .. },
        ) => {
            lemma_modifier_bits_injective(ma, mb);
        },
        (
            Message::Keyboard { modifiers: ma, .. },
            Message::Keyboard { modifiers: mb, .. },
        ) => {
            lemma_modifier_bits_injective(ma, mb);
        },
        _ => {},
    }
}

/// A message without modifier keys carries the engine's empty modifier set.
pub proof fn lemma_no_modifiers_is_zero(m: Message)
    requires
        m matches Message::Mouse { modifiers, .. } ==> modifiers == 0,
        m matches Message::Keyboard { modifiers, .. } ==> modifiers == 0,
    ensures
        m.wire() matches WireMessage::Mouse { modifiers, .. } ==> modifiers == 0,
        m.wire() matches WireMessage::Keyboard { modifiers, .. } ==> modifiers == 0,
{
}

} // verus!
