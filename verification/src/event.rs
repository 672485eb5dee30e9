//! The closed table of events that a tag can listen to.

use vstd::prelude::*;
use crate::text::same_text;

verus! {

/// An event that a listener can be attached for. Each kind has the name it
/// is bound by in a template and the type of the payload that its handler
/// takes.
#[derive(Debug, Clone, Copy, PartialEq, Eq, Hash, Structural)]
pub enum EventKind {
    Click,
    DoubleClick,
    KeyPress,
    KeyDown,
    KeyUp,
    MouseDown,
    MouseMove,
    MouseOut,
    MouseEnter,
    MouseLeave,
    MouseWheel,
    MouseOver,
    MouseUp,
    GotPointerCapture,
    LostPointerCapture,
    PointerCancel,
    PointerDown,
    PointerEnter,
    PointerLeave,
    PointerMove,
    PointerOut,
    PointerOver,
    PointerUp,
    Scroll,
    Blur,
    Focus,
    Submit,
    Input,
    Change,
    DragStart,
    Drag,
    DragEnd,
    DragEnter,
    DragLeave,
    DragOver,
    DragExit,
    Drop,
    ContextMenu,
}

/// The name an event kind is bound by.
pub open spec fn name_of(kind: EventKind) -> Seq<char> {
    match kind {
        EventKind::Click => "onclick"@,
        EventKind::DoubleClick => "ondoubleclick"@,
        EventKind::KeyPress => "onkeypress"@,
        EventKind::KeyDown => "onkeydown"@,
        EventKind::KeyUp => "onkeyup"@,
        EventKind::MouseDown => "onmousedown"@,
        EventKind::MouseMove => "onmousemove"@,
        EventKind::MouseOut => "onmouseout"@,
        EventKind::MouseEnter => "onmouseenter"@,
        EventKind::MouseLeave => "onmouseleave"@,
        EventKind::MouseWheel => "onmousewheel"@,
        EventKind::MouseOver => "onmouseover"@,
        EventKind::MouseUp => "onmouseup"@,
        EventKind::GotPointerCapture => "ongotpointercapture"@,
        EventKind::LostPointerCapture => "onlostpointercapture"@,
        EventKind::PointerCancel => "onpointercancel"@,
        EventKind::PointerDown => "onpointerdown"@,
        EventKind::PointerEnter => "onpointerenter"@,
        EventKind::PointerLeave => "onpointerleave"@,
        EventKind::PointerMove => "onpointermove"@,
        EventKind::PointerOut => "onpointerout"@,
        EventKind::PointerOver => "onpointerover"@,
        EventKind::PointerUp => "onpointerup"@,
        EventKind::Scroll => "onscroll"@,
        EventKind::Blur => "onblur"@,
        EventKind::Focus => "onfocus"@,
        EventKind::Submit => "onsubmit"@,
        EventKind::Input => "oninput"@,
        EventKind::Change => "onchange"@,
        EventKind::DragStart => "ondragstart"@,
        EventKind::Drag => "ondrag"@,
        EventKind::DragEnd => "ondragend"@,
        EventKind::DragEnter => "ondragenter"@,
        EventKind::DragLeave => "ondragleave"@,
        EventKind::DragOver => "ondragover"@,
        EventKind::DragExit => "ondragexit"@,
        EventKind::Drop => "ondrop"@,
        EventKind::ContextMenu => "oncontextmenu"@,
    }
}

/// The name of the payload type that a handler of this kind takes.
pub open spec fn payload_of(kind: EventKind) -> Seq<char> {
    match kind {
        EventKind::Click => "ClickEvent"@,
        EventKind::DoubleClick => "DoubleClickEvent"@,
        EventKind::KeyPress => "KeyPressEvent"@,
        EventKind::KeyDown => "KeyDownEvent"@,
        EventKind::KeyUp => "KeyUpEvent"@,
        EventKind::MouseDown => "MouseDownEvent"@,
        EventKind::MouseMove => "MouseMoveEvent"@,
        EventKind::MouseOut => "MouseOutEvent"@,
        EventKind::MouseEnter => "MouseEnterEvent"@,
        EventKind::MouseLeave => "MouseLeaveEvent"@,
        EventKind::MouseWheel => "MouseWheelEvent"@,
        EventKind::MouseOver => "MouseOverEvent"@,
        EventKind::MouseUp => "MouseUpEvent"@,
        EventKind::GotPointerCapture => "GotPointerCaptureEvent"@,
        EventKind::LostPointerCapture => "LostPointerCaptureEvent"@,
        EventKind::PointerCancel => "PointerCancelEvent"@,
        EventKind::PointerDown => "PointerDownEvent"@,
        EventKind::PointerEnter => "PointerEnterEvent"@,
        EventKind::PointerLeave => "PointerLeaveEvent"@,
        EventKind::PointerMove => "PointerMoveEvent"@,
        EventKind::PointerOut => "PointerOutEvent"@,
        EventKind::PointerOver => "PointerOverEvent"@,
        EventKind::PointerUp => "PointerUpEvent"@,
        EventKind::Scroll => "ScrollEvent"@,
        EventKind::Blur => "BlurEvent"@,
        EventKind::Focus => "FocusEvent"@,
        EventKind::Submit => "SubmitEvent"@,
        EventKind::Input => "InputData"@,
        EventKind::Change => "ChangeData"@,
        EventKind::DragStart => "DragStartEvent"@,
        EventKind::Drag => "DragEvent"@,
        EventKind::DragEnd => "DragEndEvent"@,
        EventKind::DragEnter => "DragEnterEvent"@,
        EventKind::DragLeave => "DragLeaveEvent"@,
        EventKind::DragOver => "DragOverEvent"@,
        EventKind::DragExit => "DragExitEvent"@,
        EventKind::Drop => "DragDropEvent"@,
        EventKind::ContextMenu => "ContextMenuEvent"@,
    }
}

/// The event kind bound by `name`, if `name` is in the table.
pub open spec fn event_named(name: Seq<char>) -> Option<EventKind> {
    if name == "onclick"@ {
        Some(EventKind::Click)
    } else if name == "ondoubleclick"@ {
        Some(EventKind::DoubleClick)
    } else if name == "onkeypress"@ {
        Some(EventKind::KeyPress)
    } else if name == "onkeydown"@ {
        Some(EventKind::KeyDown)
    } else if name == "onkeyup"@ {
        Some(EventKind::KeyUp)
    } else if name == "onmousedown"@ {
        Some(EventKind::MouseDown)
    } else if name == "onmousemove"@ {
        Some(EventKind::MouseMove)
    } else if name == "onmouseout"@ {
        Some(EventKind::MouseOut)
    } else if name == "onmouseenter"@ {
        Some(EventKind::MouseEnter)
    } else if name == "onmouseleave"@ {
        Some(EventKind::MouseLeave)
    } else if name == "onmousewheel"@ {
        Some(EventKind::MouseWheel)
    } else if name == "onmouseover"@ {
        Some(EventKind::MouseOver)
    } else if name == "onmouseup"@ {
        Some(EventKind::MouseUp)
    } else if name == "ongotpointercapture"@ {
        Some(EventKind::GotPointerCapture)
    } else if name == "onlostpointercapture"@ {
        Some(EventKind::LostPointerCapture)
    } else if name == "onpointercancel"@ {
        Some(EventKind::PointerCancel)
    } else if name == "onpointerdown"@ {
        Some(EventKind::PointerDown)
    } else if name == "onpointerenter"@ {
        Some(EventKind::PointerEnter)
    } else if name == "onpointerleave"@ {
        Some(EventKind::PointerLeave)
    } else if name == "onpointermove"@ {
        Some(EventKind::PointerMove)
    } else if name == "onpointerout"@ {
        Some(EventKind::PointerOut)
    } else if name == "onpointerover"@ {
        Some(EventKind::PointerOver)
    } else if name == "onpointerup"@ {
        Some(EventKind::PointerUp)
    } else if name == "onscroll"@ {
        Some(EventKind::Scroll)
    } else if name == "onblur"@ {
        Some(EventKind::Blur)
    } else if name == "onfocus"@ {
        Some(EventKind::Focus)
    } else if name == "onsubmit"@ {
        Some(EventKind::Submit)
    } else if name == "oninput"@ {
        Some(EventKind::Input)
    } else if name == "onchange"@ {
        Some(EventKind::Change)
    } else if name == "ondragstart"@ {
        Some(EventKind::DragStart)
    } else if name == "ondrag"@ {
        Some(EventKind::Drag)
    } else if name == "ondragend"@ {
        Some(EventKind::DragEnd)
    } else if name == "ondragenter"@ {
        Some(EventKind::DragEnter)
    } else if name == "ondragleave"@ {
        Some(EventKind::DragLeave)
    } else if name == "ondragover"@ {
        Some(EventKind::DragOver)
    } else if name == "ondragexit"@ {
        Some(EventKind::DragExit)
    } else if name == "ondrop"@ {
        Some(EventKind::Drop)
    } else if name == "oncontextmenu"@ {
        Some(EventKind::ContextMenu)
    } else {
        None
    }
}

/// An opaque handle to the code that handles an event.
#[derive(Debug, Clone, Copy, PartialEq, Eq, Hash, Structural)]
pub struct Handler {
    pub id: u64,
}

/// A handler bound to the kind of event it handles.
#[derive(Debug, Clone, Copy, PartialEq, Eq, Hash, Structural)]
pub struct Listener {
    pub kind: EventKind,
    pub handler: Handler,
}

impl Listener {
    /// Binds `handler` to events of `kind`.
    pub fn new(kind: EventKind, handler: Handler) -> (r: Listener)
        ensures
            r == (Listener { kind, handler }),
    {
        Listener { kind, handler }
    }
}

impl EventKind {
    /// The name this kind is bound by in a template.
    pub fn name(self) -> (r: &'static str)
        ensures
            r@ == name_of(self),
    {
        match self {
            EventKind::Click => "onclick",
            EventKind::DoubleClick => "ondoubleclick",
            EventKind::KeyPress => "onkeypress",
            EventKind::KeyDown => "onkeydown",
            EventKind::KeyUp => "onkeyup",
            EventKind::MouseDown => "onmousedown",
            EventKind::MouseMove => "onmousemove",
            EventKind::MouseOut => "onmouseout",
            EventKind::MouseEnter => "onmouseenter",
            EventKind::MouseLeave => "onmouseleave",
            EventKind::MouseWheel => "onmousewheel",
            EventKind::MouseOver => "onmouseover",
            EventKind::MouseUp => "onmouseup",
            EventKind::GotPointerCapture => "ongotpointercapture",
            EventKind::LostPointerCapture => "onlostpointercapture",
            EventKind::PointerCancel => "onpointercancel",
            EventKind::PointerDown => "onpointerdown",
            EventKind::PointerEnter => "onpointerenter",
            EventKind::PointerLeave => "onpointerleave",
            EventKind::PointerMove => "onpointermove",
            EventKind::PointerOut => "onpointerout",
            EventKind::PointerOver => "onpointerover",
            EventKind::PointerUp => "onpointerup",
            EventKind::Scroll => "onscroll",
            EventKind::Blur => "onblur",
            EventKind::Focus => "onfocus",
            EventKind::Submit => "onsubmit",
            EventKind::Input => "oninput",
            EventKind::Change => "onchange",
            EventKind::DragStart => "ondragstart",
            EventKind::Drag => "ondrag",
            EventKind::DragEnd => "ondragend",
            EventKind::DragEnter => "ondragenter",
            EventKind::DragLeave => "ondragleave",
            EventKind::DragOver => "ondragover",
            EventKind::DragExit => "ondragexit",
            EventKind::Drop => "ondrop",
            EventKind::ContextMenu => "oncontextmenu",
        }
    }

    /// The name of the payload type that a handler of this kind takes.
    pub fn payload(self) -> (r: &'static str)
        ensures
            r@ == payload_of(self),
    {
        match self {
            EventKind::Click => "ClickEvent",
            EventKind::DoubleClick => "DoubleClickEvent",
            EventKind::KeyPress => "KeyPressEvent",
            EventKind::KeyDown => "KeyDownEvent",
            EventKind::KeyUp => "KeyUpEvent",
            EventKind::MouseDown => "MouseDownEvent",
            EventKind::MouseMove => "MouseMoveEvent",
            EventKind::MouseOut => "MouseOutEvent",
            EventKind::MouseEnter => "MouseEnterEvent",
            EventKind::MouseLeave => "MouseLeaveEvent",
            EventKind::MouseWheel => "MouseWheelEvent",
            EventKind::MouseOver => "MouseOverEvent",
            EventKind::MouseUp => "MouseUpEvent",
            EventKind::GotPointerCapture => "GotPointerCaptureEvent",
            EventKind::LostPointerCapture => "LostPointerCaptureEvent",
            EventKind::PointerCancel => "PointerCancelEvent",
            EventKind::PointerDown => "PointerDownEvent",
            EventKind::PointerEnter => "PointerEnterEvent",
            EventKind::PointerLeave => "PointerLeaveEvent",
            EventKind::PointerMove => "PointerMoveEvent",
            EventKind::PointerOut => "PointerOutEvent",
            EventKind::PointerOver => "PointerOverEvent",
            EventKind::PointerUp => "PointerUpEvent",
            EventKind::Scroll => "ScrollEvent",
            EventKind::Blur => "BlurEvent",
            EventKind::Focus => "FocusEvent",
            EventKind::Submit => "SubmitEvent",
            EventKind::Input => "InputData",
            EventKind::Change => "ChangeData",
            EventKind::DragStart => "DragStartEvent",
            EventKind::Drag => "DragEvent",
            EventKind::DragEnd => "DragEndEvent",
            EventKind::DragEnter => "DragEnterEvent",
            EventKind::DragLeave => "DragLeaveEvent",
            EventKind::DragOver => "DragOverEvent",
            EventKind::DragExit => "DragExitEvent",
            EventKind::Drop => "DragDropEvent",
            EventKind::ContextMenu => "ContextMenuEvent",
        }
    }

    /// Looks `name` up in the table.
    pub fn from_name(name: &str) -> (r: Option<EventKind>)
        ensures
            r == event_named(name@),
    {
        if same_text(name, "onclick") {
            Some(EventKind::Click)
        } else if same_text(name, "ondoubleclick") {
            Some(EventKind::DoubleClick)
        } else if same_text(name, "onkeypress") {
            Some(EventKind::KeyPress)
        } else if same_text(name, "onkeydown") {
            Some(EventKind::KeyDown)
        } else if same_text(name, "onkeyup") {
            Some(EventKind::KeyUp)
        } else if same_text(name, "onmousedown") {
            Some(EventKind::MouseDown)
        } else if same_text(name, "onmousemove") {
            Some(EventKind::MouseMove)
        } else if same_text(name, "onmouseout") {
            Some(EventKind::MouseOut)
        } else if same_text(name, "onmouseenter") {
            Some(EventKind::MouseEnter)
        } else if same_text(name, "onmouseleave") {
            Some(EventKind::MouseLeave)
        } else if same_text(name, "onmousewheel") {
            Some(EventKind::MouseWheel)
        } else if same_text(name, "onmouseover") {
            Some(EventKind::MouseOver)
        } else if same_text(name, "onmouseup") {
            Some(EventKind::MouseUp)
        } else if same_text(name, "ongotpointercapture") {
            Some(EventKind::GotPointerCapture)
        } else if same_text(name, "onlostpointercapture") {
            Some(EventKind::LostPointerCapture)
        } else if same_text(name, "onpointercancel") {
            Some(EventKind::PointerCancel)
        } else if same_text(name, "onpointerdown") {
            Some(EventKind::PointerDown)
        } else if same_text(name, "onpointerenter") {
            Some(EventKind::PointerEnter)
        } else if same_text(name, "onpointerleave") {
            Some(EventKind::PointerLeave)
        } else if same_text(name, "onpointermove") {
            Some(EventKind::PointerMove)
        } else if same_text(name, "onpointerout") {
            Some(EventKind::PointerOut)
        } else if same_text(name, "onpointerover") {
            Some(EventKind::PointerOver)
        } else if same_text(name, "onpointerup") {
            Some(EventKind::PointerUp)
        } else if same_text(name, "onscroll") {
            Some(EventKind::Scroll)
        } else if same_text(name, "onblur") {
            Some(EventKind::Blur)
        } else if same_text(name, "onfocus") {
            Some(EventKind::Focus)
        } else if same_text(name, "onsubmit") {
            Some(EventKind::Submit)
        } else if same_text(name, "oninput") {
            Some(EventKind::Input)
        } else if same_text(name, "onchange") {
            Some(EventKind::Change)
        } else if same_text(name, "ondragstart") {
            Some(EventKind::DragStart)
        } else if same_text(name, "ondrag") {
            Some(EventKind::Drag)
        } else if same_text(name, "ondragend") {
            Some(EventKind::DragEnd)
        } else if same_text(name, "ondragenter") {
            Some(EventKind::DragEnter)
        } else if same_text(name, "ondragleave") {
            Some(EventKind::DragLeave)
        } else if same_text(name, "ondragover") {
            Some(EventKind::DragOver)
        } else if same_text(name, "ondragexit") {
            Some(EventKind::DragExit)
        } else if same_text(name, "ondrop") {
            Some(EventKind::Drop)
        } else if same_text(name, "oncontextmenu") {
            Some(EventKind::ContextMenu)
        } else {
            None
        }
    }
}

/// No two names in the table are the same text.
proof fn lemma_event_names_differ()
    ensures
        forall|a: EventKind, b: EventKind| name_of(a) == name_of(b) ==> a == b,
{
    reveal_strlit("onclick");
    reveal_strlit("ondoubleclick");
    reveal_strlit("onkeypress");
    reveal_strlit("onkeydown");
    reveal_strlit("onkeyup");
    reveal_strlit("onmousedown");
    reveal_strlit("onmousemove");
    reveal_strlit("onmouseout");
    reveal_strlit("onmouseenter");
    reveal_strlit("onmouseleave");
    reveal_strlit("onmousewheel");
    reveal_strlit("onmouseover");
    reveal_strlit("onmouseup");
    reveal_strlit("ongotpointercapture");
    reveal_strlit("onlostpointercapture");
    reveal_strlit("onpointercancel");
    reveal_strlit("onpointerdown");
    reveal_strlit("onpointerenter");
    reveal_strlit("onpointerleave");
    reveal_strlit("onpointermove");
    reveal_strlit("onpointerout");
    reveal_strlit("onpointerover");
    reveal_strlit("onpointerup");
    reveal_strlit("onscroll");
    reveal_strlit("onblur");
    reveal_strlit("onfocus");
    reveal_strlit("onsubmit");
    reveal_strlit("oninput");
    reveal_strlit("onchange");
    reveal_strlit("ondragstart");
    reveal_strlit("ondrag");
    reveal_strlit("ondragend");
    reveal_strlit("ondragenter");
    reveal_strlit("ondragleave");
    reveal_strlit("ondragover");
    reveal_strlit("ondragexit");
    reveal_strlit("ondrop");
    reveal_strlit("oncontextmenu");
    assert("onclick"@.len() == 7);
    assert("ondoubleclick"@.len() == 13);
    assert("onkeypress"@.len() == 10);
    assert("onkeydown"@.len() == 9);
    assert("onkeyup"@.len() == 7);
    assert("onmousedown"@.len() == 11);
    assert("onmousemove"@.len() == 11);
    assert("onmouseout"@.len() == 10);
    assert("onmouseenter"@.len() == 12);
    assert("onmouseleave"@.len() == 12);
    assert("onmousewheel"@.len() == 12);
    assert("onmouseover"@.len() == 11);
    assert("onmouseup"@.len() == 9);
    assert("ongotpointercapture"@.len() == 19);
    assert("onlostpointercapture"@.len() == 20);
    assert("onpointercancel"@.len() == 15);
    assert("onpointerdown"@.len() == 13);
    assert("onpointerenter"@.len() == 14);
    assert("onpointerleave"@.len() == 14);
    assert("onpointermove"@.len() == 13);
    assert("onpointerout"@.len() == 12);
    assert("onpointerover"@.len() == 13);
    assert("onpointerup"@.len() == 11);
    assert("onscroll"@.len() == 8);
    assert("onblur"@.len() == 6);
    assert("onfocus"@.len() == 7);
    assert("onsubmit"@.len() == 8);
    assert("oninput"@.len() == 7);
    assert("onchange"@.len() == 8);
    assert("ondragstart"@.len() == 11);
    assert("ondrag"@.len() == 6);
    assert("ondragend"@.len() == 9);
    assert("ondragenter"@.len() == 11);
    assert("ondragleave"@.len() == 11);
    assert("ondragover"@.len() == 10);
    assert("ondragexit"@.len() == 10);
    assert("ondrop"@.len() == 6);
    assert("oncontextmenu"@.len() == 13);
    assert("onclick"@[2] != "onkeyup"@[2]);
    assert("onclick"@[2] != "onfocus"@[2]);
    assert("onclick"@[2] != "oninput"@[2]);
    assert("ondoubleclick"@[2] != "onpointerdown"@[2]);
    assert("ondoubleclick"@[2] != "onpointermove"@[2]);
    assert("ondoubleclick"@[2] != "onpointerover"@[2]);
    assert("ondoubleclick"@[2] != "oncontextmenu"@[2]);
    assert("onkeypress"@[2] != "onmouseout"@[2]);
    assert("onkeypress"@[2] != "ondragover"@[2]);
    assert("onkeypress"@[2] != "ondragexit"@[2]);
    assert("onkeydown"@[2] != "onmouseup"@[2]);
    assert("onkeydown"@[2] != "ondragend"@[2]);
    assert("onkeyup"@[2] != "onfocus"@[2]);
    assert("onkeyup"@[2] != "oninput"@[2]);
    assert("onmousedown"@[7] != "onmousemove"@[7]);
    assert("onmousedown"@[7] != "onmouseover"@[7]);
    assert("onmousedown"@[2] != "onpointerup"@[2]);
    assert("onmousedown"@[2] != "ondragstart"@[2]);
    assert("onmousedown"@[2] != "ondragenter"@[2]);
    assert("onmousedown"@[2] != "ondragleave"@[2]);
    assert("onmousemove"@[7] != "onmouseover"@[7]);
    assert("onmousemove"@[2] != "onpointerup"@[2]);
    assert("onmousemove"@[2] != "ondragstart"@[2]);
    assert("onmousemove"@[2] != "ondragenter"@[2]);
    assert("onmousemove"@[2] != "ondragleave"@[2]);
    assert("onmouseout"@[2] != "ondragover"@[2]);
    assert("onmouseout"@[2] != "ondragexit"@[2]);
    assert("onmouseenter"@[7] != "onmouseleave"@[7]);
    assert("onmouseenter"@[7] != "onmousewheel"@[7]);
    assert("onmouseenter"@[2] != "onpointerout"@[2]);
    assert("onmouseleave"@[7] != "onmousewheel"@[7]);
    assert("onmouseleave"@[2] != "onpointerout"@[2]);
    assert("onmousewheel"@[2] != "onpointerout"@[2]);
    assert("onmouseover"@[2] != "onpointerup"@[2]);
    assert("onmouseover"@[2] != "ondragstart"@[2]);
    assert("onmouseover"@[2] != "ondragenter"@[2]);
    assert("onmouseover"@[2] != "ondragleave"@[2]);
    assert("onmouseup"@[2] != "ondragend"@[2]);
    assert("onpointerdown"@[9] != "onpointermove"@[9]);
    assert("onpointerdown"@[9] != "onpointerover"@[9]);
    assert("onpointerdown"@[2] != "oncontextmenu"@[2]);
    assert("onpointerenter"@[9] != "onpointerleave"@[9]);
    assert("onpointermove"@[9] != "onpointerover"@[9]);
    assert("onpointermove"@[2] != "oncontextmenu"@[2]);
    assert("onpointerover"@[2] != "oncontextmenu"@[2]);
    assert("onpointerup"@[2] != "ondragstart"@[2]);
    assert("onpointerup"@[2] != "ondragenter"@[2]);
    assert("onpointerup"@[2] != "ondragleave"@[2]);
    assert("onscroll"@[3] != "onsubmit"@[3]);
    assert("onscroll"@[2] != "onchange"@[2]);
    assert("onblur"@[2] != "ondrag"@[2]);
    assert("onblur"@[2] != "ondrop"@[2]);
    assert("onfocus"@[2] != "oninput"@[2]);
    assert("onsubmit"@[2] != "onchange"@[2]);
    assert("ondragstart"@[6] != "ondragenter"@[6]);
    assert("ondragstart"@[6] != "ondragleave"@[6]);
    assert("ondrag"@[4] != "ondrop"@[4]);
    assert("ondragenter"@[6] != "ondragleave"@[6]);
    assert("ondragover"@[6] != "ondragexit"@[6]);
}

/// Every kind is found again under its own name: no two kinds share one.
pub proof fn law_event_name_round_trip(kind: EventKind)
    ensures
        event_named(name_of(kind)) == Some(kind),
{
    lemma_event_names_differ();
    let found = event_named(name_of(kind));
    assert(found is Some);
    assert(name_of(found->0) == name_of(kind));
}

/// A name that the table holds is the name of the kind found for it.
pub proof fn law_event_named_has_name(name: Seq<char>)
    ensures
        event_named(name) matches Some(kind) ==> name_of(kind) == name,
{
}

} // verus!
