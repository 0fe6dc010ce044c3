//! The event protocol of the Anland display daemon.
//!
//! An input event is a type tag and sixteen bytes of payload, read as four
//! 32-bit words; which of the payload layouts is meant depends on the tag.
//! An output event carries one of the output payload layouts.
use vstd::prelude::*;

verus! {

/// Input event type: touch.
pub const INPUT_TYPE_TOUCH: u32 = 1;
/// Input event type: key.
pub const INPUT_TYPE_KEY: u32 = 2;
/// Input event type: pointer motion.
pub const INPUT_TYPE_POINTER_MOTION: u32 = 3;
/// Input event type: pointer button.
pub const INPUT_TYPE_POINTER_BUTTON: u32 = 4;
/// Input event type: pointer axis.
pub const INPUT_TYPE_POINTER_AXIS: u32 = 5;
/// Input event type: end of a touch frame.
pub const INPUT_TYPE_TOUCH_FRAME: u32 = 6;
/// Input event type: display refresh rate.
pub const INPUT_TYPE_DISPLAY_REFRESH: u32 = 7;
/// Input event type: clipboard contents follow.
pub const INPUT_TYPE_CLIPBOARD: u32 = 8;
/// Input event type: text input follows.
pub const INPUT_TYPE_TEXT_INPUT: u32 = 9;
/// Input event type: action.
pub const INPUT_TYPE_ACTION: u32 = 10;
/// Input event type: resource.
pub const INPUT_TYPE_RESOURCE: u32 = 11;
/// Input event type: invalid resource.
pub const INPUT_TYPE_RESOURCE_INVALID: u32 = 12;
/// Input event type: display rotation.
pub const INPUT_TYPE_DISPLAY_ROTATION: u32 = 13;

/// Input action: down.
pub const INPUT_ACTION_DOWN: i32 = 0;
/// Input action: up.
pub const INPUT_ACTION_UP: i32 = 1;
/// Input action: move.
pub const INPUT_ACTION_MOVE: i32 = 2;
/// Input action: cancel.
pub const INPUT_ACTION_CANCEL: i32 = 3;

/// Output event type: clipboard contents.
pub const OUTPUT_TYPE_CLIPBOARD: u32 = 1;
/// Output event type: resources request.
pub const OUTPUT_TYPE_RESOURCES_REQUEST: u32 = 2;
/// Output event type: set a consumer variable.
pub const OUTPUT_TYPE_SET_CONSUMER_VAR: u32 = 3;

/// Consumer variable: capture the mouse.
pub const CONSUMER_VAR_CAPTURE_MOUSE: u32 = 1;

/// The layout of one dmabuf of the daemon's buffer ring.
#[allow(non_camel_case_types)]
#[derive(Debug, Clone, Copy, PartialEq, Eq, Structural)]
pub struct buf_info {
    pub stride: u32,
    pub width: u32,
    pub height: u32,
    pub format: u32,
    pub modifier: u64,
    pub offset: u32,
}

/// The daemon's screen.
#[derive(Debug, Clone, Copy, PartialEq, Eq, Structural)]
pub struct ScreenInfo {
    pub width: u32,
    pub height: u32,
    pub format: u32,
    pub refresh: u32,
}

/// An event from the daemon: a type tag and the payload, as four words.
#[derive(Debug, Clone, Copy, PartialEq, Eq)]
pub struct InputEvent {
    pub type_: u32,
    pub data: [u32; 4],
}

/// Key payload.
#[derive(Debug, Clone, Copy, PartialEq, Eq, Structural)]
pub struct InputKey {
    pub action: i32,
    pub keycode: i32,
}

/// Pointer button payload.
#[derive(Debug, Clone, Copy, PartialEq, Eq, Structural)]
pub struct InputPointerButton {
    pub button: u32,
    pub pressed: i32,
}

/// Display refresh payload.
#[derive(Debug, Clone, Copy, PartialEq, Eq, Structural)]
pub struct InputDisplay {
    pub refresh_mhz: u32,
}

/// Display rotation payload.
#[derive(Debug, Clone, Copy, PartialEq, Eq, Structural)]
pub struct InputDisplayRotation {
    /// Current display rotation in degrees counter-clockwise (0/90/180/270).
    pub angle_deg: u32,
}

/// Clipboard payload: the size of the contents that follow.
#[derive(Debug, Clone, Copy, PartialEq, Eq, Structural)]
pub struct InputClipboard {
    pub size: u32,
}

/// Text input payload: the size of the text that follows.
#[derive(Debug, Clone, Copy, PartialEq, Eq, Structural)]
pub struct InputTextInput {
    pub size: u32,
}

/// Action payload.
#[derive(Debug, Clone, Copy, PartialEq, Eq, Structural)]
pub struct InputAction {
    pub action: u32,
    pub value: i32,
}

/// Resource payload.
#[derive(Debug, Clone, Copy, PartialEq, Eq, Structural)]
pub struct InputResource {
    pub type_: u32,
    pub fdnum: u32,
}

impl InputEvent {
    /// The payload read as a key event.
    pub fn key(&self) -> (k: InputKey)
        ensures
            k.action == self.data[0] as i32,
            k.keycode == self.data[1] as i32,
    {
        InputKey { action: self.data[0] as i32, keycode: self.data[1] as i32 }
    }

    /// The payload read as a pointer button event.
    pub fn pointer_button(&self) -> (b: InputPointerButton)
        ensures
            b.button == self.data[0],
            b.pressed == self.data[1] as i32,
    {
        InputPointerButton { button: self.data[0], pressed: self.data[1] as i32 }
    }

    /// The payload read as a display refresh event.
    pub fn display(&self) -> (d: InputDisplay)
        ensures
            d.refresh_mhz == self.data[0],
    {
        InputDisplay { refresh_mhz: self.data[0] }
    }

    /// The payload read as a display rotation event.
    pub fn display_rotation(&self) -> (d: InputDisplayRotation)
        ensures
            d.angle_deg == self.data[0],
    {
        InputDisplayRotation { angle_deg: self.data[0] }
    }

    /// The payload read as a clipboard event.
    pub fn clipboard(&self) -> (c: InputClipboard)
        ensures
            c.size == self.data[0],
    {
        InputClipboard { size: self.data[0] }
    }

    /// The payload read as a text input event.
    pub fn text_input(&self) -> (t: InputTextInput)
        ensures
            t.size == self.data[0],
    {
        InputTextInput { size: self.data[0] }
    }

    /// The payload read as an action event.
    pub fn input_action(&self) -> (a: InputAction)
        ensures
            a.action == self.data[0],
            a.value == self.data[1] as i32,
    {
        InputAction { action: self.data[0], value: self.data[1] as i32 }
    }

    /// The payload read as a resource event.
    pub fn resource(&self) -> (r: InputResource)
        ensures
            r.type_ == self.data[0],
            r.fdnum == self.data[1],
    {
        InputResource { type_: self.data[0], fdnum: self.data[1] }
    }
}

/// Clipboard payload of an output event.
#[derive(Debug, Clone, Copy, PartialEq, Eq, Structural)]
pub struct OutputClipboard {
    pub size: u32,
}

/// Resources request payload of an output event.
#[derive(Debug, Clone, Copy, PartialEq, Eq)]
pub struct OutputResourcesRequest {
    pub type_: u32,
    pub args: [u32; 3],
}

/// Consumer variable payload of an output event.
#[derive(Debug, Clone, Copy, PartialEq, Eq, Structural)]
pub struct OutputSetConsumerVar {
    pub var: u32,
    pub value: u32,
}

/// The payload of an output event, in one of its layouts.
#[derive(Debug, Clone, Copy, PartialEq, Eq)]
pub enum OutputEventUnion {
    Clipboard(OutputClipboard),
    ResourcesRequest(OutputResourcesRequest),
    SetConsumerVar(OutputSetConsumerVar),
    Padding([u32; 4]),
}

/// An event to the daemon: a type tag and its payload.
#[derive(Debug, Clone, Copy, PartialEq, Eq)]
pub struct OutputEvent {
    pub type_: u32,
    pub data: OutputEventUnion,
}

/// The event that sets consumer variable `var` to `value`.
pub open spec fn set_consumer_var_event(var: u32, value: u32) -> OutputEvent {
    OutputEvent {
        type_: OUTPUT_TYPE_SET_CONSUMER_VAR,
        data: OutputEventUnion::SetConsumerVar(OutputSetConsumerVar { var, value }),
    }
}

impl OutputEvent {
    /// The event that sets consumer variable `var` to `value`.
    pub fn set_consumer_var(var: u32, value: u32) -> (e: OutputEvent)
        ensures
            e == set_consumer_var_event(var, value),
            e.type_ == OUTPUT_TYPE_SET_CONSUMER_VAR,
            e.data matches OutputEventUnion::SetConsumerVar(p) && p.var == var && p.value == value,
    {
        OutputEvent {
            type_: OUTPUT_TYPE_SET_CONSUMER_VAR,
            data: OutputEventUnion::SetConsumerVar(OutputSetConsumerVar { var, value }),
        }
    }
}

/// The event that sets a consumer variable has type 3 and carries the
/// variable in its `var` field and the value in its `value` field.
pub proof fn law_set_consumer_var_event_carries_arguments(var: u32, value: u32)
    ensures
        set_consumer_var_event(var, value).type_ == 3,
        set_consumer_var_event(var, value).data matches OutputEventUnion::SetConsumerVar(p)
            && p.var == var && p.value == value,
{
}

} // verus!
