//! The input stream of the Anland daemon as events of one virtual device.
//!
//! Every event comes from the single [`AnlandVirtualDevice`]. The device
//! offers keyboard, pointer and touch input; key codes arrive as Linux
//! evdev codes and are handed on as xkb key codes.
use vstd::prelude::*;

verus! {

/// The offset of xkb key codes over Linux evdev key codes.
pub const EVDEV_TO_XKB_OFFSET: u32 = 8;

/// Marker type identifying the Anland input backend.
#[derive(Debug, Clone, Copy, PartialEq, Eq, Structural)]
pub struct AnlandInput;

/// Single virtual device backing all Anland input events.
#[derive(Debug, Clone, Copy, PartialEq, Eq, Hash, Structural)]
pub struct AnlandVirtualDevice;

/// A kind of input that a device can offer.
#[derive(Debug, Clone, Copy, PartialEq, Eq, Structural)]
pub enum DeviceCapability {
    Keyboard,
    Pointer,
    Touch,
    TabletTool,
    TabletPad,
    Gesture,
    Switch,
}

/// Whether a key went down or up.
#[derive(Debug, Clone, Copy, PartialEq, Eq, Structural)]
pub enum KeyState {
    Released,
    Pressed,
}

/// Whether a pointer button went down or up.
#[derive(Debug, Clone, Copy, PartialEq, Eq, Structural)]
pub enum ButtonState {
    Released,
    Pressed,
}

/// The capabilities of the virtual device: keyboard, pointer and touch.
pub open spec fn offers(capability: DeviceCapability) -> bool {
    capability is Keyboard || capability is Pointer || capability is Touch
}

impl AnlandVirtualDevice {
    /// The device's identifier, `"anland"`.
    pub fn id(&self) -> (s: String)
        ensures
            s@ == "anland"@,
    {
        "anland".to_owned()
    }

    /// The device's name, `"anland virtual input"`.
    pub fn name(&self) -> (s: String)
        ensures
            s@ == "anland virtual input"@,
    {
        "anland virtual input".to_owned()
    }

    /// Whether the device offers `capability`.
    pub fn has_capability(&self, capability: DeviceCapability) -> (b: bool)
        ensures
            b == offers(capability),
    {
        match capability {
            DeviceCapability::Keyboard | DeviceCapability::Pointer | DeviceCapability::Touch => true,
            _ => false,
        }
    }

    /// The device has no USB vendor and product identifiers.
    pub fn usb_id(&self) -> (id: Option<(u32, u32)>)
        ensures
            id is None,
    {
        None
    }
}

/// A key went down or up.
#[derive(Debug, Clone, Copy, PartialEq, Eq, Structural)]
pub struct AnlandKeyboardEvent {
    pub time: u64,
    /// The Linux evdev code of the key.
    pub key_code: u32,
    pub state: KeyState,
}

impl AnlandKeyboardEvent {
    /// The time of the event, in microseconds.
    pub fn time(&self) -> (t: u64)
        ensures
            t == self.time,
    {
        self.time
    }

    /// The device the event comes from.
    pub fn device(&self) -> (d: AnlandVirtualDevice)
        ensures
            d == AnlandVirtualDevice,
    {
        AnlandVirtualDevice
    }

    /// The xkb key code of the key: its evdev code plus eight.
    pub fn key_code(&self) -> (k: u32)
        requires
            self.key_code + EVDEV_TO_XKB_OFFSET <= u32::MAX,
        ensures
            k == self.key_code + EVDEV_TO_XKB_OFFSET,
    {
        self.key_code + EVDEV_TO_XKB_OFFSET
    }

    /// Whether the key went down or up.
    pub fn state(&self) -> (s: KeyState)
        ensures
            s == self.state,
    {
        self.state
    }

    /// The number of keys pressed on all devices together: always one.
    pub fn count(&self) -> (n: u32)
        ensures
            n == 1,
    {
        1
    }
}

/// A touch point was lifted.
#[derive(Debug, Clone, Copy, PartialEq, Eq, Structural)]
pub struct AnlandTouchUpEvent {
    pub time: u64,
    pub slot: u32,
}

impl AnlandTouchUpEvent {
    /// The time of the event, in microseconds.
    pub fn time(&self) -> (t: u64)
        ensures
            t == self.time,
    {
        self.time
    }

    /// The device the event comes from.
    pub fn device(&self) -> (d: AnlandVirtualDevice)
        ensures
            d == AnlandVirtualDevice,
    {
        AnlandVirtualDevice
    }

    /// The touch slot, which is always known.
    pub fn slot(&self) -> (s: Option<u32>)
        ensures
            s == Some(self.slot),
    {
        Some(self.slot)
    }
}

/// A touch point was cancelled.
#[derive(Debug, Clone, Copy, PartialEq, Eq, Structural)]
pub struct AnlandTouchCancelEvent {
    pub time: u64,
    pub slot: u32,
}

impl AnlandTouchCancelEvent {
    /// The time of the event, in microseconds.
    pub fn time(&self) -> (t: u64)
        ensures
            t == self.time,
    {
        self.time
    }

    /// The device the event comes from.
    pub fn device(&self) -> (d: AnlandVirtualDevice)
        ensures
            d == AnlandVirtualDevice,
    {
        AnlandVirtualDevice
    }

    /// The touch slot, which is always known.
    pub fn slot(&self) -> (s: Option<u32>)
        ensures
            s == Some(self.slot),
    {
        Some(self.slot)
    }
}

/// A set of touch events ended.
#[derive(Debug, Clone, Copy, PartialEq, Eq, Structural)]
pub struct AnlandTouchFrameEvent {
    pub time: u64,
}

impl AnlandTouchFrameEvent {
    /// The time of the event, in microseconds.
    pub fn time(&self) -> (t: u64)
        ensures
            t == self.time,
    {
        self.time
    }

    /// The device the event comes from.
    pub fn device(&self) -> (d: AnlandVirtualDevice)
        ensures
            d == AnlandVirtualDevice,
    {
        AnlandVirtualDevice
    }
}

/// A pointer button went down or up.
#[derive(Debug, Clone, Copy, PartialEq, Eq, Structural)]
pub struct AnlandPointerButtonEvent {
    pub time: u64,
    pub button_code: u32,
    pub state: ButtonState,
}

impl AnlandPointerButtonEvent {
    /// The time of the event, in microseconds.
    pub fn time(&self) -> (t: u64)
        ensures
            t == self.time,
    {
        self.time
    }

    /// The device the event comes from.
    pub fn device(&self) -> (d: AnlandVirtualDevice)
        ensures
            d == AnlandVirtualDevice,
    {
        AnlandVirtualDevice
    }

    /// The button's code.
    pub fn button_code(&self) -> (c: u32)
        ensures
            c == self.button_code,
    {
        self.button_code
    }

    /// Whether the button went down or up.
    pub fn state(&self) -> (s: ButtonState)
        ensures
            s == self.state,
    {
        self.state
    }
}

} // verus!
