use anland::input::{
    AnlandKeyboardEvent, AnlandPointerButtonEvent, AnlandTouchCancelEvent, AnlandTouchFrameEvent,
    AnlandTouchUpEvent, AnlandVirtualDevice, ButtonState, DeviceCapability, KeyState,
};

#[test]
fn virtual_device_identity() {
    let d = AnlandVirtualDevice;
    assert_eq!(d.id(), "anland");
    assert_eq!(d.name(), "anland virtual input");
    assert_eq!(d.usb_id(), None);
}

#[test]
fn virtual_device_capabilities() {
    let d = AnlandVirtualDevice;
    assert!(d.has_capability(DeviceCapability::Keyboard));
    assert!(d.has_capability(DeviceCapability::Pointer));
    assert!(d.has_capability(DeviceCapability::Touch));
    assert!(!d.has_capability(DeviceCapability::TabletTool));
    assert!(!d.has_capability(DeviceCapability::TabletPad));
    assert!(!d.has_capability(DeviceCapability::Gesture));
    assert!(!d.has_capability(DeviceCapability::Switch));
}

#[test]
fn keyboard_event_maps_evdev_to_xkb() {
    let e = AnlandKeyboardEvent { time: 123, key_code: 30, state: KeyState::Pressed };
    assert_eq!(e.key_code(), 38);
    assert_eq!(e.time(), 123);
    assert_eq!(e.state(), KeyState::Pressed);
    assert_eq!(e.count(), 1);
    assert_eq!(e.device(), AnlandVirtualDevice);
    let top = AnlandKeyboardEvent { time: 0, key_code: u32::MAX - 8, state: KeyState::Released };
    assert_eq!(top.key_code(), u32::MAX);
}

#[test]
fn touch_events_carry_their_slot() {
    let up = AnlandTouchUpEvent { time: 5, slot: 2 };
    assert_eq!(up.slot(), Some(2));
    assert_eq!(up.time(), 5);
    assert_eq!(up.device(), AnlandVirtualDevice);
    let cancel = AnlandTouchCancelEvent { time: 6, slot: 0 };
    assert_eq!(cancel.slot(), Some(0));
    assert_eq!(cancel.time(), 6);
    assert_eq!(cancel.device(), AnlandVirtualDevice);
    let frame = AnlandTouchFrameEvent { time: 7 };
    assert_eq!(frame.time(), 7);
    assert_eq!(frame.device(), AnlandVirtualDevice);
}

#[test]
fn pointer_button_event_fields() {
    let e = AnlandPointerButtonEvent { time: 9, button_code: 0x110, state: ButtonState::Released };
    assert_eq!(e.button_code(), 0x110);
    assert_eq!(e.state(), ButtonState::Released);
    assert_eq!(e.time(), 9);
    assert_eq!(e.device(), AnlandVirtualDevice);
}
