//! The input devices that a terminal offers.
use vstd::prelude::*;

verus! {

/// The input backend of the terminal: one device that is keyboard and mouse.
#[derive(Debug)]
pub struct Backend;

/// Kinds of input that a device can produce.
#[derive(Clone, Copy, Debug, PartialEq, Eq, Structural)]
pub enum DeviceCapability {
    Keyboard,
    Pointer,
    Touch,
    TabletTool,
    TabletPad,
    Gesture,
    Switch,
}

/// The terminal's single input device.
#[derive(Clone, Copy, Debug, Hash, PartialEq, Eq, Structural)]
pub struct Device;

impl Device {
    /// A stable identifier of the device.
    pub fn id(&self) -> (r: String)
        ensures
            r@ == "ratatui-input-device-id"@,
    {
        "ratatui-input-device-id".to_owned()
    }

    /// A human-readable name of the device.
    pub fn name(&self) -> (r: String)
        ensures
            r@ == "ratatui-input-device"@,
    {
        "ratatui-input-device".to_owned()
    }

    /// Whether the device produces input of kind `capability`: the terminal
    /// reports keys and mouse events only.
    pub fn has_capability(&self, capability: DeviceCapability) -> (r: bool)
        ensures
            r == (capability == DeviceCapability::Keyboard || capability == DeviceCapability::Pointer),
    {
        match capability {
            DeviceCapability::Keyboard => true,
            DeviceCapability::Pointer => true,
            _ => false,
        }
    }

    /// The USB vendor and product of the device: a terminal has none.
    pub fn usb_id(&self) -> (r: Option<(u32, u32)>)
        ensures
            r is None,
    {
        None
    }
}

} // verus!
