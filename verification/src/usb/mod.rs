//! Removable storage: what the system tells about a device, and where the
//! device is mounted.

pub mod linux;
pub mod mountpoints;
pub mod usb_device_info;
pub mod windows;
