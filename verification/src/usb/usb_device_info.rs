//! What is known about a removable storage device.

use vstd::prelude::*;

verus! {

/// What a device can tell about itself.
pub trait DeviceInfo<'a> {
    /// Whether the device is a block device on USB with a file system.
    fn valid_usb_device(&self) -> bool;

    /// The vendor of the device.
    fn vendor(&self) -> Option<&'a str>;

    /// The model of the device.
    fn description(&self) -> Option<&'a str>;

    /// The serial number of the device.
    fn serial_number(&self) -> Option<&'a str>;

    /// The label of the volume.
    fn volume_label(&self) -> Option<&'a str>;

    /// The type of the file system.
    fn filesystem(&self) -> Option<&'a str>;

    /// The name of the device node.
    fn dev_name(&self) -> Option<&'a str>;

    /// The identifier of the file system.
    fn fs_id_uuid(&self) -> Option<&'a str>;

    /// The directory that the device is mounted to.
    fn mount_point(&self) -> Option<String>;
}

/// What is known about a removable storage device.
#[derive(PartialEq, Hash, Clone, Debug)]
pub struct UsbDeviceInfo {
    pub vendor: Option<String>,
    pub description: Option<String>,
    pub serial_number: Option<String>,
    pub volume_label: Option<String>,
    pub filesystem: Option<String>,
    pub dev_name: Option<String>,
    pub fs_id_uuid: Option<String>,
    pub mount_point: Option<String>,
}

/// A device with its texts as sequences of characters.
pub struct UsbDeviceInfoView {
    pub vendor: Option<Seq<char>>,
    pub description: Option<Seq<char>>,
    pub serial_number: Option<Seq<char>>,
    pub volume_label: Option<Seq<char>>,
    pub filesystem: Option<Seq<char>>,
    pub dev_name: Option<Seq<char>>,
    pub fs_id_uuid: Option<Seq<char>>,
    pub mount_point: Option<Seq<char>>,
}

/// The characters of an optional text, if there is one.
pub open spec fn chars_of_option(text: Option<String>) -> Option<Seq<char>> {
    match text {
        Some(t) => Some(t@),
        None => None,
    }
}

impl View for UsbDeviceInfo {
    type V = UsbDeviceInfoView;

    open spec fn view(&self) -> UsbDeviceInfoView {
        UsbDeviceInfoView {
            vendor: chars_of_option(self.vendor),
            description: chars_of_option(self.description),
            serial_number: chars_of_option(self.serial_number),
            volume_label: chars_of_option(self.volume_label),
            filesystem: chars_of_option(self.filesystem),
            dev_name: chars_of_option(self.dev_name),
            fs_id_uuid: chars_of_option(self.fs_id_uuid),
            mount_point: chars_of_option(self.mount_point),
        }
    }
}

impl Default for UsbDeviceInfo {
    fn default() -> (info: UsbDeviceInfo)
        ensures
            info@ == (UsbDeviceInfoView {
                vendor: None,
                description: None,
                serial_number: None,
                volume_label: None,
                filesystem: None,
                dev_name: None,
                fs_id_uuid: None,
                mount_point: None,
            }),
    {
        UsbDeviceInfo {
            vendor: None,
            description: None,
            serial_number: None,
            volume_label: None,
            filesystem: None,
            dev_name: None,
            fs_id_uuid: None,
            mount_point: None,
        }
    }
}

} // verus!
