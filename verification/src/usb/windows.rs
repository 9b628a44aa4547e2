//! A logical disk as the management interface of Windows describes it.

use vstd::prelude::*;
use vstd::string::*;
use crate::usb::usb_device_info::{chars_of_option, UsbDeviceInfo, UsbDeviceInfoView};

verus! {

/// A logical disk.
#[derive(Clone, Debug)]
pub struct Disks {
    /// The kind of drive; 2 is a removable disk.
    pub drive_type: u32,
    /// The drive letter with its colon.
    pub caption: String,
    pub description: Option<String>,
    pub device_id: Option<String>,
    pub volume_name: Option<String>,
    pub volume_serial_number: String,
    pub file_system: Option<String>,
    /// The size of the disk in bytes.
    pub size: u64,
    /// The free space in bytes.
    pub free_space: u64,
}

/// The arrival of a logical disk.
#[derive(Clone, Debug)]
pub struct NewProcessEvent {
    /// The disk that arrived.
    pub target_instance: Disks,
}

/// The root directory of the drive with the given caption.
pub open spec fn drive_root_text(caption: Seq<char>) -> Seq<char> {
    caption + "\\"@
}

/// What is known about a logical disk.
pub open spec fn info_of_disk(disk: Disks) -> UsbDeviceInfoView {
    UsbDeviceInfoView {
        vendor: None,
        description: chars_of_option(disk.description),
        serial_number: None,
        volume_label: chars_of_option(disk.volume_name),
        filesystem: chars_of_option(disk.file_system),
        dev_name: chars_of_option(disk.device_id),
        fs_id_uuid: Some(disk.volume_serial_number@),
        mount_point: Some(drive_root_text(disk.caption@)),
    }
}

/// The root directory of the drive with the given caption.
pub fn drive_root(caption: &str) -> (root: String)
    ensures
        root@ == drive_root_text(caption@),
{
    let mut root: String = String::from_str(caption);
    root.append("\\");
    root
}

impl Disks {
    /// What is known about the disk.
    pub fn into_info(self) -> (info: UsbDeviceInfo)
        ensures
            info@ == info_of_disk(self),
    {
        let root: String = drive_root(self.caption.as_str());
        UsbDeviceInfo {
            vendor: None,
            description: self.description,
            serial_number: None,
            volume_label: self.volume_name,
            filesystem: self.file_system,
            dev_name: self.device_id,
            fs_id_uuid: Some(self.volume_serial_number),
            mount_point: Some(root),
        }
    }
}

impl NewProcessEvent {
    /// What is known about the disk that arrived.
    pub fn into_info(self) -> (info: UsbDeviceInfo)
        ensures
            info@ == info_of_disk(self.target_instance),
    {
        self.target_instance.into_info()
    }

    /// The root directory of the disk that arrived.
    pub fn mount_point(&self) -> (root: String)
        ensures
            root@ == drive_root_text(self.target_instance.caption@),
    {
        drive_root(self.target_instance.caption.as_str())
    }
}

} // verus!
