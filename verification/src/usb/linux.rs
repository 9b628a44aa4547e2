//! A device as the device manager of Linux describes it, and the decision
//! whether its arrival announces removable storage with jobs on it.

use vstd::prelude::*;
use vstd::string::*;
use crate::text::{
    contains, contains_text, eq_ignore_ascii_case, same_ignoring_ascii_case, same_text,
};
use crate::usb::mountpoints::{mount_point_in_mounts, MountPoints};
use crate::usb::usb_device_info::{DeviceInfo, UsbDeviceInfo, UsbDeviceInfoView};

verus! {

/// One property of a device.
#[derive(Clone, Debug)]
pub struct Property {
    /// The name of the property, such as `ID_FS_TYPE`.
    pub name: String,
    /// Its value.
    pub value: String,
}

/// What the device manager tells about a device.
#[derive(Clone, Debug)]
pub struct Device {
    /// The path of the device in the device tree.
    pub devpath: String,
    /// The subsystem that the device belongs to.
    pub subsystem: Option<String>,
    /// The properties of the device, in the order of the device manager.
    pub properties: Vec<Property>,
}

/// What happened to a device.
#[derive(Clone, Copy, PartialEq, Eq, Structural, Debug)]
pub enum EventType {
    /// The device arrived.
    Add,
    /// Anything else.
    Other,
}

/// The value of the first of the properties from `start` on that has the
/// given name.
pub open spec fn property_from(properties: Seq<Property>, name: Seq<char>, start: int) -> Option<
    Seq<char>,
>
    decreases properties.len() - start,
{
    if start >= properties.len() {
        None
    } else if properties[start].name@ == name {
        Some(properties[start].value@)
    } else {
        property_from(properties, name, start + 1)
    }
}

/// The value of the property of `device` with the given name.
pub open spec fn property_of(device: Device, name: Seq<char>) -> Option<Seq<char>> {
    property_from(device.properties@, name, 0)
}

/// The first of two optional values that is there.
pub open spec fn first_of(a: Option<Seq<char>>, b: Option<Seq<char>>) -> Option<Seq<char>> {
    if a is Some {
        a
    } else {
        b
    }
}

/// Whether a device is removable storage: a block device below a USB
/// controller with a file system and a device node.
pub open spec fn is_usb_storage(device: Device) -> bool {
    &&& same_ignoring_ascii_case(
        match device.subsystem {
            Some(subsystem) => subsystem@,
            None => Seq::empty(),
        },
        "block"@,
    )
    &&& contains_text(device.devpath@, "/usb"@)
    &&& property_of(device, "ID_FS_TYPE"@) is Some
    &&& property_of(device, "DEVNAME"@) is Some
}

/// The directory that the device is mounted to: that of its device node in
/// the mount table.
pub open spec fn mount_point_of(device: Device, mounts: MountPoints) -> Option<Seq<char>> {
    match property_of(device, "DEVNAME"@) {
        Some(name) => mount_point_in_mounts(mounts.mounts(), name, 0),
        None => None,
    }
}

/// What is known about a device, gathered from its properties and the
/// mount table.
pub open spec fn info_of(device: Device, mounts: MountPoints) -> UsbDeviceInfoView {
    UsbDeviceInfoView {
        vendor: property_of(device, "ID_VENDOR"@),
        description: first_of(
            property_of(device, "ID_MODEL_FROM_DATABASE"@),
            property_of(device, "ID_MODEL"@),
        ),
        serial_number: first_of(
            property_of(device, "ID_SERIAL_SHORT"@),
            property_of(device, "ID_SERIAL"@),
        ),
        volume_label: property_of(device, "ID_FS_LABEL"@),
        filesystem: property_of(device, "ID_FS_TYPE"@),
        dev_name: property_of(device, "DEVNAME"@),
        fs_id_uuid: property_of(device, "ID_FS_UUID"@),
        mount_point: mount_point_of(device, mounts),
    }
}

/// The characters of an optional text, if there is one.
pub open spec fn str_chars(text: Option<&str>) -> Option<Seq<char>> {
    match text {
        Some(t) => Some(t@),
        None => None,
    }
}

impl Device {
    /// The value of the first property with the given name.
    pub fn property_value<'a>(&'a self, name: &str) -> (value: Option<&'a str>)
        ensures
            str_chars(value) == property_of(*self, name@),
    {
        let count: usize = self.properties.len();
        let mut i: usize = 0;
        while i < count
            invariant
                i <= count,
                count == self.properties@.len(),
                property_of(*self, name@) == property_from(self.properties@, name@, i as int),
            decreases count - i,
        {
            if same_text(self.properties[i].name.as_str(), name) {
                return Some(self.properties[i].value.as_str());
            }
            i = i + 1;
        }
        None
    }

    /// Whether the device is removable storage: a block device below a USB
    /// controller with a file system and a device node.
    pub fn valid_usb_device(&self) -> (valid: bool)
        ensures
            valid == is_usb_storage(*self),
    {
        let block: bool = match &self.subsystem {
            Some(subsystem) => eq_ignore_ascii_case(subsystem.as_str(), "block"),
            None => eq_ignore_ascii_case("", "block"),
        };
        proof {
            reveal_strlit("");
        }
        block && contains(self.devpath.as_str(), "/usb") && self.property_value(
            "ID_FS_TYPE",
        ).is_some() && self.property_value("DEVNAME").is_some()
    }
}

/// A device seen together with the mount table of the moment.
pub struct DeviceInfoHandler<'a> {
    device: &'a Device,
    mounts: &'a MountPoints,
}

fn owned(text: Option<&str>) -> (copy: Option<String>)
    ensures
        crate::usb::usb_device_info::chars_of_option(copy) == str_chars(text),
{
    match text {
        Some(t) => Some(String::from_str(t)),
        None => None,
    }
}

impl<'a> DeviceInfoHandler<'a> {
    /// The device.
    pub closed spec fn device(&self) -> Device {
        *self.device
    }

    /// The mount table.
    pub closed spec fn mounts(&self) -> MountPoints {
        *self.mounts
    }

    /// A device seen together with a mount table.
    pub fn new(device: &'a Device, mounts: &'a MountPoints) -> (handler: DeviceInfoHandler<'a>)
        ensures
            handler.device() == *device,
            handler.mounts() == *mounts,
    {
        DeviceInfoHandler { device, mounts }
    }

    /// What is known about the device.
    pub fn into_info(self) -> (info: UsbDeviceInfo)
        ensures
            info@ == info_of(self.device(), self.mounts()),
    {
        UsbDeviceInfo {
            vendor: owned(self.vendor()),
            description: owned(self.description()),
            serial_number: owned(self.serial_number()),
            volume_label: owned(self.volume_label()),
            filesystem: owned(self.filesystem()),
            dev_name: owned(self.dev_name()),
            fs_id_uuid: owned(self.fs_id_uuid()),
            mount_point: self.mount_point(),
        }
    }
}

impl<'a> DeviceInfo<'a> for DeviceInfoHandler<'a> {
    fn valid_usb_device(&self) -> (valid: bool)
        ensures
            valid == is_usb_storage(self.device()),
    {
        self.device.valid_usb_device()
    }

    fn vendor(&self) -> (value: Option<&'a str>)
        ensures
            str_chars(value) == property_of(self.device(), "ID_VENDOR"@),
    {
        self.device.property_value("ID_VENDOR")
    }

    fn description(&self) -> (value: Option<&'a str>)
        ensures
            str_chars(value) == first_of(
                property_of(self.device(), "ID_MODEL_FROM_DATABASE"@),
                property_of(self.device(), "ID_MODEL"@),
            ),
    {
        match self.device.property_value("ID_MODEL_FROM_DATABASE") {
            Some(model) => Some(model),
            None => self.device.property_value("ID_MODEL"),
        }
    }

    fn serial_number(&self) -> (value: Option<&'a str>)
        ensures
            str_chars(value) == first_of(
                property_of(self.device(), "ID_SERIAL_SHORT"@),
                property_of(self.device(), "ID_SERIAL"@),
            ),
    {
        match self.device.property_value("ID_SERIAL_SHORT") {
            Some(serial) => Some(serial),
            None => self.device.property_value("ID_SERIAL"),
        }
    }

    fn volume_label(&self) -> (value: Option<&'a str>)
        ensures
            str_chars(value) == property_of(self.device(), "ID_FS_LABEL"@),
    {
        self.device.property_value("ID_FS_LABEL")
    }

    fn filesystem(&self) -> (value: Option<&'a str>)
        ensures
            str_chars(value) == property_of(self.device(), "ID_FS_TYPE"@),
    {
        self.device.property_value("ID_FS_TYPE")
    }

    fn dev_name(&self) -> (value: Option<&'a str>)
        ensures
            str_chars(value) == property_of(self.device(), "DEVNAME"@),
    {
        self.device.property_value("DEVNAME")
    }

    fn fs_id_uuid(&self) -> (value: Option<&'a str>)
        ensures
            str_chars(value) == property_of(self.device(), "ID_FS_UUID"@),
    {
        self.device.property_value("ID_FS_UUID")
    }

    fn mount_point(&self) -> (value: Option<String>)
        ensures
            crate::usb::usb_device_info::chars_of_option(value) == mount_point_of(
                self.device(),
                self.mounts(),
            ),
    {
        match self.dev_name() {
            Some(name) => self.mounts.get_mount_point(name),
            None => None,
        }
    }
}

/// Whether an event of the device manager tells of removable storage that
/// has arrived.
pub fn storage_arrived(event: EventType, device: &Device) -> (arrived: bool)
    ensures
        arrived == (event == EventType::Add && is_usb_storage(*device)),
{
    match event {
        EventType::Add => device.valid_usb_device(),
        EventType::Other => false,
    }
}

/// How long to wait, in milliseconds, after the given attempt to find the
/// mount directory of a device has failed: mounting follows the arrival
/// with a little latency. The mount table is read up to ten times; the
/// waits grow from one second to two. `None` after the last attempt.
pub open spec fn wait_after(attempt: int) -> Option<int> {
    if 0 <= attempt < 9 {
        Some(1000 + 125 * attempt)
    } else {
        None
    }
}

/// Says how long to wait after attempt number `attempt`, counted from 0, to
/// find the mount directory of a device has failed, or to give up.
pub fn retry_wait(attempt: u32) -> (millis: Option<u64>)
    ensures
        match millis {
            Some(wait) => wait_after(attempt as int) == Some(wait as int),
            None => wait_after(attempt as int) is None,
        },
{
    if attempt < 9 {
        Some(1000 + 125 * (attempt as u64))
    } else {
        None
    }
}

/// The mount directory to announce for an event of the device manager:
/// that of a device that arrived, is removable storage and is mounted.
pub open spec fn announced(event: EventType, device: Device, mounts: MountPoints) -> Option<
    Seq<char>,
> {
    if event == EventType::Add && is_usb_storage(device) {
        mount_point_of(device, mounts)
    } else {
        None
    }
}

/// Decides whether an event of the device manager announces removable
/// storage, and where it is mounted according to the mount table.
pub fn usb_event(event: EventType, device: &Device, mounts: &MountPoints) -> (mountpoint: Option<
    String,
>)
    ensures
        crate::usb::usb_device_info::chars_of_option(mountpoint) == announced(
            event,
            *device,
            *mounts,
        ),
{
    match event {
        EventType::Add => {
            let handler = DeviceInfoHandler::new(device, mounts);
            if handler.valid_usb_device() {
                handler.mount_point()
            } else {
                None
            }
        },
        EventType::Other => None,
    }
}

} // verus!
