//! The mount table of the system, read from the lines of `/proc/mounts`.
//!
//! A line holds fields separated by single spaces: the device, the
//! directory it is mounted to, the type of the file system and the mount
//! options, followed by the dump and pass numbers ` 0 0`, which are dropped.

use vstd::prelude::*;
use vstd::string::*;
use crate::error::Error;
use crate::text::{chars_of, same_text};

verus! {

/// One mounted file system.
#[derive(Debug, Clone)]
pub struct Mount {
    /// The device name, such as `/dev/sdd1`.
    pub device: String,
    /// The directory that the device is mounted to.
    pub mountpoint: String,
    /// The type of the file system.
    pub fstype: String,
    /// The mount options.
    pub mountopts: String,
}

/// A mounted file system with its texts as sequences of characters.
pub struct MountView {
    pub device: Seq<char>,
    pub mountpoint: Seq<char>,
    pub fstype: Seq<char>,
    pub mountopts: Seq<char>,
}

impl View for Mount {
    type V = MountView;

    open spec fn view(&self) -> MountView {
        MountView {
            device: self.device@,
            mountpoint: self.mountpoint@,
            fstype: self.fstype@,
            mountopts: self.mountopts@,
        }
    }
}

impl Default for Mount {
    fn default() -> (mount: Mount)
        ensures
            mount@ == (MountView {
                device: Seq::empty(),
                mountpoint: Seq::empty(),
                fstype: Seq::empty(),
                mountopts: Seq::empty(),
            }),
    {
        Mount {
            device: String::new(),
            mountpoint: String::new(),
            fstype: String::new(),
            mountopts: String::new(),
        }
    }
}

/// The mounted file systems, in the order of the mount table.
pub struct MountPoints(Vec<Mount>);

/// Whether `s` ends with the dump and pass numbers ` 0 0`.
pub open spec fn ends_with_numbers(s: Seq<char>) -> bool {
    &&& s.len() >= 4
    &&& s[s.len() - 4] == ' '
    &&& s[s.len() - 3] == '0'
    &&& s[s.len() - 2] == ' '
    &&& s[s.len() - 1] == '0'
}

/// The length of `s` without every ` 0 0` at its end.
pub open spec fn trimmed_len(s: Seq<char>) -> int
    decreases s.len(),
{
    if ends_with_numbers(s) {
        trimmed_len(s.take(s.len() - 4))
    } else {
        s.len() as int
    }
}

/// The first place at or after `start` at which `s` holds a space; the
/// length of `s` if there is none.
pub open spec fn space_from(s: Seq<char>, start: int) -> int
    decreases s.len() - start,
{
    if start >= s.len() {
        s.len() as int
    } else if s[start] == ' ' {
        start
    } else {
        space_from(s, start + 1)
    }
}

/// Field number `k`, counted from 0, of the fields that single spaces
/// separate in `s` from `start` on; `None` if there are fewer fields.
pub open spec fn field_from(s: Seq<char>, start: int, k: nat) -> Option<Seq<char>>
    decreases k,
{
    let cut = space_from(s, start);
    if k == 0 {
        Some(s.subrange(start, cut))
    } else if cut >= s.len() {
        None
    } else {
        field_from(s, cut + 1, (k - 1) as nat)
    }
}

/// Field number `k` of a line of the mount table.
pub open spec fn field_of_line(line: Seq<char>, k: nat) -> Option<Seq<char>> {
    field_from(line.take(trimmed_len(line)), 0, k)
}

/// The mounted file system that a line of the mount table describes;
/// `None` for a line with fewer than four fields.
pub open spec fn mount_of_line(line: Seq<char>) -> Option<MountView> {
    match (
        field_of_line(line, 0),
        field_of_line(line, 1),
        field_of_line(line, 2),
        field_of_line(line, 3),
    ) {
        (Some(device), Some(mountpoint), Some(fstype), Some(mountopts)) => Some(
            MountView { device, mountpoint, fstype, mountopts },
        ),
        _ => None,
    }
}

/// The mounted file systems that the lines describe, in order, without the
/// lines that describe none.
pub open spec fn mounts_of_lines(lines: Seq<Seq<char>>) -> Seq<MountView>
    decreases lines.len(),
{
    if lines.len() == 0 {
        Seq::empty()
    } else {
        let before = mounts_of_lines(lines.drop_last());
        match mount_of_line(lines.last()) {
            Some(mount) => before.push(mount),
            None => before,
        }
    }
}

/// The mount directory that a line names for `device`: its second field,
/// if its first field is that device.
pub open spec fn mount_point_in_line(line: Seq<char>, device: Seq<char>) -> Option<Seq<char>> {
    match (field_of_line(line, 0), field_of_line(line, 1)) {
        (Some(name), Some(mountpoint)) => if name == device {
            Some(mountpoint)
        } else {
            None
        },
        _ => None,
    }
}

/// The mount directory that the first of the lines from `start` on names
/// for `device`.
pub open spec fn mount_point_in_lines(lines: Seq<Seq<char>>, device: Seq<char>, start: int)
    -> Option<Seq<char>>
    decreases lines.len() - start,
{
    if start >= lines.len() {
        None
    } else {
        match mount_point_in_line(lines[start], device) {
            Some(mountpoint) => Some(mountpoint),
            None => mount_point_in_lines(lines, device, start + 1),
        }
    }
}

/// The mount directory of the first of the mounts from `start` on whose
/// device is `device`.
pub open spec fn mount_point_in_mounts(mounts: Seq<MountView>, device: Seq<char>, start: int)
    -> Option<Seq<char>>
    decreases mounts.len() - start,
{
    if start >= mounts.len() {
        None
    } else if mounts[start].device == device {
        Some(mounts[start].mountpoint)
    } else {
        mount_point_in_mounts(mounts, device, start + 1)
    }
}

/// The length of the line without every ` 0 0` at its end.
fn trimmed_end(chars: &Vec<char>) -> (end: usize)
    ensures
        end == trimmed_len(chars@),
        end <= chars@.len(),
{
    let mut end: usize = chars.len();
    assert(chars@.take(chars@.len() as int) == chars@);
    while end >= 4 && chars[end - 4] == ' ' && chars[end - 3] == '0' && chars[end - 2] == ' '
        && chars[end - 1] == '0'
        invariant
            end <= chars@.len(),
            trimmed_len(chars@) == trimmed_len(chars@.take(end as int)),
        decreases end,
    {
        assert(ends_with_numbers(chars@.take(end as int)));
        assert(chars@.take(end as int).take(end - 4) == chars@.take(end - 4));
        end = end - 4;
    }
    assert(!ends_with_numbers(chars@.take(end as int)));
    end
}

/// The end of the field that begins at `start` in the first `end` characters.
fn field_end(chars: &Vec<char>, start: usize, end: usize) -> (cut: usize)
    requires
        start <= end <= chars@.len(),
    ensures
        start <= cut <= end,
        cut == space_from(chars@.take(end as int), start as int),
{
    let mut cut: usize = start;
    while cut < end && chars[cut] != ' '
        invariant
            start <= cut <= end <= chars@.len(),
            space_from(chars@.take(end as int), start as int) == space_from(
                chars@.take(end as int),
                cut as int,
            ),
        decreases end - cut,
    {
        cut = cut + 1;
    }
    cut
}

/// The characters of `line` from `from` up to `to`, as a text of their own.
fn text_between(line: &str, from: usize, to: usize) -> (text: String)
    requires
        from <= to <= line@.len(),
    ensures
        text@ == line@.subrange(from as int, to as int),
{
    String::from_str(line.substring_char(from, to))
}

impl Mount {
    /// Reads one line of the mount table; `None` for a line with fewer than
    /// four fields.
    pub fn parse_line(line: &str) -> (mount: Option<Mount>)
        ensures
            mount is Some <==> mount_of_line(line@) is Some,
            mount matches Some(m) ==> mount_of_line(line@) == Some(m@),
    {
        let chars: Vec<char> = chars_of(line);
        let end: usize = trimmed_end(&chars);
        let ghost s = line@.take(end as int);
        proof {
            reveal_with_fuel(field_from, 4);
        }
        let device_end: usize = field_end(&chars, 0, end);
        if device_end >= end {
            assert(field_from(s, 0, 1) is None);
            return None;
        }
        let mountpoint_end: usize = field_end(&chars, device_end + 1, end);
        if mountpoint_end >= end {
            assert(field_from(s, 0, 2) is None);
            return None;
        }
        let fstype_end: usize = field_end(&chars, mountpoint_end + 1, end);
        if fstype_end >= end {
            assert(field_from(s, 0, 3) is None);
            return None;
        }
        let mountopts_end: usize = field_end(&chars, fstype_end + 1, end);
        proof {
            assert(field_from(s, 0, 0) == Some(s.subrange(0, device_end as int)));
            assert(field_from(s, 0, 1) == Some(
                s.subrange(device_end + 1, mountpoint_end as int),
            ));
            assert(field_from(s, 0, 2) == Some(
                s.subrange(mountpoint_end + 1, fstype_end as int),
            ));
            assert(field_from(s, 0, 3) == Some(
                s.subrange(fstype_end + 1, mountopts_end as int),
            ));
            assert(s.subrange(0, device_end as int) == line@.subrange(0, device_end as int));
            assert(s.subrange(device_end + 1, mountpoint_end as int) == line@.subrange(
                device_end + 1,
                mountpoint_end as int,
            ));
            assert(s.subrange(mountpoint_end + 1, fstype_end as int) == line@.subrange(
                mountpoint_end + 1,
                fstype_end as int,
            ));
            assert(s.subrange(fstype_end + 1, mountopts_end as int) == line@.subrange(
                fstype_end + 1,
                mountopts_end as int,
            ));
        }
        Some(
            Mount {
                device: text_between(line, 0, device_end),
                mountpoint: text_between(line, device_end + 1, mountpoint_end),
                fstype: text_between(line, mountpoint_end + 1, fstype_end),
                mountopts: text_between(line, fstype_end + 1, mountopts_end),
            },
        )
    }
}

/// The mount directory that a line of the mount table names for `device`.
fn line_mount_point(line: &str, device: &str) -> (mountpoint: Option<String>)
    ensures
        mountpoint is Some <==> mount_point_in_line(line@, device@) is Some,
        mountpoint matches Some(m) ==> mount_point_in_line(line@, device@) == Some(m@),
{
    let chars: Vec<char> = chars_of(line);
    let end: usize = trimmed_end(&chars);
    let ghost s = line@.take(end as int);
    let device_end: usize = field_end(&chars, 0, end);
    if device_end >= end {
        proof {
            reveal_with_fuel(field_from, 2);
            assert(field_from(s, 0, 1) is None);
        }
        return None;
    }
    let mountpoint_end: usize = field_end(&chars, device_end + 1, end);
    proof {
        reveal_with_fuel(field_from, 2);
        assert(field_from(s, 0, 0) == Some(s.subrange(0, device_end as int)));
        assert(field_from(s, 0, 1) == Some(s.subrange(device_end + 1, mountpoint_end as int)));
        assert(s.subrange(0, device_end as int) == line@.subrange(0, device_end as int));
        assert(s.subrange(device_end + 1, mountpoint_end as int) == line@.subrange(
            device_end + 1,
            mountpoint_end as int,
        ));
    }
    let name: String = text_between(line, 0, device_end);
    if same_text(name.as_str(), device) {
        Some(text_between(line, device_end + 1, mountpoint_end))
    } else {
        None
    }
}

impl MountPoints {
    /// The mounted file systems, in the order of the mount table.
    pub closed spec fn mounts(&self) -> Seq<MountView> {
        Seq::new(self.0@.len(), |i: int| self.0@[i]@)
    }

    /// Reads the mount table from its lines, passing over the lines with
    /// fewer than four fields.
    pub fn load(lines: &Vec<String>) -> (table: MountPoints)
        ensures
            table.mounts() == mounts_of_lines(lines.deep_view()),
    {
        let mut mounts: Vec<Mount> = Vec::new();
        let count: usize = lines.len();
        let mut i: usize = 0;
        let ghost texts = lines.deep_view();
        while i < count
            invariant
                i <= count,
                count == lines@.len(),
                texts == lines.deep_view(),
                Seq::new(mounts@.len(), |k: int| mounts@[k]@) == mounts_of_lines(
                    texts.take(i as int),
                ),
            decreases count - i,
        {
            let ghost before = Seq::new(mounts@.len(), |k: int| mounts@[k]@);
            proof {
                assert(texts.take(i + 1).drop_last() == texts.take(i as int));
                assert(texts.take(i + 1).last() == lines@[i as int]@);
            }
            match Mount::parse_line(lines[i].as_str()) {
                Some(mount) => {
                    mounts.push(mount);
                    assert(Seq::new(mounts@.len(), |k: int| mounts@[k]@) =~= before.push(
                        mount@,
                    ));
                },
                None => {},
            }
            i = i + 1;
        }
        assert(texts.take(count as int) == texts);
        MountPoints(mounts)
    }

    /// The directory that `device_name` is mounted to according to the
    /// lines of a mount table: the second field of the first line whose
    /// first field is the device. Fails when no line names the device.
    pub fn get_mount_point_with_load(lines: &Vec<String>, device_name: &str) -> (mountpoint: Result<
        String,
        Error,
    >)
        ensures
            match mountpoint {
                Ok(m) => mount_point_in_lines(lines.deep_view(), device_name@, 0) == Some(m@),
                Err(e) => {
                    &&& mount_point_in_lines(lines.deep_view(), device_name@, 0) is None
                    &&& e matches Error::Generic(message)
                    &&& message@ == "mount point not found"@
                },
            },
    {
        let count: usize = lines.len();
        let mut i: usize = 0;
        let ghost texts = lines.deep_view();
        while i < count
            invariant
                i <= count,
                count == lines@.len(),
                texts == lines.deep_view(),
                mount_point_in_lines(texts, device_name@, 0) == mount_point_in_lines(
                    texts,
                    device_name@,
                    i as int,
                ),
            decreases count - i,
        {
            assert(texts[i as int] == lines@[i as int]@);
            match line_mount_point(lines[i].as_str(), device_name) {
                Some(found) => {
                    return Ok(found);
                },
                None => {},
            }
            i = i + 1;
        }
        Err(Error::Generic(String::from_str("mount point not found")))
    }

    /// The directory that `device_name` is mounted to: that of the first
    /// mount of the device in the table.
    pub fn get_mount_point(&self, device_name: &str) -> (mountpoint: Option<String>)
        ensures
            mountpoint is Some <==> mount_point_in_mounts(self.mounts(), device_name@, 0) is Some,
            mountpoint matches Some(m) ==> mount_point_in_mounts(self.mounts(), device_name@, 0)
                == Some(m@),
    {
        let count: usize = self.0.len();
        let mut i: usize = 0;
        while i < count
            invariant
                i <= count,
                count == self.0@.len(),
                mount_point_in_mounts(self.mounts(), device_name@, 0) == mount_point_in_mounts(
                    self.mounts(),
                    device_name@,
                    i as int,
                ),
            decreases count - i,
        {
            if same_text(self.0[i].device.as_str(), device_name) {
                return Some(self.0[i].mountpoint.clone());
            }
            i = i + 1;
        }
        None
    }
}

} // verus!
