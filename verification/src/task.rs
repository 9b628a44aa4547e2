//! A deletion job as the configuration describes it.

use vstd::prelude::*;
use vstd::string::*;
use vstd::utf8::encode_utf8;
use vstd::std_specs::cmp::PartialEqSpecImpl;
use crate::date::Date;
use crate::date_text::parse_civil;
use crate::strategy::RepeatingStrategy;
use crate::text::enclose;

verus! {

/// What every deletion job can tell about itself.
pub trait DeleteTaskTrait {
    /// The path to delete.
    fn get_path(&self) -> &str;

    /// The moment at which to delete, for a job bound to a date.
    fn get_date(&self) -> &Option<Date>;

    /// The number of minutes after which to delete, for a job bound to an interval.
    fn get_interval(&self) -> Option<u32>;
}

/// A deletion job: a file or directory, and when to remove it.
#[derive(Clone, Debug, Eq)]
pub struct Task {
    /// The file or directory to remove.
    pub path: String,
    /// In a directory, remove only the files that match this pattern.
    pub mask: Option<String>,
    /// Remove after this many minutes.
    pub interval: Option<u32>,
    /// Remove at this moment.
    pub date: Option<Date>,
    /// Whether and how the job repeats.
    pub repeat: RepeatingStrategy,
    /// Whether the path is shown beside the progress of the job.
    pub visible: bool,
}

/// A job with its texts as sequences of characters.
pub struct TaskView {
    pub path: Seq<char>,
    pub mask: Option<Seq<char>>,
    pub interval: Option<u32>,
    pub date: Option<Date>,
    pub repeat: RepeatingStrategy,
    pub visible: bool,
}

impl View for Task {
    type V = TaskView;

    open spec fn view(&self) -> TaskView {
        TaskView {
            path: self.path@,
            mask: text_of(self.mask),
            interval: self.interval,
            date: self.date,
            repeat: self.repeat,
            visible: self.visible,
        }
    }
}

/// Two jobs are the same job when they name the same path and pattern.
pub open spec fn same_job(a: TaskView, b: TaskView) -> bool {
    a.path == b.path && a.mask == b.mask
}

/// The characters of an optional text, if there is one.
pub open spec fn text_of(text: Option<String>) -> Option<Seq<char>> {
    match text {
        Some(t) => Some(t@),
        None => None,
    }
}

impl PartialEq for Task {
    /// Two jobs are the same job when they name the same path and pattern.
    fn eq(&self, other: &Self) -> (same: bool) {
        let same_mask: bool = match (&self.mask, &other.mask) {
            (Some(a), Some(b)) => *a == *b,
            (None, None) => true,
            _ => false,
        };
        self.path == other.path && same_mask
    }
}

impl PartialEqSpecImpl for Task {
    open spec fn obeys_eq_spec() -> bool {
        true
    }

    open spec fn eq_spec(&self, other: &Self) -> bool {
        same_job(self@, other@)
    }
}

/// Jobs that are the same job have the same identifier.
pub proof fn law_same_job_same_identifier(a: Task, b: Task)
    requires
        same_job(a@, b@),
    ensures
        blake3_hex(identity_bytes(a@.path, a@.mask)) == blake3_hex(
            identity_bytes(b@.path, b@.mask),
        ),
{
}

/// The lowercase hexadecimal BLAKE3 digest of a byte string.
pub uninterp spec fn blake3_hex(data: Seq<u8>) -> Seq<char>;

/// `blake3::hash` followed by `Hash::to_hex`: the digest of `data` in
/// lowercase hexadecimal, a function of the bytes alone.
#[verifier::external_body]
fn hash_hex(data: &Vec<u8>) -> (hex: String)
    ensures
        hex@ == blake3_hex(data@),
{
    blake3::hash(data.as_slice()).to_hex().to_string()
}

/// The bytes that identify a job: its path, then its pattern if it has one,
/// both in UTF-8.
pub open spec fn identity_bytes(path: Seq<char>, mask: Option<Seq<char>>) -> Seq<u8> {
    match mask {
        Some(m) => encode_utf8(path) + encode_utf8(m),
        None => encode_utf8(path),
    }
}

/// What reading a date field gives: the date that the text names, or the
/// complaint that the text is no date.
pub open spec fn date_field_meaning(text: Seq<char>) -> Result<Date, Seq<char>> {
    match parse_civil(text) {
        Some(c) => Ok(Date::of(c)),
        None => Err("Ошибка формата даты "@ + text),
    }
}

/// Reads the date field of a job, written as `YYYY-MM-DDTHH:MM:SS`.
pub fn deserialize_data(text: &str) -> (date: Result<Date, String>)
    ensures
        match date {
            Ok(d) => date_field_meaning(text@) == Ok::<Date, Seq<char>>(d),
            Err(complaint) => date_field_meaning(text@) == Err::<Date, Seq<char>>(complaint@),
        },
{
    match Date::parse(text) {
        Some(d) => {
            proof {
                d.lemma_of_view();
            }
            Ok(d)
        },
        None => {
            let complaint: String = enclose("Ошибка формата даты ", text, "");
            proof {
                reveal_strlit("");
                assert(complaint@ =~= "Ошибка формата даты "@ + text@);
            }
            Err(complaint)
        },
    }
}

impl Task {
    /// The path to delete.
    pub fn get_path(&self) -> (path: &str)
        ensures
            path@ == self.path@,
    {
        self.path.as_str()
    }

    /// The path to delete, as text.
    pub fn get_str_path(&self) -> (path: &str)
        ensures
            path@ == self.path@,
    {
        self.path.as_str()
    }

    /// The identifier of the job: the BLAKE3 digest of its path and pattern,
    /// in lowercase hexadecimal. Jobs that are equal have the same identifier.
    pub fn get_hash(&self) -> (hash: String)
        ensures
            hash@ == blake3_hex(identity_bytes(self@.path, self@.mask)),
    {
        let mut data: Vec<u8> = self.path.as_str().as_bytes_vec();
        match &self.mask {
            Some(mask) => {
                let mut tail: Vec<u8> = mask.as_str().as_bytes_vec();
                data.append(&mut tail);
            },
            None => {},
        }
        hash_hex(&data)
    }
}

impl DeleteTaskTrait for Task {
    fn get_path(&self) -> (path: &str)
        ensures
            path@ == self.path@,
    {
        self.path.as_str()
    }

    fn get_date(&self) -> (date: &Option<Date>)
        ensures
            *date == self.date,
    {
        &self.date
    }

    fn get_interval(&self) -> (interval: Option<u32>)
        ensures
            interval == self.interval,
    {
        self.interval
    }
}

} // verus!
