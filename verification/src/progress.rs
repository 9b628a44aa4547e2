//! The progress display of a job, as plain state that the host draws.

use vstd::prelude::*;
use vstd::string::*;
use vstd::std_specs::cmp::PartialEqSpecImpl;
use crate::date::{time_diff, timestamp_of, Civil, Date, MAX_TIMESTAMP};
use crate::date_text::{dot_date_text, time_text, DateFormat};
use crate::deletion::{next_step, step_after, DeleteProgress, DeleteStep};
use crate::strategy::RepeatingStrategy;
use crate::task::{same_job, Task, TaskView};
use crate::text::enclose;

verus! {

/// The look of a progress bar.
#[derive(Clone, Copy, PartialEq, Eq, Structural, Debug)]
pub enum BarStyle {
    /// Counts the minutes of a job that runs once.
    Single,
    /// Counts the minutes of a job that repeats.
    Cycle,
    /// Counts the seconds to a date.
    Clock,
    /// Draws nothing.
    Hidden,
}

/// A progress bar: what the host shows for one job.
#[derive(Clone, Debug)]
pub struct BarState {
    /// The look of the bar.
    pub style: BarStyle,
    /// The position at which the bar is full.
    pub length: u64,
    /// The current position.
    pub position: u64,
    /// The mark in front of the bar.
    pub prefix: String,
    /// The text behind the bar.
    pub message: String,
    /// Whether the bar has stopped.
    pub finished: bool,
    /// The lines printed above the bar, oldest first.
    pub lines: Vec<String>,
}

/// A progress bar with its texts as sequences of characters.
pub struct BarView {
    pub style: BarStyle,
    pub length: u64,
    pub position: u64,
    pub prefix: Seq<char>,
    pub message: Seq<char>,
    pub finished: bool,
    pub lines: Seq<Seq<char>>,
}

impl View for BarState {
    type V = BarView;

    open spec fn view(&self) -> BarView {
        BarView {
            style: self.style,
            length: self.length,
            position: self.position,
            prefix: self.prefix@,
            message: self.message@,
            finished: self.finished,
            lines: self.lines.deep_view(),
        }
    }
}

/// A fresh bar of the given look and length.
pub open spec fn fresh_bar(style: BarStyle, length: u64) -> BarView {
    BarView {
        style,
        length,
        position: 0,
        prefix: Seq::empty(),
        message: Seq::empty(),
        finished: false,
        lines: Seq::empty(),
    }
}

/// The mark of a job that waits: one for jobs that repeat, one for the others.
pub open spec fn waiting_prefix(strategy: RepeatingStrategy) -> Seq<char> {
    if strategy.repeats() {
        "🔃"@
    } else {
        "⌛"@
    }
}

/// The part of a message that names the target: nothing for a job that
/// hides its path, else the path, and the pattern if there is one.
pub open spec fn target_text(visible: bool, path: Seq<char>, mask: Option<Seq<char>>) -> Seq<
    char,
> {
    if visible {
        match mask {
            Some(m) => " -> "@ + path + " ("@ + m + ")"@,
            None => " -> "@ + path,
        }
    } else {
        Seq::empty()
    }
}

/// The message of a job bound to a date: the day, the time, and the target.
pub open spec fn date_message_text(
    visible: bool,
    date: Civil,
    path: Seq<char>,
    mask: Option<Seq<char>>,
) -> Seq<char> {
    dot_date_text(date) + " "@ + time_text(date) + target_text(visible, path, mask)
}

/// The message of a job whose path does not exist.
pub open spec fn missing_text(path: Seq<char>) -> Seq<char> {
    "файл "@ + path + " не существует"@
}

/// The 32-bit length of a bar that counts `seconds`: the low 32 bits of the number.
pub open spec fn bar_length(seconds: int) -> u64 {
    (seconds % 0x1_0000_0000) as u64
}

/// The bar with which a job starts. A job whose path exists gets a clock
/// towards its date, else a counter of its interval, else no bar; a job whose
/// path is missing gets a stopped bar that says so.
pub open spec fn initial_bar(task: TaskView, exists: bool, now: Date) -> BarView {
    if exists {
        match task.date {
            Some(date) => BarView {
                prefix: waiting_prefix(task.repeat),
                message: date_message_text(task.visible, date@, task.path, task.mask),
                ..fresh_bar(
                    BarStyle::Clock,
                    bar_length(timestamp_of(date@) - timestamp_of(now@)),
                )
            },
            None => match task.interval {
                Some(minutes) => BarView {
                    prefix: waiting_prefix(task.repeat),
                    message: target_text(task.visible, task.path, task.mask),
                    ..fresh_bar(
                        if task.repeat == RepeatingStrategy::Once {
                            BarStyle::Single
                        } else {
                            BarStyle::Cycle
                        },
                        minutes as u64,
                    )
                },
                None => fresh_bar(BarStyle::Hidden, 0),
            },
        }
    } else {
        BarView {
            prefix: "❌"@,
            message: missing_text(task.path),
            finished: true,
            ..fresh_bar(BarStyle::Single, 0)
        }
    }
}

/// A bar that has stopped after success.
pub open spec fn finished_bar(bar: BarView) -> BarView {
    BarView { prefix: "✅"@, finished: true, ..bar }
}

/// A bar that has stopped after the failure that `complaint` describes.
pub open spec fn failed_bar(bar: BarView, complaint: Seq<char>) -> BarView {
    BarView { prefix: "❌"@, finished: true, lines: bar.lines.push(complaint), ..bar }
}

/// A bar set back to its start.
pub open spec fn reset_bar(bar: BarView) -> BarView {
    BarView { position: 0, finished: false, ..bar }
}

/// A bar moved to `current` of `len`.
pub open spec fn moved_bar(bar: BarView, current: u64, len: u64) -> BarView {
    BarView { length: len, position: current, ..bar }
}

/// The position of a clock of the given length when `remaining` seconds are
/// left: full at the date and after it, empty while more than its length is left.
pub open spec fn clock_position(length: u64, remaining: int) -> u64 {
    if remaining <= 0 {
        length
    } else if remaining >= length {
        0
    } else {
        (length - remaining) as u64
    }
}

/// The bar after a heartbeat at time `now`: the clock of a job bound to a
/// date shows the time left, the counter of a job bound to an interval has
/// moved by one, up to its length, and the bar of any other job is as before.
pub open spec fn ticked_bar(task: TaskView, bar: BarView, now: Date) -> BarView {
    match task.date {
        Some(date) => moved_bar(
            bar,
            clock_position(bar.length, timestamp_of(date@) - timestamp_of(now@)),
            bar.length,
        ),
        None => if task.interval is Some {
            moved_bar(
                bar,
                if bar.position < bar.length {
                    (bar.position + 1) as u64
                } else {
                    bar.length
                },
                bar.length,
            )
        } else {
            bar
        },
    }
}

/// The date `len` seconds after `date`, where the calendar has it.
pub open spec fn later_date(date: Civil, len: u64) -> Option<Civil> {
    if timestamp_of(date) + len <= MAX_TIMESTAMP {
        Some(crate::date::civil_at(timestamp_of(date) + len))
    } else {
        None
    }
}

/// The bar of a progress counter for a job bound to an interval.
pub fn progress_bar_for_interval(repeating: &RepeatingStrategy, len: u32) -> (bar: BarState)
    ensures
        bar@ == fresh_bar(
            if *repeating == RepeatingStrategy::Once {
                BarStyle::Single
            } else {
                BarStyle::Cycle
            },
            len as u64,
        ),
{
    let style: BarStyle = match repeating {
        RepeatingStrategy::Once => BarStyle::Single,
        _ => BarStyle::Cycle,
    };
    new_bar(style, len as u64)
}

/// The bar of a clock for a job bound to a date.
pub fn progress_bar_for_datetime(len: u32) -> (bar: BarState)
    ensures
        bar@ == fresh_bar(BarStyle::Clock, len as u64),
{
    new_bar(BarStyle::Clock, len as u64)
}

fn new_bar(style: BarStyle, length: u64) -> (bar: BarState)
    ensures
        bar@ == fresh_bar(style, length),
{
    let bar = BarState {
        style,
        length,
        position: 0,
        prefix: String::new(),
        message: String::new(),
        finished: false,
        lines: Vec::new(),
    };
    assert(bar.lines.deep_view() =~= Seq::<Seq<char>>::empty());
    bar
}

fn target_message(visible: bool, path: &str, mask: Option<&String>) -> (text: String)
    ensures
        text@ == target_text(
            visible,
            path@,
            match mask {
                Some(m) => Some(m@),
                None => None,
            },
        ),
{
    if visible {
        let mut text: String = String::from_str(" -> ");
        text.append(path);
        match mask {
            Some(m) => {
                text.append(" (");
                text.append(m.as_str());
                text.append(")");
            },
            None => {},
        }
        text
    } else {
        String::new()
    }
}

fn date_message(visible: bool, date: &Date, path: &str, mask: Option<&String>) -> (text: String)
    ensures
        text@ == date_message_text(
            visible,
            date@,
            path@,
            match mask {
                Some(m) => Some(m@),
                None => None,
            },
        ),
{
    let mut text: String = date.format(DateFormat::DotDate);
    text.append(" ");
    text.append(date.format(DateFormat::Time).as_str());
    text.append(target_message(visible, path, mask).as_str());
    text
}

fn waiting_mark(strategy: &RepeatingStrategy) -> (mark: String)
    ensures
        mark@ == waiting_prefix(*strategy),
{
    if TaskWithProgress::is_run_forever(strategy) {
        String::from_str("🔃")
    } else {
        String::from_str("⌛")
    }
}

/// Shows on `pb` the day and time of a job bound to a date, with the path
/// for a job that shows it, and marks the job as waiting.
pub fn set_date_message(pb: &mut BarState, visible: bool, date: &Date, path: &str)
    ensures
        final(pb)@ == (BarView {
            message: date_message_text(visible, date@, path@, None),
            prefix: "⌛"@,
            ..old(pb)@
        }),
{
    pb.message = date_message(visible, date, path, None);
    pb.prefix = String::from_str("⌛");
}

/// Shows on `pb` the path of a job bound to an interval, if the job shows
/// it, and marks the job as waiting.
pub fn set_interval_message(pb: &mut BarState, visible: bool, path: &str)
    ensures
        final(pb)@ == (BarView {
            message: target_text(visible, path@, None),
            prefix: "⌛"@,
            ..old(pb)@
        }),
{
    pb.message = target_message(visible, path, None);
    pb.prefix = String::from_str("⌛");
}

/// A job together with its progress bar.
#[derive(Clone, Debug)]
pub struct TaskWithProgress {
    task: Task,
    pb: BarState,
}

/// A job and its bar, with their texts as sequences of characters.
pub struct TaskWithProgressView {
    pub task: TaskView,
    pub pb: BarView,
}

/// A job at the start of a cycle: the bar is back at its start; for a job
/// bound to a date, the bar stands at `current` of `len`, and the date is
/// `len` seconds later and shown, where the calendar has such a date.
pub open spec fn cycled(entry: TaskWithProgressView, current: u64, len: u64)
    -> TaskWithProgressView {
    match entry.task.date {
        Some(date) => match later_date(date@, len) {
            Some(later) => TaskWithProgressView {
                task: TaskView { date: Some(Date::of(later)), ..entry.task },
                pb: BarView {
                    message: date_message_text(
                        entry.task.visible,
                        later,
                        entry.task.path,
                        entry.task.mask,
                    ),
                    prefix: waiting_prefix(entry.task.repeat),
                    ..moved_bar(reset_bar(entry.pb), current, len)
                },
            },
            None => TaskWithProgressView {
                pb: moved_bar(reset_bar(entry.pb), current, len),
                ..entry
            },
        },
        None => TaskWithProgressView { pb: reset_bar(entry.pb), ..entry },
    }
}

impl View for TaskWithProgress {
    type V = TaskWithProgressView;

    closed spec fn view(&self) -> TaskWithProgressView {
        TaskWithProgressView { task: self.task@, pb: self.pb@ }
    }
}

impl PartialEq for TaskWithProgress {
    /// Two entries are equal when they hold the same job.
    fn eq(&self, other: &Self) -> (same: bool) {
        self.task == other.task
    }
}

impl PartialEqSpecImpl for TaskWithProgress {
    open spec fn obeys_eq_spec() -> bool {
        true
    }

    open spec fn eq_spec(&self, other: &Self) -> bool {
        same_job(self@.task, other@.task)
    }
}

impl TaskWithProgress {
    /// A job with the bar it starts with; `exists` says whether its path
    /// exists, `now` is the current time.
    pub fn new(task: Task, exists: bool, now: &Date) -> (entry: TaskWithProgress)
        ensures
            entry@.task == task@,
            entry@.pb == initial_bar(task@, exists, *now),
    {
        let pb: BarState = if exists {
            match &task.date {
                Some(date) => {
                    let seconds: i64 = time_diff(now, date);
                    let length: i64 = (seconds + 0x100_0000_0000) % 0x1_0000_0000;
                    let mut pb: BarState = progress_bar_for_datetime(length as u32);
                    Self::set_date_message(
                        &mut pb,
                        task.visible,
                        date,
                        task.path.as_str(),
                        task.mask.as_ref(),
                        &task.repeat,
                    );
                    pb
                },
                None => match task.interval {
                    Some(minutes) => {
                        let mut pb: BarState = progress_bar_for_interval(&task.repeat, minutes);
                        Self::set_interval_message(
                            &mut pb,
                            task.visible,
                            task.path.as_str(),
                            task.mask.as_ref(),
                            &task.repeat,
                        );
                        pb
                    },
                    None => new_bar(BarStyle::Hidden, 0),
                },
            }
        } else {
            let mut pb: BarState = progress_bar_for_interval(&RepeatingStrategy::Once, 0);
            pb.prefix = String::from_str("❌");
            pb.message = enclose("файл ", task.path.as_str(), " не существует");
            pb.finished = true;
            pb
        };
        TaskWithProgress { task, pb }
    }

    /// The job.
    pub fn task(&self) -> (task: &Task)
        ensures
            task@ == self@.task,
    {
        &self.task
    }

    /// The progress bar of the job.
    pub fn bar(&self) -> (bar: &BarState)
        ensures
            bar@ == self@.pb,
    {
        &self.pb
    }

    /// The interval of the job in minutes, if it is bound to one.
    pub fn get_interval(&self) -> (interval: Option<u32>)
        ensures
            interval == self@.task.interval,
    {
        self.task.interval
    }

    /// The date of the job, if it is bound to one.
    pub fn get_date(&self) -> (date: Option<Date>)
        ensures
            date == self@.task.date,
    {
        self.task.date
    }

    /// The path of the job, as text.
    pub fn get_str_path(&self) -> (path: &str)
        ensures
            path@ == self@.task.path,
    {
        self.task.get_str_path()
    }

    /// The path of the job.
    pub fn get_path(&self) -> (path: &str)
        ensures
            path@ == self@.task.path,
    {
        self.task.get_path()
    }

    /// The repeat policy of the job.
    pub fn get_strategy(&self) -> (strategy: &RepeatingStrategy)
        ensures
            *strategy == self@.task.repeat,
    {
        &self.task.repeat
    }

    /// Puts `prefix` in front of the bar.
    pub fn set_prefix(&mut self, prefix: &str)
        ensures
            final(self)@ == (TaskWithProgressView {
                pb: BarView { prefix: prefix@, ..old(self)@.pb },
                ..old(self)@
            }),
    {
        self.pb.prefix = String::from_str(prefix);
    }

    /// Prints `message` as a line above the bar.
    pub fn print_line(&mut self, message: &str)
        ensures
            final(self)@ == (TaskWithProgressView {
                pb: BarView { lines: old(self)@.pb.lines.push(message@), ..old(self)@.pb },
                ..old(self)@
            }),
    {
        let ghost before = self.pb.lines.deep_view();
        self.pb.lines.push(String::from_str(message));
        assert(self.pb.lines.deep_view() =~= before.push(message@));
    }

    /// Stops the bar after success.
    pub fn finish(&mut self)
        ensures
            final(self)@ == (TaskWithProgressView {
                pb: finished_bar(old(self)@.pb),
                ..old(self)@
            }),
    {
        self.set_prefix("✅");
        self.pb.finished = true;
    }

    /// Stops the bar after a failure and prints the complaint above it.
    pub fn finish_with_err(&mut self, err: &str)
        ensures
            final(self)@ == (TaskWithProgressView {
                pb: failed_bar(old(self)@.pb, err@),
                ..old(self)@
            }),
    {
        self.set_prefix("❌");
        self.print_line(err);
        self.pb.finished = true;
    }

    /// Sets the bar back to its start.
    pub fn reset(&mut self)
        ensures
            final(self)@ == (TaskWithProgressView { pb: reset_bar(old(self)@.pb), ..old(self)@ }),
    {
        self.pb.position = 0;
        self.pb.finished = false;
    }

    /// Moves the bar of a job that is bound to a date or to an interval to
    /// `current` of `len`; the bar of any other job stays as it is.
    pub fn update_progress(&mut self, current: u64, len: u64)
        ensures
            final(self)@ == (TaskWithProgressView {
                pb: if old(self)@.task.date is Some || old(self)@.task.interval is Some {
                    moved_bar(old(self)@.pb, current, len)
                } else {
                    old(self)@.pb
                },
                ..old(self)@
            }),
    {
        if self.task.date.is_some() {
            self.pb.length = len;
            self.pb.position = current;
        } else if self.task.interval.is_some() {
            self.pb.length = len;
            self.pb.position = current;
        }
    }

    /// Moves the bar on a heartbeat at time `now`.
    pub fn advance(&mut self, now: &Date)
        ensures
            final(self)@ == (TaskWithProgressView {
                pb: ticked_bar(old(self)@.task, old(self)@.pb, *now),
                ..old(self)@
            }),
    {
        let length: u64 = self.pb.length;
        match self.task.date {
            Some(date) => {
                let remaining: i64 = time_diff(now, &date);
                let current: u64 = if remaining <= 0 {
                    length
                } else if remaining as u64 >= length {
                    0
                } else {
                    length - remaining as u64
                };
                self.update_progress(current, length);
            },
            None => {
                let current: u64 = if self.pb.position < length {
                    self.pb.position + 1
                } else {
                    length
                };
                self.update_progress(current, length);
            },
        }
    }

    /// Starts the next cycle of the job: sets the bar back to its start and,
    /// for a job bound to a date, moves the bar to `current` of `len`, puts
    /// the date `len` seconds later and shows it. Where the calendar has no
    /// such date, the date and the message stay.
    pub fn update_progress_with_cycle(&mut self, current: u64, len: u64)
        ensures
            final(self)@ == cycled(old(self)@, current, len),
    {
        self.reset();
        match self.task.date {
            Some(date) => {
                self.pb.length = len;
                self.pb.position = current;
                let start: i64 = date.timestamp();
                let later: Option<Date> = if len <= 0x7fff_ffff_ffff_ffff {
                    date.add_seconds(len as i64)
                } else {
                    None
                };
                assert(later is Some <==> later_date(date@, len) is Some);
                match later {
                    Some(new_date) => {
                        proof {
                            new_date.lemma_of_view();
                            crate::date::lemma_civil_at(date@, len as int, new_date@);
                        }
                        Self::set_date_message(
                            &mut self.pb,
                            self.task.visible,
                            &new_date,
                            self.task.path.as_str(),
                            self.task.mask.as_ref(),
                            &self.task.repeat,
                        );
                        self.task.date = Some(new_date);
                    },
                    None => {},
                }
            },
            None => {},
        }
    }

    /// Says what the host does next in removing the target of the job, given
    /// what its last step found.
    pub fn del_file(&self, progress: DeleteProgress) -> (step: DeleteStep)
        ensures
            step@ == step_after(self@.task.path, self@.task.mask, progress),
    {
        next_step(self.task.path.as_str(), self.task.mask.as_ref(), progress)
    }

    /// Shows on `pb` the day and time of a job bound to a date, with its
    /// target if the job shows it, and the mark of a job that waits.
    fn set_date_message(
        pb: &mut BarState,
        visible: bool,
        date: &Date,
        path: &str,
        mask: Option<&String>,
        strategy: &RepeatingStrategy,
    )
        ensures
            final(pb)@ == (BarView {
                message: date_message_text(
                    visible,
                    date@,
                    path@,
                    match mask {
                        Some(m) => Some(m@),
                        None => None,
                    },
                ),
                prefix: waiting_prefix(*strategy),
                ..old(pb)@
            }),
    {
        pb.message = date_message(visible, date, path, mask);
        pb.prefix = waiting_mark(strategy);
    }

    /// Shows on `pb` the target of a job bound to an interval, if the job
    /// shows it, and the mark of a job that waits.
    fn set_interval_message(
        pb: &mut BarState,
        visible: bool,
        path: &str,
        mask: Option<&String>,
        strategy: &RepeatingStrategy,
    )
        ensures
            final(pb)@ == (BarView {
                message: target_text(
                    visible,
                    path@,
                    match mask {
                        Some(m) => Some(m@),
                        None => None,
                    },
                ),
                prefix: waiting_prefix(*strategy),
                ..old(pb)@
            }),
    {
        pb.message = target_message(visible, path, mask);
        pb.prefix = waiting_mark(strategy);
    }

    /// Whether jobs with the given policy run again after a cycle.
    pub fn is_run_forever(strategy: &RepeatingStrategy) -> (forever: bool)
        ensures
            forever == strategy.repeats(),
    {
        match strategy {
            RepeatingStrategy::Forever | RepeatingStrategy::Daily | RepeatingStrategy::Monthly => true,
            RepeatingStrategy::Once => false,
        }
    }
}

} // verus!
