//! The list of jobs of a configuration file, and how its jobs are armed.

use std::sync::Arc;
use vstd::prelude::*;
use vstd::string::*;
use crate::date::Date;
use crate::progress::{failed_bar, initial_bar, TaskWithProgress, TaskWithProgressView};
use crate::scheduler::{date_task, interval_task, Scheduler, TimerTask};
use crate::task::{blake3_hex, identity_bytes, Task, TaskView};
use crate::tasker::TaskMap;
use crate::text::enclose;

verus! {

/// The name of the configuration file.
pub const FILE_NAME: &'static str = "config.toml";

/// The jobs of a configuration file.
#[derive(Clone, Debug)]
pub struct Config {
    /// The jobs, in the order of the file.
    pub tasks: Vec<Task>,
}

/// What became of a job of a configuration.
#[derive(Clone, Debug)]
pub enum Registration {
    /// A job with the same identifier is known already: nothing was done.
    Known(TaskWithProgress),
    /// The path of the job does not exist: it was not armed.
    Missing(TaskWithProgress),
    /// The job names neither an interval nor a date: it was not armed.
    Unscheduled(TaskWithProgress),
    /// The scheduler refused the job: its bar has stopped with a complaint.
    Rejected(TaskWithProgress),
    /// The job is armed and stands in the map under this identifier.
    Armed(String),
}

/// The identifier of a job.
pub open spec fn job_id(task: TaskView) -> Seq<char> {
    blake3_hex(identity_bytes(task.path, task.mask))
}

/// A job with the bar it starts with.
pub open spec fn fresh_entry(task: TaskView, exists: bool, now: Date) -> TaskWithProgressView {
    TaskWithProgressView { task, pb: initial_bar(task, exists, now) }
}

/// The complaint about a job that the scheduler refused.
pub open spec fn rejected_text(path: Seq<char>) -> Seq<char> {
    "Ошибка добавления задачи "@ + path
}

/// Whether a job is armed: it is not known yet, its path exists, and it
/// names an interval of at least one minute or, without an interval, a date.
pub open spec fn is_armed(task: TaskView, exists: bool, known: bool) -> bool {
    !known && exists && match task.interval {
        Some(minutes) => minutes > 0,
        None => task.date is Some,
    }
}

/// Whether `outcome` is what becomes of `task`, whose path exists or not as
/// `exists` says, at time `now`, when its identifier is known or not as
/// `known` says.
pub open spec fn outcome_of(
    task: TaskView,
    exists: bool,
    known: bool,
    now: Date,
    outcome: Registration,
) -> bool {
    let fresh = fresh_entry(task, exists, now);
    if known {
        outcome matches Registration::Known(entry) && entry@ == fresh
    } else if !exists {
        outcome matches Registration::Missing(entry) && entry@ == fresh
    } else {
        match task.interval {
            Some(minutes) => if minutes > 0 {
                outcome matches Registration::Armed(id) && id@ == job_id(task)
            } else {
                outcome matches Registration::Rejected(entry) && entry@ == (TaskWithProgressView {
                    pb: failed_bar(fresh.pb, rejected_text(task.path)),
                    ..fresh
                })
            },
            None => if task.date is Some {
                outcome matches Registration::Armed(id) && id@ == job_id(task)
            } else {
                outcome matches Registration::Unscheduled(entry) && entry@ == fresh
            },
        }
    }
}

/// Whether `armed` is the scheduler task of the job `task` registered at
/// time `now`: it carries the job's identifier, and is bound to the job's
/// interval or, without an interval, to its date.
pub open spec fn arms(task: TaskView, now: Date, armed: TimerTask<String>) -> bool {
    &&& armed.payload@ == job_id(task)
    &&& match task.interval {
        Some(minutes) => armed == interval_task(armed.payload, minutes, task.repeat),
        None => task.date matches Some(date) && armed == date_task(
            armed.payload,
            date,
            task.repeat,
            now,
        ),
    }
}

/// Arms one job at time `now`; `exists` says whether its path exists. A job
/// that is armed is added to the map under its identifier and to the
/// scheduler; any other job leaves both as they are.
pub fn register(
    task: Task,
    exists: bool,
    tasks: &mut TaskMap,
    scheduler: &mut Scheduler<String>,
    now: &Date,
) -> (outcome: Registration)
    ensures
        outcome_of(task@, exists, old(tasks).ids().contains(job_id(task@)), *now, outcome),
        final(scheduler).elapsed() == old(scheduler).elapsed(),
        is_armed(task@, exists, old(tasks).ids().contains(job_id(task@))) ==> {
            &&& final(tasks).ids() == old(tasks).ids().push(job_id(task@))
            &&& final(tasks).entries() == old(tasks).entries().push(
                fresh_entry(task@, exists, *now),
            )
            &&& final(scheduler).tasks().len() == old(scheduler).tasks().len() + 1
            &&& final(scheduler).tasks().drop_last() == old(scheduler).tasks()
            &&& arms(task@, *now, final(scheduler).tasks().last())
        },
        !is_armed(task@, exists, old(tasks).ids().contains(job_id(task@))) ==> {
            &&& final(tasks).ids() == old(tasks).ids()
            &&& final(tasks).entries() == old(tasks).entries()
            &&& final(scheduler).tasks() == old(scheduler).tasks()
        },
{
    let id: String = task.get_hash();
    let repeating = task.repeat;
    let interval: Option<u32> = task.interval;
    let date: Option<Date> = task.date;
    let ghost job = task@;
    let mut entry: TaskWithProgress = TaskWithProgress::new(task, exists, now);
    if tasks.contains_key(id.as_str()) {
        return Registration::Known(entry);
    }
    if !exists {
        return Registration::Missing(entry);
    }
    match interval {
        Some(minutes) => {
            let payload: Arc<String> = Arc::new(id.clone());
            if scheduler.add_interval_task(payload, minutes, repeating) {
                tasks.insert(id.clone(), entry);
                assert(scheduler.tasks().drop_last() =~= old(scheduler).tasks());
                Registration::Armed(id)
            } else {
                let complaint: String = enclose(
                    "Ошибка добавления задачи ",
                    entry.get_str_path(),
                    "",
                );
                proof {
                    reveal_strlit("");
                    assert(complaint@ =~= rejected_text(job.path));
                }
                entry.finish_with_err(complaint.as_str());
                Registration::Rejected(entry)
            }
        },
        None => match date {
            Some(target) => {
                let payload: Arc<String> = Arc::new(id.clone());
                scheduler.add_date_task(payload, target, repeating, now);
                tasks.insert(id.clone(), entry);
                assert(scheduler.tasks().drop_last() =~= old(scheduler).tasks());
                Registration::Armed(id)
            },
            None => Registration::Unscheduled(entry),
        },
    }
}

/// The identifiers of the jobs that were armed, in order.
pub open spec fn armed_ids(outcomes: Seq<Registration>) -> Seq<Seq<char>>
    decreases outcomes.len(),
{
    if outcomes.len() == 0 {
        Seq::empty()
    } else {
        match outcomes.last() {
            Registration::Armed(id) => armed_ids(outcomes.drop_last()).push(id@),
            _ => armed_ids(outcomes.drop_last()),
        }
    }
}

/// The places of the jobs that were armed, in order.
pub open spec fn armed_places(outcomes: Seq<Registration>) -> Seq<int>
    decreases outcomes.len(),
{
    if outcomes.len() == 0 {
        Seq::empty()
    } else {
        match outcomes.last() {
            Registration::Armed(_) => armed_places(outcomes.drop_last()).push(
                outcomes.len() - 1,
            ),
            _ => armed_places(outcomes.drop_last()),
        }
    }
}

/// Whether, from place `start` on, `entries` holds the fresh entries of
/// the jobs at `places`, and `armed` holds their scheduler tasks.
pub open spec fn holds_armed(
    jobs: Seq<Task>,
    exists: Seq<bool>,
    now: Date,
    places: Seq<int>,
    entries: Seq<TaskWithProgressView>,
    entries_start: int,
    armed: Seq<TimerTask<String>>,
    armed_start: int,
) -> bool {
    &&& entries.len() == entries_start + places.len()
    &&& armed.len() == armed_start + places.len()
    &&& forall|k: int|
        0 <= k < places.len() ==> {
            &&& 0 <= #[trigger] places[k] < jobs.len()
            &&& entries[entries_start + k] == fresh_entry(jobs[places[k]]@, true, now)
            &&& exists_at(exists, places[k])
            &&& arms(jobs[places[k]]@, now, armed[armed_start + k])
        }
}

/// Whether the path of the job at place `i` exists, as far as `exists` says.
pub open spec fn exists_at(exists: Seq<bool>, i: int) -> bool {
    0 <= i < exists.len() && exists[i]
}

/// Whether the outcome at place `i` is what becomes of the job at that
/// place, when the identifiers in `known` and those of the jobs armed before
/// it are known.
pub open spec fn outcome_fits(
    jobs: Seq<Task>,
    exists: Seq<bool>,
    known: Seq<Seq<char>>,
    now: Date,
    outcomes: Seq<Registration>,
    i: int,
) -> bool {
    outcome_of(
        jobs[i]@,
        exists_at(exists, i),
        (known + armed_ids(outcomes.take(i))).contains(job_id(jobs[i]@)),
        now,
        outcomes[i],
    )
}

proof fn lemma_outcome_fits_push(
    jobs: Seq<Task>,
    exists: Seq<bool>,
    known: Seq<Seq<char>>,
    now: Date,
    outcomes: Seq<Registration>,
    extra: Registration,
    i: int,
)
    requires
        0 <= i < outcomes.len(),
        outcome_fits(jobs, exists, known, now, outcomes, i),
    ensures
        outcome_fits(jobs, exists, known, now, outcomes.push(extra), i),
{
    assert(outcomes.push(extra).take(i) == outcomes.take(i));
}

proof fn lemma_armed_ids_push(outcomes: Seq<Registration>, extra: Registration)
    ensures
        armed_ids(outcomes.push(extra)) == match extra {
            Registration::Armed(id) => armed_ids(outcomes).push(id@),
            _ => armed_ids(outcomes),
        },
        armed_places(outcomes.push(extra)) == match extra {
            Registration::Armed(_) => armed_places(outcomes).push(outcomes.len() as int),
            _ => armed_places(outcomes),
        },
{
    assert(outcomes.push(extra).drop_last() == outcomes);
}

proof fn lemma_holds_armed_push(
    jobs: Seq<Task>,
    exists: Seq<bool>,
    now: Date,
    places: Seq<int>,
    place: int,
    entries: Seq<TaskWithProgressView>,
    entries_start: int,
    armed: Seq<TimerTask<String>>,
    armed_start: int,
    task: TimerTask<String>,
)
    requires
        holds_armed(jobs, exists, now, places, entries, entries_start, armed, armed_start),
        0 <= place < jobs.len(),
        exists_at(exists, place),
        arms(jobs[place]@, now, task),
        0 <= entries_start,
        0 <= armed_start,
    ensures
        holds_armed(
            jobs,
            exists,
            now,
            places.push(place),
            entries.push(fresh_entry(jobs[place]@, true, now)),
            entries_start,
            armed.push(task),
            armed_start,
        ),
{
    let new_places = places.push(place);
    let new_entries = entries.push(fresh_entry(jobs[place]@, true, now));
    let new_armed = armed.push(task);
    assert forall|k: int| 0 <= k < new_places.len() implies {
        &&& 0 <= #[trigger] new_places[k] < jobs.len()
        &&& new_entries[entries_start + k] == fresh_entry(jobs[new_places[k]]@, true, now)
        &&& exists_at(exists, new_places[k])
        &&& arms(jobs[new_places[k]]@, now, new_armed[armed_start + k])
    } by {
        if k < places.len() {
            assert(new_places[k] == places[k]);
        }
    }
}

proof fn lemma_armed_outcome(
    task: TaskView,
    exists: bool,
    known: bool,
    now: Date,
    outcome: Registration,
)
    requires
        outcome_of(task, exists, known, now, outcome),
    ensures
        is_armed(task, exists, known) <==> outcome is Armed,
        outcome matches Registration::Armed(id) ==> id@ == job_id(task),
{
}

impl Config {
    /// Arms the jobs of the configuration in order, at time `now`. The path
    /// of the job at place `i` exists if `exists` says so at that place; a
    /// job for which it says nothing counts as missing. A job is skipped
    /// when its identifier is known, from before or from an earlier job of
    /// this configuration. Returns what became of each job.
    pub fn add_tasks(
        self,
        exists: &Vec<bool>,
        tasks: &mut TaskMap,
        scheduler: &mut Scheduler<String>,
        now: &Date,
    ) -> (outcomes: Vec<Registration>)
        ensures
            outcomes@.len() == self.tasks@.len(),
            forall|i: int|
                0 <= i < self.tasks@.len() ==> #[trigger] outcome_fits(
                    self.tasks@,
                    exists@,
                    old(tasks).ids(),
                    *now,
                    outcomes@,
                    i,
                ),
            final(tasks).ids() == old(tasks).ids() + armed_ids(outcomes@),
            final(tasks).entries().take(old(tasks).entries().len() as int) == old(
                tasks,
            ).entries(),
            final(scheduler).tasks().take(old(scheduler).tasks().len() as int) == old(
                scheduler,
            ).tasks(),
            holds_armed(
                self.tasks@,
                exists@,
                *now,
                armed_places(outcomes@),
                final(tasks).entries(),
                old(tasks).entries().len() as int,
                final(scheduler).tasks(),
                old(scheduler).tasks().len() as int,
            ),
            final(scheduler).elapsed() == old(scheduler).elapsed(),
    {
        let mut outcomes: Vec<Registration> = Vec::new();
        let count: usize = self.tasks.len();
        let mut i: usize = 0;
        proof {
            assert(old(tasks).ids() + armed_ids(outcomes@) =~= old(tasks).ids());
            assert(scheduler.tasks().take(old(scheduler).tasks().len() as int) =~= old(
                scheduler,
            ).tasks());
            assert(tasks.entries().take(old(tasks).entries().len() as int) =~= old(
                tasks,
            ).entries());
        }
        while i < count
            invariant
                i <= count,
                count == self.tasks@.len(),
                outcomes@.len() == i,
                forall|k: int|
                    0 <= k < i ==> #[trigger] outcome_fits(
                        self.tasks@,
                        exists@,
                        old(tasks).ids(),
                        *now,
                        outcomes@,
                        k,
                    ),
                tasks.ids() == old(tasks).ids() + armed_ids(outcomes@),
                tasks.entries().take(old(tasks).entries().len() as int) == old(
                    tasks,
                ).entries(),
                scheduler.tasks().take(old(scheduler).tasks().len() as int) == old(
                    scheduler,
                ).tasks(),
                holds_armed(
                    self.tasks@,
                    exists@,
                    *now,
                    armed_places(outcomes@),
                    tasks.entries(),
                    old(tasks).entries().len() as int,
                    scheduler.tasks(),
                    old(scheduler).tasks().len() as int,
                ),
                scheduler.elapsed() == old(scheduler).elapsed(),
            decreases count - i,
        {
            let present: bool = i < exists.len() && exists[i];
            let ghost ids_before = tasks.ids();
            let ghost entries_before = tasks.entries();
            let ghost armed_before = scheduler.tasks();
            let ghost outcomes_before = outcomes@;
            let ghost job = self.tasks@[i as int]@;
            let job_copy: Task = copy_of(&self.tasks[i]);
            let outcome: Registration = register(job_copy, present, tasks, scheduler, now);
            proof {
                lemma_armed_outcome(
                    job,
                    present,
                    ids_before.contains(job_id(job)),
                    *now,
                    outcome,
                );
                lemma_armed_ids_push(outcomes_before, outcome);
                assert forall|k: int| 0 <= k < i implies #[trigger] outcome_fits(
                    self.tasks@,
                    exists@,
                    old(tasks).ids(),
                    *now,
                    outcomes_before.push(outcome),
                    k,
                ) by {
                    lemma_outcome_fits_push(
                        self.tasks@,
                        exists@,
                        old(tasks).ids(),
                        *now,
                        outcomes_before,
                        outcome,
                        k,
                    );
                }
                assert(outcomes_before.push(outcome).take(i as int) == outcomes_before);
                assert(outcome_fits(
                    self.tasks@,
                    exists@,
                    old(tasks).ids(),
                    *now,
                    outcomes_before.push(outcome),
                    i as int,
                ));
                if outcome is Armed {
                    assert(tasks.ids() =~= old(tasks).ids() + armed_ids(
                        outcomes_before.push(outcome),
                    ));
                    assert(scheduler.tasks().take(old(scheduler).tasks().len() as int)
                        =~= armed_before.take(old(scheduler).tasks().len() as int));
                    assert(tasks.entries().take(old(tasks).entries().len() as int)
                        =~= entries_before.take(old(tasks).entries().len() as int));
                    assert(scheduler.tasks().drop_last() == armed_before);
                    lemma_holds_armed_push(
                        self.tasks@,
                        exists@,
                        *now,
                        armed_places(outcomes_before),
                        i as int,
                        entries_before,
                        old(tasks).entries().len() as int,
                        armed_before,
                        old(scheduler).tasks().len() as int,
                        scheduler.tasks().last(),
                    );
                }
            }
            outcomes.push(outcome);
            i = i + 1;
        }
        outcomes
    }
}

/// A copy of a job.
fn copy_of(task: &Task) -> (copy: Task)
    ensures
        copy@ == task@,
{
    Task {
        path: task.path.clone(),
        mask: match &task.mask {
            Some(m) => Some(m.clone()),
            None => None,
        },
        interval: task.interval,
        date: task.date,
        repeat: task.repeat,
        visible: task.visible,
    }
}

} // verus!
