//! The jobs that the host shows, by identifier, and what becomes of them
//! when the scheduler reports an event.

use vstd::prelude::*;
use vstd::string::*;
use crate::date::{time_diff, timestamp_of, Date};
use crate::deletion::DeleteProgress;
use crate::progress::{
    cycled, failed_bar, finished_bar, ticked_bar, TaskWithProgress, TaskWithProgressView,
};
use crate::scheduler::SchedulerEvent;
use crate::task::TaskView;
use crate::text::{enclose, same_text};

verus! {

/// No text occurs twice.
pub open spec fn distinct(ids: Seq<Seq<char>>) -> bool {
    forall|i: int, j: int| 0 <= i < j < ids.len() ==> ids[i] != ids[j]
}

/// Whether `place` is the first place at which `id` stands among `ids`.
pub open spec fn is_place_of(ids: Seq<Seq<char>>, id: Seq<char>, place: int) -> bool {
    &&& 0 <= place < ids.len()
    &&& ids[place] == id
    &&& forall|j: int| 0 <= j < place ==> ids[j] != id
}

/// The first place at which `id` stands among `ids`, where it stands there.
pub open spec fn place_of(ids: Seq<Seq<char>>, id: Seq<char>) -> int {
    choose|place: int| is_place_of(ids, id, place)
}

/// A job under its identifier.
pub struct Entry {
    id: String,
    job: TaskWithProgress,
}

/// The jobs known to the host, each under its identifier, in the order in
/// which they were added. A map made by `new` and filled by `insert` holds
/// no identifier twice.
pub struct TaskMap {
    entries: Vec<Entry>,
}

/// What the host does after the map has taken note of an event.
#[derive(Clone, Copy, PartialEq, Eq, Structural, Debug)]
pub enum Reaction {
    /// The event names no known job: nothing.
    Unknown,
    /// Draw the bar of the job again.
    Redraw,
    /// Remove the target of the job, then draw its bar again. With
    /// `conclude` the outcome of the removal ends the job's bar.
    Remove { conclude: bool },
}

/// The identifier that an event carries.
pub open spec fn event_id(event: SchedulerEvent<String>) -> Seq<char> {
    match event {
        SchedulerEvent::Tick(id) => id@,
        SchedulerEvent::Finish(id) => id@,
        SchedulerEvent::FinishCycle(id, _) => id@,
        SchedulerEvent::Expired(id) => id@,
    }
}

/// The message for a job whose date had passed when it was armed.
pub open spec fn expired_text(path: Seq<char>) -> Seq<char> {
    "Время операции c `"@ + path + "` уже прошло"@
}

/// The number of seconds from the date of a job to its next target: the
/// length of the cycle that begins. Zero where either is missing, or where
/// the next target is not later.
pub open spec fn cycle_length(task: TaskView, next: Option<Date>) -> u64 {
    match (task.date, next) {
        (Some(date), Some(target)) => if timestamp_of(date@) < timestamp_of(target@) {
            (timestamp_of(target@) - timestamp_of(date@)) as u64
        } else {
            0
        },
        _ => 0,
    }
}

/// The job after the map has taken note of an event about it at time `now`.
pub open spec fn noted(
    entry: TaskWithProgressView,
    event: SchedulerEvent<String>,
    now: Date,
) -> TaskWithProgressView {
    match event {
        SchedulerEvent::Tick(_) => TaskWithProgressView {
            pb: ticked_bar(entry.task, entry.pb, now),
            ..entry
        },
        SchedulerEvent::Expired(_) => TaskWithProgressView {
            pb: failed_bar(entry.pb, expired_text(entry.task.path)),
            ..entry
        },
        SchedulerEvent::Finish(_) => entry,
        SchedulerEvent::FinishCycle(_, next) => cycled(entry, 0, cycle_length(entry.task, next)),
    }
}

/// What the host does after an event about a known job.
pub open spec fn reaction_to(event: SchedulerEvent<String>) -> Reaction {
    match event {
        SchedulerEvent::Tick(_) => Reaction::Redraw,
        SchedulerEvent::Expired(_) => Reaction::Redraw,
        SchedulerEvent::Finish(_) => Reaction::Remove { conclude: true },
        SchedulerEvent::FinishCycle(_, _) => Reaction::Remove { conclude: false },
    }
}

/// The job after its removal ended with `result`: stopped, after success or
/// after the failure that the message describes.
pub open spec fn concluded(
    entry: TaskWithProgressView,
    result: Result<(), Seq<char>>,
) -> TaskWithProgressView {
    match result {
        Ok(()) => TaskWithProgressView { pb: finished_bar(entry.pb), ..entry },
        Err(complaint) => TaskWithProgressView { pb: failed_bar(entry.pb, complaint), ..entry },
    }
}

impl TaskMap {
    /// The identifiers, in the order in which they were added.
    pub closed spec fn ids(&self) -> Seq<Seq<char>> {
        Seq::new(self.entries@.len(), |i: int| self.entries@[i].id@)
    }

    /// The jobs, each at the place of its identifier.
    pub closed spec fn entries(&self) -> Seq<TaskWithProgressView> {
        Seq::new(self.entries@.len(), |i: int| self.entries@[i].job@)
    }

    /// A map without jobs.
    pub fn new() -> (map: TaskMap)
        ensures
            map.ids() == Seq::<Seq<char>>::empty(),
            map.entries() == Seq::<TaskWithProgressView>::empty(),
    {
        let map = TaskMap { entries: Vec::new() };
        assert(map.ids() =~= Seq::<Seq<char>>::empty());
        assert(map.entries() =~= Seq::<TaskWithProgressView>::empty());
        map
    }

    /// The number of jobs.
    pub fn len(&self) -> (count: usize)
        ensures
            count == self.ids().len(),
            count == self.entries().len(),
    {
        self.entries.len()
    }

    /// The first place of the job with the given identifier, if it is known.
    pub fn position(&self, id: &str) -> (place: Option<usize>)
        ensures
            self.entries().len() == self.ids().len(),
            match place {
                Some(i) => is_place_of(self.ids(), id@, i as int) && place_of(self.ids(), id@)
                    == i,
                None => !self.ids().contains(id@),
            },
    {
        let count: usize = self.entries.len();
        let mut i: usize = 0;
        while i < count
            invariant
                i <= count,
                count == self.entries@.len(),
                forall|j: int| 0 <= j < i ==> self.ids()[j] != id@,
            decreases count - i,
        {
            if same_text(self.entries[i].id.as_str(), id) {
                assert(is_place_of(self.ids(), id@, i as int));
                let ghost found = place_of(self.ids(), id@);
                assert(is_place_of(self.ids(), id@, found));
                return Some(i);
            }
            i = i + 1;
        }
        None
    }

    /// Whether a job with the given identifier is known.
    pub fn contains_key(&self, id: &str) -> (known: bool)
        ensures
            known == self.ids().contains(id@),
    {
        self.position(id).is_some()
    }

    /// The job with the given identifier, if it is known.
    pub fn get(&self, id: &str) -> (entry: Option<&TaskWithProgress>)
        ensures
            entry is Some <==> self.ids().contains(id@),
            entry matches Some(found) ==> found@ == self.entries()[place_of(self.ids(), id@)],
    {
        match self.position(id) {
            Some(i) => Some(&self.entries[i].job),
            None => None,
        }
    }

    /// Adds a job under an identifier that is not known yet. Under a known
    /// identifier nothing is added: the result is `false` and the map is as
    /// before.
    pub fn insert(&mut self, id: String, entry: TaskWithProgress) -> (added: bool)
        ensures
            added == !old(self).ids().contains(id@),
            added ==> final(self).ids() == old(self).ids().push(id@) && final(self).entries()
                == old(self).entries().push(entry@),
            !added ==> final(self).ids() == old(self).ids() && final(self).entries() == old(
                self,
            ).entries(),
            distinct(old(self).ids()) ==> distinct(final(self).ids()),
    {
        if self.position(id.as_str()).is_some() {
            return false;
        }
        let ghost before_ids = self.ids();
        let ghost before_entries = self.entries();
        self.entries.push(Entry { id, job: entry });
        proof {
            assert(self.ids() =~= before_ids.push(id@));
            assert(self.entries() =~= before_entries.push(entry@));
            if distinct(before_ids) {
                assert forall|i: int, j: int| 0 <= i < j < self.ids().len() implies self.ids()[i]
                    != self.ids()[j] by {
                    if j == before_ids.len() {
                        assert(before_ids[i] != id@);
                    } else {
                        assert(before_ids[i] != before_ids[j]);
                    }
                }
            }
        }
        true
    }

    /// Takes note of an event at time `now`.
    fn note(&mut self, event: &SchedulerEvent<String>, now: &Date) -> (reaction: Reaction)
        ensures
            final(self).ids() == old(self).ids(),
            old(self).ids().contains(event_id(*event)) ==> {
                let place = place_of(old(self).ids(), event_id(*event));
                &&& reaction == reaction_to(*event)
                &&& final(self).entries() == old(self).entries().update(
                    place,
                    noted(old(self).entries()[place], *event, *now),
                )
            },
            !old(self).ids().contains(event_id(*event)) ==> reaction == Reaction::Unknown
                && final(self).entries() == old(self).entries(),
    {
        let id: &str = match event {
            SchedulerEvent::Tick(id) => id.as_str(),
            SchedulerEvent::Finish(id) => id.as_str(),
            SchedulerEvent::FinishCycle(id, _) => id.as_str(),
            SchedulerEvent::Expired(id) => id.as_str(),
        };
        let place: usize = match self.position(id) {
            Some(i) => i,
            None => {
                return Reaction::Unknown;
            },
        };
        let ghost before = self.entries();
        let ghost before_ids = self.ids();
        let reaction: Reaction = match event {
            SchedulerEvent::Tick(_) => {
                self.entries[place].job.advance(now);
                Reaction::Redraw
            },
            SchedulerEvent::Expired(_) => {
                let complaint: String = enclose(
                    "Время операции c `",
                    self.entries[place].job.get_str_path(),
                    "` уже прошло",
                );
                self.entries[place].job.finish_with_err(complaint.as_str());
                Reaction::Redraw
            },
            SchedulerEvent::Finish(_) => Reaction::Remove { conclude: true },
            SchedulerEvent::FinishCycle(_, next) => {
                let len: u64 = match (self.entries[place].job.get_date(), next) {
                    (Some(date), Some(target)) => {
                        let seconds: i64 = time_diff(&date, target);
                        if seconds > 0 {
                            seconds as u64
                        } else {
                            0
                        }
                    },
                    _ => 0,
                };
                self.entries[place].job.update_progress_with_cycle(0, len);
                Reaction::Remove { conclude: false }
            },
        };
        assert(self.ids() =~= before_ids);
        assert(self.entries() =~= before.update(
            place as int,
            noted(before[place as int], *event, *now),
        ));
        reaction
    }

    /// Ends the bar of a job after its removal: with success, or with the
    /// complaint that the removal gave. An unknown identifier changes nothing.
    pub fn conclude(&mut self, id: &str, result: Result<(), String>)
        ensures
            final(self).ids() == old(self).ids(),
            old(self).ids().contains(id@) ==> {
                let place = place_of(old(self).ids(), id@);
                final(self).entries() == old(self).entries().update(
                    place,
                    concluded(
                        old(self).entries()[place],
                        match result {
                            Ok(()) => Ok(()),
                            Err(complaint) => Err(complaint@),
                        },
                    ),
                )
            },
            !old(self).ids().contains(id@) ==> final(self).entries() == old(self).entries(),
    {
        let place: usize = match self.position(id) {
            Some(i) => i,
            None => {
                return ;
            },
        };
        let ghost before = self.entries();
        let ghost before_ids = self.ids();
        match result {
            Ok(()) => {
                self.entries[place].job.finish();
                assert(self.entries() =~= before.update(
                    place as int,
                    concluded(before[place as int], Ok(())),
                ));
            },
            Err(complaint) => {
                self.entries[place].job.finish_with_err(complaint.as_str());
                assert(self.entries() =~= before.update(
                    place as int,
                    concluded(before[place as int], Err(complaint@)),
                ));
            },
        }
        assert(self.ids() =~= before_ids);
    }

    /// Says what the host does next in removing the target of a known job,
    /// given what its last step found; `None` for an unknown identifier.
    pub fn removal_step(&self, id: &str, progress: DeleteProgress) -> (step: Option<
        crate::deletion::DeleteStep,
    >)
        ensures
            step is Some <==> self.ids().contains(id@),
            step matches Some(s) ==> {
                let entry = self.entries()[place_of(self.ids(), id@)];
                s@ == crate::deletion::step_after(entry.task.path, entry.task.mask, progress)
            },
    {
        match self.get(id) {
            Some(entry) => Some(entry.del_file(progress)),
            None => None,
        }
    }
}

/// The consumer of the events of the scheduler. It keeps the jobs that the
/// host shows.
pub struct Handler {
    /// The jobs, by identifier.
    pub tasks: TaskMap,
}

impl Handler {
    /// A consumer that keeps the given jobs.
    pub fn new(tasks: TaskMap) -> (handler: Handler)
        ensures
            handler.tasks == tasks,
    {
        Handler { tasks }
    }

    /// Takes note of an event at time `now`: moves the bar of the job on a
    /// heartbeat, stops it with a complaint when the job has expired, and
    /// starts the next cycle when one has ended. Says what the host does
    /// next: after `Finish` and `FinishCycle` it removes the target of the
    /// job, and after `Finish` it ends the bar with the outcome of the removal.
    pub fn tick(&mut self, event: &SchedulerEvent<String>, now: &Date) -> (reaction: Reaction)
        ensures
            final(self).tasks.ids() == old(self).tasks.ids(),
            old(self).tasks.ids().contains(event_id(*event)) ==> {
                let place = place_of(old(self).tasks.ids(), event_id(*event));
                &&& reaction == reaction_to(*event)
                &&& final(self).tasks.entries() == old(self).tasks.entries().update(
                    place,
                    noted(old(self).tasks.entries()[place], *event, *now),
                )
            },
            !old(self).tasks.ids().contains(event_id(*event)) ==> reaction == Reaction::Unknown
                && final(self).tasks.entries() == old(self).tasks.entries(),
    {
        self.tasks.note(event, now)
    }
}

} // verus!
