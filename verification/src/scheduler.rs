//! The recurring task scheduler: a store of armed tasks, the policy that
//! decides what each task does on an evaluation pass, and the pass itself.
//!
//! Once per fixed period the host calls [`Scheduler::tick`] with the current
//! time and delivers the events it returns. A pass evaluates every stored
//! task once, in the order of registration, and removes the tasks that
//! finished.
//!
//! Conventions: an interval of zero minutes is rejected at registration. An
//! interval task produces no event on pass 0, and `Tick` on every later pass
//! on which it is not due. A one-shot date task that was already due when it
//! was armed ends with `Expired` in place of `Finish`. A repeating date task
//! whose following date does not exist finishes with `FinishCycle(_, None)`.

use std::sync::Arc;
use vstd::prelude::*;
use crate::date::{next_day, next_month, timestamp_of, Civil, Date};
use crate::strategy::RepeatingStrategy;

verus! {

/// The time between two passes in seconds: intervals count minutes.
pub const PASS_PERIOD_SECONDS: u64 = 60;

/// The condition that arms a task.
#[derive(Clone, Copy, PartialEq, Eq, Structural, Debug)]
pub enum Trigger {
    /// Due on every pass whose number is a positive multiple of the minutes.
    Interval(u32),
    /// Due from the given moment on.
    AbsoluteDate(Date),
}

/// A scheduled task.
#[derive(Clone, Debug, PartialEq, Eq)]
pub struct TimerTask<P> {
    /// Data of the host, shared with the events about the task.
    pub payload: Arc<P>,
    /// When the task is due.
    pub trigger: Trigger,
    /// What happens once it is due.
    pub strategy: RepeatingStrategy,
    /// Set when the task has ended; a finished task is never evaluated again.
    pub finished: bool,
    /// Set at registration when the target date had already been reached.
    pub overdue: bool,
}

/// What the scheduler reports about a task.
#[derive(Clone, Debug, PartialEq, Eq)]
pub enum SchedulerEvent<P> {
    /// The task was evaluated and is not due yet.
    Tick(Arc<P>),
    /// A one-shot task became due and has ended.
    Finish(Arc<P>),
    /// A repeating task became due; the date, if any, is its next target.
    FinishCycle(Arc<P>, Option<Date>),
    /// A one-shot date task was armed after its date and has ended.
    Expired(Arc<P>),
}

/// The result of evaluating one task on one pass.
pub struct Evaluation<P> {
    /// The event to deliver, if any.
    pub event: Option<SchedulerEvent<P>>,
    /// The task after the pass.
    pub task: TimerTask<P>,
}

/// Whether a trigger fires on pass number `elapsed` at time `now`.
pub open spec fn is_due(trigger: Trigger, elapsed: int, now: Date) -> bool {
    match trigger {
        Trigger::Interval(minutes) => minutes > 0 && elapsed > 0 && elapsed % (minutes as int)
            == 0,
        Trigger::AbsoluteDate(target) => timestamp_of(target@) <= timestamp_of(now@),
    }
}

/// The target that follows `target` under a repeating policy: one calendar
/// month later for `Monthly`, one calendar day later otherwise.
pub open spec fn following_target(target: Civil, strategy: RepeatingStrategy) -> Option<Civil> {
    if strategy == RepeatingStrategy::Monthly {
        next_month(target)
    } else {
        next_day(target)
    }
}

/// The task that `add_interval_task` arms.
pub open spec fn interval_task<P>(
    payload: Arc<P>,
    interval_minutes: u32,
    strategy: RepeatingStrategy,
) -> TimerTask<P> {
    TimerTask {
        payload,
        trigger: Trigger::Interval(interval_minutes),
        strategy,
        finished: false,
        overdue: false,
    }
}

/// The task that `add_date_task` arms at time `now`.
pub open spec fn date_task<P>(
    payload: Arc<P>,
    target: Date,
    strategy: RepeatingStrategy,
    now: Date,
) -> TimerTask<P> {
    TimerTask {
        payload,
        trigger: Trigger::AbsoluteDate(target),
        strategy,
        finished: false,
        overdue: timestamp_of(target@) <= timestamp_of(now@),
    }
}

/// The trigger policy: the event that a task produces on pass number
/// `elapsed` at time `now`, and the task after it.
pub open spec fn evaluation<P>(task: TimerTask<P>, elapsed: int, now: Date) -> Evaluation<P> {
    if task.finished {
        Evaluation { event: None, task }
    } else if !is_due(task.trigger, elapsed, now) {
        if task.trigger is Interval && elapsed == 0 {
            Evaluation { event: None, task }
        } else {
            Evaluation { event: Some(SchedulerEvent::Tick(task.payload)), task }
        }
    } else if task.strategy == RepeatingStrategy::Once {
        let event = if task.overdue && task.trigger is AbsoluteDate {
            SchedulerEvent::Expired(task.payload)
        } else {
            SchedulerEvent::Finish(task.payload)
        };
        Evaluation { event: Some(event), task: TimerTask { finished: true, ..task } }
    } else {
        match task.trigger {
            Trigger::Interval(_) => Evaluation {
                event: Some(SchedulerEvent::FinishCycle(task.payload, None)),
                task,
            },
            Trigger::AbsoluteDate(target) => match following_target(target@, task.strategy) {
                Some(next) => Evaluation {
                    event: Some(SchedulerEvent::FinishCycle(task.payload, Some(Date::of(next)))),
                    task: TimerTask { trigger: Trigger::AbsoluteDate(Date::of(next)), ..task },
                },
                None => Evaluation {
                    event: Some(SchedulerEvent::FinishCycle(task.payload, None)),
                    task: TimerTask { finished: true, ..task },
                },
            },
        }
    }
}

/// The events of one pass over `tasks`, in the order of the tasks.
pub open spec fn pass_events<P>(tasks: Seq<TimerTask<P>>, elapsed: int, now: Date) -> Seq<
    SchedulerEvent<P>,
>
    decreases tasks.len(),
{
    if tasks.len() == 0 {
        Seq::empty()
    } else {
        let before = pass_events(tasks.drop_last(), elapsed, now);
        match evaluation(tasks.last(), elapsed, now).event {
            Some(event) => before.push(event),
            None => before,
        }
    }
}

/// The store after one pass over `tasks`: every task as the policy leaves
/// it, without those that are finished.
pub open spec fn pass_tasks<P>(tasks: Seq<TimerTask<P>>, elapsed: int, now: Date) -> Seq<
    TimerTask<P>,
>
    decreases tasks.len(),
{
    if tasks.len() == 0 {
        Seq::empty()
    } else {
        let before = pass_tasks(tasks.drop_last(), elapsed, now);
        let task = evaluation(tasks.last(), elapsed, now).task;
        if task.finished {
            before
        } else {
            before.push(task)
        }
    }
}

/// `Arc::clone`: a second handle to the same value.
#[verifier::external_body]
fn share<P>(payload: &Arc<P>) -> (shared: Arc<P>)
    ensures
        shared == *payload,
{
    Arc::clone(payload)
}

/// Applies the trigger policy to one task: updates the task in place and
/// returns the event to deliver, if any.
pub fn evaluate<P>(task: &mut TimerTask<P>, elapsed: u64, now: &Date) -> (event: Option<
    SchedulerEvent<P>,
>)
    ensures
        event == evaluation(*old(task), elapsed as int, *now).event,
        *final(task) == evaluation(*old(task), elapsed as int, *now).task,
{
    if task.finished {
        return None;
    }
    let due: bool = match task.trigger {
        Trigger::Interval(minutes) => minutes > 0 && elapsed > 0 && elapsed % (minutes as u64)
            == 0,
        Trigger::AbsoluteDate(target) => target.is_reached(now),
    };
    if !due {
        return match task.trigger {
            Trigger::Interval(_) => if elapsed == 0 {
                None
            } else {
                Some(SchedulerEvent::Tick(share(&task.payload)))
            },
            Trigger::AbsoluteDate(_) => Some(SchedulerEvent::Tick(share(&task.payload))),
        };
    }
    match task.strategy {
        RepeatingStrategy::Once => {
            task.finished = true;
            match task.trigger {
                Trigger::AbsoluteDate(_) => if task.overdue {
                    Some(SchedulerEvent::Expired(share(&task.payload)))
                } else {
                    Some(SchedulerEvent::Finish(share(&task.payload)))
                },
                Trigger::Interval(_) => Some(SchedulerEvent::Finish(share(&task.payload))),
            }
        },
        strategy => match task.trigger {
            Trigger::Interval(_) => Some(SchedulerEvent::FinishCycle(share(&task.payload), None)),
            Trigger::AbsoluteDate(target) => {
                let following: Option<Date> = match strategy {
                    RepeatingStrategy::Monthly => target.next_month(),
                    _ => target.next_day(),
                };
                match following {
                    Some(next) => {
                        proof {
                            next.lemma_of_view();
                        }
                        task.trigger = Trigger::AbsoluteDate(next);
                        Some(SchedulerEvent::FinishCycle(share(&task.payload), Some(next)))
                    },
                    None => {
                        task.finished = true;
                        Some(SchedulerEvent::FinishCycle(share(&task.payload), None))
                    },
                }
            },
        },
    }
}

/// The store of armed tasks together with the count of passes made.
pub struct Scheduler<P> {
    tasks: Vec<TimerTask<P>>,
    elapsed: u64,
}

impl<P> Scheduler<P> {
    /// The armed tasks, in the order of registration.
    pub closed spec fn tasks(&self) -> Seq<TimerTask<P>> {
        self.tasks@
    }

    /// The number of passes made so far.
    pub closed spec fn elapsed(&self) -> int {
        self.elapsed as int
    }

    /// A scheduler without tasks that has made no pass.
    pub fn new() -> (scheduler: Scheduler<P>)
        ensures
            scheduler.tasks() == Seq::<TimerTask<P>>::empty(),
            scheduler.elapsed() == 0,
    {
        Scheduler { tasks: Vec::new(), elapsed: 0 }
    }

    /// The number of armed tasks.
    pub fn len(&self) -> (count: usize)
        ensures
            count == self.tasks().len(),
    {
        self.tasks.len()
    }

    /// Whether no task is armed.
    pub fn is_empty(&self) -> (empty: bool)
        ensures
            empty == (self.tasks().len() == 0),
    {
        self.tasks.len() == 0
    }

    /// The number of passes made so far.
    pub fn elapsed_passes(&self) -> (passes: u64)
        ensures
            passes == self.elapsed(),
    {
        self.elapsed
    }

    /// Arms a task that is due whenever the pass number is a positive
    /// multiple of `interval_minutes`. An interval of zero is rejected: the
    /// result is `false` and the store is unchanged.
    pub fn add_interval_task(
        &mut self,
        payload: Arc<P>,
        interval_minutes: u32,
        strategy: RepeatingStrategy,
    ) -> (armed: bool)
        ensures
            armed == (interval_minutes > 0),
            armed ==> final(self).tasks() == old(self).tasks().push(
                interval_task(payload, interval_minutes, strategy),
            ),
            !armed ==> final(self).tasks() == old(self).tasks(),
            final(self).elapsed() == old(self).elapsed(),
    {
        if interval_minutes == 0 {
            return false;
        }
        self.tasks.push(
            TimerTask {
                payload,
                trigger: Trigger::Interval(interval_minutes),
                strategy,
                finished: false,
                overdue: false,
            },
        );
        true
    }

    /// Arms a task that is due from `target` on; `now` is the time of
    /// registration. A target that has already been reached is accepted: the
    /// task is due on its first evaluation.
    pub fn add_date_task(
        &mut self,
        payload: Arc<P>,
        target: Date,
        strategy: RepeatingStrategy,
        now: &Date,
    ) -> (armed: bool)
        ensures
            armed,
            final(self).tasks() == old(self).tasks().push(
                date_task(payload, target, strategy, *now),
            ),
            final(self).elapsed() == old(self).elapsed(),
    {
        let overdue: bool = target.is_reached(now);
        self.tasks.push(
            TimerTask {
                payload,
                trigger: Trigger::AbsoluteDate(target),
                strategy,
                finished: false,
                overdue,
            },
        );
        true
    }

    /// Makes one pass at time `now`: evaluates every task once, in the order
    /// of registration, removes the tasks that finished, and counts the pass.
    /// Returns the events to deliver, in the order of the tasks.
    pub fn tick(&mut self, now: &Date) -> (events: Vec<SchedulerEvent<P>>)
        requires
            old(self).elapsed() < u64::MAX,
        ensures
            events@ == pass_events(old(self).tasks(), old(self).elapsed(), *now),
            final(self).tasks() == pass_tasks(old(self).tasks(), old(self).elapsed(), *now),
            final(self).elapsed() == old(self).elapsed() + 1,
    {
        let mut events: Vec<SchedulerEvent<P>> = Vec::new();
        let mut kept: Vec<TimerTask<P>> = Vec::new();
        let count: usize = self.tasks.len();
        let mut i: usize = 0;
        while i < count
            invariant
                i <= count,
                count == self.tasks@.len(),
                self.tasks@ == old(self).tasks@,
                self.elapsed == old(self).elapsed,
                events@ == pass_events(self.tasks@.take(i as int), self.elapsed as int, *now),
                kept@ == pass_tasks(self.tasks@.take(i as int), self.elapsed as int, *now),
            decreases count - i,
        {
            let stored: &TimerTask<P> = &self.tasks[i];
            let mut task: TimerTask<P> = TimerTask {
                payload: share(&stored.payload),
                trigger: stored.trigger,
                strategy: stored.strategy,
                finished: stored.finished,
                overdue: stored.overdue,
            };
            assert(task == self.tasks@[i as int]);
            let event: Option<SchedulerEvent<P>> = evaluate(&mut task, self.elapsed, now);
            proof {
                let prefix = self.tasks@.take(i + 1);
                assert(prefix.drop_last() == self.tasks@.take(i as int));
                assert(prefix.last() == self.tasks@[i as int]);
            }
            match event {
                Some(e) => {
                    events.push(e);
                },
                None => {},
            }
            if !task.finished {
                kept.push(task);
            }
            i = i + 1;
        }
        assert(self.tasks@.take(count as int) == self.tasks@);
        self.tasks = kept;
        self.elapsed = self.elapsed + 1;
        events
    }
}

} // verus!
